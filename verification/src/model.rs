//! The data the components exchange: journal entries, error spikes, analysis
//! verdicts and API errors.
use vstd::prelude::*;

use crate::db::{DbRow, FromDbValue, extract};
use crate::ieee::{f64_bits_equal, f64_equal};

verus! {

/// Identifier of a stored journal entry.
pub type JournalEntryId = u64;

/// One systemd journal record. `date` is the Unix epoch time of the record,
/// a double held as its IEEE 754 bit pattern.
#[derive(Debug, Clone)]
pub struct JournalEntry {
    pub boot_id: String,
    pub hostname: String,
    pub machine_id: String,
    pub priority: String,
    pub message: String,
    pub date: u64,
    pub runtime_scope: String,
    pub pid: Option<String>,
    pub uid: Option<String>,
    pub gid: Option<String>,
    pub transport: Option<String>,
    pub syslog_facility: Option<String>,
    pub syslog_identifier: Option<String>,
    pub comm: Option<String>,
    pub exe: Option<String>,
    pub cmdline: Option<String>,
    pub unit: Option<String>,
    pub systemd_unit: Option<String>,
    pub systemd_slice: Option<String>,
    pub systemd_cgroup: Option<String>,
    pub code_line: Option<String>,
    pub code_file: Option<String>,
    pub job_id: Option<String>,
    pub job_result: Option<String>,
    pub job_type: Option<String>,
    pub invocation_id: Option<String>,
    pub source_monotonic_timestamp: Option<String>,
    pub source_boottime_timestamp: Option<String>,
}

/// An optional text by its characters.
pub open spec fn optional_view(o: Option<String>) -> Option<Seq<char>> {
    match o {
        Some(s) => Some(s@),
        None => None,
    }
}

/// Whether two optional texts are both absent or hold the same characters.
pub fn optional_text_equal(a: &Option<String>, b: &Option<String>) -> (r: bool)
    ensures
        r == (optional_view(*a) == optional_view(*b)),
{
    match (a, b) {
        (Some(x), Some(y)) => *x == *y,
        (None, None) => true,
        _ => false,
    }
}

impl JournalEntry {
    /// Two entries record the same event: same boot, host, machine, message,
    /// process and owner ids, and an equal date. Priority, scope and the other
    /// metadata are not compared.
    pub open spec fn same_event(&self, other: &JournalEntry) -> bool {
        &&& self.boot_id@ == other.boot_id@
        &&& self.hostname@ == other.hostname@
        &&& self.machine_id@ == other.machine_id@
        &&& self.message@ == other.message@
        &&& optional_view(self.pid) == optional_view(other.pid)
        &&& optional_view(self.uid) == optional_view(other.uid)
        &&& optional_view(self.gid) == optional_view(other.gid)
        &&& f64_equal(self.date, other.date)
    }
}

impl PartialEq for JournalEntry {
    fn eq(&self, other: &Self) -> (r: bool) {
        self.boot_id == other.boot_id && self.hostname == other.hostname && self.machine_id
            == other.machine_id && self.message == other.message && optional_text_equal(
            &self.pid,
            &other.pid,
        ) && optional_text_equal(&self.uid, &other.uid) && optional_text_equal(
            &self.gid,
            &other.gid,
        ) && f64_bits_equal(self.date, other.date)
    }
}

impl vstd::std_specs::cmp::PartialEqSpecImpl for JournalEntry {
    open spec fn obeys_eq_spec() -> bool {
        true
    }

    open spec fn eq_spec(&self, other: &JournalEntry) -> bool {
        self.same_event(other)
    }
}

impl Eq for JournalEntry {

}

/// The column order of an entry row: boot_id, hostname, machine_id, priority,
/// message, date, runtime_scope, then the optional fields in declaration order.
pub open spec fn entry_from_row(row: DbRow, date: u64, e: JournalEntry) -> bool {
    let v = row.values@;
    &&& String::converts_to(v[0], e.boot_id)
    &&& String::converts_to(v[1], e.hostname)
    &&& String::converts_to(v[2], e.machine_id)
    &&& String::converts_to(v[3], e.priority)
    &&& String::converts_to(v[4], e.message)
    &&& e.date == date
    &&& String::converts_to(v[6], e.runtime_scope)
    &&& Option::<String>::converts_to(v[7], e.pid)
    &&& Option::<String>::converts_to(v[8], e.uid)
    &&& Option::<String>::converts_to(v[9], e.gid)
    &&& Option::<String>::converts_to(v[10], e.transport)
    &&& Option::<String>::converts_to(v[11], e.syslog_facility)
    &&& Option::<String>::converts_to(v[12], e.syslog_identifier)
    &&& Option::<String>::converts_to(v[13], e.comm)
    &&& Option::<String>::converts_to(v[14], e.exe)
    &&& Option::<String>::converts_to(v[15], e.cmdline)
    &&& Option::<String>::converts_to(v[16], e.unit)
    &&& Option::<String>::converts_to(v[17], e.systemd_unit)
    &&& Option::<String>::converts_to(v[18], e.systemd_slice)
    &&& Option::<String>::converts_to(v[19], e.systemd_cgroup)
    &&& Option::<String>::converts_to(v[20], e.code_line)
    &&& Option::<String>::converts_to(v[21], e.code_file)
    &&& Option::<String>::converts_to(v[22], e.job_id)
    &&& Option::<String>::converts_to(v[23], e.job_result)
    &&& Option::<String>::converts_to(v[24], e.job_type)
    &&& Option::<String>::converts_to(v[25], e.invocation_id)
    &&& Option::<String>::converts_to(v[26], e.source_monotonic_timestamp)
    &&& Option::<String>::converts_to(v[27], e.source_boottime_timestamp)
}

impl JournalEntry {
    /// Builds an entry from a row of the entries query. The date column is a
    /// double; `date` is its bit pattern, which the caller reads from column 5
    /// (see `db::seconds_from_db_value`).
    pub fn from_row(row: &DbRow, date: u64) -> (r: JournalEntry)
        requires
            row.values@.len() >= 28,
        ensures
            entry_from_row(*row, date, r),
    {
        let v = &row.values;
        JournalEntry {
            boot_id: extract(&v[0]),
            hostname: extract(&v[1]),
            machine_id: extract(&v[2]),
            priority: extract(&v[3]),
            message: extract(&v[4]),
            date,
            runtime_scope: extract(&v[6]),
            pid: extract(&v[7]),
            uid: extract(&v[8]),
            gid: extract(&v[9]),
            transport: extract(&v[10]),
            syslog_facility: extract(&v[11]),
            syslog_identifier: extract(&v[12]),
            comm: extract(&v[13]),
            exe: extract(&v[14]),
            cmdline: extract(&v[15]),
            unit: extract(&v[16]),
            systemd_unit: extract(&v[17]),
            systemd_slice: extract(&v[18]),
            systemd_cgroup: extract(&v[19]),
            code_line: extract(&v[20]),
            code_file: extract(&v[21]),
            job_id: extract(&v[22]),
            job_result: extract(&v[23]),
            job_type: extract(&v[24]),
            invocation_id: extract(&v[25]),
            source_monotonic_timestamp: extract(&v[26]),
            source_boottime_timestamp: extract(&v[27]),
        }
    }
}

/// The error an endpoint answers with.
#[derive(Debug, Clone)]
pub enum APIError {
    InsertError(String),
    FetchError(String),
    LLMError(String),
    Other(String),
}

pub enum APIErrorView {
    InsertError(Seq<char>),
    FetchError(Seq<char>),
    LLMError(Seq<char>),
    Other(Seq<char>),
}

impl View for APIError {
    type V = APIErrorView;

    open spec fn view(&self) -> APIErrorView {
        match self {
            APIError::InsertError(m) => APIErrorView::InsertError(m@),
            APIError::FetchError(m) => APIErrorView::FetchError(m@),
            APIError::LLMError(m) => APIErrorView::LLMError(m@),
            APIError::Other(m) => APIErrorView::Other(m@),
        }
    }
}

/// An error of the collector, by the operation that failed.
#[derive(Debug, Clone)]
pub enum CollectorError {
    InsertError(String),
    FetchError(String),
}

/// The operation during which an error happened; it decides which
/// `APIError` variant reports it.
#[derive(Debug, Clone, Copy, PartialEq, Eq)]
pub enum APIErrorType {
    Insert,
    Fetch,
    LLM,
}

/// An error of the PostgreSQL client.
#[derive(Debug, Clone)]
pub enum DbError {
    ConnectionFailure(String),
    QueryParameterFailure(String),
    QueryExecutionFailure(String),
    QueryResponseFailure(String),
    Other(String),
}

/// An error of the LLM client, by the text its `Display` writes.
#[derive(Debug, Clone)]
pub struct LlmError {
    pub display: String,
}

/// The message that reports a database error.
pub open spec fn db_error_message(e: DbError) -> Seq<char> {
    match e {
        DbError::ConnectionFailure(m) => "Connection failure: "@ + m@,
        DbError::QueryExecutionFailure(m) => "Query execution failure: "@ + m@,
        DbError::QueryParameterFailure(m) => "Query parameter failure: "@ + m@,
        DbError::QueryResponseFailure(m) => "Query response failure: "@ + m@,
        DbError::Other(m) => m@,
    }
}

/// How a message is reported for an error type: inserts and fetches have
/// their own variant; anything else is `Other`.
pub open spec fn reported(t: APIErrorType, message: Seq<char>) -> APIErrorView {
    match t {
        APIErrorType::Insert => APIErrorView::InsertError(message),
        APIErrorType::Fetch => APIErrorView::FetchError(message),
        APIErrorType::LLM => APIErrorView::Other(message),
    }
}

fn prefixed(prefix: &str, message: &String) -> (r: String)
    ensures
        r@ == prefix@ + message@,
{
    let mut out = String::from_str(prefix);
    out.append(message.as_str());
    out
}

impl APIErrorType {
    /// Reports a database error.
    pub fn of_postgres(self, error: DbError) -> (r: APIError)
        ensures
            r@ == reported(self, db_error_message(error)),
    {
        let message = match &error {
            DbError::ConnectionFailure(e) => prefixed("Connection failure: ", e),
            DbError::QueryExecutionFailure(e) => prefixed("Query execution failure: ", e),
            DbError::QueryParameterFailure(e) => prefixed("Query parameter failure: ", e),
            DbError::QueryResponseFailure(e) => prefixed("Query response failure: ", e),
            DbError::Other(e) => e.clone(),
        };
        self.of_string(message)
    }

    /// Reports an LLM error: `LLMError` for the LLM type, `Other` otherwise.
    pub fn of_llm(self, error: LlmError) -> (r: APIError)
        ensures
            r@ == (match self {
                APIErrorType::LLM => APIErrorView::LLMError("LLM error: "@ + error.display@),
                _ => APIErrorView::Other("LLM error: "@ + error.display@),
            }),
    {
        let message = prefixed("LLM error: ", &error.display);
        match self {
            APIErrorType::LLM => APIError::LLMError(message),
            _ => APIError::Other(message),
        }
    }

    /// Reports a plain message.
    pub fn of_string(self, message: String) -> (r: APIError)
        ensures
            r@ == reported(self, message@),
    {
        match self {
            APIErrorType::Insert => APIError::InsertError(message),
            APIErrorType::Fetch => APIError::FetchError(message),
            _ => APIError::Other(message),
        }
    }
}

/// The language model to use, from `JOURNAI_LLM_MODEL`; an error when the
/// variable is unset.
pub fn llm_model(setting: Option<String>) -> (r: Result<String, APIError>)
    ensures
        match setting {
            Some(m) => r matches Ok(s) && s@ == m@,
            None => r matches Err(e) && e@ == reported(
                APIErrorType::LLM,
                "JOURNAI_LLM_MODEL env variable is not defined"@,
            ),
        },
{
    match setting {
        Some(m) => Ok(m),
        None => Err(
            APIErrorType::LLM.of_string(
                String::from_str("JOURNAI_LLM_MODEL env variable is not defined"),
            ),
        ),
    }
}

/// A burst of errors of one service on one host. `started_at` and `last_at`
/// are Unix epoch times, doubles held as their bit patterns.
#[derive(Debug, Clone)]
pub struct ServiceErrors {
    pub hostname: String,
    pub service_name: String,
    pub error_count: u64,
    pub min_priority: u8,
    pub started_at: u64,
    pub last_at: u64,
    pub entries: Vec<JournalEntryId>,
}

/// A row of the error spikes query, with the host it was asked for.
pub struct ServiceErrorsBuilder<'a> {
    pub hostname: String,
    pub row: &'a DbRow,
}

impl ServiceErrors {
    /// Builds a spike from a row of the error spikes query: service name,
    /// error count, lowest priority, first and last error, entry ids. The two
    /// times are doubles; `started_at` and `last_at` are their bit patterns,
    /// which the caller reads from columns 3 and 4.
    pub fn from_builder(builder: ServiceErrorsBuilder<'_>, started_at: u64, last_at: u64) -> (r:
        ServiceErrors)
        requires
            builder.row.values@.len() >= 6,
        ensures
            r.hostname == builder.hostname,
            String::converts_to(builder.row.values@[0], r.service_name),
            u64::converts_to(builder.row.values@[1], r.error_count),
            u8::converts_to(builder.row.values@[2], r.min_priority),
            r.started_at == started_at,
            r.last_at == last_at,
            Vec::<u64>::converts_to(builder.row.values@[5], r.entries),
    {
        let v = &builder.row.values;
        ServiceErrors {
            hostname: builder.hostname,
            service_name: extract(&v[0]),
            error_count: extract(&v[1]),
            min_priority: extract(&v[2]),
            started_at,
            last_at,
            entries: extract(&v[5]),
        }
    }
}

/// A spike without its entry ids, as the collector reports it.
#[derive(Debug, Clone)]
pub struct ServiceErrorsNoEntries {
    pub hostname: String,
    pub service_name: String,
    pub error_count: u64,
    pub started_at: u64,
    pub last_at: u64,
}

impl From<ServiceErrors> for ServiceErrorsNoEntries {
    fn from(value: ServiceErrors) -> (r: ServiceErrorsNoEntries) {
        ServiceErrorsNoEntries {
            hostname: value.hostname,
            service_name: value.service_name,
            error_count: value.error_count,
            started_at: value.started_at,
            last_at: value.last_at,
        }
    }
}

impl vstd::std_specs::convert::FromSpecImpl<ServiceErrors> for ServiceErrorsNoEntries {
    open spec fn obeys_from_spec() -> bool {
        true
    }

    open spec fn from_spec(value: ServiceErrors) -> ServiceErrorsNoEntries {
        ServiceErrorsNoEntries {
            hostname: value.hostname,
            service_name: value.service_name,
            error_count: value.error_count,
            started_at: value.started_at,
            last_at: value.last_at,
        }
    }
}

/// How critical an error spike is.
#[derive(Debug, Clone, Copy, PartialEq, Eq)]
pub enum SpikeEventSeverity {
    Low,
    Medium,
    High,
    Critical,
}

pub open spec fn severity_name(s: SpikeEventSeverity) -> Seq<char> {
    match s {
        SpikeEventSeverity::Low => "Low"@,
        SpikeEventSeverity::Medium => "Medium"@,
        SpikeEventSeverity::High => "High"@,
        SpikeEventSeverity::Critical => "Critical"@,
    }
}

impl SpikeEventSeverity {
    /// The severity's name, as the analyses table stores it.
    pub fn to_string(&self) -> (r: String)
        ensures
            r@ == severity_name(*self),
    {
        match self {
            SpikeEventSeverity::Low => String::from_str("Low"),
            SpikeEventSeverity::Medium => String::from_str("Medium"),
            SpikeEventSeverity::High => String::from_str("High"),
            SpikeEventSeverity::Critical => String::from_str("Critical"),
        }
    }
}

/// The verdict of the structured analysis of a spike.
#[derive(Debug, Clone, Copy, PartialEq, Eq)]
pub struct SpikeEventAssertion {
    pub severity: SpikeEventSeverity,
    pub needs_user_action: bool,
}

} // verus!
