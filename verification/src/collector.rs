//! The collector: which incoming entries are kept, how they are stored, and
//! the queries that read entries and error spikes back.
use vstd::prelude::*;

use crate::db::{DbRow, Seconds, SqlParam, SqlParamView, Statement, params_view, seconds_from_db_value, seconds_of};
use crate::model::{APIError, APIErrorView, JournalEntry, optional_view};
use crate::sql::{MAX_PARAMS, param_groups, param_groups_text, param_ref, push_param_ref};
use crate::text::{
    decimal_text, i64_text, is_blank, is_blank_text, joined, join_texts, parse_unsigned,
    parsed_unsigned, texts_view,
};

verus! {

/// Columns written per entry.
pub const INSERT_FIELD_COUNT: usize = 28;

/// Entries written per statement, so that a statement stays within `MAX_PARAMS`.
pub const INSERT_CHUNK_SIZE: usize = MAX_PARAMS / INSERT_FIELD_COUNT;

pub const BASE_INSERT_QUERY: &'static str = r#"INSERT INTO entries (
            boot_id, hostname, machine_id, priority, message, date, runtime_scope,
            pid, uid, gid, transport, syslog_facility, syslog_identifier,
            comm, exe, cmdline, unit, systemd_unit, systemd_slice, systemd_cgroup,
            code_line, code_file, job_id, job_result, job_type, invocation_id,
            source_monotonic_timestamp, source_boottime_timestamp
        )"#;

pub const BASE_FETCH_QUERY: &'static str = r#"SELECT boot_id, hostname, machine_id, priority, message, date, runtime_scope,
    pid, uid, gid, transport, syslog_facility, syslog_identifier,
    comm, exe, cmdline, unit, systemd_unit, systemd_slice, systemd_cgroup,
    code_line, code_file, job_id, job_result, job_type, invocation_id,
    source_monotonic_timestamp, source_boottime_timestamp FROM entries WHERE hostname = $1"#;

pub const FETCH_ERROR_SPIKES_QUERY: &'static str = r#"SELECT
    COALESCE(unit, syslog_identifier, comm) AS service_name,
    COUNT(*) AS error_count,
    MIN(priority) AS min_priority,
    MIN(date) AS first_error,
    MAX(date) AS last_error,
    ARRAY_AGG(id ORDER BY date DESC) AS entry_ids
FROM entries
WHERE
    hostname = $1
  AND date >= $2
  AND priority <= 3
  AND COALESCE(unit, syslog_identifier, comm) IS NOT NULL
GROUP BY service_name
HAVING COUNT(*) > 5
ORDER BY error_count DESC;"#;

pub const FETCH_LAST_ANALYSIS_TIMESTAMP_QUERY: &'static str =
    "SELECT DATE_PART('epoch', MAX(analysed_at)) FROM analyses WHERE hostname = $1";

// ---------------------------------------------------------------------------
// Accepting entries
// ---------------------------------------------------------------------------

/// A syslog priority: a decimal number from 0 (emergency) to 7 (debug).
pub open spec fn valid_priority(p: Seq<char>) -> bool {
    match parsed_unsigned(p, 255) {
        Some(v) => v <= 7,
        None => false,
    }
}

/// An entry is accepted for `hostname` when it comes from that host, has a
/// valid priority and a message that is not blank.
pub open spec fn accepted(hostname: Seq<char>, e: JournalEntry) -> bool {
    &&& e.hostname@ == hostname
    &&& valid_priority(e.priority@)
    &&& !is_blank(e.message@)
}

/// Whether `entry`, sent for `hostname`, is accepted.
pub fn matches_filters(hostname: &str, entry: &JournalEntry) -> (r: bool)
    ensures
        r == accepted(hostname@, *entry),
{
    let host = String::from_str(hostname);
    if !(entry.hostname == host) {
        return false;
    }
    let priority_ok = match parse_unsigned(entry.priority.as_str(), 255) {
        Some(p) => p <= 7,
        None => false,
    };
    priority_ok && !is_blank_text(entry.message.as_str())
}

/// The entries of `s` that are accepted for `hostname`, in their order.
pub open spec fn accepted_of(hostname: Seq<char>, s: Seq<JournalEntry>) -> Seq<JournalEntry>
    decreases s.len(),
{
    if s.len() == 0 {
        Seq::empty()
    } else if accepted(hostname, s.last()) {
        accepted_of(hostname, s.drop_last()).push(s.last())
    } else {
        accepted_of(hostname, s.drop_last())
    }
}

/// The entries of `s` that are rejected for `hostname`, in their order.
pub open spec fn rejected_of(hostname: Seq<char>, s: Seq<JournalEntry>) -> Seq<JournalEntry>
    decreases s.len(),
{
    if s.len() == 0 {
        Seq::empty()
    } else if !accepted(hostname, s.last()) {
        rejected_of(hostname, s.drop_last()).push(s.last())
    } else {
        rejected_of(hostname, s.drop_last())
    }
}

/// Splits the entries sent for `hostname` into the accepted and the
/// rejected ones, each in the order they came in.
pub fn partition_entries(hostname: &str, entries: Vec<JournalEntry>) -> (r: (
    Vec<JournalEntry>,
    Vec<JournalEntry>,
))
    ensures
        r.0@ == accepted_of(hostname@, entries@),
        r.1@ == rejected_of(hostname@, entries@),
{
    let ghost all = entries@;
    let n = entries.len();
    let mut rest = entries;
    let mut reversed: Vec<JournalEntry> = Vec::new();
    while rest.len() > 0
        invariant
            rest@.len() + reversed@.len() == n,
            n == all.len(),
            rest@ == all.take(rest@.len() as int),
            forall|k: int|
                0 <= k < reversed@.len() ==> #[trigger] reversed@[k] == all[n - 1 - k],
        decreases rest@.len(),
    {
        let e = rest.pop().unwrap();
        reversed.push(e);
        assert(rest@ =~= all.take(rest@.len() as int));
    }
    let mut accepted_entries: Vec<JournalEntry> = Vec::new();
    let mut rejected_entries: Vec<JournalEntry> = Vec::new();
    while reversed.len() > 0
        invariant
            n == all.len(),
            reversed@.len() <= n,
            forall|k: int|
                0 <= k < reversed@.len() ==> #[trigger] reversed@[k] == all[n - 1 - k],
            accepted_entries@ == accepted_of(hostname@, all.take(n - reversed@.len())),
            rejected_entries@ == rejected_of(hostname@, all.take(n - reversed@.len())),
        decreases reversed@.len(),
    {
        let ghost done = n - reversed@.len();
        let e = reversed.pop().unwrap();
        assert(e == all[done]);
        assert(all.take(done + 1).drop_last() =~= all.take(done));
        if matches_filters(hostname, &e) {
            accepted_entries.push(e);
        } else {
            rejected_entries.push(e);
        }
    }
    assert(all.take(n as int) =~= all);
    (accepted_entries, rejected_entries)
}

/// What the collector answers after storing entries.
#[derive(Debug, Clone)]
pub struct CollectResponse {
    pub success: bool,
    pub message: String,
}

/// The answer for `accepted_count` accepted entries.
pub fn collect_response(accepted_count: u64) -> (r: CollectResponse)
    ensures
        r.success,
        r.message@ == "Collected "@ + decimal_text(accepted_count as int) + " entries"@,
{
    let mut message = String::from_str("Collected ");
    let count = crate::text::u64_text(accepted_count);
    message.append(count.as_str());
    message.append(" entries");
    CollectResponse { success: true, message }
}

// ---------------------------------------------------------------------------
// Storing entries
// ---------------------------------------------------------------------------

pub open spec fn optional_param_view(o: Option<String>) -> SqlParamView {
    match optional_view(o) {
        Some(s) => SqlParamView::Text(s),
        None => SqlParamView::Null,
    }
}

/// The priority as stored: its number, or 0 when it does not parse.
pub open spec fn stored_priority(p: Seq<char>) -> i16 {
    match parsed_unsigned(p, 255) {
        Some(v) => v as i16,
        None => 0,
    }
}

/// The 28 parameters that store one entry, in column order.
pub open spec fn entry_params(e: JournalEntry) -> Seq<SqlParamView> {
    seq![
        SqlParamView::Text(e.boot_id@),
        SqlParamView::Text(e.hostname@),
        SqlParamView::Text(e.machine_id@),
        SqlParamView::Int2(stored_priority(e.priority@)),
        SqlParamView::Text(e.message@),
        SqlParamView::Float8(e.date),
        SqlParamView::Text(e.runtime_scope@),
        optional_param_view(e.pid),
        optional_param_view(e.uid),
        optional_param_view(e.gid),
        optional_param_view(e.transport),
        optional_param_view(e.syslog_facility),
        optional_param_view(e.syslog_identifier),
        optional_param_view(e.comm),
        optional_param_view(e.exe),
        optional_param_view(e.cmdline),
        optional_param_view(e.unit),
        optional_param_view(e.systemd_unit),
        optional_param_view(e.systemd_slice),
        optional_param_view(e.systemd_cgroup),
        optional_param_view(e.code_line),
        optional_param_view(e.code_file),
        optional_param_view(e.job_id),
        optional_param_view(e.job_result),
        optional_param_view(e.job_type),
        optional_param_view(e.invocation_id),
        optional_param_view(e.source_monotonic_timestamp),
        optional_param_view(e.source_boottime_timestamp),
    ]
}

/// The parameters of the entries of `s`, one entry after the other.
pub open spec fn entries_params(s: Seq<JournalEntry>) -> Seq<SqlParamView>
    decreases s.len(),
{
    if s.len() == 0 {
        Seq::empty()
    } else {
        entries_params(s.drop_last()) + entry_params(s.last())
    }
}

/// The statement that stores `rows` entries; rows already stored are skipped.
pub open spec fn insert_sql(rows: nat) -> Seq<char> {
    BASE_INSERT_QUERY@ + " VALUES "@ + param_groups(rows, INSERT_FIELD_COUNT as nat)
        + " ON CONFLICT DO NOTHING"@
}

/// The `k`-th chunk of entries: at most `INSERT_CHUNK_SIZE` of them.
pub open spec fn insert_chunk(s: Seq<JournalEntry>, k: int) -> Seq<JournalEntry> {
    let start = k * INSERT_CHUNK_SIZE;
    let end = if start + INSERT_CHUNK_SIZE < s.len() {
        start + INSERT_CHUNK_SIZE
    } else {
        s.len() as int
    };
    s.subrange(start, end)
}

/// The number of chunks `n` entries are stored in.
pub open spec fn chunk_count(n: nat, size: nat) -> nat {
    if size == 0 {
        0
    } else {
        ((n + size - 1) as nat) / size
    }
}

fn optional_param(o: &Option<String>) -> (r: SqlParam)
    ensures
        crate::db::param_view(r) == optional_param_view(*o),
{
    match o {
        Some(v) => SqlParam::Text(v.clone()),
        None => SqlParam::Null,
    }
}

fn push_entry_params(params: &mut Vec<SqlParam>, e: &JournalEntry)
    ensures
        params_view(final(params)@) == params_view(old(params)@) + entry_params(*e),
{
    let ghost start = params@;
    let priority: i16 = match parse_unsigned(e.priority.as_str(), 255) {
        Some(p) => p as i16,
        None => 0,
    };
    params.push(SqlParam::Text(e.boot_id.clone()));
    params.push(SqlParam::Text(e.hostname.clone()));
    params.push(SqlParam::Text(e.machine_id.clone()));
    params.push(SqlParam::Int2(priority));
    params.push(SqlParam::Text(e.message.clone()));
    params.push(SqlParam::Float8(e.date));
    params.push(SqlParam::Text(e.runtime_scope.clone()));
    params.push(optional_param(&e.pid));
    params.push(optional_param(&e.uid));
    params.push(optional_param(&e.gid));
    params.push(optional_param(&e.transport));
    params.push(optional_param(&e.syslog_facility));
    params.push(optional_param(&e.syslog_identifier));
    params.push(optional_param(&e.comm));
    params.push(optional_param(&e.exe));
    params.push(optional_param(&e.cmdline));
    params.push(optional_param(&e.unit));
    params.push(optional_param(&e.systemd_unit));
    params.push(optional_param(&e.systemd_slice));
    params.push(optional_param(&e.systemd_cgroup));
    params.push(optional_param(&e.code_line));
    params.push(optional_param(&e.code_file));
    params.push(optional_param(&e.job_id));
    params.push(optional_param(&e.job_result));
    params.push(optional_param(&e.job_type));
    params.push(optional_param(&e.invocation_id));
    params.push(optional_param(&e.source_monotonic_timestamp));
    params.push(optional_param(&e.source_boottime_timestamp));
    assert(params_view(params@) =~= params_view(start) + entry_params(*e));
}

/// The statement that stores the entries `entries[start..end]`.
fn insert_statement(entries: &Vec<JournalEntry>, start: usize, end: usize) -> (r: Statement)
    requires
        start < end <= entries@.len(),
        end - start <= INSERT_CHUNK_SIZE,
    ensures
        r.sql@ == insert_sql((end - start) as nat),
        params_view(r.params@) == entries_params(entries@.subrange(start as int, end as int)),
{
    let mut params: Vec<SqlParam> = Vec::new();
    let mut i = start;
    while i < end
        invariant
            start <= i <= end <= entries@.len(),
            params_view(params@) == entries_params(entries@.subrange(start as int, i as int)),
        decreases end - i,
    {
        push_entry_params(&mut params, &entries[i]);
        proof {
            let next = entries@.subrange(start as int, i + 1);
            assert(next.drop_last() =~= entries@.subrange(start as int, i as int));
            assert(next.last() == entries@[i as int]);
        }
        i = i + 1;
    }
    let rows = (end - start) as u64;
    let mut sql = String::from_str(BASE_INSERT_QUERY);
    sql.append(" VALUES ");
    let groups = param_groups_text(rows, INSERT_FIELD_COUNT as u64);
    sql.append(groups.as_str());
    sql.append(" ON CONFLICT DO NOTHING");
    Statement { sql, params }
}

/// The statements that store `entries`: one per chunk of at most
/// `INSERT_CHUNK_SIZE` entries, in order; none for no entries.
pub fn insert_entries_statements(entries: &Vec<JournalEntry>) -> (r: Vec<Statement>)
    ensures
        r@.len() == chunk_count(entries@.len(), INSERT_CHUNK_SIZE as nat),
        forall|k: int|
            0 <= k < r@.len() ==> {
                &&& (#[trigger] r@[k]).sql@ == insert_sql(insert_chunk(entries@, k).len())
                &&& params_view(r@[k].params@) == entries_params(insert_chunk(entries@, k))
            },
{
    let n = entries.len();
    let mut out: Vec<Statement> = Vec::new();
    let mut start: usize = 0;
    while start < n
        invariant
            n == entries@.len(),
            start <= n,
            start == out@.len() * INSERT_CHUNK_SIZE || start == n,
            start < n ==> start == out@.len() * INSERT_CHUNK_SIZE,
            out@.len() == chunk_count(start as nat, INSERT_CHUNK_SIZE as nat),
            forall|k: int|
                0 <= k < out@.len() ==> {
                    &&& (#[trigger] out@[k]).sql@ == insert_sql(insert_chunk(entries@, k).len())
                    &&& params_view(out@[k].params@) == entries_params(insert_chunk(entries@, k))
                },
        decreases n - start,
    {
        let end = if n - start > INSERT_CHUNK_SIZE {
            start + INSERT_CHUNK_SIZE
        } else {
            n
        };
        let statement = insert_statement(entries, start, end);
        proof {
            let k = out@.len() as int;
            assert(insert_chunk(entries@, k) =~= entries@.subrange(start as int, end as int));
        }
        out.push(statement);
        proof {
            assert(chunk_count(end as nat, INSERT_CHUNK_SIZE as nat) == out@.len()) by {
                if end < n {
                    assert(end == out@.len() * INSERT_CHUNK_SIZE);
                } else {
                    assert((start + INSERT_CHUNK_SIZE - 1) / (INSERT_CHUNK_SIZE as int) == (out@.len() - 1)
                        + 0) by (nonlinear_arith)
                        requires
                            start == (out@.len() - 1) * INSERT_CHUNK_SIZE,
                            INSERT_CHUNK_SIZE == 2340,
                    ;
                }
            }
        }
        start = end;
    }
    out
}

// ---------------------------------------------------------------------------
// Reading entries
// ---------------------------------------------------------------------------

/// The filter conditions of the entries query, numbered from `$2` in the
/// order since, priority, message.
pub open spec fn entry_conditions(has_since: bool, has_priority: bool, has_contains: bool) -> Seq<
    Seq<char>,
> {
    let since = if has_since {
        seq!["date >= "@ + param_ref(2)]
    } else {
        Seq::empty()
    };
    let n1 = 2 + since.len();
    let priority = if has_priority {
        seq!["priority <= "@ + param_ref(n1 as nat)]
    } else {
        Seq::empty()
    };
    let n2 = n1 + priority.len();
    let contains = if has_contains {
        seq!["message ILIKE "@ + param_ref(n2 as nat)]
    } else {
        Seq::empty()
    };
    since + priority + contains
}

/// The SQL of the entries query for the given filters.
pub open spec fn entries_sql(has_since: bool, has_priority: bool, has_contains: bool) -> Seq<char> {
    let conditions = entry_conditions(has_since, has_priority, has_contains);
    if conditions.len() == 0 {
        BASE_FETCH_QUERY@
    } else {
        BASE_FETCH_QUERY@ + " AND "@ + joined(conditions, " AND "@)
    }
}

/// The parameters of the entries query: the host, then each filter given,
/// the message filter wrapped in `%` so that it matches anywhere.
pub open spec fn entries_params_of(
    hostname: Seq<char>,
    since: Option<u64>,
    priority: Option<u8>,
    contains: Option<Seq<char>>,
) -> Seq<SqlParamView> {
    seq![SqlParamView::Text(hostname)] + match since {
        Some(s) => seq![SqlParamView::Float8(s)],
        None => Seq::empty(),
    } + match priority {
        Some(p) => seq![SqlParamView::Int2(p as i16)],
        None => Seq::empty(),
    } + match contains {
        Some(c) => seq![SqlParamView::Text("%"@ + c + "%"@)],
        None => Seq::empty(),
    }
}

fn condition(prefix: &str, n: u64) -> (r: String)
    ensures
        r@ == prefix@ + param_ref(n as nat),
{
    let mut c = String::from_str(prefix);
    push_param_ref(&mut c, n);
    c
}

/// The query for the entries of `hostname`, filtered by a start time
/// (`since`, a double by its bits), a highest priority and a text the
/// message contains (ignoring case).
pub fn entries_query(
    hostname: String,
    since: Option<u64>,
    priority: Option<u8>,
    message_contains: Option<String>,
) -> (r: Statement)
    ensures
        r.sql@ == entries_sql(since is Some, priority is Some, message_contains is Some),
        params_view(r.params@) == entries_params_of(
            hostname@,
            since,
            priority,
            optional_view(message_contains),
        ),
{
    let ghost host = hostname@;
    let ghost contains_view = optional_view(message_contains);
    let mut conditions: Vec<String> = Vec::new();
    let mut params: Vec<SqlParam> = Vec::new();
    params.push(SqlParam::Text(hostname));
    if let Some(s) = since {
        conditions.push(condition("date >= ", (params.len() + 1) as u64));
        params.push(SqlParam::Float8(s));
    }
    if let Some(p) = priority {
        conditions.push(condition("priority <= ", (params.len() + 1) as u64));
        params.push(SqlParam::Int2(p as i16));
    }
    if let Some(c) = message_contains {
        conditions.push(condition("message ILIKE ", (params.len() + 1) as u64));
        let mut pattern = String::from_str("%");
        pattern.append(c.as_str());
        pattern.append("%");
        params.push(SqlParam::Text(pattern));
    }
    assert(texts_view(conditions@) =~= entry_conditions(
        since is Some,
        priority is Some,
        contains_view is Some,
    ));
    assert(params_view(params@) =~= entries_params_of(host, since, priority, contains_view));
    let sql = if conditions.len() == 0 {
        String::from_str(BASE_FETCH_QUERY)
    } else {
        let mut sql = String::from_str(BASE_FETCH_QUERY);
        sql.append(" AND ");
        let joined_conditions = join_texts(&conditions, " AND ");
        sql.append(joined_conditions.as_str());
        sql
    };
    Statement { sql, params }
}

/// The priority filter of the entries endpoint: a negative one means "any";
/// one above 255 is refused.
pub open spec fn normalized_priority(priority: Option<i32>) -> Result<Option<u8>, Seq<char>> {
    match priority {
        Some(v) => if v < 0 {
            Ok(None)
        } else if v <= 255 {
            Ok(Some(v as u8))
        } else {
            Err(
                "Invalid priority filter '"@ + decimal_text(v as int) + "': expected -1 or 0..255"@,
            )
        },
        None => Ok(None),
    }
}

/// Checks the priority filter of the entries endpoint.
pub fn normalize_priority(priority: Option<i32>) -> (r: Result<Option<u8>, APIError>)
    ensures
        match normalized_priority(priority) {
            Ok(p) => r == Ok::<Option<u8>, APIError>(p),
            Err(m) => r matches Err(e) && e@ == APIErrorView::FetchError(m),
        },
{
    match priority {
        Some(value) => {
            if value < 0 {
                Ok(None)
            } else if value <= 255 {
                Ok(Some(value as u8))
            } else {
                let mut message = String::from_str("Invalid priority filter '");
                let number = i64_text(value as i64);
                message.append(number.as_str());
                message.append("': expected -1 or 0..255");
                Err(APIError::FetchError(message))
            }
        },
        None => Ok(None),
    }
}

// ---------------------------------------------------------------------------
// Error spikes
// ---------------------------------------------------------------------------

/// Days looked back for error spikes when a host was never analysed.
pub const ANALYSIS_WINDOW_DAYS: u8 = 14;

pub const SECONDS_PER_DAY: u64 = 86400;

/// The length of the look-back window, in seconds.
pub fn analysis_window_seconds() -> (r: u64)
    ensures
        r == ANALYSIS_WINDOW_DAYS * SECONDS_PER_DAY,
{
    ANALYSIS_WINDOW_DAYS as u64 * SECONDS_PER_DAY
}

/// The query for the error spikes of `hostname` since `since` (a double by its
/// bits): services with more than five errors (priority 3 or more urgent).
pub fn error_spikes_query(hostname: String, since: u64) -> (r: Statement)
    ensures
        r.sql@ == FETCH_ERROR_SPIKES_QUERY@,
        params_view(r.params@) == seq![SqlParamView::Text(hostname@), SqlParamView::Float8(since)],
{
    let ghost host = hostname@;
    let mut params: Vec<SqlParam> = Vec::new();
    params.push(SqlParam::Text(hostname));
    params.push(SqlParam::Float8(since));
    assert(params_view(params@) =~= seq![SqlParamView::Text(host), SqlParamView::Float8(since)]);
    Statement { sql: String::from_str(FETCH_ERROR_SPIKES_QUERY), params }
}

/// The query for the time of the latest analysis of `hostname`.
pub fn last_analysis_query(hostname: String) -> (r: Statement)
    ensures
        r.sql@ == FETCH_LAST_ANALYSIS_TIMESTAMP_QUERY@,
        params_view(r.params@) == seq![SqlParamView::Text(hostname@)],
{
    let ghost host = hostname@;
    let mut params: Vec<SqlParam> = Vec::new();
    params.push(SqlParam::Text(hostname));
    assert(params_view(params@) =~= seq![SqlParamView::Text(host)]);
    Statement { sql: String::from_str(FETCH_LAST_ANALYSIS_TIMESTAMP_QUERY), params }
}

/// The time of the latest analysis from the rows of its query: the first
/// column of the first row, or none when there is no row.
pub fn last_analysis_seconds(rows: &Vec<DbRow>) -> (r: Option<Seconds>)
    requires
        rows@.len() > 0 ==> rows@[0].values@.len() > 0,
    ensures
        rows@.len() == 0 ==> r is None,
        rows@.len() > 0 ==> r == Some(seconds_of(rows@[0].values@[0])),
{
    if rows.len() == 0 {
        None
    } else {
        Some(seconds_from_db_value(&rows[0].values[0]))
    }
}

} // verus!
