//! The dashboard: its queries, the values read from their rows, and the HTML
//! pages that show them.
use vstd::prelude::*;

use crate::calendar::{chrono_timestamp_format, clock_text, date_text, utc_fields};
use crate::db::{
    extract, i32_of, bool_of, params_view, text_of, u64_of, u8_of, DbRow, DbValue, SqlParam,
    SqlParamView, Statement,
};
use crate::model::{reported, APIError, APIErrorType};
use crate::text::{
    decimal_text, i64_text, joined, join_texts, parse_i32, parsed_i32, replace_all, replaced,
    texts_view, u64_text,
};

verus! {

// ---------------------------------------------------------------------------
// What the pages show
// ---------------------------------------------------------------------------

/// The counters of the overview page.
#[derive(Debug, Clone, Copy, PartialEq, Eq)]
pub struct DashboardOverview {
    pub active_hosts: u64,
    pub total_entries_today: u64,
    pub error_spikes_active: u64,
    pub critical_alerts: u64,
    pub collection_rate_per_hour: u64,
}

/// A severe analysis of the last hour, per service.
#[derive(Debug, Clone)]
pub struct AlertInfo {
    pub hostname: String,
    pub service_name: String,
    pub severity: String,
    pub error_count: u64,
    pub started_at: String,
    pub needs_action: bool,
}

/// The state of the analysis queue.
#[derive(Debug, Clone)]
pub struct QueueInfo {
    pub pending_analyses: u64,
    pub recent_analyses: Vec<AnalysisInfo>,
}

/// An analysis, per service.
#[derive(Debug, Clone)]
pub struct AnalysisInfo {
    pub hostname: String,
    pub service_name: String,
    pub analysis_type: String,
    pub analysed_at: String,
    pub severity: String,
}

/// An analysis with everything its history row and its details page show.
#[derive(Debug, Clone)]
pub struct AnalysisRecord {
    pub id: i32,
    pub hostname: String,
    pub service_name: String,
    pub analysis_type: String,
    pub analysed_at: String,
    pub severity: String,
    pub model: String,
    pub summary: String,
    pub needs_user_action: bool,
    pub entries_count: u64,
    pub first_error: String,
    pub last_error: String,
}

// ---------------------------------------------------------------------------
// Queries
// ---------------------------------------------------------------------------

pub const ACTIVE_HOSTS_QUERY: &'static str = "SELECT COUNT(DISTINCT hostname) FROM entries WHERE date > $1";

pub const ENTRIES_TODAY_QUERY: &'static str = "SELECT COUNT(*) FROM entries WHERE date > $1";

pub const ERROR_SPIKES_QUERY: &'static str = "SELECT COUNT(*) FROM entries WHERE date > $1 AND priority <= 3";

pub const CRITICAL_ALERTS_QUERY: &'static str = "SELECT COUNT(*) FROM analyses WHERE severity IN ('High', 'Critical') AND analysed_at > NOW() - INTERVAL '1 day'";

pub const COLLECTION_RATE_QUERY: &'static str = "SELECT COUNT(*) FROM entries WHERE date > $1";

pub const ACTIVE_ALERTS_QUERY: &'static str = r#"SELECT analyses.hostname,
       COALESCE(unit, syslog_identifier, comm, 'unknown') AS service_name,
       analyses.severity,
       COUNT(entry_id) as error_count,
       COALESCE(EXTRACT(EPOCH FROM MIN(TO_TIMESTAMP(date))), 0) as started_at,
       needs_user_action
FROM analyses
    JOIN analyzed_entries ON analyses.id = analyzed_entries.analysis_id
    JOIN entries ON analyzed_entries.entry_id = entries.id
WHERE analyses.severity IN ('High', 'Critical') AND analyses.analysed_at > NOW() - INTERVAL '1 hour'
GROUP BY analyses.id, analyses.hostname, analyses.severity, needs_user_action, service_name
ORDER BY analyses.analysed_at DESC
LIMIT 20"#;

pub const PENDING_ANALYSES_QUERY: &'static str = "SELECT COUNT(*) FROM entries WHERE priority <= 3 AND date > $1";

pub const RECENT_ANALYSES_QUERY: &'static str = r#"SELECT analyses.hostname,
       COALESCE(unit, syslog_identifier, comm, 'unknown') AS service_name,
       analyses.analysis_type,
       analyses.analysed_at,
       analyses.severity
FROM analyses
    JOIN analyzed_entries ON analyses.id = analyzed_entries.analysis_id
    JOIN entries ON analyzed_entries.entry_id = entries.id
WHERE analyses.analysed_at > NOW() - INTERVAL '1 hour'
GROUP BY analyses.id, analyses.hostname, analyses.analysis_type, analyses.analysed_at, analyses.severity, service_name
ORDER BY analyses.analysed_at DESC
LIMIT 10"#;

pub const ANALYSIS_HISTORY_QUERY: &'static str = r#"SELECT analyses.hostname,
       COALESCE(unit, syslog_identifier, comm, 'unknown') AS service_name,
       analyses.analysis_type,
       analyses.analysed_at,
       analyses.severity
FROM analyses
    JOIN analyzed_entries ON analyses.id = analyzed_entries.analysis_id
    JOIN entries ON analyzed_entries.entry_id = entries.id
WHERE analyses.hostname = $1
GROUP BY analyses.id, analyses.hostname, analyses.analysis_type, analyses.analysed_at, analyses.severity, service_name
ORDER BY analyses.analysed_at DESC
LIMIT 50"#;

/// The analyses of a host with their entry counts and error times, newest
/// first; its columns are those of `AnalysisRecord`, in order.
pub const ANALYSIS_RECORDS_QUERY: &'static str = r#"SELECT analyses.id,
       analyses.hostname,
       COALESCE(unit, syslog_identifier, comm, 'unknown') AS service_name,
       analyses.analysis_type,
       analyses.analysed_at,
       analyses.severity,
       analyses.model,
       analyses.summary,
       analyses.needs_user_action,
       COUNT(entry_id) AS entries_count,
       MIN(date) AS first_error,
       MAX(date) AS last_error
FROM analyses
    JOIN analyzed_entries ON analyses.id = analyzed_entries.analysis_id
    JOIN entries ON analyzed_entries.entry_id = entries.id
WHERE analyses.hostname = $1
GROUP BY analyses.id, service_name
ORDER BY analyses.analysed_at DESC
LIMIT 50"#;

/// One analysis by its id, with the same columns as `ANALYSIS_RECORDS_QUERY`.
pub const ANALYSIS_RECORD_QUERY: &'static str = r#"SELECT analyses.id,
       analyses.hostname,
       COALESCE(unit, syslog_identifier, comm, 'unknown') AS service_name,
       analyses.analysis_type,
       analyses.analysed_at,
       analyses.severity,
       analyses.model,
       analyses.summary,
       analyses.needs_user_action,
       COUNT(entry_id) AS entries_count,
       MIN(date) AS first_error,
       MAX(date) AS last_error
FROM analyses
    JOIN analyzed_entries ON analyses.id = analyzed_entries.analysis_id
    JOIN entries ON analyzed_entries.entry_id = entries.id
WHERE analyses.id = $1
GROUP BY analyses.id, service_name
LIMIT 1"#;

/// `s` is the query `sql` with the parameters `params`.
pub open spec fn statement_is(s: Statement, sql: Seq<char>, params: Seq<SqlParamView>) -> bool {
    s.sql@ == sql && params_view(s.params@) == params
}

fn statement(sql: &str, params: Vec<SqlParam>) -> (r: Statement)
    ensures
        r.sql@ == sql@,
        r.params@ == params@,
{
    Statement { sql: String::from_str(sql), params }
}

fn threshold_statement(sql: &str, threshold: u64) -> (r: Statement)
    ensures
        statement_is(r, sql@, seq![SqlParamView::Float8(threshold)]),
{
    let mut params: Vec<SqlParam> = Vec::new();
    params.push(SqlParam::Float8(threshold));
    let r = statement(sql, params);
    assert(params_view(r.params@) =~= seq![SqlParamView::Float8(threshold)]);
    r
}

/// The five counting queries of the overview, in the order of the fields of
/// `DashboardOverview`. The thresholds are doubles, by their bits: five
/// minutes ago, a day ago and an hour ago.
pub fn overview_statements(recent_threshold: u64, today_start: u64, hour_ago: u64) -> (r: Vec<
    Statement,
>)
    ensures
        r@.len() == 5,
        statement_is(r@[0], ACTIVE_HOSTS_QUERY@, seq![SqlParamView::Float8(recent_threshold)]),
        statement_is(r@[1], ENTRIES_TODAY_QUERY@, seq![SqlParamView::Float8(today_start)]),
        statement_is(r@[2], ERROR_SPIKES_QUERY@, seq![SqlParamView::Float8(recent_threshold)]),
        statement_is(r@[3], CRITICAL_ALERTS_QUERY@, Seq::empty()),
        statement_is(r@[4], COLLECTION_RATE_QUERY@, seq![SqlParamView::Float8(hour_ago)]),
{
    let mut r: Vec<Statement> = Vec::new();
    r.push(threshold_statement(ACTIVE_HOSTS_QUERY, recent_threshold));
    r.push(threshold_statement(ENTRIES_TODAY_QUERY, today_start));
    r.push(threshold_statement(ERROR_SPIKES_QUERY, recent_threshold));
    let critical = statement(CRITICAL_ALERTS_QUERY, Vec::new());
    assert(params_view(critical.params@) =~= Seq::empty());
    r.push(critical);
    r.push(threshold_statement(COLLECTION_RATE_QUERY, hour_ago));
    r
}

/// The query counting the error entries of the last hour (`hour_ago`, a
/// double by its bits) that wait for analysis.
pub fn pending_analyses_statement(hour_ago: u64) -> (r: Statement)
    ensures
        statement_is(r, PENDING_ANALYSES_QUERY@, seq![SqlParamView::Float8(hour_ago)]),
{
    threshold_statement(PENDING_ANALYSES_QUERY, hour_ago)
}

/// The query for the analyses of `hostname`.
pub fn analysis_history_statement(hostname: String) -> (r: Statement)
    ensures
        statement_is(r, ANALYSIS_HISTORY_QUERY@, seq![SqlParamView::Text(hostname@)]),
{
    let ghost host = hostname@;
    let mut params: Vec<SqlParam> = Vec::new();
    params.push(SqlParam::Text(hostname));
    let r = statement(ANALYSIS_HISTORY_QUERY, params);
    assert(params_view(r.params@) =~= seq![SqlParamView::Text(host)]);
    r
}

/// The query for the analyses of `hostname` with all their details.
pub fn analysis_records_statement(hostname: String) -> (r: Statement)
    ensures
        statement_is(r, ANALYSIS_RECORDS_QUERY@, seq![SqlParamView::Text(hostname@)]),
{
    let ghost host = hostname@;
    let mut params: Vec<SqlParam> = Vec::new();
    params.push(SqlParam::Text(hostname));
    let r = statement(ANALYSIS_RECORDS_QUERY, params);
    assert(params_view(r.params@) =~= seq![SqlParamView::Text(host)]);
    r
}

/// The query for the analysis with the given id.
pub fn analysis_record_statement(id: i32) -> (r: Statement)
    ensures
        statement_is(r, ANALYSIS_RECORD_QUERY@, seq![SqlParamView::Int4(id)]),
{
    let mut params: Vec<SqlParam> = Vec::new();
    params.push(SqlParam::Int4(id));
    let r = statement(ANALYSIS_RECORD_QUERY, params);
    assert(params_view(r.params@) =~= seq![SqlParamView::Int4(id)]);
    r
}

// ---------------------------------------------------------------------------
// Reading rows
// ---------------------------------------------------------------------------

/// The number a counting query answers: the first column of its first row,
/// or zero when there is none.
pub open spec fn count_of(rows: Seq<DbRow>) -> u64 {
    if rows.len() > 0 && rows[0].values@.len() > 0 {
        u64_of(rows[0].values@[0])
    } else {
        0
    }
}

/// The count from the rows of a counting query.
pub fn count_from_rows(rows: &Vec<DbRow>) -> (r: u64)
    ensures
        r == count_of(rows@),
{
    if rows.len() > 0 && rows[0].values.len() > 0 {
        extract::<u64>(&rows[0].values[0])
    } else {
        0
    }
}

/// The overview from the rows of its five counting queries, in the order of
/// `overview_statements`.
pub fn dashboard_overview_of(results: &Vec<Vec<DbRow>>) -> (r: DashboardOverview)
    requires
        results@.len() == 5,
    ensures
        r.active_hosts == count_of(results@[0]@),
        r.total_entries_today == count_of(results@[1]@),
        r.error_spikes_active == count_of(results@[2]@),
        r.critical_alerts == count_of(results@[3]@),
        r.collection_rate_per_hour == count_of(results@[4]@),
{
    DashboardOverview {
        active_hosts: count_from_rows(&results[0]),
        total_entries_today: count_from_rows(&results[1]),
        error_spikes_active: count_from_rows(&results[2]),
        critical_alerts: count_from_rows(&results[3]),
        collection_rate_per_hour: count_from_rows(&results[4]),
    }
}

/// `a` is the alert read from the columns `v` of a row of `ACTIVE_ALERTS_QUERY`.
pub open spec fn is_alert_of(v: Seq<DbValue>, a: AlertInfo) -> bool {
    &&& a.hostname@ == text_of(v[0])
    &&& a.service_name@ == text_of(v[1])
    &&& a.severity@ == text_of(v[2])
    &&& a.error_count == u64_of(v[3])
    &&& a.started_at@ == text_of(v[4])
    &&& a.needs_action == (u8_of(v[5]) != 0)
}

/// The alert of one row. The action flag is read as a small number, non-zero
/// meaning yes.
pub fn alert_from_row(row: &DbRow) -> (r: AlertInfo)
    requires
        row.values@.len() >= 6,
    ensures
        is_alert_of(row.values@, r),
{
    let v = &row.values;
    AlertInfo {
        hostname: extract(&v[0]),
        service_name: extract(&v[1]),
        severity: extract(&v[2]),
        error_count: extract(&v[3]),
        started_at: extract(&v[4]),
        needs_action: extract::<u8>(&v[5]) != 0,
    }
}

/// The alerts of the rows, in order.
pub fn alerts_from_rows(rows: &Vec<DbRow>) -> (r: Vec<AlertInfo>)
    requires
        forall|i: int| 0 <= i < rows@.len() ==> #[trigger] rows@[i].values@.len() >= 6,
    ensures
        r@.len() == rows@.len(),
        forall|i: int| 0 <= i < rows@.len() ==> is_alert_of(#[trigger] rows@[i].values@, r@[i]),
{
    let mut out: Vec<AlertInfo> = Vec::new();
    let mut i: usize = 0;
    while i < rows.len()
        invariant
            i <= rows@.len(),
            out@.len() == i,
            forall|k: int| 0 <= k < rows@.len() ==> #[trigger] rows@[k].values@.len() >= 6,
            forall|k: int| 0 <= k < i ==> is_alert_of(#[trigger] rows@[k].values@, out@[k]),
        decreases rows@.len() - i,
    {
        out.push(alert_from_row(&rows[i]));
        i = i + 1;
    }
    out
}

/// `a` is the analysis read from the columns `v` of a row of
/// `RECENT_ANALYSES_QUERY` or `ANALYSIS_HISTORY_QUERY`.
pub open spec fn is_analysis_of(v: Seq<DbValue>, a: AnalysisInfo) -> bool {
    &&& a.hostname@ == text_of(v[0])
    &&& a.service_name@ == text_of(v[1])
    &&& a.analysis_type@ == text_of(v[2])
    &&& a.analysed_at@ == text_of(v[3])
    &&& a.severity@ == text_of(v[4])
}

/// The analysis of one row.
pub fn analysis_from_row(row: &DbRow) -> (r: AnalysisInfo)
    requires
        row.values@.len() >= 5,
    ensures
        is_analysis_of(row.values@, r),
{
    let v = &row.values;
    AnalysisInfo {
        hostname: extract(&v[0]),
        service_name: extract(&v[1]),
        analysis_type: extract(&v[2]),
        analysed_at: extract(&v[3]),
        severity: extract(&v[4]),
    }
}

/// The analyses of the rows, in order.
pub fn analyses_from_rows(rows: &Vec<DbRow>) -> (r: Vec<AnalysisInfo>)
    requires
        forall|i: int| 0 <= i < rows@.len() ==> #[trigger] rows@[i].values@.len() >= 5,
    ensures
        r@.len() == rows@.len(),
        forall|i: int| 0 <= i < rows@.len() ==> is_analysis_of(#[trigger] rows@[i].values@, r@[i]),
{
    let mut out: Vec<AnalysisInfo> = Vec::new();
    let mut i: usize = 0;
    while i < rows.len()
        invariant
            i <= rows@.len(),
            out@.len() == i,
            forall|k: int| 0 <= k < rows@.len() ==> #[trigger] rows@[k].values@.len() >= 5,
            forall|k: int| 0 <= k < i ==> is_analysis_of(#[trigger] rows@[k].values@, out@[k]),
        decreases rows@.len() - i,
    {
        out.push(analysis_from_row(&rows[i]));
        i = i + 1;
    }
    out
}

/// The queue from the rows of the pending count and of the recent analyses.
pub fn queue_info_of(pending_rows: &Vec<DbRow>, recent_rows: &Vec<DbRow>) -> (r: QueueInfo)
    requires
        forall|i: int| 0 <= i < recent_rows@.len() ==> #[trigger] recent_rows@[i].values@.len() >= 5,
    ensures
        r.pending_analyses == count_of(pending_rows@),
        r.recent_analyses@.len() == recent_rows@.len(),
        forall|i: int|
            0 <= i < recent_rows@.len() ==> is_analysis_of(
                #[trigger] recent_rows@[i].values@,
                r.recent_analyses@[i],
            ),
{
    QueueInfo {
        pending_analyses: count_from_rows(pending_rows),
        recent_analyses: analyses_from_rows(recent_rows),
    }
}

/// `a` is the analysis read from the columns `v` of a row of
/// `ANALYSIS_RECORDS_QUERY` or `ANALYSIS_RECORD_QUERY`.
pub open spec fn is_record_of(v: Seq<DbValue>, a: AnalysisRecord) -> bool {
    &&& a.id == i32_of(v[0])
    &&& a.hostname@ == text_of(v[1])
    &&& a.service_name@ == text_of(v[2])
    &&& a.analysis_type@ == text_of(v[3])
    &&& a.analysed_at@ == text_of(v[4])
    &&& a.severity@ == text_of(v[5])
    &&& a.model@ == text_of(v[6])
    &&& a.summary@ == text_of(v[7])
    &&& a.needs_user_action == bool_of(v[8])
    &&& a.entries_count == u64_of(v[9])
    &&& a.first_error@ == text_of(v[10])
    &&& a.last_error@ == text_of(v[11])
}

/// The analysis of one row.
pub fn analysis_record_from_row(row: &DbRow) -> (r: AnalysisRecord)
    requires
        row.values@.len() >= 12,
    ensures
        is_record_of(row.values@, r),
{
    let v = &row.values;
    AnalysisRecord {
        id: extract(&v[0]),
        hostname: extract(&v[1]),
        service_name: extract(&v[2]),
        analysis_type: extract(&v[3]),
        analysed_at: extract(&v[4]),
        severity: extract(&v[5]),
        model: extract(&v[6]),
        summary: extract(&v[7]),
        needs_user_action: extract(&v[8]),
        entries_count: extract(&v[9]),
        first_error: extract(&v[10]),
        last_error: extract(&v[11]),
    }
}

/// The analyses of the rows, in order.
pub fn analysis_records_from_rows(rows: &Vec<DbRow>) -> (r: Vec<AnalysisRecord>)
    requires
        forall|i: int| 0 <= i < rows@.len() ==> #[trigger] rows@[i].values@.len() >= 12,
    ensures
        r@.len() == rows@.len(),
        forall|i: int| 0 <= i < rows@.len() ==> is_record_of(#[trigger] rows@[i].values@, r@[i]),
{
    let mut out: Vec<AnalysisRecord> = Vec::new();
    let mut i: usize = 0;
    while i < rows.len()
        invariant
            i <= rows@.len(),
            out@.len() == i,
            forall|k: int| 0 <= k < rows@.len() ==> #[trigger] rows@[k].values@.len() >= 12,
            forall|k: int| 0 <= k < i ==> is_record_of(#[trigger] rows@[k].values@, out@[k]),
        decreases rows@.len() - i,
    {
        out.push(analysis_record_from_row(&rows[i]));
        i = i + 1;
    }
    out
}

/// The analysis that the rows of `ANALYSIS_RECORD_QUERY` hold, or an error
/// when there is none.
pub fn analysis_record_of(rows: &Vec<DbRow>) -> (r: Result<AnalysisRecord, APIError>)
    requires
        rows@.len() > 0 ==> rows@[0].values@.len() >= 12,
    ensures
        rows@.len() > 0 ==> (r matches Ok(a) && is_record_of(rows@[0].values@, a)),
        rows@.len() == 0 ==> (r matches Err(e) && e@ == reported(
            APIErrorType::Fetch,
            "Analysis not found"@,
        )),
{
    if rows.len() > 0 {
        Ok(analysis_record_from_row(&rows[0]))
    } else {
        Err(APIErrorType::Fetch.of_string(String::from_str("Analysis not found")))
    }
}

/// The id in an analysis details address: an `i32` as `str::parse` reads it,
/// or the error the details page answers with.
pub fn analysis_id_of(text: &str) -> (r: Result<i32, APIError>)
    ensures
        match parsed_i32(text@) {
            Some(v) => r == Ok::<i32, APIError>(v as i32),
            None => r matches Err(e) && e@ == reported(APIErrorType::Fetch, "Invalid analysis ID"@),
        },
{
    match parse_i32(text) {
        Some(id) => Ok(id),
        None => Err(APIErrorType::Fetch.of_string(String::from_str("Invalid analysis ID"))),
    }
}

// ---------------------------------------------------------------------------
// Pages
// ---------------------------------------------------------------------------

/// The start of every page: the document head with its style sheet.
pub const HTML_HEADER: &'static str = "<!DOCTYPE html>\n<html><head><meta charset=\"UTF-8\"><title>Dashboard</title>\n<style>\nbody{font-family:Arial,sans-serif;margin:0;padding:20px;background:#f5f5f5}\n.container{max-width:1200px;margin:0 auto}\n.card{background:white;border-radius:8px;padding:20px;margin:10px 0;box-shadow:0 2px 4px rgba(0,0,0,0.1)}\n.metric{display:inline-block;margin:10px 20px 10px 0}\n.metric-value{font-size:2em;font-weight:bold;color:#2196F3}\n.metric-label{color:#666;font-size:0.9em}\n.alert{padding:10px;margin:5px 0;border-radius:4px}\n.alert-critical{background:#ffebee;border-left:4px solid #f44336}\n.alert-high{background:#fff3e0;border-left:4px solid #ff9800}\n.alert-medium{background:#f3e5f5;border-left:4px solid #9c27b0}\n.alert-low{background:#e8f5e8;border-left:4px solid #4caf50}\n.queue-item{padding:8px;margin:4px 0;background:#f9f9f9;border-radius:4px}\n.timestamp{color:#888;font-size:0.8em}\nh1,h2{color:#333}\ntable{width:100%;border-collapse:collapse}\nth,td{padding:8px;text-align:left;border-bottom:1px solid #ddd}\nth{background:#f5f5f5}\n</style>\n</head><body><div class=\"container\">\n";
/// The end of every page body.
pub const HTML_FOOTER: &'static str = "</div></body></html>";
/// What follows the footer of every page.
pub const PAGE_END: &'static str = "\n            ";
/// Closes the main card and adds a card linking back to the overview.
pub const BACK_TO_OVERVIEW: &'static str = "\n</div>\n<div class=\"card\">\n    <p><a href=\"/dashboard/overview\">Back to Overview</a></p>\n</div>\n";
pub const NO_HOSTS: &'static str = "<p>No hosts found</p>";
pub const HOST_LINK_START: &'static str = "<li><a href=\"/analysis/history/";
pub const HOST_LINK_MIDDLE: &'static str = "\">";
pub const HOST_LINK_END: &'static str = "</a></li>";
pub const OVERVIEW_TOP: &'static str = "\n<h1>Dashboard Overview</h1>\n<div class=\"card\">\n    <h2>System Health</h2>\n    <div class=\"metric\">\n        <div class=\"metric-value\">";
pub const ACTIVE_HOSTS_END: &'static str = "</div>\n        <div class=\"metric-label\">Active Hosts</div>\n    </div>\n    <div class=\"metric\">\n        <div class=\"metric-value\">";
pub const ENTRIES_TODAY_END: &'static str = "</div>\n        <div class=\"metric-label\">Entries Today</div>\n    </div>\n    <div class=\"metric\">\n        <div class=\"metric-value\">";
pub const ERROR_SPIKES_END: &'static str = "</div>\n        <div class=\"metric-label\">Error Spikes</div>\n    </div>\n    <div class=\"metric\">\n        <div class=\"metric-value\">";
pub const CRITICAL_ALERTS_END: &'static str = "</div>\n        <div class=\"metric-label\">Critical Alerts</div>\n    </div>\n    <div class=\"metric\">\n        <div class=\"metric-value\">";
pub const COLLECTION_RATE_END: &'static str = "/hr</div>\n        <div class=\"metric-label\">Collection Rate</div>\n    </div>\n</div>\n<div class=\"card\">\n    <h2>Managed Hosts</h2>\n    ";
pub const MANAGED_HOSTS_END: &'static str = "\n</div>\n<div class=\"card\">\n    <p>Last updated: ";
pub const OVERVIEW_LINKS: &'static str = "</p>\n    <p><a href=\"/dashboard/alerts\">View Active Alerts</a> | <a href=\"/analysis/queue\">Analysis Queue</a></p>\n</div>\n";
pub const NO_ALERTS: &'static str = "<p>No active alerts</p>";
pub const ALERT_START: &'static str = "<div class=\"alert ";
pub const ALERT_CLASS_END: &'static str = "\">\n                        <strong>";
pub const ALERT_HOST_END: &'static str = "/";
pub const ALERT_SERVICE_END: &'static str = "</strong> - ";
pub const ALERT_COUNT_END: &'static str = " errors\n                        <div class=\"timestamp\">Started: ";
pub const ALERT_STARTED_END: &'static str = " | Severity: ";
pub const ALERT_SEVERITY_END: &'static str = " | Action Required: ";
pub const ALERT_END: &'static str = "</div>\n                    </div>";
pub const ALERTS_TOP: &'static str = "\n<h1>Active Alerts</h1>\n<div class=\"card\">\n    <h2>Critical & High Severity Issues</h2>\n    ";
pub const NO_RECENT_ANALYSES: &'static str = "<p>No recent analyses</p>";
pub const QUEUE_ITEM_START: &'static str = "<div class=\"queue-item\">\n                        <strong>";
pub const QUEUE_ITEM_SERVICE_END: &'static str = "/";
pub const QUEUE_ITEM_TYPE_END: &'static str = "</strong> - ";
pub const QUEUE_ITEM_SEVERITY_END: &'static str = " (";
pub const QUEUE_ITEM_HOST_END: &'static str = ")\n                        <div class=\"timestamp\">";
pub const QUEUE_ITEM_END: &'static str = "</div>\n                    </div>";
pub const QUEUE_TOP: &'static str = "\n<h1>Analysis Queue</h1>\n<div class=\"card\">\n    <h2>Queue Status</h2>\n    <div class=\"metric\">\n        <div class=\"metric-value\">";
pub const PENDING_ANALYSES_END: &'static str = "</div>\n        <div class=\"metric-label\">Pending Analyses</div>\n    </div>\n</div>\n<div class=\"card\">\n    <h2>Recent Analyses</h2>\n    ";
pub const NO_HISTORY: &'static str = "<p>No analysis history found</p>";
pub const HISTORY_ROW_START: &'static str = "<tr>\n                            <td>";
pub const HISTORY_CELL_BREAK: &'static str = "</td>\n                            <td>";
pub const HISTORY_DETAILS_LINK: &'static str = "</td>\n                            <td><a href=\"/analysis/details/";
pub const HISTORY_ROW_END: &'static str = "\">Details</a></td>\n                        </tr>";
pub const HISTORY_TABLE_START: &'static str = "<table>\n                    <thead>\n                        <tr>\n                            <th>Date</th>\n                            <th>Service</th>\n                            <th>Type</th>\n                            <th>Severity</th>\n                            <th>Entries</th>\n                            <th>Model</th>\n                            <th>First Error</th>\n                            <th>Last Error</th>\n                            <th>Actions</th>\n                        </tr>\n                    </thead>\n                    <tbody>";
pub const HISTORY_TABLE_END: &'static str = "</tbody>\n                </table>";
pub const HISTORY_TOP: &'static str = "\n<h1>Analysis History - ";
pub const HISTORY_TITLE_END: &'static str = "</h1>\n<div class=\"card\">\n    <h2>Host Analyses</h2>\n    ";
pub const DETAILS_TOP: &'static str = "\n<h1>Analysis Details - #";
pub const DETAILS_ID_END: &'static str = "</h1>\n<div class=\"card\">\n    <h2>Overview</h2>\n    <p><strong>Hostname:</strong> ";
pub const DETAILS_HOST_END: &'static str = "</p>\n    <p><strong>Service:</strong> ";
pub const DETAILS_SERVICE_END: &'static str = "</p>\n    <p><strong>Type:</strong> ";
pub const DETAILS_TYPE_END: &'static str = "</p>\n    <p><strong>Analysed At:</strong> ";
pub const DETAILS_ANALYSED_AT_END: &'static str = "</p>\n    <p><strong>Severity:</strong> ";
pub const DETAILS_SEVERITY_END: &'static str = "</p>\n    <p><strong>Model Used:</strong> ";
pub const DETAILS_MODEL_END: &'static str = "</p>\n    <p><strong>Needs User Action:</strong> ";
pub const DETAILS_ACTION_END: &'static str = "</p>\n</div>\n\n<div class=\"card\">\n    <h2>Analysis Result</h2>\n    <p>";
pub const DETAILS_SUMMARY_END: &'static str = "</p>\n</div>\n\n<div class=\"card\">\n    <h2>Data Context</h2>\n    <p><strong>Entries Count:</strong> ";
pub const DETAILS_ENTRIES_END: &'static str = "</p>\n    <p><strong>First Error:</strong> ";
pub const DETAILS_FIRST_ERROR_END: &'static str = "</p>\n    <p><strong>Last Error:</strong> ";
pub const DETAILS_LAST_ERROR_END: &'static str = "</p>\n</div>\n\n<div class=\"card\">\n    <p><a href=\"/analysis/history/";
pub const DETAILS_BACK_LINKS: &'static str = "\">Back to Host History</a> | <a href=\"/dashboard/overview\">Back to Overview</a></p>\n</div>\n";

/// "Yes" or "No".
pub open spec fn yes_no(b: bool) -> Seq<char> {
    if b {
        "Yes"@
    } else {
        "No"@
    }
}

fn yes_no_text(b: bool) -> (r: &'static str)
    ensures
        r@ == yes_no(b),
{
    if b {
        "Yes"
    } else {
        "No"
    }
}

/// The link to the history of a host.
pub open spec fn host_link(host: Seq<char>) -> Seq<char> {
    HOST_LINK_START@ + host + HOST_LINK_MIDDLE@ + host + HOST_LINK_END@
}

/// The list of managed hosts, each linking to its history.
pub open spec fn hosts_html(hosts: Seq<Seq<char>>) -> Seq<char> {
    if hosts.len() == 0 {
        NO_HOSTS@
    } else {
        "<ul>"@ + joined(hosts.map_values(|h: Seq<char>| host_link(h)), "\n"@) + "</ul>"@
    }
}

/// The list of managed hosts of the overview page.
pub fn hostnames_html(hostnames: &Vec<String>) -> (r: String)
    ensures
        r@ == hosts_html(texts_view(hostnames@)),
{
    if hostnames.len() == 0 {
        return String::from_str(NO_HOSTS);
    }
    let mut links: Vec<String> = Vec::new();
    let mut i: usize = 0;
    while i < hostnames.len()
        invariant
            i <= hostnames@.len(),
            links@.len() == i,
            texts_view(links@) == texts_view(hostnames@.take(i as int)).map_values(
                |h: Seq<char>| host_link(h),
            ),
        decreases hostnames@.len() - i,
    {
        let host = hostnames[i].as_str();
        let mut link = String::from_str(HOST_LINK_START);
        link.append(host);
        link.append(HOST_LINK_MIDDLE);
        link.append(host);
        link.append(HOST_LINK_END);
        let ghost before = links@;
        links.push(link);
        proof {
            let want = texts_view(hostnames@.take(i + 1)).map_values(|h: Seq<char>| host_link(h));
            assert forall|k: int| 0 <= k < i + 1 implies texts_view(links@)[k] == want[k] by {
                if k < i {
                    assert(links@[k] == before[k]);
                    assert(texts_view(before)[k] == texts_view(hostnames@.take(i as int)).map_values(
                        |h: Seq<char>| host_link(h),
                    )[k]);
                    assert(hostnames@.take(i as int)[k] == hostnames@.take(i + 1)[k]);
                } else {
                    assert(hostnames@.take(i + 1)[k] == hostnames@[k]);
                }
            }
            assert(texts_view(links@) =~= want);
        }
        i = i + 1;
    }
    assert(hostnames@.take(hostnames@.len() as int) =~= hostnames@);
    let mut out = String::from_str("<ul>");
    let joined_links = join_texts(&links, "\n");
    out.append(joined_links.as_str());
    out.append("</ul>");
    out
}

/// The overview page.
pub open spec fn overview_page(o: DashboardOverview, hosts: Seq<char>, updated_at: Seq<char>) -> Seq<
    char,
> {
    HTML_HEADER@ + OVERVIEW_TOP@ + decimal_text(o.active_hosts as int) + ACTIVE_HOSTS_END@
        + decimal_text(o.total_entries_today as int) + ENTRIES_TODAY_END@ + decimal_text(
        o.error_spikes_active as int,
    ) + ERROR_SPIKES_END@ + decimal_text(o.critical_alerts as int) + CRITICAL_ALERTS_END@
        + decimal_text(o.collection_rate_per_hour as int) + COLLECTION_RATE_END@ + hosts
        + MANAGED_HOSTS_END@ + updated_at + OVERVIEW_LINKS@ + HTML_FOOTER@ + PAGE_END@
}

/// The overview page: the counters, the managed hosts and the time it was
/// made.
pub fn dashboard_overview_page(
    overview: &DashboardOverview,
    hostnames: &Vec<String>,
    updated_at: &str,
) -> (r: String)
    ensures
        r@ == overview_page(*overview, hosts_html(texts_view(hostnames@)), updated_at@),
{
    let hosts = hostnames_html(hostnames);
    let mut out = String::from_str(HTML_HEADER);
    out.append(OVERVIEW_TOP);
    out.append(u64_text(overview.active_hosts).as_str());
    out.append(ACTIVE_HOSTS_END);
    out.append(u64_text(overview.total_entries_today).as_str());
    out.append(ENTRIES_TODAY_END);
    out.append(u64_text(overview.error_spikes_active).as_str());
    out.append(ERROR_SPIKES_END);
    out.append(u64_text(overview.critical_alerts).as_str());
    out.append(CRITICAL_ALERTS_END);
    out.append(u64_text(overview.collection_rate_per_hour).as_str());
    out.append(COLLECTION_RATE_END);
    out.append(hosts.as_str());
    out.append(MANAGED_HOSTS_END);
    out.append(updated_at);
    out.append(OVERVIEW_LINKS);
    out.append(HTML_FOOTER);
    out.append(PAGE_END);
    out
}

/// The style class of an alert by its severity.
pub open spec fn alert_class_of(severity: Seq<char>) -> Seq<char> {
    if severity == "Critical"@ {
        "alert-critical"@
    } else if severity == "High"@ {
        "alert-high"@
    } else if severity == "Medium"@ {
        "alert-medium"@
    } else {
        "alert-low"@
    }
}

/// The style class of an alert: critical, high and medium have their own,
/// every other severity is shown as low.
pub fn alert_class(severity: &String) -> (r: &'static str)
    ensures
        r@ == alert_class_of(severity@),
{
    if *severity == String::from_str("Critical") {
        "alert-critical"
    } else if *severity == String::from_str("High") {
        "alert-high"
    } else if *severity == String::from_str("Medium") {
        "alert-medium"
    } else {
        "alert-low"
    }
}

/// One alert of the alerts page.
pub open spec fn alert_html_of(a: AlertInfo) -> Seq<char> {
    ALERT_START@ + alert_class_of(a.severity@) + ALERT_CLASS_END@ + a.hostname@ + ALERT_HOST_END@
        + a.service_name@ + ALERT_SERVICE_END@ + decimal_text(a.error_count as int)
        + ALERT_COUNT_END@ + a.started_at@ + ALERT_STARTED_END@ + a.severity@
        + ALERT_SEVERITY_END@ + yes_no(a.needs_action) + ALERT_END@
}

/// One alert of the alerts page.
pub fn alert_html(alert: &AlertInfo) -> (r: String)
    ensures
        r@ == alert_html_of(*alert),
{
    let mut out = String::from_str(ALERT_START);
    out.append(alert_class(&alert.severity));
    out.append(ALERT_CLASS_END);
    out.append(alert.hostname.as_str());
    out.append(ALERT_HOST_END);
    out.append(alert.service_name.as_str());
    out.append(ALERT_SERVICE_END);
    out.append(u64_text(alert.error_count).as_str());
    out.append(ALERT_COUNT_END);
    out.append(alert.started_at.as_str());
    out.append(ALERT_STARTED_END);
    out.append(alert.severity.as_str());
    out.append(ALERT_SEVERITY_END);
    out.append(yes_no_text(alert.needs_action));
    out.append(ALERT_END);
    out
}

/// The alerts, one per line, or a note that there are none.
pub open spec fn alerts_html_of(alerts: Seq<AlertInfo>) -> Seq<char> {
    if alerts.len() == 0 {
        NO_ALERTS@
    } else {
        joined(alerts.map_values(|a: AlertInfo| alert_html_of(a)), "\n"@)
    }
}

/// The alerts page.
pub open spec fn alerts_page(alerts: Seq<AlertInfo>) -> Seq<char> {
    HTML_HEADER@ + ALERTS_TOP@ + alerts_html_of(alerts) + BACK_TO_OVERVIEW@ + HTML_FOOTER@
        + PAGE_END@
}

/// The alerts page.
pub fn dashboard_alerts_page(alerts: &Vec<AlertInfo>) -> (r: String)
    ensures
        r@ == alerts_page(alerts@),
{
    let mut items: Vec<String> = Vec::new();
    let mut i: usize = 0;
    while i < alerts.len()
        invariant
            i <= alerts@.len(),
            items@.len() == i,
            texts_view(items@) == alerts@.take(i as int).map_values(|a: AlertInfo| alert_html_of(a)),
        decreases alerts@.len() - i,
    {
        let ghost before = items@;
        items.push(alert_html(&alerts[i]));
        proof {
            let want = alerts@.take(i + 1).map_values(|a: AlertInfo| alert_html_of(a));
            assert forall|k: int| 0 <= k < i + 1 implies texts_view(items@)[k] == want[k] by {
                if k < i {
                    assert(items@[k] == before[k]);
                    assert(texts_view(before)[k] == alerts@.take(i as int).map_values(
                        |a: AlertInfo| alert_html_of(a),
                    )[k]);
                    assert(alerts@.take(i as int)[k] == alerts@.take(i + 1)[k]);
                } else {
                    assert(alerts@.take(i + 1)[k] == alerts@[k]);
                }
            }
            assert(texts_view(items@) =~= want);
        }
        i = i + 1;
    }
    assert(alerts@.take(alerts@.len() as int) =~= alerts@);
    let list = if alerts.len() == 0 {
        String::from_str(NO_ALERTS)
    } else {
        join_texts(&items, "\n")
    };
    let mut out = String::from_str(HTML_HEADER);
    out.append(ALERTS_TOP);
    out.append(list.as_str());
    out.append(BACK_TO_OVERVIEW);
    out.append(HTML_FOOTER);
    out.append(PAGE_END);
    out
}

/// One recent analysis of the queue page.
pub open spec fn queue_item_of(a: AnalysisInfo) -> Seq<char> {
    QUEUE_ITEM_START@ + a.service_name@ + QUEUE_ITEM_SERVICE_END@ + a.analysis_type@
        + QUEUE_ITEM_TYPE_END@ + a.severity@ + QUEUE_ITEM_SEVERITY_END@ + a.hostname@
        + QUEUE_ITEM_HOST_END@ + a.analysed_at@ + QUEUE_ITEM_END@
}

/// One recent analysis of the queue page.
pub fn queue_item_html(analysis: &AnalysisInfo) -> (r: String)
    ensures
        r@ == queue_item_of(*analysis),
{
    let mut out = String::from_str(QUEUE_ITEM_START);
    out.append(analysis.service_name.as_str());
    out.append(QUEUE_ITEM_SERVICE_END);
    out.append(analysis.analysis_type.as_str());
    out.append(QUEUE_ITEM_TYPE_END);
    out.append(analysis.severity.as_str());
    out.append(QUEUE_ITEM_SEVERITY_END);
    out.append(analysis.hostname.as_str());
    out.append(QUEUE_ITEM_HOST_END);
    out.append(analysis.analysed_at.as_str());
    out.append(QUEUE_ITEM_END);
    out
}

/// The recent analyses, one per line, or a note that there are none.
pub open spec fn recent_html_of(recent: Seq<AnalysisInfo>) -> Seq<char> {
    if recent.len() == 0 {
        NO_RECENT_ANALYSES@
    } else {
        joined(recent.map_values(|a: AnalysisInfo| queue_item_of(a)), "\n"@)
    }
}

/// The queue page.
pub open spec fn queue_page(pending: u64, recent: Seq<AnalysisInfo>) -> Seq<char> {
    HTML_HEADER@ + QUEUE_TOP@ + decimal_text(pending as int) + PENDING_ANALYSES_END@
        + recent_html_of(recent) + BACK_TO_OVERVIEW@ + HTML_FOOTER@ + PAGE_END@
}

/// The queue page.
pub fn analysis_queue_page(queue: &QueueInfo) -> (r: String)
    ensures
        r@ == queue_page(queue.pending_analyses, queue.recent_analyses@),
{
    let recent = &queue.recent_analyses;
    let mut items: Vec<String> = Vec::new();
    let mut i: usize = 0;
    while i < recent.len()
        invariant
            i <= recent@.len(),
            items@.len() == i,
            texts_view(items@) == recent@.take(i as int).map_values(
                |a: AnalysisInfo| queue_item_of(a),
            ),
        decreases recent@.len() - i,
    {
        let ghost before = items@;
        items.push(queue_item_html(&recent[i]));
        proof {
            let want = recent@.take(i + 1).map_values(|a: AnalysisInfo| queue_item_of(a));
            assert forall|k: int| 0 <= k < i + 1 implies texts_view(items@)[k] == want[k] by {
                if k < i {
                    assert(items@[k] == before[k]);
                    assert(texts_view(before)[k] == recent@.take(i as int).map_values(
                        |a: AnalysisInfo| queue_item_of(a),
                    )[k]);
                    assert(recent@.take(i as int)[k] == recent@.take(i + 1)[k]);
                } else {
                    assert(recent@.take(i + 1)[k] == recent@[k]);
                }
            }
            assert(texts_view(items@) =~= want);
        }
        i = i + 1;
    }
    assert(recent@.take(recent@.len() as int) =~= recent@);
    let list = if recent.len() == 0 {
        String::from_str(NO_RECENT_ANALYSES)
    } else {
        join_texts(&items, "\n")
    };
    let mut out = String::from_str(HTML_HEADER);
    out.append(QUEUE_TOP);
    out.append(u64_text(queue.pending_analyses).as_str());
    out.append(PENDING_ANALYSES_END);
    out.append(list.as_str());
    out.append(BACK_TO_OVERVIEW);
    out.append(HTML_FOOTER);
    out.append(PAGE_END);
    out
}

/// One row of the history table.
pub open spec fn history_row_of(a: AnalysisRecord) -> Seq<char> {
    HISTORY_ROW_START@ + a.analysed_at@ + HISTORY_CELL_BREAK@ + a.service_name@
        + HISTORY_CELL_BREAK@ + a.analysis_type@ + HISTORY_CELL_BREAK@ + a.severity@
        + HISTORY_CELL_BREAK@ + decimal_text(a.entries_count as int) + HISTORY_CELL_BREAK@
        + a.model@ + HISTORY_CELL_BREAK@ + a.first_error@ + HISTORY_CELL_BREAK@ + a.last_error@
        + HISTORY_DETAILS_LINK@ + decimal_text(a.id as int) + HISTORY_ROW_END@
}

/// One row of the history table.
pub fn history_row_html(analysis: &AnalysisRecord) -> (r: String)
    ensures
        r@ == history_row_of(*analysis),
{
    let mut out = String::from_str(HISTORY_ROW_START);
    out.append(analysis.analysed_at.as_str());
    out.append(HISTORY_CELL_BREAK);
    out.append(analysis.service_name.as_str());
    out.append(HISTORY_CELL_BREAK);
    out.append(analysis.analysis_type.as_str());
    out.append(HISTORY_CELL_BREAK);
    out.append(analysis.severity.as_str());
    out.append(HISTORY_CELL_BREAK);
    out.append(u64_text(analysis.entries_count).as_str());
    out.append(HISTORY_CELL_BREAK);
    out.append(analysis.model.as_str());
    out.append(HISTORY_CELL_BREAK);
    out.append(analysis.first_error.as_str());
    out.append(HISTORY_CELL_BREAK);
    out.append(analysis.last_error.as_str());
    out.append(HISTORY_DETAILS_LINK);
    out.append(i64_text(analysis.id as i64).as_str());
    out.append(HISTORY_ROW_END);
    out
}

/// The history table, or a note that there is no history.
pub open spec fn history_html_of(records: Seq<AnalysisRecord>) -> Seq<char> {
    if records.len() == 0 {
        NO_HISTORY@
    } else {
        HISTORY_TABLE_START@ + joined(
            records.map_values(|a: AnalysisRecord| history_row_of(a)),
            "\n"@,
        ) + HISTORY_TABLE_END@
    }
}

/// The history page of a host.
pub open spec fn history_page(hostname: Seq<char>, records: Seq<AnalysisRecord>) -> Seq<char> {
    HTML_HEADER@ + HISTORY_TOP@ + hostname + HISTORY_TITLE_END@ + history_html_of(records)
        + BACK_TO_OVERVIEW@ + HTML_FOOTER@ + PAGE_END@
}

/// The history page of a host.
pub fn analysis_history_page(hostname: &str, records: &Vec<AnalysisRecord>) -> (r: String)
    ensures
        r@ == history_page(hostname@, records@),
{
    let mut rows: Vec<String> = Vec::new();
    let mut i: usize = 0;
    while i < records.len()
        invariant
            i <= records@.len(),
            rows@.len() == i,
            texts_view(rows@) == records@.take(i as int).map_values(
                |a: AnalysisRecord| history_row_of(a),
            ),
        decreases records@.len() - i,
    {
        let ghost before = rows@;
        rows.push(history_row_html(&records[i]));
        proof {
            let want = records@.take(i + 1).map_values(|a: AnalysisRecord| history_row_of(a));
            assert forall|k: int| 0 <= k < i + 1 implies texts_view(rows@)[k] == want[k] by {
                if k < i {
                    assert(rows@[k] == before[k]);
                    assert(texts_view(before)[k] == records@.take(i as int).map_values(
                        |a: AnalysisRecord| history_row_of(a),
                    )[k]);
                    assert(records@.take(i as int)[k] == records@.take(i + 1)[k]);
                } else {
                    assert(records@.take(i + 1)[k] == records@[k]);
                }
            }
            assert(texts_view(rows@) =~= want);
        }
        i = i + 1;
    }
    assert(records@.take(records@.len() as int) =~= records@);
    let table = if records.len() == 0 {
        String::from_str(NO_HISTORY)
    } else {
        let mut t = String::from_str(HISTORY_TABLE_START);
        t.append(join_texts(&rows, "\n").as_str());
        t.append(HISTORY_TABLE_END);
        t
    };
    let mut out = String::from_str(HTML_HEADER);
    out.append(HISTORY_TOP);
    out.append(hostname);
    out.append(HISTORY_TITLE_END);
    out.append(table.as_str());
    out.append(BACK_TO_OVERVIEW);
    out.append(HTML_FOOTER);
    out.append(PAGE_END);
    out
}

/// The details page of an analysis; line breaks of the summary become `<br>`.
pub open spec fn details_page(a: AnalysisRecord) -> Seq<char> {
    HTML_HEADER@ + DETAILS_TOP@ + decimal_text(a.id as int) + DETAILS_ID_END@ + a.hostname@
        + DETAILS_HOST_END@ + a.service_name@ + DETAILS_SERVICE_END@ + a.analysis_type@
        + DETAILS_TYPE_END@ + a.analysed_at@ + DETAILS_ANALYSED_AT_END@ + a.severity@
        + DETAILS_SEVERITY_END@ + a.model@ + DETAILS_MODEL_END@ + yes_no(a.needs_user_action)
        + DETAILS_ACTION_END@ + replaced(a.summary@, "\n"@, "<br>"@) + DETAILS_SUMMARY_END@
        + decimal_text(a.entries_count as int) + DETAILS_ENTRIES_END@ + a.first_error@
        + DETAILS_FIRST_ERROR_END@ + a.last_error@ + DETAILS_LAST_ERROR_END@ + a.hostname@
        + DETAILS_BACK_LINKS@ + HTML_FOOTER@ + PAGE_END@
}

/// The details page of an analysis.
pub fn analysis_details_page(analysis: &AnalysisRecord) -> (r: String)
    ensures
        r@ == details_page(*analysis),
{
    let summary = replace_all(analysis.summary.as_str(), "\n", "<br>");
    let mut out = String::from_str(HTML_HEADER);
    out.append(DETAILS_TOP);
    out.append(i64_text(analysis.id as i64).as_str());
    out.append(DETAILS_ID_END);
    out.append(analysis.hostname.as_str());
    out.append(DETAILS_HOST_END);
    out.append(analysis.service_name.as_str());
    out.append(DETAILS_SERVICE_END);
    out.append(analysis.analysis_type.as_str());
    out.append(DETAILS_TYPE_END);
    out.append(analysis.analysed_at.as_str());
    out.append(DETAILS_ANALYSED_AT_END);
    out.append(analysis.severity.as_str());
    out.append(DETAILS_SEVERITY_END);
    out.append(analysis.model.as_str());
    out.append(DETAILS_MODEL_END);
    out.append(yes_no_text(analysis.needs_user_action));
    out.append(DETAILS_ACTION_END);
    out.append(summary.as_str());
    out.append(DETAILS_SUMMARY_END);
    out.append(u64_text(analysis.entries_count).as_str());
    out.append(DETAILS_ENTRIES_END);
    out.append(analysis.first_error.as_str());
    out.append(DETAILS_FIRST_ERROR_END);
    out.append(analysis.last_error.as_str());
    out.append(DETAILS_LAST_ERROR_END);
    out.append(analysis.hostname.as_str());
    out.append(DETAILS_BACK_LINKS);
    out.append(HTML_FOOTER);
    out.append(PAGE_END);
    out
}

/// The time a page was made, `secs` seconds and `nanos` nanoseconds after the
/// Unix epoch, as `YYYY-MM-DD HH:MM:SS` in UTC; none when chrono cannot
/// represent that time.
pub fn updated_at_text(secs: i64, nanos: u32) -> (r: Option<String>)
    ensures
        r is Some <==> exists|y: int, mo: int, d: int, h: int, mi: int, s: int|
            utc_fields(secs as int, nanos as int, y, mo, d, h, mi, s),
        r matches Some(t) ==> exists|y: int, mo: int, d: int, h: int, mi: int, s: int|
            utc_fields(secs as int, nanos as int, y, mo, d, h, mi, s) && t@ == date_text(y, mo, d)
                + seq![' '] + clock_text(h, mi, s, nanos as int),
{
    proof {
        reveal_strlit("%Y-%m-%d %H:%M:%S");
    }
    chrono_timestamp_format(secs, nanos, "%Y-%m-%d %H:%M:%S")
}

} // verus!
