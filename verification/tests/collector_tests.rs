use journai::collector::{
    analysis_window_seconds, collect_response, entries_query, error_spikes_query,
    insert_entries_statements, last_analysis_query, last_analysis_seconds, matches_filters,
    normalize_priority, partition_entries, BASE_FETCH_QUERY, FETCH_ERROR_SPIKES_QUERY,
    INSERT_CHUNK_SIZE,
};
use journai::db::{DbRow, DbValue, Seconds, SqlParam};
use journai::model::{APIError, JournalEntry};
use journai::sql::{numbered_params_text, param_groups_text};

fn sample_entry(hostname: &str, priority: &str, message: &str) -> JournalEntry {
    JournalEntry {
        boot_id: "boot".to_string(),
        hostname: hostname.to_string(),
        machine_id: "machine".to_string(),
        priority: priority.to_string(),
        message: message.to_string(),
        date: 1.0f64.to_bits(),
        runtime_scope: "system".to_string(),
        pid: None,
        uid: None,
        gid: None,
        transport: None,
        syslog_facility: None,
        syslog_identifier: None,
        comm: None,
        exe: None,
        cmdline: None,
        unit: None,
        systemd_unit: None,
        systemd_slice: None,
        systemd_cgroup: None,
        code_line: None,
        code_file: None,
        job_id: None,
        job_result: None,
        job_type: None,
        invocation_id: None,
        source_monotonic_timestamp: None,
        source_boottime_timestamp: None,
    }
}

#[test]
fn matches_filters_accepts_valid_entries() {
    let entry = sample_entry("host-a", "3", "ok");

    assert!(matches_filters("host-a", &entry));
}

#[test]
fn matches_filters_accepts_priority_boundaries() {
    let min_priority = sample_entry("host-a", "0", "ok");
    let max_priority = sample_entry("host-a", "7", "ok");

    assert!(matches_filters("host-a", &min_priority));
    assert!(matches_filters("host-a", &max_priority));
}

#[test]
fn matches_filters_rejects_invalid_entries() {
    let wrong_host = sample_entry("host-b", "3", "ok");
    assert!(!matches_filters("host-a", &wrong_host));

    let invalid_priority = sample_entry("host-a", "9", "ok");
    assert!(!matches_filters("host-a", &invalid_priority));

    let non_numeric_priority = sample_entry("host-a", "nope", "ok");
    assert!(!matches_filters("host-a", &non_numeric_priority));

    let empty_message = sample_entry("host-a", "3", "   ");
    assert!(!matches_filters("host-a", &empty_message));
}

#[test]
fn matches_filters_reads_priority_as_u8() {
    assert!(matches_filters("h", &sample_entry("h", "+7", "ok")));
    assert!(matches_filters("h", &sample_entry("h", "007", "ok")));
    assert!(!matches_filters("h", &sample_entry("h", "-1", "ok")));
    assert!(!matches_filters("h", &sample_entry("h", "", "ok")));
    assert!(!matches_filters("h", &sample_entry("h", " 3", "ok")));
}

#[test]
fn partition_keeps_order_and_loses_nothing() {
    let entries = vec![
        sample_entry("a", "3", "one"),
        sample_entry("b", "3", "two"),
        sample_entry("a", "9", "three"),
        sample_entry("a", "1", "four"),
    ];
    let (accepted, rejected) = partition_entries("a", entries);
    let accepted: Vec<String> = accepted.into_iter().map(|e| e.message).collect();
    let rejected: Vec<String> = rejected.into_iter().map(|e| e.message).collect();
    assert_eq!(accepted, vec!["one", "four"]);
    assert_eq!(rejected, vec!["two", "three"]);
}

#[test]
fn collect_response_counts_entries() {
    let response = collect_response(12);
    assert!(response.success);
    assert_eq!(response.message, "Collected 12 entries");
}

#[test]
fn insert_statements_chunk_entries() {
    assert!(insert_entries_statements(&vec![]).is_empty());

    let one = insert_entries_statements(&vec![sample_entry("a", "3", "m")]);
    assert_eq!(one.len(), 1);
    assert_eq!(one[0].params.len(), 28);
    assert_eq!(one[0].params[3], SqlParam::Int2(3));
    assert_eq!(one[0].params[5], SqlParam::Float8(1.0f64.to_bits()));
    assert_eq!(one[0].params[7], SqlParam::Null);
    assert!(one[0].sql.ends_with(&format!(
        " VALUES ({}) ON CONFLICT DO NOTHING",
        numbered_params_text(1, 28)
    )));

    let many: Vec<JournalEntry> =
        (0..INSERT_CHUNK_SIZE + 1).map(|_| sample_entry("a", "3", "m")).collect();
    let statements = insert_entries_statements(&many);
    assert_eq!(statements.len(), 2);
    assert_eq!(statements[0].params.len(), INSERT_CHUNK_SIZE * 28);
    assert_eq!(statements[1].params.len(), 28);
}

#[test]
fn param_groups_are_numbered_consecutively() {
    assert_eq!(param_groups_text(2, 2), "($1, $2), ($3, $4)");
    assert_eq!(numbered_params_text(3, 3), "$3, $4, $5");
}

#[test]
fn entries_query_numbers_filters() {
    let q = entries_query("h".to_string(), None, None, None);
    assert_eq!(q.sql, BASE_FETCH_QUERY);
    assert_eq!(q.params, vec![SqlParam::Text("h".to_string())]);

    let q = entries_query("h".to_string(), Some(5.5f64.to_bits()), Some(3), Some("disk".to_string()));
    assert_eq!(
        q.sql,
        format!("{} AND date >= $2 AND priority <= $3 AND message ILIKE $4", BASE_FETCH_QUERY)
    );
    assert_eq!(
        q.params,
        vec![
            SqlParam::Text("h".to_string()),
            SqlParam::Float8(5.5f64.to_bits()),
            SqlParam::Int2(3),
            SqlParam::Text("%disk%".to_string()),
        ]
    );

    let q = entries_query("h".to_string(), None, None, Some("x".to_string()));
    assert_eq!(q.sql, format!("{} AND message ILIKE $2", BASE_FETCH_QUERY));
}

#[test]
fn priority_filter_is_normalized() {
    assert_eq!(normalize_priority(None).unwrap(), None);
    assert_eq!(normalize_priority(Some(-1)).unwrap(), None);
    assert_eq!(normalize_priority(Some(0)).unwrap(), Some(0));
    assert_eq!(normalize_priority(Some(255)).unwrap(), Some(255));
    match normalize_priority(Some(256)) {
        Err(APIError::FetchError(m)) => {
            assert_eq!(m, "Invalid priority filter '256': expected -1 or 0..255")
        }
        other => panic!("unexpected {:?}", other),
    }
}

#[test]
fn spike_queries_carry_host_and_time() {
    let q = error_spikes_query("h".to_string(), 7.0f64.to_bits());
    assert_eq!(q.sql, FETCH_ERROR_SPIKES_QUERY);
    assert_eq!(q.params, vec![SqlParam::Text("h".to_string()), SqlParam::Float8(7.0f64.to_bits())]);
    let q = last_analysis_query("h".to_string());
    assert_eq!(q.params, vec![SqlParam::Text("h".to_string())]);
}

#[test]
fn last_analysis_time_reads_first_column() {
    assert_eq!(last_analysis_seconds(&vec![]), None);
    let rows = vec![DbRow {
        values: vec![DbValue::Float8 { bits: 42.5f64.to_bits(), display: "42.5".to_string() }],
    }];
    assert_eq!(last_analysis_seconds(&rows), Some(Seconds::Double(42.5f64.to_bits())));
}

#[test]
fn analysis_window_is_fourteen_days() {
    assert_eq!(analysis_window_seconds(), 14 * 86400);
}
