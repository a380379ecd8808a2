use journai::analyzer::{compact_events, sample_messages};
use journai::collector::{insert_entries_statements, matches_filters, partition_entries, INSERT_CHUNK_SIZE};
use journai::connection::{ConnectionSettings, PostgresDatabase};
use journai::db::{DbRow, DbValue, SqlParam};
use journai::model::{JournalEntry, SpikeEventSeverity};
use journai::text::{parse_i32, parse_unsigned, truncate_message, u64_text};
use journai::visualizer::{alert_class, analysis_id_of};

fn entry(hostname: &str, priority: &str, message: &str) -> JournalEntry {
    JournalEntry {
        boot_id: "boot".to_string(),
        hostname: hostname.to_string(),
        machine_id: "machine".to_string(),
        priority: priority.to_string(),
        message: message.to_string(),
        date: 2.0f64.to_bits(),
        runtime_scope: "system".to_string(),
        pid: Some("1".to_string()),
        uid: None,
        gid: None,
        transport: None,
        syslog_facility: None,
        syslog_identifier: None,
        comm: None,
        exe: None,
        cmdline: None,
        unit: None,
        systemd_unit: None,
        systemd_slice: None,
        systemd_cgroup: None,
        code_line: None,
        code_file: None,
        job_id: None,
        job_result: None,
        job_type: None,
        invocation_id: None,
        source_monotonic_timestamp: None,
        source_boottime_timestamp: None,
    }
}

#[test]
fn partition_accounts_for_every_entry() {
    let entries: Vec<JournalEntry> = (0..20)
        .map(|i| entry(if i % 3 == 0 { "b" } else { "a" }, &(i % 10).to_string(), "m"))
        .collect();
    let (accepted, rejected) = partition_entries("a", entries.clone());
    assert_eq!(accepted.len() + rejected.len(), entries.len());
    assert!(accepted.iter().all(|e| matches_filters("a", e)));
    assert!(rejected.iter().all(|e| !matches_filters("a", e)));
}

#[test]
fn insert_chunks_stay_within_parameter_limit() {
    let entries: Vec<JournalEntry> = (0..2 * INSERT_CHUNK_SIZE + 3).map(|_| entry("a", "1", "m")).collect();
    let statements = insert_entries_statements(&entries);
    let total: usize = statements.iter().map(|s| s.params.len()).sum();
    assert_eq!(total, entries.len() * 28);
    assert!(statements.iter().all(|s| s.params.len() <= 65535 && !s.params.is_empty()));
}

#[test]
fn truncation_keeps_prefix_and_bounds_length() {
    let message = "x".repeat(50);
    let cut = truncate_message(&message, 10);
    assert!(cut.chars().count() <= 13);
    assert!(cut.starts_with(&message[..10]));
    assert_eq!(truncate_message("abc", 3), "abc");
}

#[test]
fn compaction_keeps_latest_events() {
    assert_eq!(compact_events(vec![1, 2, 3, 4, 5], 3), vec![3, 4, 5]);
    assert_eq!(compact_events(vec![1, 2], 3), vec![1, 2]);
    assert_eq!(compact_events(vec![1, 2], 0), Vec::<i32>::new());
}

#[test]
fn sample_is_small_distinct_and_cut() {
    let entries: Vec<JournalEntry> = ["a", "a", "b", &"z".repeat(300), "b", "c", "d", "e"]
        .iter()
        .map(|m| entry("h", "3", m))
        .collect();
    let sample = sample_messages(&entries);
    assert!(sample.len() <= 5);
    for (i, m) in sample.iter().enumerate() {
        assert!(m.chars().count() <= 203);
        assert!(!sample[i + 1..].contains(m));
    }
}

#[test]
fn equality_is_an_equivalence_except_for_nan_dates() {
    let a = entry("h", "1", "m");
    let mut b = a.clone();
    b.priority = "5".to_string();
    b.runtime_scope = "user".to_string();
    assert_eq!(a, b);
    assert_eq!(b, a);
    let mut nan = a.clone();
    nan.date = f64::NAN.to_bits();
    assert_ne!(nan, nan.clone());
    let mut zero = a.clone();
    zero.date = 0.0f64.to_bits();
    let mut minus_zero = a.clone();
    minus_zero.date = (-0.0f64).to_bits();
    assert_eq!(zero, minus_zero);
}

#[test]
fn numbers_read_back_as_written() {
    for n in [0u64, 7, 5432, 65535] {
        assert_eq!(parse_unsigned(&u64_text(n), 65535), Some(n));
    }
    for v in [0i32, 7, -7, i32::MAX, i32::MIN] {
        assert_eq!(parse_i32(&v.to_string()), Some(v));
        assert_eq!(analysis_id_of(&v.to_string()).unwrap(), v);
    }
    let mut s = ConnectionSettings {
        database_type: Some("postgresql".to_string()),
        user: None,
        password: None,
        host: None,
        port: Some("00080".to_string()),
        database: None,
    };
    assert!(PostgresDatabase::connection_urls(&s).unwrap().url.contains(":80/"));
    s.port = None;
    assert!(PostgresDatabase::connection_urls(&s).unwrap().url.contains(":5432/"));
}

#[test]
fn stored_severities_keep_their_style() {
    assert_eq!(alert_class(&SpikeEventSeverity::Critical.to_string()), "alert-critical");
    assert_eq!(alert_class(&SpikeEventSeverity::High.to_string()), "alert-high");
    assert_eq!(alert_class(&SpikeEventSeverity::Medium.to_string()), "alert-medium");
    assert_eq!(alert_class(&SpikeEventSeverity::Low.to_string()), "alert-low");
}

#[test]
fn stored_entry_reads_back_as_sent() {
    let mut sent = entry("h", "+03", "message");
    sent.unit = Some("sshd.service".to_string());
    let statements = insert_entries_statements(&vec![sent.clone()]);
    let values: Vec<DbValue> = statements[0]
        .params
        .iter()
        .map(|p| match p {
            SqlParam::Text(s) => DbValue::Text(s.clone()),
            SqlParam::Int2(i) => DbValue::Int2(*i),
            SqlParam::Int4(i) => DbValue::Int4(*i),
            SqlParam::Int8(i) => DbValue::Int8(*i),
            SqlParam::Float8(b) => DbValue::Float8 { bits: *b, display: f64::from_bits(*b).to_string() },
            SqlParam::Boolean(b) => DbValue::Boolean(*b),
            SqlParam::Null => DbValue::Null,
        })
        .collect();
    let read = JournalEntry::from_row(&DbRow { values }, sent.date);
    assert_eq!(read, sent);
    assert_eq!(read.priority, "3");
    assert_eq!(read.unit, sent.unit);
    assert_eq!(read.pid, sent.pid);
    assert_eq!(read.runtime_scope, sent.runtime_scope);
}
