use journai::connection::flag_enabled;
use journai::db::{extract, seconds_from_db_value, Date, DbValue, Seconds, Time, Timestamp, Timestamptz};
use journai::model::{
    APIError, APIErrorType, DbError, JournalEntry, ServiceErrors, ServiceErrorsNoEntries,
    SpikeEventSeverity,
};

fn sample_entry(priority: &str, message: &str) -> JournalEntry {
    JournalEntry {
        boot_id: "boot".to_string(),
        hostname: "host".to_string(),
        machine_id: "machine".to_string(),
        priority: priority.to_string(),
        message: message.to_string(),
        date: 123.0f64.to_bits(),
        runtime_scope: "system".to_string(),
        pid: None,
        uid: None,
        gid: None,
        transport: None,
        syslog_facility: None,
        syslog_identifier: None,
        comm: None,
        exe: None,
        cmdline: None,
        unit: None,
        systemd_unit: None,
        systemd_slice: None,
        systemd_cgroup: None,
        code_line: None,
        code_file: None,
        job_id: None,
        job_result: None,
        job_type: None,
        invocation_id: None,
        source_monotonic_timestamp: None,
        source_boottime_timestamp: None,
    }
}

fn float8(value: f64) -> DbValue {
    DbValue::Float8 { bits: value.to_bits(), display: value.to_string() }
}

fn seconds_as_f64(seconds: Seconds) -> f64 {
    match seconds {
        Seconds::Double(bits) => f64::from_bits(bits),
        Seconds::Single(bits) => f32::from_bits(bits) as f64,
        Seconds::Counted { seconds, nanos } => seconds as f64 + nanos as f64 / 1_000_000_000.0,
    }
}

#[test]
fn should_log_queries_reads_env_flag() {
    assert!(!flag_enabled(&None));
    assert!(flag_enabled(&Some("true".to_string())));
    assert!(!flag_enabled(&Some("false".to_string())));
}

#[test]
fn extract_converts_basic_types() {
    assert_eq!(extract::<String>(&DbValue::Text("hello".to_string())), "hello");
    assert_eq!(extract::<String>(&DbValue::Int4(42)), "42");
    assert_eq!(extract::<i16>(&DbValue::Int4(12)), 12);
    assert_eq!(extract::<i32>(&DbValue::Int8(99)), 99);
    assert_eq!(extract::<i64>(&DbValue::Int2(7)), 7);
    assert_eq!(extract::<u64>(&DbValue::Int8(10)), 10);
    assert_eq!(extract::<u8>(&DbValue::Int2(3)), 3);
    assert!(extract::<bool>(&DbValue::Boolean(true)));
    assert!(!extract::<bool>(&DbValue::Boolean(false)));
}

#[test]
fn extract_handles_null_and_boolean_fallbacks() {
    assert!(!extract::<bool>(&DbValue::Null));
    assert!(extract::<bool>(&DbValue::Int2(1)));
    assert!(!extract::<bool>(&DbValue::Int2(0)));
    assert!(extract::<bool>(&DbValue::Int8(2)));
    assert!(!extract::<bool>(&float8(0.0)));
    assert!(extract::<bool>(&float8(0.1)));
    assert!(extract::<Option<String>>(&DbValue::Null).is_none());
}

#[test]
fn extract_formats_timestamp_types() {
    let date = Date { year: 2024, month: 1, day: 2 };
    let time = Time { hour: 3, minute: 4, second: 5, nanosecond: 0 };
    let timestamp = Timestamp { date, time };

    assert_eq!(extract::<String>(&DbValue::Timestamp(timestamp)), "2024-01-02 03:04:05");

    let date = Date { year: 2024, month: 1, day: 2 };
    let time = Time { hour: 3, minute: 4, second: 5, nanosecond: 0 };
    let timestamptz = Timestamptz { timestamp: Timestamp { date, time }, offset: 0 };

    assert_eq!(
        extract::<String>(&DbValue::Timestamptz(timestamptz)),
        "2024-01-02 03:04:05 UTC"
    );
}

#[test]
fn extract_timestamp_as_epoch_seconds() {
    let timestamp = Timestamp {
        date: Date { year: 1970, month: 1, day: 1 },
        time: Time { hour: 0, minute: 0, second: 0, nanosecond: 0 },
    };

    let value = seconds_as_f64(seconds_from_db_value(&DbValue::Timestamp(timestamp)));
    assert!((value - 0.0).abs() < f64::EPSILON);
}

#[test]
fn journal_entry_equality_ignores_non_identity_fields() {
    let base = sample_entry("4", "message");
    let mut other = base.clone();
    other.priority = "7".to_string();

    assert_eq!(base, other);

    let mut different = base.clone();
    different.message = "different".to_string();

    assert_ne!(base, different);
}

#[test]
fn api_error_type_maps_postgres_errors() {
    let error = DbError::ConnectionFailure("oops".to_string());
    let mapped = APIErrorType::Insert.of_postgres(error);

    match mapped {
        APIError::InsertError(message) => {
            assert!(message.contains("Connection failure: oops"));
        }
        _ => panic!("expected insert error"),
    }
}

#[test]
fn service_errors_strip_entries() {
    let errors = ServiceErrors {
        hostname: "host".to_string(),
        service_name: "service".to_string(),
        error_count: 3,
        min_priority: 2,
        started_at: 1.0f64.to_bits(),
        last_at: 2.0f64.to_bits(),
        entries: vec![1, 2, 3],
    };

    let no_entries = ServiceErrorsNoEntries::from(errors);
    assert_eq!(no_entries.hostname, "host");
    assert_eq!(no_entries.service_name, "service");
    assert_eq!(no_entries.error_count, 3);
    assert_eq!(f64::from_bits(no_entries.started_at), 1.0);
    assert_eq!(f64::from_bits(no_entries.last_at), 2.0);
}

#[test]
fn spike_event_severity_display() {
    assert_eq!(SpikeEventSeverity::Low.to_string(), "Low");
    assert_eq!(SpikeEventSeverity::Critical.to_string(), "Critical");
}

#[test]
fn extract_formats_dates_and_times() {
    let date = Date { year: 2024, month: 2, day: 29 };
    assert_eq!(extract::<String>(&DbValue::Date(date)), "2024-02-29");
    let time = Time { hour: 3, minute: 4, second: 5, nanosecond: 500_000_000 };
    assert_eq!(extract::<String>(&DbValue::Time(time)), "03:04:05.500");
    let time = Time { hour: 23, minute: 59, second: 59, nanosecond: 1_000_000 };
    assert_eq!(extract::<String>(&DbValue::Time(time)), "23:59:59.001");
}

#[test]
fn extract_falls_back_on_invalid_dates_and_times() {
    let date = Date { year: 2023, month: 2, day: 29 };
    assert_eq!(extract::<String>(&DbValue::Date(date)), "1970-01-01");
    let time = Time { hour: 24, minute: 0, second: 0, nanosecond: 0 };
    assert_eq!(extract::<String>(&DbValue::Time(time)), "00:00:00");
    let timestamp = Timestamp {
        date: Date { year: 2024, month: 13, day: 1 },
        time: Time { hour: 1, minute: 2, second: 3, nanosecond: 0 },
    };
    assert_eq!(extract::<String>(&DbValue::Timestamp(timestamp)), "1970-01-01 01:02:03");
}

#[test]
fn timestamps_read_as_epoch_seconds() {
    let timestamp = Timestamp {
        date: Date { year: 2024, month: 1, day: 2 },
        time: Time { hour: 3, minute: 4, second: 5, nanosecond: 250 },
    };
    assert_eq!(
        seconds_from_db_value(&DbValue::Timestamp(timestamp)),
        Seconds::Counted { seconds: 1704164645, nanos: 250 }
    );
    let timestamptz = Timestamptz { timestamp, offset: 3600 };
    assert_eq!(
        seconds_from_db_value(&DbValue::Timestamptz(timestamptz)),
        Seconds::Counted { seconds: 1704164645, nanos: 250 }
    );
    let date = Date { year: 2000, month: 3, day: 1 };
    assert_eq!(
        seconds_from_db_value(&DbValue::Date(date)),
        Seconds::Counted { seconds: 951868800, nanos: 0 }
    );
    let time = Time { hour: 1, minute: 1, second: 1, nanosecond: 7 };
    assert_eq!(seconds_from_db_value(&DbValue::Time(time)), Seconds::Counted { seconds: 3661, nanos: 7 });
    assert_eq!(seconds_from_db_value(&DbValue::Null), Seconds::Counted { seconds: 0, nanos: 0 });
}

#[test]
fn extract_reads_arrays_and_large_doubles() {
    let array = DbValue::Array(vec![DbValue::Int8(3), DbValue::Int4(4), DbValue::Text("x".to_string())]);
    assert_eq!(extract::<Vec<u64>>(&array), vec![3, 4, 0]);
    assert_eq!(extract::<Vec<u64>>(&DbValue::Null), Vec::<u64>::new());
    assert_eq!(extract::<u64>(&float8(1e30)), u64::MAX);
    assert_eq!(extract::<u64>(&float8(-3.5)), 0);
    assert_eq!(extract::<u64>(&float8(41.9)), 41);
    assert_eq!(extract::<u8>(&float8(300.0)), 255);
    assert_eq!(extract::<u8>(&float8(f64::NAN)), 0);
    assert_eq!(extract::<u8>(&DbValue::Int4(258)), 2);
    assert_eq!(extract::<String>(&float8(1.5)), "1.5");
}
