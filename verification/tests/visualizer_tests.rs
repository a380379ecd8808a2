use journai::db::{DbRow, DbValue, SqlParam};
use journai::model::APIError;
use journai::visualizer::{
    alert_class, alert_from_row, alert_html, analyses_from_rows, analysis_details_page,
    analysis_history_page, analysis_id_of, analysis_queue_page, analysis_record_of,
    analysis_record_statement, count_from_rows, dashboard_alerts_page, dashboard_overview_of,
    dashboard_overview_page, hostnames_html, overview_statements, pending_analyses_statement,
    queue_info_of, updated_at_text, AlertInfo, AnalysisInfo, AnalysisRecord, DashboardOverview,
    QueueInfo, ACTIVE_HOSTS_QUERY, CRITICAL_ALERTS_QUERY, HTML_FOOTER, HTML_HEADER,
};

fn text(s: &str) -> DbValue {
    DbValue::Text(s.to_string())
}

fn record() -> AnalysisRecord {
    AnalysisRecord {
        id: 7,
        hostname: "host-1".to_string(),
        service_name: "sshd".to_string(),
        analysis_type: "spike".to_string(),
        analysed_at: "2024-01-02 03:04:05".to_string(),
        severity: "High".to_string(),
        model: "m".to_string(),
        summary: "line one\nline two".to_string(),
        needs_user_action: true,
        entries_count: 12,
        first_error: "1.5".to_string(),
        last_error: "9.5".to_string(),
    }
}

#[test]
fn counts_come_from_the_first_column_of_the_first_row() {
    assert_eq!(count_from_rows(&vec![]), 0);
    assert_eq!(count_from_rows(&vec![DbRow { values: vec![] }]), 0);
    let rows = vec![DbRow { values: vec![DbValue::Int8(17), DbValue::Int8(3)] }];
    assert_eq!(count_from_rows(&rows), 17);
}

#[test]
fn overview_reads_its_five_counts_in_order() {
    let results: Vec<Vec<DbRow>> =
        (1..=5).map(|i| vec![DbRow { values: vec![DbValue::Int8(i)] }]).collect();
    let overview = dashboard_overview_of(&results);
    assert_eq!(
        overview,
        DashboardOverview {
            active_hosts: 1,
            total_entries_today: 2,
            error_spikes_active: 3,
            critical_alerts: 4,
            collection_rate_per_hour: 5,
        }
    );
    let statements = overview_statements(10, 20, 30);
    assert_eq!(statements.len(), 5);
    assert_eq!(statements[0].sql, ACTIVE_HOSTS_QUERY);
    assert_eq!(statements[0].params, vec![SqlParam::Float8(10)]);
    assert_eq!(statements[1].params, vec![SqlParam::Float8(20)]);
    assert_eq!(statements[2].params, vec![SqlParam::Float8(10)]);
    assert_eq!(statements[3].sql, CRITICAL_ALERTS_QUERY);
    assert!(statements[3].params.is_empty());
    assert_eq!(statements[4].params, vec![SqlParam::Float8(30)]);
    assert_eq!(pending_analyses_statement(30).params, vec![SqlParam::Float8(30)]);
}

#[test]
fn alert_rows_read_action_flag_as_number() {
    let row = DbRow {
        values: vec![text("h"), text("svc"), text("Critical"), DbValue::Int8(4), text("12"), DbValue::Int2(1)],
    };
    let alert = alert_from_row(&row);
    assert_eq!(alert.hostname, "h");
    assert_eq!(alert.error_count, 4);
    assert!(alert.needs_action);
    let row = DbRow {
        values: vec![text("h"), text("svc"), text("Low"), DbValue::Int8(4), text("12"), DbValue::Boolean(true)],
    };
    assert!(!alert_from_row(&row).needs_action);
}

#[test]
fn alert_classes_follow_severity() {
    assert_eq!(alert_class(&"Critical".to_string()), "alert-critical");
    assert_eq!(alert_class(&"High".to_string()), "alert-high");
    assert_eq!(alert_class(&"Medium".to_string()), "alert-medium");
    assert_eq!(alert_class(&"Low".to_string()), "alert-low");
    assert_eq!(alert_class(&"critical".to_string()), "alert-low");
}

#[test]
fn alert_item_matches_page_template() {
    let alert = AlertInfo {
        hostname: "h".to_string(),
        service_name: "svc".to_string(),
        severity: "High".to_string(),
        error_count: 9,
        started_at: "100".to_string(),
        needs_action: false,
    };
    let expected = format!(
        r#"<div class="alert {}">
                        <strong>{}/{}</strong> - {} errors
                        <div class="timestamp">Started: {} | Severity: {} | Action Required: {}</div>
                    </div>"#,
        "alert-high", "h", "svc", 9, "100", "High", "No"
    );
    assert_eq!(alert_html(&alert), expected);
    let page = dashboard_alerts_page(&vec![alert.clone(), alert]);
    assert!(page.starts_with(HTML_HEADER));
    assert!(page.contains(&format!("{}\n{}", expected, expected)));
    assert!(page.ends_with(&format!("{}\n            ", HTML_FOOTER)));
    assert!(dashboard_alerts_page(&vec![]).contains("<p>No active alerts</p>"));
}

#[test]
fn overview_page_shows_counts_hosts_and_time() {
    let overview = DashboardOverview {
        active_hosts: 2,
        total_entries_today: 300,
        error_spikes_active: 1,
        critical_alerts: 0,
        collection_rate_per_hour: 45,
    };
    let hosts = vec!["a".to_string(), "b".to_string()];
    assert_eq!(
        hostnames_html(&hosts),
        "<ul><li><a href=\"/analysis/history/a\">a</a></li>\n<li><a href=\"/analysis/history/b\">b</a></li></ul>"
    );
    assert_eq!(hostnames_html(&vec![]), "<p>No hosts found</p>");
    let page = dashboard_overview_page(&overview, &hosts, "2024-01-02 03:04:05");
    assert!(page.starts_with(HTML_HEADER));
    assert!(page.contains("<div class=\"metric-value\">45/hr</div>"));
    assert!(page.contains("<div class=\"metric-value\">300</div>"));
    assert!(page.contains("<p>Last updated: 2024-01-02 03:04:05</p>"));
    assert!(page.contains(&hostnames_html(&hosts)));
}

#[test]
fn queue_page_lists_recent_analyses() {
    let rows = vec![DbRow {
        values: vec![text("h"), text("svc"), text("spike"), text("2024-01-01 00:00:00"), text("Low")],
    }];
    let recent = analyses_from_rows(&rows);
    assert_eq!(recent[0].analysis_type, "spike");
    let queue = queue_info_of(&vec![DbRow { values: vec![DbValue::Int8(3)] }], &rows);
    assert_eq!(queue.pending_analyses, 3);
    let page = analysis_queue_page(&queue);
    assert!(page.contains("<strong>svc/spike</strong> - Low (h)"));
    assert!(page.contains("<div class=\"metric-value\">3</div>"));
    let empty = QueueInfo { pending_analyses: 0, recent_analyses: Vec::<AnalysisInfo>::new() };
    assert!(analysis_queue_page(&empty).contains("<p>No recent analyses</p>"));
}

#[test]
fn history_and_details_pages_show_a_record() {
    let page = analysis_history_page("host-1", &vec![record()]);
    assert!(page.contains("<h1>Analysis History - host-1</h1>"));
    assert!(page.contains("<td>12</td>"));
    assert!(page.contains("<a href=\"/analysis/details/7\">Details</a>"));
    assert!(analysis_history_page("x", &vec![]).contains("<p>No analysis history found</p>"));

    let details = analysis_details_page(&record());
    assert!(details.contains("<h1>Analysis Details - #7</h1>"));
    assert!(details.contains("<p>line one<br>line two</p>"));
    assert!(details.contains("<strong>Needs User Action:</strong> Yes"));
    assert!(details.contains("<a href=\"/analysis/history/host-1\">Back to Host History</a>"));
}

#[test]
fn analysis_ids_are_parsed_like_i32() {
    assert_eq!(analysis_id_of("42").unwrap(), 42);
    assert_eq!(analysis_id_of("-7").unwrap(), -7);
    assert_eq!(analysis_id_of("+7").unwrap(), 7);
    assert_eq!(analysis_id_of("2147483647").unwrap(), i32::MAX);
    assert_eq!(analysis_id_of("-2147483648").unwrap(), i32::MIN);
    for bad in ["", "-", "+", "2147483648", "1a", " 1"] {
        match analysis_id_of(bad) {
            Err(APIError::FetchError(m)) => assert_eq!(m, "Invalid analysis ID"),
            other => panic!("unexpected {:?} for {:?}", other, bad),
        }
    }
    assert_eq!(analysis_record_statement(7).params, vec![SqlParam::Int4(7)]);
}

#[test]
fn missing_analysis_is_reported() {
    match analysis_record_of(&vec![]) {
        Err(APIError::FetchError(m)) => assert_eq!(m, "Analysis not found"),
        other => panic!("unexpected {:?}", other.map(|r| r.id)),
    }
    let row = DbRow {
        values: vec![
            DbValue::Int4(3),
            text("h"),
            text("s"),
            text("spike"),
            text("t"),
            text("Low"),
            text("m"),
            text("sum"),
            DbValue::Boolean(true),
            DbValue::Int8(5),
            text("1"),
            text("2"),
        ],
    };
    let r = analysis_record_of(&vec![row]).unwrap();
    assert_eq!(r.id, 3);
    assert!(r.needs_user_action);
    assert_eq!(r.entries_count, 5);
}

#[test]
fn page_time_is_written_in_utc() {
    assert_eq!(updated_at_text(0, 0).unwrap(), "1970-01-01 00:00:00");
    assert_eq!(updated_at_text(1704164645, 0).unwrap(), "2024-01-02 03:04:05");
    assert!(updated_at_text(i64::MAX, 0).is_none());
}
