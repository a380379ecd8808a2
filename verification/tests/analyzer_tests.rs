use journai::analyzer::{
    analysis_id_from_rows, analysis_insert_statement, analysis_link_statements,
    checked_summary, choose_verdict_json, compact_events, context_window_limit,
    conversation_history, entries_by_ids_step, entries_limit, json_candidates, previous_context,
    response_text, sample_messages, schema_error, structured_request, summary_request,
    summary_text, verdict_json, EventKind, PlannedEvent, Role, SpikeAnalyzer, LINK_CHUNK_SIZE,
    SPIKE_STRUCTURED_SYSTEM_PROMPT, SPIKE_STRUCTURED_USER_PROMPT, SPIKE_SUMMARY_SYSTEM_PROMPT,
};
use journai::db::{DbRow, DbValue, SqlParam};
use journai::model::{APIError, JournalEntry, SpikeEventAssertion, SpikeEventSeverity};
use journai::text::truncate_message;

fn sample_entry(message: &str) -> JournalEntry {
    JournalEntry {
        boot_id: "boot".to_string(),
        hostname: "host".to_string(),
        machine_id: "machine".to_string(),
        priority: "3".to_string(),
        message: message.to_string(),
        date: 1.0f64.to_bits(),
        runtime_scope: "system".to_string(),
        pid: None,
        uid: None,
        gid: None,
        transport: None,
        syslog_facility: None,
        syslog_identifier: None,
        comm: None,
        exe: None,
        cmdline: None,
        unit: None,
        systemd_unit: None,
        systemd_slice: None,
        systemd_cgroup: None,
        code_line: None,
        code_file: None,
        job_id: None,
        job_result: None,
        job_type: None,
        invocation_id: None,
        source_monotonic_timestamp: None,
        source_boottime_timestamp: None,
    }
}

#[test]
fn compose_analysis_header_includes_context() {
    let analyzer = SpikeAnalyzer::new("host-1".to_string(), "svc".to_string());
    let header = analyzer.compose_analysis_request_header(&10.0f64.to_string(), &20.0f64.to_string(), 3);

    assert!(header.contains("host-1"));
    assert!(header.contains("svc"));
    assert!(header.contains("10"));
    assert!(header.contains("20"));
    assert!(header.contains("3"));
}

#[test]
fn compose_analysis_header_exact_text() {
    let analyzer = SpikeAnalyzer::new("host-1".to_string(), "svc".to_string());
    let header = analyzer.compose_analysis_request_header("10", "20.5", 3);
    assert_eq!(
        header,
        "Analysis Request for host: \"host-1\", service: \"svc\"\n            Time Range: 10 to 20.5 (Unix timestamps)\n            Incident Profile: Detected a spike of 3 errors in this window."
    );
}

#[test]
fn spike_summary_lite_uses_unique_messages_and_truncates() {
    let analyzer = SpikeAnalyzer::new("host-1".to_string(), "svc".to_string());
    let long_message = "a".repeat(250);

    let entries = vec![
        sample_entry("repeat"),
        sample_entry("repeat"),
        sample_entry(&long_message),
        sample_entry("first"),
        sample_entry("second"),
        sample_entry("third"),
        sample_entry("fourth"),
    ];

    let output = analyzer.compose_spike_summary_user_prompt_lite(
        &10.0f64.to_string(),
        &20.0f64.to_string(),
        6,
        &entries,
    );
    assert!(output.contains("Error Sample"));
    assert!(output.contains("repeat"));
    assert!(output.contains("first"));
    assert!(output.contains("second"));
    assert!(output.contains("third"));
    assert!(output.contains(&format!("{}...", "a".repeat(200))));

    let sample_section = output
        .split("Error Sample (first unique messages):\\n")
        .nth(1)
        .unwrap_or("");
    let sample_lines: Vec<&str> = sample_section.lines().collect();
    assert!(sample_lines.len() <= 5);
}

#[test]
fn spike_summary_full_prompt_joins_entries() {
    let analyzer = SpikeAnalyzer::new("h".to_string(), "s".to_string());
    let entries_json = vec!["{\"a\":1}".to_string(), "{\"b\":2}".to_string()];
    let prompt = analyzer.compose_spike_summary_user_prompt("1", "2", 7, &entries_json);
    assert!(prompt.starts_with("Analysis Request for host: \"h\""));
    assert!(prompt.contains("Please analyze the following journal entries and provide:"));
    assert!(prompt.ends_with("Journal Entries (JSON format):\n            {\"a\":1}\n\n{\"b\":2}"));
}

#[test]
fn sample_keeps_first_five_distinct_messages() {
    let entries = vec![
        sample_entry("a"),
        sample_entry("b"),
        sample_entry("a"),
        sample_entry("c"),
        sample_entry("d"),
        sample_entry("e"),
        sample_entry("f"),
    ];
    assert_eq!(sample_messages(&entries), vec!["a", "b", "c", "d", "e"]);
}

#[test]
fn truncate_message_keeps_short_or_exact_limit() {
    let short_message = "short message";
    assert_eq!(truncate_message(short_message, 200), short_message);

    let exact_message = "a".repeat(200);
    assert_eq!(truncate_message(&exact_message, 200), exact_message);
}

#[test]
fn truncate_message_handles_utf8() {
    let multibyte = "\u{00E9}".repeat(250);
    let truncated = truncate_message(&multibyte, 200);

    assert!(truncated.ends_with("..."));
    assert_eq!(truncated.chars().count(), 203);
    assert_eq!(truncated.trim_end_matches("...").chars().count(), 200);
}

#[test]
fn compact_events_respects_context_limit() {
    let limit = context_window_limit(&Some("2".to_string()));
    let events = vec!["first", "second", "third"];

    let compacted = compact_events(events, limit);
    assert_eq!(compacted.len(), 2);
    assert_eq!(compacted, vec!["second", "third"]);
}

#[test]
fn settings_fall_back_to_defaults() {
    assert_eq!(entries_limit(&None), 500);
    assert_eq!(entries_limit(&Some("70000".to_string())), 500);
    assert_eq!(entries_limit(&Some("+12".to_string())), 12);
    assert_eq!(context_window_limit(&Some("x".to_string())), 20);
    assert_eq!(context_window_limit(&None), 20);
}

#[test]
fn conversation_events_are_selected_by_role() {
    let kinds = vec![
        EventKind::Message(Role::System),
        EventKind::Message(Role::User),
        EventKind::Response,
        EventKind::Message(Role::Assistant),
        EventKind::ToolResults,
    ];
    assert_eq!(previous_context(&kinds), vec![1, 2, 3, 4]);
    assert_eq!(conversation_history(&kinds), vec![1, 2]);
}

#[test]
fn requests_are_planned_in_order() {
    let plan = summary_request(&vec![1, 3], "prompt".to_string());
    assert_eq!(plan.len(), 4);
    assert!(matches!(&plan[0], PlannedEvent::System(s) if s == SPIKE_SUMMARY_SYSTEM_PROMPT));
    assert!(matches!(plan[1], PlannedEvent::Kept(1)));
    assert!(matches!(plan[2], PlannedEvent::Kept(3)));
    assert!(matches!(&plan[3], PlannedEvent::User(s) if s == "prompt"));

    let structured = structured_request(&vec![0], "{}");
    assert!(matches!(&structured[0], PlannedEvent::System(s) if *s == format!("{}\n{}", SPIKE_STRUCTURED_SYSTEM_PROMPT, "{}")));
    assert!(matches!(&structured[2], PlannedEvent::User(s) if s == SPIKE_STRUCTURED_USER_PROMPT));
}

#[test]
fn reply_text_skips_blank_and_non_text_parts() {
    let parts = vec![Some("  one ".to_string()), None, Some("   ".to_string()), Some("two".to_string())];
    assert_eq!(response_text(&parts, "\n"), "one\ntwo");
    assert_eq!(response_text(&parts, ""), "onetwo");
    assert_eq!(summary_text(&parts).unwrap(), "one\ntwo");
    match summary_text(&vec![None, Some(" ".to_string())]) {
        Err(APIError::LLMError(m)) => assert_eq!(m, "LLM returned empty response"),
        other => panic!("unexpected {:?}", other),
    }
}

#[test]
fn blank_summary_is_refused() {
    match checked_summary("  \n ".to_string()) {
        Err(APIError::Other(m)) => assert_eq!(m, "Analysis response was empty"),
        other => panic!("unexpected {:?}", other),
    }
    assert_eq!(checked_summary("ok".to_string()).unwrap(), "ok");
}

#[test]
fn verdict_json_strips_code_fences() {
    let (raw, cleaned) = json_candidates(" ```json\n{\"a\":1}\n``` ");
    assert_eq!(raw, " ```json\n{\"a\":1}\n``` ");
    assert_eq!(cleaned, "{\"a\":1}");
    assert_eq!(verdict_json("{\"severity\":\"Low\"}").unwrap(), "{\"severity\":\"Low\"}");
    assert_eq!(verdict_json("```json{\"x\":true}```").unwrap(), "{\"x\":true}");
    match verdict_json("not json") {
        Err(APIError::Other(m)) => assert!(m.starts_with("Error parsing LLM response: ")),
        other => panic!("unexpected {:?}", other),
    }
}

#[test]
fn verdict_choice_follows_parser_outcomes() {
    let r = choose_verdict_json("a".to_string(), "b".to_string(), None, Some("x".to_string()));
    assert_eq!(r.unwrap(), "a");
    let r = choose_verdict_json("a".to_string(), "b".to_string(), Some("x".to_string()), None);
    assert_eq!(r.unwrap(), "b");
    match choose_verdict_json("a".to_string(), "b".to_string(), Some("x".to_string()), Some("y".to_string())) {
        Err(APIError::Other(m)) => assert_eq!(m, "Error parsing LLM response: y"),
        other => panic!("unexpected {:?}", other),
    }
    match schema_error("missing field") {
        APIError::Other(m) => assert_eq!(m, "Invalid schema in LLM response: missing field"),
        other => panic!("unexpected {:?}", other),
    }
}

#[test]
fn entries_are_fetched_in_chunks_up_to_the_limit() {
    let ids: Vec<u64> = vec![5, 6, 7];
    let (statement, next) = entries_by_ids_step(&ids, 0, 0, 500).unwrap();
    assert_eq!(next, 3);
    assert!(statement.sql.ends_with(" WHERE id IN ($1, $2, $3) LIMIT 500"));
    assert_eq!(statement.params, vec![SqlParam::Int8(5), SqlParam::Int8(6), SqlParam::Int8(7)]);
    assert!(entries_by_ids_step(&ids, 3, 3, 500).is_none());
    let (statement, _) = entries_by_ids_step(&ids, 0, 0, 0).unwrap();
    assert!(statement.sql.ends_with(" LIMIT 0"));
}

#[test]
fn analysis_is_stored_and_linked() {
    let statement = analysis_insert_statement(
        "h".to_string(),
        "spike".to_string(),
        "m".to_string(),
        "s".to_string(),
        SpikeEventAssertion { severity: SpikeEventSeverity::High, needs_user_action: true },
        &vec![1, 2],
    )
    .unwrap();
    assert_eq!(
        statement.sql,
        "INSERT INTO analyses (hostname, analysis_type, model, summary, severity, needs_user_action) VALUES ($1, $2, $3, $4, $5, $6) RETURNING id"
    );
    assert_eq!(statement.params.len(), 6);
    assert_eq!(statement.params[3], SqlParam::Text("s".to_string()));
    assert_eq!(statement.params[4], SqlParam::Text("High".to_string()));
    assert_eq!(statement.params[5], SqlParam::Boolean(true));
    assert!(analysis_insert_statement(
        "h".to_string(),
        "spike".to_string(),
        "m".to_string(),
        "s".to_string(),
        SpikeEventAssertion { severity: SpikeEventSeverity::Low, needs_user_action: false },
        &vec![],
    )
    .is_none());
    let rows = vec![DbRow { values: vec![DbValue::Int4(9)] }];
    assert_eq!(analysis_id_from_rows(&rows).unwrap(), 9);
    match analysis_id_from_rows(&vec![]) {
        Err(APIError::InsertError(m)) => assert_eq!(m, "Failed to retrieve analysis ID"),
        other => panic!("unexpected {:?}", other),
    }
    let links = analysis_link_statements(&vec![1, 2], 9);
    assert_eq!(links.len(), 1);
    assert!(links[0].sql.ends_with("VALUES ($1, $2), ($3, $4)"));
    assert_eq!(
        links[0].params,
        vec![SqlParam::Int8(1), SqlParam::Int8(9), SqlParam::Int8(2), SqlParam::Int8(9)]
    );
    let many: Vec<u64> = (0..(LINK_CHUNK_SIZE as u64 + 1)).collect();
    assert_eq!(analysis_link_statements(&many, 1).len(), 2);
}
