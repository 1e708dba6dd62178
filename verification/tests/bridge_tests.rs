use rg_bridge::bridge::{bridge_step, BridgeEvent, BridgePhase, SearchResult};

fn match_line(number: u64) -> String {
    format!(
        r#"{{"type":"match","data":{{"path":{{"text":"f.rs"}},"lines":{{"text":"line {}\n"}},"line_number":{},"absolute_offset":0,"submatches":[]}}}}"#,
        number, number
    )
}

/// Drive the machine over a list of events, collecting everything emitted.
fn run(events: Vec<BridgeEvent>) -> (BridgePhase, Vec<SearchResult>) {
    let mut phase = BridgePhase::Launching;
    let mut out = Vec::new();
    for e in events {
        let (next, emitted) = bridge_step(phase, e);
        phase = next;
        if let Some(r) = emitted {
            out.push(r);
        }
    }
    (phase, out)
}

fn terminal_count(out: &[SearchResult]) -> usize {
    out.iter()
        .filter(|r| matches!(r, SearchResult::Error(_) | SearchResult::Done))
        .count()
}

#[test]
fn normal_success_with_matches_emits_one_done_last() {
    let (phase, out) = run(vec![
        BridgeEvent::Launched,
        BridgeEvent::LineRead { line: match_line(1) },
        BridgeEvent::LineRead { line: String::from("{\"type\":\"begin\",\"data\":{\"path\":null}}") },
        BridgeEvent::LineRead { line: match_line(2) },
        BridgeEvent::OutputExhausted,
        BridgeEvent::Exited { success: true, code: Some(0), stderr: Vec::new() },
    ]);
    assert_eq!(phase, BridgePhase::Complete);
    assert_eq!(out.len(), 3);
    assert!(matches!(out[0], SearchResult::Match(ref m) if m.line_number == 1));
    assert!(matches!(out[1], SearchResult::Match(ref m) if m.line_number == 2));
    assert_eq!(out[2], SearchResult::Done);
    assert_eq!(terminal_count(&out), 1);
}

#[test]
fn zero_matches_with_success_exit_still_finishes() {
    let (phase, out) = run(vec![
        BridgeEvent::Launched,
        BridgeEvent::OutputExhausted,
        BridgeEvent::Exited { success: true, code: Some(0), stderr: Vec::new() },
    ]);
    assert_eq!(phase, BridgePhase::Complete);
    assert_eq!(out, vec![SearchResult::Done]);
}

#[test]
fn nonzero_exit_with_stderr_reports_the_stderr_text() {
    let (_, out) = run(vec![
        BridgeEvent::Launched,
        BridgeEvent::OutputExhausted,
        BridgeEvent::Exited {
            success: false,
            code: Some(2),
            stderr: b"regex parse error\n".to_vec(),
        },
    ]);
    assert_eq!(
        out,
        vec![SearchResult::Error(String::from("rg exited with error: regex parse error"))]
    );
}

#[test]
fn nonzero_exit_with_empty_stderr_reports_the_status() {
    let (_, out) = run(vec![
        BridgeEvent::Launched,
        BridgeEvent::OutputExhausted,
        BridgeEvent::Exited { success: false, code: Some(2), stderr: Vec::new() },
    ]);
    assert_eq!(out, vec![SearchResult::Error(String::from("rg exited with status: 2"))]);
    let (_, out) = run(vec![
        BridgeEvent::Launched,
        BridgeEvent::OutputExhausted,
        BridgeEvent::Exited { success: false, code: None, stderr: Vec::new() },
    ]);
    assert_eq!(out, vec![SearchResult::Error(String::from("rg exited with non-zero status."))]);
}

#[test]
fn negative_exit_codes_are_rendered_with_their_sign() {
    let (_, out) = run(vec![
        BridgeEvent::Launched,
        BridgeEvent::OutputExhausted,
        BridgeEvent::Exited { success: false, code: Some(-1), stderr: Vec::new() },
    ]);
    assert_eq!(out, vec![SearchResult::Error(String::from("rg exited with status: -1"))]);
}

#[test]
fn missing_tool_reports_a_single_failure_and_nothing_more() {
    let (phase, out) = run(vec![
        BridgeEvent::LaunchFailed { not_found: true, detail: String::from("No such file") },
        BridgeEvent::OutputExhausted,
        BridgeEvent::Exited { success: true, code: Some(0), stderr: Vec::new() },
    ]);
    assert_eq!(phase, BridgePhase::Complete);
    assert_eq!(
        out,
        vec![SearchResult::Error(String::from(
            "Error: 'rg' command not found. Please ensure ripgrep is installed and in your PATH."
        ))]
    );
    assert_eq!(terminal_count(&out), 1);
}

#[test]
fn other_spawn_failures_carry_the_detail() {
    let (_, out) = run(vec![BridgeEvent::LaunchFailed {
        not_found: false,
        detail: String::from("permission denied"),
    }]);
    assert_eq!(
        out,
        vec![SearchResult::Error(String::from("Failed to spawn rg process: permission denied"))]
    );
}

#[test]
fn read_failure_is_terminal_and_nothing_follows() {
    let (phase, out) = run(vec![
        BridgeEvent::Launched,
        BridgeEvent::LineRead { line: match_line(1) },
        BridgeEvent::ReadFailed { detail: String::from("broken pipe") },
        BridgeEvent::LineRead { line: match_line(2) },
        BridgeEvent::Exited { success: true, code: Some(0), stderr: Vec::new() },
    ]);
    assert_eq!(phase, BridgePhase::Complete);
    assert_eq!(out.len(), 2);
    assert_eq!(out[1], SearchResult::Error(String::from("Error reading rg output: broken pipe")));
    assert_eq!(terminal_count(&out), 1);
}

#[test]
fn wait_failure_is_reported() {
    let (_, out) = run(vec![
        BridgeEvent::Launched,
        BridgeEvent::OutputExhausted,
        BridgeEvent::WaitFailed { detail: String::from("no child") },
    ]);
    assert_eq!(
        out,
        vec![SearchResult::Error(String::from("Failed to wait for rg process: no child"))]
    );
}

#[test]
fn sink_closed_after_three_matches_stops_without_any_further_event() {
    let mut events = vec![BridgeEvent::Launched];
    for n in 1..=3 {
        events.push(BridgeEvent::LineRead { line: match_line(n) });
    }
    events.push(BridgeEvent::SinkClosed);
    // output kept arriving, but the bridge has stopped
    events.push(BridgeEvent::LineRead { line: match_line(4) });
    events.push(BridgeEvent::LineRead { line: match_line(5) });
    let (phase, out) = run(events);
    assert_eq!(phase, BridgePhase::Complete);
    assert_eq!(out.len(), 3);
    assert!(out.iter().all(|r| matches!(r, SearchResult::Match(_))));
    assert_eq!(terminal_count(&out), 0);
}

#[test]
fn malformed_lines_do_not_fail_the_stream() {
    let (phase, out) = run(vec![
        BridgeEvent::Launched,
        BridgeEvent::LineRead { line: String::from("garbage") },
        BridgeEvent::LineRead { line: match_line(7) },
        BridgeEvent::OutputExhausted,
        BridgeEvent::Exited { success: true, code: Some(0), stderr: Vec::new() },
    ]);
    assert_eq!(phase, BridgePhase::Complete);
    assert_eq!(out.len(), 2);
    assert!(matches!(out[0], SearchResult::Match(ref m) if m.line_number == 7));
    assert_eq!(out[1], SearchResult::Done);
}
