use sidecar_supervisor::lifecycle::{shutdown_record, startup_record};
use sidecar_supervisor::pump::{
    ends_stream, line_record, pump, route, status_string, ExitStatus, OutputEvent, Sink, Stream,
};

#[test]
fn lines_come_in_order_before_termination() {
    let events = vec![
        OutputEvent::Stdout(b"a\n".to_vec()),
        OutputEvent::Stdout(b"b\n".to_vec()),
        OutputEvent::Terminated(ExitStatus { code: Some(0), signal: None }),
    ];
    let r = pump(&events);
    assert_eq!(r.len(), 3);
    assert_eq!(r[0].sink, Sink::Info);
    assert_eq!(r[0].text, "API: a\n");
    assert_eq!(r[1].sink, Sink::Info);
    assert_eq!(r[1].text, "API: b\n");
    assert_eq!(r[2].sink, Sink::Diagnostic);
    assert_eq!(r[2].text, "API Process Terminated with status: TerminatedPayload { code: Some(0), signal: None }");
}

#[test]
fn nothing_after_termination() {
    let events = vec![
        OutputEvent::Terminated(ExitStatus { code: None, signal: Some(9) }),
        OutputEvent::Stdout(b"late\n".to_vec()),
    ];
    let r = pump(&events);
    assert_eq!(r.len(), 1);
    assert_eq!(r[0].text, "API Process Terminated with status: TerminatedPayload { code: None, signal: Some(9) }");
}

#[test]
fn empty_batch() {
    assert!(pump(&Vec::new()).is_empty());
}

#[test]
fn stderr_is_informational() {
    let r = route(&OutputEvent::Stderr(b"listening on 8000\n".to_vec()));
    assert_eq!(r.sink, Sink::Info);
    assert_eq!(r.text, "API Info: listening on 8000\n");
}

#[test]
fn invalid_utf8_is_replaced() {
    let r = route(&OutputEvent::Stdout(vec![b'x', 0xff, b'\n']));
    assert_eq!(r.text, "API: x\u{FFFD}\n");
}

#[test]
fn process_error_is_diagnostic() {
    let r = route(&OutputEvent::Error("broken pipe".to_string()));
    assert_eq!(r.sink, Sink::Diagnostic);
    assert_eq!(r.text, "API Process Error: broken pipe");
    assert!(!ends_stream(&OutputEvent::Error("x".to_string())));
    assert!(ends_stream(&OutputEvent::Terminated(ExitStatus { code: Some(1), signal: None })));
}

#[test]
fn negative_exit_codes() {
    let st = ExitStatus { code: Some(i32::MIN), signal: Some(-1) };
    assert_eq!(status_string(st), "TerminatedPayload { code: Some(-2147483648), signal: Some(-1) }");
}

#[test]
fn line_records_are_tagged() {
    assert_eq!(line_record(Stream::Stdout, "x").text, "API: x");
    assert_eq!(line_record(Stream::Stderr, "").text, "API Info: ");
}

#[test]
fn lifecycle_reports() {
    let ok = startup_record(&Ok("API server started successfully".to_string()));
    assert_eq!(ok.sink, Sink::Info);
    assert_eq!(ok.text, "API server started successfully");
    let bad = startup_record(&Err("boom".to_string()));
    assert_eq!(bad.sink, Sink::Diagnostic);
    assert_eq!(bad.text, "Failed to start API server: boom");
    let down = shutdown_record(&Err("denied".to_string()));
    assert_eq!(down.sink, Sink::Diagnostic);
    assert_eq!(down.text, "Error stopping API server: denied");
}
