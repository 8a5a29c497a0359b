use sidecar_supervisor::pump::{OutputEvent, PumpEvent, PumpState, PumpStep, StreamKind};
use sidecar_supervisor::record::{LogRecord, Severity};
use sidecar_supervisor::worker::WorkerStatus;

fn record(severity: Severity, message: &str) -> Option<LogRecord> {
    Some(LogRecord { severity, message: message.to_string() })
}

#[test]
fn line_is_decoded_and_trimmed() {
    let event = OutputEvent::from_line(StreamKind::Stdout, b"  model loaded \r\n".to_vec(), 40);
    assert_eq!(
        event,
        Some(OutputEvent {
            stream: StreamKind::Stdout,
            text: "model loaded".to_string(),
            emitted_at: 40,
        })
    );
}

#[test]
fn line_with_inner_space_keeps_it() {
    let event = OutputEvent::from_line(StreamKind::Stderr, b"\tstep 1 of 2\n".to_vec(), 0);
    assert_eq!(event.map(|e| e.text), Some("step 1 of 2".to_string()));
}

#[test]
fn line_of_many_bytes_per_character() {
    let bytes = "  gr\u{fc}\u{df}e \u{4e16}\u{754c}  ".as_bytes().to_vec();
    let event = OutputEvent::from_line(StreamKind::Stdout, bytes, 1);
    assert_eq!(event.map(|e| e.text), Some("gr\u{fc}\u{df}e \u{4e16}\u{754c}".to_string()));
}

#[test]
fn line_that_is_not_utf8_gives_no_event() {
    assert_eq!(OutputEvent::from_line(StreamKind::Stdout, vec![0x66, 0xff, 0x6f], 3), None);
    assert_eq!(OutputEvent::from_line(StreamKind::Stderr, vec![0xc3], 3), None);
}

#[test]
fn empty_line_gives_an_empty_event() {
    let event = OutputEvent::from_line(StreamKind::Stdout, Vec::new(), 9);
    assert_eq!(
        event,
        Some(OutputEvent { stream: StreamKind::Stdout, text: String::new(), emitted_at: 9 })
    );
}

#[test]
fn stream_severities() {
    assert_eq!(StreamKind::Stdout.severity(), Severity::Info);
    assert_eq!(StreamKind::Stderr.severity(), Severity::Error);
}

#[test]
fn records_carry_the_tag_of_the_stream() {
    let out = OutputEvent { stream: StreamKind::Stdout, text: "ready".to_string(), emitted_at: 1 };
    assert_eq!(out.to_record(), record(Severity::Info, "[ocr_mlx stdout] ready").unwrap());
    let err = OutputEvent { stream: StreamKind::Stderr, text: "oops".to_string(), emitted_at: 1 };
    assert_eq!(err.to_record(), record(Severity::Error, "[ocr_mlx stderr] oops").unwrap());
}

#[test]
fn new_pump_has_both_streams_open() {
    let pump = PumpState::new();
    assert_eq!(pump, PumpState { stdout_open: true, stderr_open: true, exit_code: None });
    assert!(!pump.finished());
}

#[test]
fn pump_logs_lines_by_stream() {
    let mut pump = PumpState::new();
    let step = pump.on_event(
        PumpEvent::Line { stream: StreamKind::Stdout, bytes: b" listening on 7771\n".to_vec() },
        5,
    );
    assert_eq!(
        step,
        PumpStep {
            record: record(Severity::Info, "[ocr_mlx stdout] listening on 7771"),
            finished: false,
        }
    );
    let step = pump.on_event(
        PumpEvent::Line { stream: StreamKind::Stderr, bytes: b"warning: slow\n".to_vec() },
        6,
    );
    assert_eq!(
        step,
        PumpStep { record: record(Severity::Error, "[ocr_mlx stderr] warning: slow"), finished: false }
    );
    assert_eq!(pump, PumpState::new());
}

#[test]
fn pump_drops_lines_that_are_not_utf8() {
    let mut pump = PumpState::new();
    let step =
        pump.on_event(PumpEvent::Line { stream: StreamKind::Stdout, bytes: vec![0xff, 0xfe] }, 5);
    assert_eq!(step, PumpStep { record: None, finished: false });
}

#[test]
fn pump_ends_when_both_streams_are_closed() {
    let mut pump = PumpState::new();
    let step = pump.on_event(PumpEvent::Closed { stream: StreamKind::Stdout }, 1);
    assert_eq!(step, PumpStep { record: None, finished: false });
    assert!(!pump.stdout_open);
    assert!(pump.stderr_open);
    let step = pump.on_event(PumpEvent::Terminated { code: Some(0) }, 2);
    assert_eq!(step, PumpStep { record: None, finished: false });
    let step = pump.on_event(PumpEvent::Closed { stream: StreamKind::Stderr }, 3);
    assert_eq!(step, PumpStep { record: None, finished: true });
    assert!(pump.finished());
    assert_eq!(pump.exit_status(), WorkerStatus::Exited(Some(0)));
}

#[test]
fn pump_without_exit_code_reports_none() {
    let mut pump = PumpState::new();
    pump.on_event(PumpEvent::Closed { stream: StreamKind::Stderr }, 1);
    pump.on_event(PumpEvent::Closed { stream: StreamKind::Stdout }, 1);
    assert!(pump.finished());
    assert_eq!(pump.exit_status(), WorkerStatus::Exited(None));
}

#[test]
fn read_error_ends_one_stream_only() {
    let mut pump = PumpState::new();
    let step = pump.on_event(
        PumpEvent::ReadError { stream: StreamKind::Stderr, message: "broken pipe".to_string() },
        1,
    );
    assert_eq!(
        step,
        PumpStep {
            record: record(Severity::Error, "[ocr_mlx stderr] read error: broken pipe"),
            finished: false,
        }
    );
    assert!(pump.stdout_open);
    assert!(!pump.stderr_open);
    let step = pump
        .on_event(PumpEvent::Line { stream: StreamKind::Stdout, bytes: b"still here".to_vec() }, 2);
    assert_eq!(step.record, record(Severity::Info, "[ocr_mlx stdout] still here"));
    let step = pump.on_event(
        PumpEvent::ReadError { stream: StreamKind::Stdout, message: "gone".to_string() },
        3,
    );
    assert_eq!(step.record, record(Severity::Error, "[ocr_mlx stdout] read error: gone"));
    assert!(step.finished);
}

#[test]
fn closed_stream_logs_nothing_more() {
    let mut pump = PumpState::new();
    pump.on_event(PumpEvent::Closed { stream: StreamKind::Stdout }, 1);
    let step =
        pump.on_event(PumpEvent::Line { stream: StreamKind::Stdout, bytes: b"late".to_vec() }, 2);
    assert_eq!(step, PumpStep { record: None, finished: false });
    let step = pump.on_event(
        PumpEvent::ReadError { stream: StreamKind::Stdout, message: "late".to_string() },
        3,
    );
    assert_eq!(step, PumpStep { record: None, finished: false });
    assert!(!pump.stdout_open);
}

#[test]
fn other_events_are_logged_for_debugging() {
    let mut pump = PumpState::new();
    let step = pump.on_event(PumpEvent::Other { description: "Error(\"x\")".to_string() }, 1);
    assert_eq!(
        step,
        PumpStep {
            record: record(Severity::Debug, "[ocr_mlx] Other event: Error(\"x\")"),
            finished: false,
        }
    );
    assert_eq!(pump, PumpState::new());
}

#[test]
fn resources_are_released_after_exit_and_drain() {
    let open = PumpState::new();
    let drained = PumpState { stdout_open: false, stderr_open: false, exit_code: Some(0) };
    assert!(drained.may_release(WorkerStatus::Exited(Some(0))));
    assert!(drained.may_release(WorkerStatus::Killed));
    assert!(!drained.may_release(WorkerStatus::Running));
    assert!(!drained.may_release(WorkerStatus::Starting));
    assert!(!open.may_release(WorkerStatus::Killed));
    let half = PumpState { stdout_open: false, stderr_open: true, exit_code: None };
    assert!(!half.may_release(WorkerStatus::Exited(None)));
}
