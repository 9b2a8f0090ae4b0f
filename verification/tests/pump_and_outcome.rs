use sentry_process::capture::RollingBuffer;
use sentry_process::outcome::{
    exit_code_for, should_report, ExitReport, ProcessOutcome,
};
use sentry_process::pump::{process_line, pump_lines};
use sentry_process::snapshot::format_snapshot;
use sentry_process::{EXIT_INTERNAL, EXIT_NOT_FOUND};

#[test]
fn forwarded_line_is_byte_identical_with_ending_restored() {
    let mut buf = RollingBuffer::new(64);
    let data = process_line(&mut buf, "hello", "\n");
    assert_eq!(data, b"hello\n".to_vec());
    assert_eq!(buf.snapshot_bytes(), b"hello\n".to_vec());
}

#[test]
fn forwarded_lines_stay_in_order() {
    let mut buf = RollingBuffer::new(64);
    let mut sink: Vec<u8> = Vec::new();
    sink.extend_from_slice(&process_line(&mut buf, "first", "\n"));
    sink.extend_from_slice(&process_line(&mut buf, "second", "\n"));
    assert_eq!(sink, b"first\nsecond\n".to_vec());
    assert_eq!(buf.snapshot_bytes(), b"first\nsecond\n".to_vec());
}

#[test]
fn pumping_a_stream_of_lines_preserves_order_and_bytes() {
    let mut buf = RollingBuffer::new(64);
    let lines = vec!["first".to_string(), String::new(), "third".to_string()];
    let sink = pump_lines(&mut buf, &lines, "\n");
    assert_eq!(sink, b"first\n\nthird\n".to_vec());
    assert_eq!(buf.snapshot_bytes(), b"first\n\nthird\n".to_vec());
    assert_eq!(buf.total_ingested(), 13);
}

#[test]
fn crlf_line_ending_is_used_when_given() {
    let mut buf = RollingBuffer::new(64);
    let data = process_line(&mut buf, "hello", "\r\n");
    assert_eq!(data, b"hello\r\n".to_vec());
}

#[test]
fn successful_child_exits_zero_and_reports_nothing() {
    let exit = ExitReport::Exited {
        success: true,
        code: Some(0),
    };
    assert_eq!(exit_code_for(&exit), 0);
    assert!(!should_report(&exit));
}

#[test]
fn failing_child_code_passes_through_and_is_reported() {
    let mut err_buf = RollingBuffer::new(64);
    let forwarded = process_line(&mut err_buf, "oops", "\n");
    assert_eq!(forwarded, b"oops\n".to_vec());
    let outcome = ProcessOutcome {
        exit: ExitReport::Exited {
            success: false,
            code: Some(2),
        },
        stdout: format_snapshot(&RollingBuffer::new(64)),
        stderr: format_snapshot(&err_buf),
    };
    assert_eq!(outcome.exit_code(), 2);
    assert!(outcome.should_report());
    assert_eq!(outcome.stderr.text, "oops\n");
    assert_eq!(outcome.stdout.text, "");
}

#[test]
fn signal_terminated_child_exits_internal_code() {
    let exit = ExitReport::Exited {
        success: false,
        code: None,
    };
    assert_eq!(exit_code_for(&exit), 1);
    assert!(should_report(&exit));
}

#[test]
fn failed_wait_exits_internal_code_without_reporting() {
    assert_eq!(exit_code_for(&ExitReport::WaitFailed), EXIT_INTERNAL);
    assert!(!should_report(&ExitReport::WaitFailed));
}

#[test]
fn spawn_failure_code_is_command_not_found() {
    assert_eq!(EXIT_NOT_FOUND, 127);
}
