use std::time::Duration;

use ipcprims::cli::{
    classify_recv_error, frame_error, io_error, parse_duration, parse_timeout, peer_error,
    status_text, CheckStatus, RecvErrorDisposition, DATA_INVALID, FAILURE, PERMISSION_DENIED,
    TIMEOUT, USAGE,
};
use ipcprims::cli::{is_retryable_connect_error, LogLevel};
use ipcprims::error::{FrameError, PeerError, SchemaError, TransportError};
use tracing::level_filters::LevelFilter;

#[test]
fn parse_timeout_seconds() {
    assert_eq!(parse_timeout("5s").unwrap(), Duration::from_secs(5));
    assert_eq!(parse_timeout("2").unwrap(), Duration::from_secs(2));
}

#[test]
fn parse_timeout_millis() {
    assert_eq!(parse_timeout("150ms").unwrap(), Duration::from_millis(150));
}

#[test]
fn parse_timeout_invalid() {
    assert!(parse_timeout("0s").is_err());
    assert!(parse_timeout("bad").is_err());
}

#[test]
fn parse_duration_seconds_and_millis() {
    assert_eq!(parse_duration("2s").unwrap(), Duration::from_secs(2));
    assert_eq!(parse_duration("150ms").unwrap(), Duration::from_millis(150));
    assert_eq!(parse_duration("3").unwrap(), Duration::from_secs(3));
}

#[test]
fn parse_duration_rejects_invalid_values() {
    assert!(parse_duration("0s").is_err());
    assert!(parse_duration("bad").is_err());
}

#[test]
fn duration_arguments_trim_and_report_usage() {
    assert_eq!(parse_duration("  7s ").unwrap(), Duration::from_secs(7));
    assert_eq!(parse_duration("").unwrap_err().code, USAGE);
    assert_eq!(parse_timeout("ms").unwrap_err().code, USAGE);
}

#[test]
fn disconnected_error_breaks_loop() {
    let disposition = classify_recv_error(PeerError::Disconnected("closed".to_string()));
    assert!(matches!(disposition, RecvErrorDisposition::Break));
}

#[test]
fn non_schema_error_is_fatal() {
    let disposition = classify_recv_error(PeerError::UnsupportedChannel(9));
    assert!(matches!(disposition, RecvErrorDisposition::Fatal(_)));
}

#[test]
fn schema_error_continues() {
    let disposition = classify_recv_error(PeerError::Schema(SchemaError::NoSchema(1)));
    assert!(matches!(disposition, RecvErrorDisposition::ContinueWithError));
}

#[test]
fn error_codes() {
    let e = std::io::Error::from(std::io::ErrorKind::PermissionDenied);
    assert_eq!(io_error("ctx", e).code, PERMISSION_DENIED);
    let e = std::io::Error::from(std::io::ErrorKind::TimedOut);
    assert_eq!(io_error("ctx", e).code, TIMEOUT);
    let err = frame_error("ctx", FrameError::PayloadTooLarge { size: 2, max: 1 });
    assert_eq!(err.code, DATA_INVALID);
    assert!(err.to_string().starts_with("ctx: "));
    assert_eq!(frame_error("ctx", FrameError::ConnectionClosed).code, FAILURE);
    assert_eq!(peer_error("ctx", PeerError::UnsupportedChannel(3)).code, USAGE);
    assert_eq!(peer_error("ctx", PeerError::Timeout(Duration::from_secs(1))).code, TIMEOUT);
}

#[test]
fn status_labels() {
    assert_eq!(status_text(CheckStatus::Pass), "PASS");
    assert_eq!(status_text(CheckStatus::Skip), "SKIP");
}

#[test]
fn payload_preview_shows_text_or_size() {
    assert_eq!(ipcprims::cli::payload_preview(b"hello"), "hello");
    assert_eq!(ipcprims::cli::payload_preview(&[0xff, 0xfe, 0x00]), "<binary 3 bytes>");
}

#[test]
fn connect_retry_only_for_missing_or_refused() {
    let missing = PeerError::Transport(TransportError::Connect {
        path: "/tmp/x.sock".into(),
        source: std::io::Error::from(std::io::ErrorKind::NotFound),
    });
    assert!(is_retryable_connect_error(&missing));
    let denied = PeerError::Transport(TransportError::Connect {
        path: "/tmp/x.sock".into(),
        source: std::io::Error::from(std::io::ErrorKind::PermissionDenied),
    });
    assert!(!is_retryable_connect_error(&denied));
    assert!(!is_retryable_connect_error(&PeerError::BufferFull(1)));
}

#[test]
fn log_levels_map_to_filters() {
    assert_eq!(LogLevel::Error.as_filter(), LevelFilter::ERROR);
    assert_eq!(LogLevel::Warn.as_filter(), LevelFilter::WARN);
    assert_eq!(LogLevel::Info.as_filter(), LevelFilter::INFO);
    assert_eq!(LogLevel::Debug.as_filter(), LevelFilter::DEBUG);
    assert_eq!(LogLevel::Trace.as_filter(), LevelFilter::TRACE);
}

#[test]
fn doctor_verdict_follows_failed_checks() {
    let (overall, code) = ipcprims::cli::doctor_outcome(&[CheckStatus::Pass, CheckStatus::Warn]);
    assert_eq!(overall, "pass");
    assert_eq!(code, 0);
    let (overall, code) = ipcprims::cli::doctor_outcome(&[CheckStatus::Pass, CheckStatus::Fail]);
    assert_eq!(overall, "fail");
    assert_eq!(code, 30);
}
