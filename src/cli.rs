//! Command-line conventions: exit codes, the mapping of library errors to
//! them, and the parsing of duration arguments.
use vstd::prelude::*;
use std::time::Duration;
use crate::error::{FrameError, PeerError, TransportError};
use crate::io_kind::{io_error_text, io_kind, io_kind_of, IoKind};
use crate::text::{concat_text, decimal_text, parse_u64, spec_parse_u64, trim, trimmed, usize_text};
use vstd::utf8::{encode_utf8, valid_utf8};
use crate::time::{duration_from_millis, duration_from_secs, millis_duration, secs_duration};
use tracing::level_filters::LevelFilter;

verus! {

/// Exit code: success.
pub const SUCCESS: i32 = 0;

/// Exit code: general failure.
pub const FAILURE: i32 = 1;

/// Exit code: transport failure.
pub const TRANSPORT_ERROR: i32 = 3;

/// Exit code: a health check failed.
pub const HEALTH_CHECK_FAILED: i32 = 30;

/// Exit code: permission denied.
pub const PERMISSION_DENIED: i32 = 50;

/// Exit code: invalid data.
pub const DATA_INVALID: i32 = 60;

/// Exit code: usage error.
pub const USAGE: i32 = 64;

/// Exit code: timed out.
pub const TIMEOUT: i32 = 124;

/// Exit code: internal error.
pub const INTERNAL: i32 = 125;

/// An error with the process exit code it maps to.
#[derive(Debug)]
pub struct CliError {
    pub code: i32,
    pub message: String,
}

impl CliError {
    /// An error with `code` and `message`.
    pub fn new(code: i32, message: String) -> (r: CliError)
        ensures
            r.code == code,
            r.message@ == message@,
    {
        CliError { code, message }
    }

    /// The error's message.
    pub fn to_string(&self) -> (r: String)
        ensures
            r@ == self.message@,
    {
        self.message.clone()
    }
}

/// The unit a duration argument is written in.
pub enum DurationUnit {
    Seconds,
    Millis,
}

/// Splits a duration argument into its number text and unit: a trailing
/// `ms` means milliseconds, a trailing `s` or none means seconds.
pub open spec fn split_duration(s: Seq<char>) -> (Seq<char>, DurationUnit) {
    if s.len() >= 2 && s[s.len() - 2] == 'm' && s[s.len() - 1] == 's' {
        (s.take(s.len() - 2), DurationUnit::Millis)
    } else if s.len() >= 1 && s[s.len() - 1] == 's' {
        (s.take(s.len() - 1), DurationUnit::Seconds)
    } else {
        (s, DurationUnit::Seconds)
    }
}

/// The duration that a (trimmed) argument denotes; `None` where it is
/// empty, malformed, or zero.
pub open spec fn spec_duration_arg(s: Seq<char>) -> Option<Duration> {
    let (num, unit) = split_duration(s);
    if s.len() == 0 {
        None
    } else {
        match spec_parse_u64(num) {
            Some(v) => if v == 0 {
                None
            } else {
                match unit {
                    DurationUnit::Millis => Some(millis_duration(v)),
                    DurationUnit::Seconds => Some(secs_duration(v)),
                }
            },
            None => None,
        }
    }
}

/// Parses a positive duration argument such as `5s`, `150ms` or `2`
/// (seconds); surrounding whitespace is ignored. `what` names the argument
/// in error messages.
fn parse_positive_duration(input: &str, what: &str) -> (r: Result<Duration, CliError>)
    ensures
        match r {
            Ok(d) => spec_duration_arg(trimmed(input@)) == Some(d),
            Err(e) => spec_duration_arg(trimmed(input@)) is None && e.code == USAGE,
        },
{
    let text = trim(input);
    let n = text.unicode_len();
    if n == 0 {
        return Err(CliError { code: USAGE, message: concat_text(what, " must not be empty") });
    }
    let millis = n >= 2 && text.get_char(n - 2) == 'm' && text.get_char(n - 1) == 's';
    let secs = !millis && text.get_char(n - 1) == 's';
    let number = if millis {
        text.substring_char(0, n - 2)
    } else if secs {
        text.substring_char(0, n - 1)
    } else {
        text.substring_char(0, n)
    };
    proof {
        assert(text@.take(n as int) =~= text@);
    }
    let value = match parse_u64(number) {
        Some(v) => v,
        None => {
            return Err(
                CliError { code: USAGE, message: concat_text(what, " has an invalid value") },
            );
        },
    };
    if value == 0 {
        return Err(
            CliError { code: USAGE, message: concat_text(what, " must be greater than zero") },
        );
    }
    if millis {
        Ok(duration_from_millis(value))
    } else {
        Ok(duration_from_secs(value))
    }
}

/// Parses a `--timeout` argument such as `5s`, `150ms` or `2` (seconds).
pub fn parse_timeout(input: &str) -> (r: Result<Duration, CliError>)
    ensures
        match r {
            Ok(d) => spec_duration_arg(trimmed(input@)) == Some(d),
            Err(e) => spec_duration_arg(trimmed(input@)) is None && e.code == USAGE,
        },
{
    parse_positive_duration(input, "timeout")
}

/// Parses a `--wait`-style duration argument such as `5s`, `150ms` or `2`
/// (seconds).
pub fn parse_duration(input: &str) -> (r: Result<Duration, CliError>)
    ensures
        match r {
            Ok(d) => spec_duration_arg(trimmed(input@)) == Some(d),
            Err(e) => spec_duration_arg(trimmed(input@)) is None && e.code == USAGE,
        },
{
    parse_positive_duration(input, "duration")
}

/// Output format of command results.
#[derive(Clone, Copy, Debug, PartialEq, Eq, Structural)]
pub enum OutputFormat {
    Json,
    Table,
    Pretty,
    Raw,
}

/// Format of the diagnostic log.
#[derive(Clone, Copy, Debug, PartialEq, Eq, Structural)]
pub enum LogFormat {
    Text,
    Json,
}

/// Minimum level of the diagnostic log.
#[derive(Clone, Copy, Debug, PartialEq, Eq, Structural)]
pub enum LogLevel {
    Error,
    Warn,
    Info,
    Debug,
    Trace,
}

#[verifier::external_type_specification]
#[verifier::external_body]
pub struct ExLevelFilter(LevelFilter);

/// The level filter that `tracing` parses from a level name.
pub uninterp spec fn level_filter_named(name: Seq<char>) -> LevelFilter;

/// Relies on `LevelFilter`'s `FromStr`, which accepts the five level names
/// (in any ASCII case) and depends on the name alone.
#[verifier::external_body]
fn parse_level_filter(name: &str) -> (r: LevelFilter)
    requires
        name@ == "error"@ || name@ == "warn"@ || name@ == "info"@ || name@ == "debug"@ || name@
            == "trace"@,
    ensures
        r == level_filter_named(name@),
{
    match name.parse::<LevelFilter>() {
        Ok(filter) => filter,
        Err(_) => LevelFilter::OFF,
    }
}

/// The name of a log level.
pub open spec fn spec_level_name(level: LogLevel) -> Seq<char> {
    match level {
        LogLevel::Error => "error"@,
        LogLevel::Warn => "warn"@,
        LogLevel::Info => "info"@,
        LogLevel::Debug => "debug"@,
        LogLevel::Trace => "trace"@,
    }
}

impl LogLevel {
    /// The `tracing` filter of this level.
    pub fn as_filter(self) -> (r: LevelFilter)
        ensures
            r == level_filter_named(spec_level_name(self)),
    {
        let name = match self {
            LogLevel::Error => "error",
            LogLevel::Warn => "warn",
            LogLevel::Info => "info",
            LogLevel::Debug => "debug",
            LogLevel::Trace => "trace",
        };
        parse_level_filter(name)
    }
}

/// The exit code for an I/O error of the given kind.
pub open spec fn spec_io_code(kind: IoKind) -> i32 {
    match kind {
        IoKind::PermissionDenied => PERMISSION_DENIED,
        IoKind::TimedOut | IoKind::WouldBlock => TIMEOUT,
        IoKind::ConnectionRefused => FAILURE,
        _ => INTERNAL,
    }
}

/// The exit code for an I/O error of the given kind.
pub fn io_error_code(kind: IoKind) -> (r: i32)
    ensures
        r == spec_io_code(kind),
{
    match kind {
        IoKind::PermissionDenied => PERMISSION_DENIED,
        IoKind::TimedOut | IoKind::WouldBlock => TIMEOUT,
        IoKind::ConnectionRefused => FAILURE,
        _ => INTERNAL,
    }
}

/// A message that starts with the context.
pub open spec fn in_context(message: Seq<char>, context: Seq<char>) -> bool {
    exists|detail: Seq<char>| message == context + ": "@ + detail
}

fn with_context(context: &str, detail: &str) -> (r: String)
    ensures
        r@ == context@ + ": "@ + detail@,
{
    let head = concat_text(context, ": ");
    concat_text(head.as_str(), detail)
}

/// The CLI error for an I/O error: the code follows the error's kind, and
/// the message is the context followed by the error's own text.
pub open spec fn io_error_ok(r: CliError, context: Seq<char>, err: std::io::Error) -> bool {
    r.code == spec_io_code(io_kind_of(err)) && in_context(r.message@, context)
}

/// Maps an I/O error to a CLI error: permission problems, timeouts and
/// refused connections get their own codes, anything else is internal.
pub fn io_error(context: &str, err: std::io::Error) -> (r: CliError)
    ensures
        io_error_ok(r, context@, err),
{
    let code = io_error_code(io_kind(&err));
    let text = io_error_text(&err);
    let message = with_context(context, text.as_str());
    assert(message@ == context@ + ": "@ + text@);
    CliError { code, message }
}

/// Maps a transport error to a CLI error: failures with an I/O cause map as
/// that cause does, the others to the transport code.
pub fn transport_error(context: &str, err: TransportError) -> (r: CliError)
    ensures
        match err {
            TransportError::Bind { source, .. } => io_error_ok(r, context@, source),
            TransportError::Connect { source, .. } => io_error_ok(r, context@, source),
            TransportError::Accept(source) => io_error_ok(r, context@, source),
            TransportError::Io(source) => io_error_ok(r, context@, source),
            TransportError::PathTooLong { .. } => r.code == TRANSPORT_ERROR && r.message@
                == context@ + ": "@ + "socket path too long"@,
            TransportError::ExistsNonSocket { .. } => r.code == TRANSPORT_ERROR && r.message@
                == context@ + ": "@ + "path exists and is not a socket"@,
            TransportError::Shutdown => r.code == TRANSPORT_ERROR && r.message@ == context@
                + ": "@ + "transport shut down"@,
        },
{
    match err {
        TransportError::Bind { source, .. } => io_error(context, source),
        TransportError::Connect { source, .. } => io_error(context, source),
        TransportError::Accept(source) => io_error(context, source),
        TransportError::Io(source) => io_error(context, source),
        TransportError::PathTooLong { .. } => CliError {
            code: TRANSPORT_ERROR,
            message: with_context(context, "socket path too long"),
        },
        TransportError::ExistsNonSocket { .. } => CliError {
            code: TRANSPORT_ERROR,
            message: with_context(context, "path exists and is not a socket"),
        },
        TransportError::Shutdown => CliError {
            code: TRANSPORT_ERROR,
            message: with_context(context, "transport shut down"),
        },
    }
}

/// Maps a frame error to a CLI error.
pub fn frame_error(context: &str, err: FrameError) -> (r: CliError)
    ensures
        match err {
            FrameError::Io(e) => io_error_ok(r, context@, e),
            FrameError::PayloadTooLarge { .. } => r.code == DATA_INVALID && r.message@ == context@
                + ": "@ + "payload too large"@,
            FrameError::ConnectionClosed => r.code == FAILURE && r.message@ == context@ + ": "@
                + "connection closed (incomplete frame)"@,
            FrameError::InvalidMagic => r.code == INTERNAL && r.message@ == context@ + ": "@
                + "invalid frame magic"@,
        },
{
    match err {
        FrameError::Io(source) => io_error(context, source),
        FrameError::PayloadTooLarge { .. } => CliError {
            code: DATA_INVALID,
            message: with_context(context, "payload too large"),
        },
        FrameError::ConnectionClosed => CliError {
            code: FAILURE,
            message: with_context(context, "connection closed (incomplete frame)"),
        },
        FrameError::InvalidMagic => CliError {
            code: INTERNAL,
            message: with_context(context, "invalid frame magic"),
        },
    }
}

/// Maps a peer error to a CLI error: transport and frame errors map as
/// above; the message always starts with the context.
pub fn peer_error(context: &str, err: PeerError) -> (r: CliError)
    ensures
        in_context(r.message@, context@),
        match err {
            PeerError::Schema(_) | PeerError::Json(_) => r.code == DATA_INVALID,
            PeerError::Timeout(_) => r.code == TIMEOUT,
            PeerError::UnsupportedChannel(_) => r.code == USAGE,
            PeerError::Disconnected(d) => r.code == FAILURE && r.message@ == context@ + ": "@ + d@,
            PeerError::HandshakeFailed(d) => r.code == INTERNAL && r.message@ == context@ + ": "@
                + d@,
            PeerError::ShutdownFailed(d) => r.code == INTERNAL && r.message@ == context@ + ": "@
                + d@,
            PeerError::BufferFull(_) => r.code == INTERNAL,
            PeerError::Transport(TransportError::Shutdown) => r.code == TRANSPORT_ERROR,
            PeerError::Frame(FrameError::Io(e)) => io_error_ok(r, context@, e),
            PeerError::Frame(FrameError::PayloadTooLarge { .. }) => r.code == DATA_INVALID,
            PeerError::Frame(FrameError::ConnectionClosed) => r.code == FAILURE,
            PeerError::Frame(FrameError::InvalidMagic) => r.code == INTERNAL,
            _ => true,
        },
{
    let r = match err {
        PeerError::Transport(e) => transport_error(context, e),
        PeerError::Frame(e) => frame_error(context, e),
        PeerError::Schema(_) => CliError {
            code: DATA_INVALID,
            message: with_context(context, "schema validation error"),
        },
        PeerError::Timeout(_) => CliError {
            code: TIMEOUT,
            message: with_context(context, "request timed out"),
        },
        PeerError::Json(_) => CliError {
            code: DATA_INVALID,
            message: with_context(context, "json error"),
        },
        PeerError::UnsupportedChannel(_) => CliError {
            code: USAGE,
            message: with_context(context, "channel not supported by peer"),
        },
        PeerError::Disconnected(detail) => CliError {
            code: FAILURE,
            message: with_context(context, detail.as_str()),
        },
        PeerError::HandshakeFailed(detail) => CliError {
            code: INTERNAL,
            message: with_context(context, detail.as_str()),
        },
        PeerError::BufferFull(_) => CliError {
            code: INTERNAL,
            message: with_context(context, "channel buffer full"),
        },
        PeerError::ShutdownFailed(detail) => CliError {
            code: INTERNAL,
            message: with_context(context, detail.as_str()),
        },
    };
    r
}

/// Whether a failed connection attempt may be retried: the socket is not
/// there yet, or nobody accepts on it yet.
pub fn is_retryable_connect_error(err: &PeerError) -> (r: bool)
    ensures
        r ==> (*err matches PeerError::Transport(TransportError::Connect { .. })),
{
    match err {
        PeerError::Transport(TransportError::Connect { source, .. }) => {
            let kind = io_kind(source);
            kind == IoKind::NotFound || kind == IoKind::ConnectionRefused
        },
        _ => false,
    }
}

/// Relies on `std::str::from_utf8`: the text of valid UTF-8 bytes.
#[verifier::external_body]
fn utf8_text(b: &[u8]) -> (r: Option<String>)
    ensures
        r is Some <==> valid_utf8(b@),
        r matches Some(s) ==> encode_utf8(s@) == b@,
{
    std::str::from_utf8(b).ok().map(|s| s.to_string())
}

/// The payload as printed: its text when it is valid UTF-8, otherwise a
/// note of its size.
pub fn payload_preview(payload: &[u8]) -> (r: String)
    ensures
        valid_utf8(payload@) ==> encode_utf8(r@) == payload@,
        !valid_utf8(payload@) ==> r@ == "<binary "@ + decimal_text(payload@.len()) + " bytes>"@,
{
    match utf8_text(payload) {
        Some(text) => text,
        None => {
            let mut out = concat_text("<binary ", usize_text(payload.len()).as_str());
            out.append(" bytes>");
            out
        },
    }
}

/// How an echo loop goes on after a receive error.
pub enum RecvErrorDisposition {
    /// The peer is gone: stop quietly.
    Break,
    /// A schema rejection: answer on the ERROR channel and go on.
    ContinueWithError,
    /// Anything else ends the loop with this error.
    Fatal(CliError),
}

/// Decides how an echo loop goes on after a receive error.
pub fn classify_recv_error(err: PeerError) -> (r: RecvErrorDisposition)
    ensures
        match err {
            PeerError::Disconnected(_) => r is Break,
            PeerError::Schema(_) => r is ContinueWithError,
            _ => r is Fatal,
        },
{
    match err {
        PeerError::Disconnected(_) => RecvErrorDisposition::Break,
        PeerError::Schema(_) => RecvErrorDisposition::ContinueWithError,
        other => RecvErrorDisposition::Fatal(peer_error("receive failed", other)),
    }
}

/// Outcome of one doctor check.
#[derive(Clone, Copy, Debug, PartialEq, Eq, Structural)]
pub enum CheckStatus {
    Pass,
    Fail,
    Warn,
    Info,
    Skip,
}

/// The label printed for a check status.
pub fn status_text(status: CheckStatus) -> (r: &'static str)
    ensures
        r@ == match status {
            CheckStatus::Pass => "PASS"@,
            CheckStatus::Fail => "FAIL"@,
            CheckStatus::Warn => "WARN"@,
            CheckStatus::Info => "INFO"@,
            CheckStatus::Skip => "SKIP"@,
        },
{
    proof {
        reveal_strlit("PASS");
        reveal_strlit("FAIL");
        reveal_strlit("WARN");
        reveal_strlit("INFO");
        reveal_strlit("SKIP");
    }
    match status {
        CheckStatus::Pass => "PASS",
        CheckStatus::Fail => "FAIL",
        CheckStatus::Warn => "WARN",
        CheckStatus::Info => "INFO",
        CheckStatus::Skip => "SKIP",
    }
}

/// Whether any check failed.
pub open spec fn any_failed(statuses: Seq<CheckStatus>) -> bool {
    exists|i: int| 0 <= i < statuses.len() && statuses[i] == CheckStatus::Fail
}

/// The doctor report's overall verdict and exit code: `"fail"` with the
/// health-check code when any check failed, otherwise `"pass"` with success.
pub fn doctor_outcome(statuses: &[CheckStatus]) -> (r: (&'static str, i32))
    ensures
        any_failed(statuses@) ==> r.0@ == "fail"@ && r.1 == HEALTH_CHECK_FAILED,
        !any_failed(statuses@) ==> r.0@ == "pass"@ && r.1 == SUCCESS,
{
    let mut i: usize = 0;
    while i < statuses.len()
        invariant
            i <= statuses@.len(),
            forall|j: int| 0 <= j < i ==> statuses@[j] != CheckStatus::Fail,
        decreases statuses.len() - i,
    {
        if statuses[i] == CheckStatus::Fail {
            return ("fail", HEALTH_CHECK_FAILED);
        }
        i = i + 1;
    }
    ("pass", SUCCESS)
}

/// The channel label used in command output: the built-in names, and
/// `USER` for every other id.
pub fn channel_name(channel: u16) -> (r: &'static str)
    ensures
        r@ == if channel == 0 {
            "CONTROL"@
        } else if channel == 1 {
            "COMMAND"@
        } else if channel == 2 {
            "DATA"@
        } else if channel == 3 {
            "TELEMETRY"@
        } else if channel == 4 {
            "ERROR"@
        } else {
            "USER"@
        },
{
    proof {
        reveal_strlit("CONTROL");
        reveal_strlit("COMMAND");
        reveal_strlit("DATA");
        reveal_strlit("TELEMETRY");
        reveal_strlit("ERROR");
        reveal_strlit("USER");
    }
    if channel == 0 {
        "CONTROL"
    } else if channel == 1 {
        "COMMAND"
    } else if channel == 2 {
        "DATA"
    } else if channel == 3 {
        "TELEMETRY"
    } else if channel == 4 {
        "ERROR"
    } else {
        "USER"
    }
}

} // verus!
