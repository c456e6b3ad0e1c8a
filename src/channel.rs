//! Built-in channel identifiers.
//!
//! Channels 0-255 are reserved for built-in use; 256 and above are free for
//! application-defined traffic.
use vstd::prelude::*;

verus! {

/// Connection management (handshake, ping/pong, shutdown).
pub const CONTROL: u16 = 0;

/// Structured commands (request/response).
pub const COMMAND: u16 = 1;

/// Bulk data transfer.
pub const DATA: u16 = 2;

/// Metrics, logs, health signals.
pub const TELEMETRY: u16 = 3;

/// Error notifications.
pub const ERROR: u16 = 4;

/// First user-defined channel id.
pub const USER_CHANNEL_START: u16 = 256;

/// The human-readable name of a channel id.
pub open spec fn spec_channel_name(id: u16) -> Seq<char> {
    if id == 0 {
        "CONTROL"@
    } else if id == 1 {
        "COMMAND"@
    } else if id == 2 {
        "DATA"@
    } else if id == 3 {
        "TELEMETRY"@
    } else if id == 4 {
        "ERROR"@
    } else if id < 256 {
        "RESERVED"@
    } else {
        "USER"@
    }
}

/// Returns a human-readable name for a channel id.
pub fn channel_name(id: u16) -> (r: &'static str)
    ensures
        r@ == spec_channel_name(id),
{
    proof {
        reveal_strlit("CONTROL");
        reveal_strlit("COMMAND");
        reveal_strlit("DATA");
        reveal_strlit("TELEMETRY");
        reveal_strlit("ERROR");
        reveal_strlit("RESERVED");
        reveal_strlit("USER");
    }
    if id == CONTROL {
        "CONTROL"
    } else if id == COMMAND {
        "COMMAND"
    } else if id == DATA {
        "DATA"
    } else if id == TELEMETRY {
        "TELEMETRY"
    } else if id == ERROR {
        "ERROR"
    } else if id < USER_CHANNEL_START {
        "RESERVED"
    } else {
        "USER"
    }
}

/// Returns true if the channel id lies in the reserved range.
pub fn is_reserved(id: u16) -> (r: bool)
    ensures
        r == (id < 256),
{
    id < USER_CHANNEL_START
}

/// Returns true if the channel id is one of the built-in channels.
pub fn is_builtin(id: u16) -> (r: bool)
    ensures
        r == (id <= 4),
{
    id <= ERROR
}

} // verus!
