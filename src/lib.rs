//! Local inter-process messaging: a length-prefixed, channel-multiplexed
//! frame protocol with a handshake that negotiates version and channels, a
//! peer session that routes frames and runs the control plane, and optional
//! per-channel JSON Schema validation.
//!
//! The library decides; the code around it moves bytes. Each module states
//! its rules as contracts:
//!
//! - `codec`: the wire format, with round-trip laws;
//! - `stream`: turning stream reads into frames and frames into writes;
//! - `handshake`: field bounds, version compatibility, channel negotiation;
//! - `session`: the per-connection state machine and its ordering law;
//! - `schema`: the channel-to-schema registry and schema-file rules;
//! - `endpoint`: the socket-path rules of bind and teardown;
//! - `cli`, `status`, `render`: exit codes, status codes, redacted renderings.

pub mod buf;
pub mod channel;
pub mod cli;
pub mod codec;
pub mod endpoint;
pub mod error;
pub mod handshake;
pub mod io_kind;
pub mod json;
pub mod render;
pub mod schema;
pub mod session;
pub mod status;
pub mod stream;
pub mod text;
pub mod time;
