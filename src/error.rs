//! Error types of the transport, frame, schema and peer layers.
use vstd::prelude::*;
use std::path::PathBuf;
use std::time::Duration;
use crate::io_kind::io_error_other;
use crate::text::concat_text;

verus! {

#[verifier::external_type_specification]
#[verifier::external_body]
pub struct ExIoError(std::io::Error);

#[verifier::external_type_specification]
#[verifier::external_body]
pub struct ExPathBuf(PathBuf);

#[verifier::external_type_specification]
#[verifier::external_body]
pub struct ExJsonError(serde_json::Error);

/// Errors of the stream transport.
#[derive(Debug)]
pub enum TransportError {
    /// Failed to bind to the given path.
    Bind { path: PathBuf, source: std::io::Error },
    /// Failed to connect to the given path.
    Connect { path: PathBuf, source: std::io::Error },
    /// Failed to accept an incoming connection.
    Accept(std::io::Error),
    /// An I/O error occurred on the transport stream.
    Io(std::io::Error),
    /// The socket path is too long for the platform.
    PathTooLong { path: PathBuf, len: usize, max: usize },
    /// The path exists and is not a socket.
    ExistsNonSocket { path: PathBuf },
    /// The transport has been shut down.
    Shutdown,
}

/// Errors that can occur during frame encoding and decoding.
#[derive(Debug)]
pub enum FrameError {
    /// The frame header does not start with the magic bytes.
    InvalidMagic,
    /// The payload exceeds the maximum size.
    PayloadTooLarge { size: usize, max: usize },
    /// An I/O error occurred while reading or writing frames.
    Io(std::io::Error),
    /// The connection was closed before a complete frame was received.
    ConnectionClosed,
}

/// Errors of schema loading and validation.
#[derive(Debug)]
pub enum SchemaError {
    /// A schema file could not be loaded.
    LoadFailed(String),
    /// A schema could not be compiled.
    CompileFailed(String),
    /// A payload failed validation.
    ValidationFailed { channel: u16, message: String },
    /// A payload or schema text is not valid JSON.
    InvalidJson(serde_json::Error),
    /// No schema is registered for the channel.
    NoSchema(u16),
}

/// Errors of peer operations.
#[derive(Debug)]
pub enum PeerError {
    /// Transport-level error.
    Transport(TransportError),
    /// Frame-level error.
    Frame(FrameError),
    /// The handshake failed.
    HandshakeFailed(String),
    /// The peer disconnected, or the session is closed.
    Disconnected(String),
    /// The channel is not in the negotiated set.
    UnsupportedChannel(u16),
    /// The spill buffer of a channel is full during selective receive.
    BufferFull(u16),
    /// JSON serialization or deserialization failed.
    Json(serde_json::Error),
    /// Schema validation rejected a payload.
    Schema(SchemaError),
    /// A deadline elapsed.
    Timeout(Duration),
    /// Graceful shutdown did not complete in time.
    ShutdownFailed(String),
}

/// Maps a transport error to a frame error: an I/O cause is kept as it is;
/// any other transport failure becomes an I/O error that names it.
pub fn transport_to_frame_error(err: TransportError) -> (r: FrameError)
    ensures
        r is Io,
{
    match err {
        TransportError::Io(io) => FrameError::Io(io),
        TransportError::Accept(io) => FrameError::Io(io),
        TransportError::Bind { source, .. } => FrameError::Io(source),
        TransportError::Connect { source, .. } => FrameError::Io(source),
        TransportError::PathTooLong { .. } => FrameError::Io(
            io_error_other("socket path too long".to_owned()),
        ),
        TransportError::ExistsNonSocket { .. } => FrameError::Io(
            io_error_other("path exists and is not a socket".to_owned()),
        ),
        TransportError::Shutdown => FrameError::Io(io_error_other("transport shut down".to_owned())),
    }
}

} // verus!
