//! Status codes of the foreign-function boundary, and the mapping of the
//! library's errors onto them.
use vstd::prelude::*;
use crate::error::{PeerError, SchemaError};

verus! {

/// Result codes handed across the foreign-function boundary.
#[derive(Debug, Clone, Copy, PartialEq, Eq, Structural)]
pub enum IpcResult {
    Success,
    InvalidArgument,
    TransportError,
    FrameError,
    HandshakeFailed,
    Disconnected,
    UnsupportedChannel,
    BufferFull,
    Timeout,
    ShutdownFailed,
    SchemaError,
    Internal,
}

/// The numeric code of a result.
pub open spec fn spec_code(r: IpcResult) -> i32 {
    match r {
        IpcResult::Success => 0,
        IpcResult::InvalidArgument => 1,
        IpcResult::TransportError => 2,
        IpcResult::FrameError => 3,
        IpcResult::HandshakeFailed => 4,
        IpcResult::Disconnected => 5,
        IpcResult::UnsupportedChannel => 6,
        IpcResult::BufferFull => 7,
        IpcResult::Timeout => 8,
        IpcResult::ShutdownFailed => 9,
        IpcResult::SchemaError => 10,
        IpcResult::Internal => 99,
    }
}

impl IpcResult {
    /// The numeric code handed across the boundary.
    pub fn code(self) -> (r: i32)
        ensures
            r == spec_code(self),
    {
        match self {
            IpcResult::Success => 0,
            IpcResult::InvalidArgument => 1,
            IpcResult::TransportError => 2,
            IpcResult::FrameError => 3,
            IpcResult::HandshakeFailed => 4,
            IpcResult::Disconnected => 5,
            IpcResult::UnsupportedChannel => 6,
            IpcResult::BufferFull => 7,
            IpcResult::Timeout => 8,
            IpcResult::ShutdownFailed => 9,
            IpcResult::SchemaError => 10,
            IpcResult::Internal => 99,
        }
    }
}

/// The status code of a peer error.
pub open spec fn spec_peer_status(err: PeerError) -> IpcResult {
    match err {
        PeerError::Transport(_) => IpcResult::TransportError,
        PeerError::Frame(_) => IpcResult::FrameError,
        PeerError::HandshakeFailed(_) => IpcResult::HandshakeFailed,
        PeerError::Disconnected(_) => IpcResult::Disconnected,
        PeerError::UnsupportedChannel(_) => IpcResult::UnsupportedChannel,
        PeerError::BufferFull(_) => IpcResult::BufferFull,
        PeerError::Json(_) => IpcResult::InvalidArgument,
        PeerError::Schema(_) => IpcResult::SchemaError,
        PeerError::Timeout(_) => IpcResult::Timeout,
        PeerError::ShutdownFailed(_) => IpcResult::ShutdownFailed,
    }
}

/// Maps a peer error to its status code.
pub fn map_peer_error(err: &PeerError) -> (r: IpcResult)
    ensures
        r == spec_peer_status(*err),
{
    match err {
        PeerError::Transport(_) => IpcResult::TransportError,
        PeerError::Frame(_) => IpcResult::FrameError,
        PeerError::HandshakeFailed(_) => IpcResult::HandshakeFailed,
        PeerError::Disconnected(_) => IpcResult::Disconnected,
        PeerError::UnsupportedChannel(_) => IpcResult::UnsupportedChannel,
        PeerError::BufferFull(_) => IpcResult::BufferFull,
        PeerError::Json(_) => IpcResult::InvalidArgument,
        PeerError::Schema(_) => IpcResult::SchemaError,
        PeerError::Timeout(_) => IpcResult::Timeout,
        PeerError::ShutdownFailed(_) => IpcResult::ShutdownFailed,
    }
}

/// Maps a schema error to its status code: every schema error is a schema
/// failure.
pub fn map_schema_error(err: &SchemaError) -> (r: IpcResult)
    ensures
        r == IpcResult::SchemaError,
{
    IpcResult::SchemaError
}

} // verus!
