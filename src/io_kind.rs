//! The kinds of I/O error that the library's decisions depend on.
use vstd::prelude::*;
use std::io::ErrorKind;

verus! {

/// The kinds of `std::io::Error` that the library tells apart.
#[derive(Clone, Copy, Debug, PartialEq, Eq, Structural)]
pub enum IoKind {
    Interrupted,
    WouldBlock,
    TimedOut,
    PermissionDenied,
    ConnectionRefused,
    NotFound,
    Other,
}

/// The kind of an I/O error, as far as the library tells kinds apart.
pub uninterp spec fn io_kind_of(e: std::io::Error) -> IoKind;

/// Relies on `std::io::Error::kind`, which depends on the error alone,
/// telling apart the kinds that the library's decisions depend on.
#[verifier::external_body]
pub(crate) fn io_kind(e: &std::io::Error) -> (r: IoKind)
    ensures
        r == io_kind_of(*e),
{
    match e.kind() {
        ErrorKind::Interrupted => IoKind::Interrupted,
        ErrorKind::WouldBlock => IoKind::WouldBlock,
        ErrorKind::TimedOut => IoKind::TimedOut,
        ErrorKind::PermissionDenied => IoKind::PermissionDenied,
        ErrorKind::ConnectionRefused => IoKind::ConnectionRefused,
        ErrorKind::NotFound => IoKind::NotFound,
        _ => IoKind::Other,
    }
}

/// Relies on `std::io::Error`'s `Display` through `ToString`: its message.
#[verifier::external_body]
pub(crate) fn io_error_text(e: &std::io::Error) -> (r: String) {
    e.to_string()
}

/// Relies on `std::io::Error::other`: an error of kind `Other` carrying
/// the message.
#[verifier::external_body]
pub(crate) fn io_error_other(message: String) -> (r: std::io::Error) {
    std::io::Error::other(message)
}

} // verus!
