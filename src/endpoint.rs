//! Decisions of the filesystem socket endpoint: the path-length bound,
//! what to do with a path that already exists at bind, and whether teardown
//! may remove the socket file.
use vstd::prelude::*;

verus! {

/// Longest socket path, in bytes, plus one: `sockaddr_un.sun_path` holds 108
/// bytes on Linux, including the terminating NUL.
pub const MAX_SOCKET_PATH_LEN: usize = 108;

/// Default permission mode of a created socket file.
pub const DEFAULT_SOCKET_MODE: u32 = 0o600;

/// Whether a socket path of `len` bytes fits the platform's limit.
pub fn socket_path_fits(len: usize) -> (r: bool)
    ensures
        r == (len < MAX_SOCKET_PATH_LEN),
{
    len < MAX_SOCKET_PATH_LEN
}

/// What `symlink_metadata` reports of a path before bind.
#[derive(Clone, Copy, Debug, PartialEq, Eq, Structural)]
pub enum PathState {
    /// Nothing exists at the path.
    Missing,
    /// A socket exists at the path.
    Socket,
    /// Something other than a socket exists at the path.
    Other,
}

/// What bind does with the path first.
#[derive(Clone, Copy, Debug, PartialEq, Eq, Structural)]
pub enum BindAction {
    /// Bind at once.
    Bind,
    /// Remove the stale socket, then bind.
    RemoveStaleThenBind,
    /// Refuse: the path exists and is not a socket.
    RefuseNonSocket,
}

/// A stale socket is replaced; anything else that exists is never removed.
pub fn bind_action(state: PathState) -> (r: BindAction)
    ensures
        r == match state {
            PathState::Missing => BindAction::Bind,
            PathState::Socket => BindAction::RemoveStaleThenBind,
            PathState::Other => BindAction::RefuseNonSocket,
        },
{
    match state {
        PathState::Missing => BindAction::Bind,
        PathState::Socket => BindAction::RemoveStaleThenBind,
        PathState::Other => BindAction::RefuseNonSocket,
    }
}

/// The identity of a file: its device and inode numbers.
#[derive(Clone, Copy, Debug, PartialEq, Eq, Structural)]
pub struct FileIdentity {
    pub dev: u64,
    pub ino: u64,
}

/// What `symlink_metadata` reports of the socket path at teardown.
#[derive(Clone, Copy, Debug, PartialEq, Eq, Structural)]
pub struct PathStatus {
    pub is_socket: bool,
    pub identity: FileIdentity,
}

/// Teardown removes the socket path if and only if it still holds a socket
/// with the device and inode recorded when bind created it; a path that is
/// gone, replaced, or was never recorded is left alone.
pub fn should_remove_socket(created: Option<FileIdentity>, current: Option<PathStatus>) -> (r: bool)
    ensures
        r <==> (created matches Some(id) && current matches Some(st) && st.is_socket
            && st.identity.dev == id.dev && st.identity.ino == id.ino),
{
    match (created, current) {
        (Some(id), Some(st)) => st.is_socket && st.identity.dev == id.dev && st.identity.ino
            == id.ino,
        _ => false,
    }
}

/// Whether two metadata reports name the same file: same device, same
/// inode. A file opened after its path was inspected must pass this check,
/// so that a path swapped in between is refused.
pub fn same_file_identity(a: FileIdentity, b: FileIdentity) -> (r: bool)
    ensures
        r == (a.dev == b.dev && a.ino == b.ino),
{
    a.dev == b.dev && a.ino == b.ino
}

} // verus!
