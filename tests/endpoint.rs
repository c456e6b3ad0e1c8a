use ipcprims::endpoint::{
    bind_action, same_file_identity, should_remove_socket, socket_path_fits, BindAction, FileIdentity, PathState,
    PathStatus,
};
use ipcprims::error::{transport_to_frame_error, FrameError, PeerError, SchemaError, TransportError};
use ipcprims::status::{map_peer_error, map_schema_error, IpcResult};

#[test]
fn test_path_too_long() {
    let long = format!("/tmp/{}.sock", "a".repeat(200));
    assert!(!socket_path_fits(long.len()));
    assert!(socket_path_fits(107));
    assert!(!socket_path_fits(108));
}

#[test]
fn stale_sockets_are_replaced_and_other_files_refused() {
    assert_eq!(bind_action(PathState::Missing), BindAction::Bind);
    assert_eq!(bind_action(PathState::Socket), BindAction::RemoveStaleThenBind);
    assert_eq!(bind_action(PathState::Other), BindAction::RefuseNonSocket);
}

#[test]
fn socket_removed_only_when_identity_unchanged() {
    let id = FileIdentity { dev: 1, ino: 42 };
    let same = PathStatus { is_socket: true, identity: id };
    let replaced = PathStatus { is_socket: true, identity: FileIdentity { dev: 1, ino: 43 } };
    let regular = PathStatus { is_socket: false, identity: id };
    assert!(should_remove_socket(Some(id), Some(same)));
    assert!(!should_remove_socket(Some(id), Some(replaced)));
    assert!(!should_remove_socket(Some(id), Some(regular)));
    assert!(!should_remove_socket(Some(id), None));
    assert!(!should_remove_socket(None, Some(same)));
}

#[test]
fn transport_errors_become_io_frame_errors() {
    let e = transport_to_frame_error(TransportError::Io(std::io::Error::from(std::io::ErrorKind::BrokenPipe)));
    assert!(matches!(e, FrameError::Io(ref io) if io.kind() == std::io::ErrorKind::BrokenPipe));
    let e = transport_to_frame_error(TransportError::Shutdown);
    assert!(matches!(e, FrameError::Io(ref io) if io.kind() == std::io::ErrorKind::Other));
}

#[test]
fn status_codes() {
    assert_eq!(map_peer_error(&PeerError::BufferFull(3)), IpcResult::BufferFull);
    assert_eq!(map_peer_error(&PeerError::HandshakeFailed("x".into())).code(), 4);
    assert_eq!(map_schema_error(&SchemaError::NoSchema(1)), IpcResult::SchemaError);
    assert_eq!(IpcResult::Success.code(), 0);
    assert_eq!(IpcResult::Internal.code(), 99);
}

#[test]
fn file_identity_and_peer_ids() {
    let a = FileIdentity { dev: 3, ino: 9 };
    assert!(same_file_identity(a, FileIdentity { dev: 3, ino: 9 }));
    assert!(!same_file_identity(a, FileIdentity { dev: 3, ino: 10 }));
    assert_eq!(ipcprims::handshake::auto_peer_id(1), "peer-1");
    assert_eq!(ipcprims::handshake::auto_peer_id(42), "peer-42");
}
