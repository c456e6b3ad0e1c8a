use bytes::BytesMut;
use ipcprims::codec::{encode_frame, Frame};
use ipcprims::error::{FrameError, PeerError};
use ipcprims::stream::{
    classify_handshake_read, classify_read, classify_write, encode_for_send, FrameDecoder,
    HandshakeRead, ReadStep, WriteStep,
};
use std::io::ErrorKind;

#[test]
fn decoder_reassembles_partial_reads() {
    let mut wire = BytesMut::new();
    encode_frame(4, b"slow", &mut wire).unwrap();
    let mut d = FrameDecoder::new(1024);
    for b in wire.iter() {
        assert!(d.next_frame().unwrap().is_none());
        d.feed(&[*b]);
    }
    let f = d.next_frame().unwrap().unwrap();
    assert_eq!(f.channel, 4);
    assert_eq!(f.payload.as_ref(), b"slow");
}

#[test]
fn read_outcomes() {
    assert!(matches!(classify_read(Ok(0)), ReadStep::Fail(FrameError::ConnectionClosed)));
    assert!(matches!(classify_read(Ok(5)), ReadStep::Append(5)));
    assert!(matches!(classify_read(Err(std::io::Error::from(ErrorKind::Interrupted))), ReadStep::Retry));
    assert!(matches!(
        classify_read(Err(std::io::Error::from(ErrorKind::WouldBlock))),
        ReadStep::Fail(FrameError::Io(_))
    ));
}

#[test]
fn write_outcomes() {
    assert!(matches!(classify_write(Ok(0)), WriteStep::Fail(FrameError::ConnectionClosed)));
    assert!(matches!(classify_write(Ok(3)), WriteStep::Advance(3)));
    assert!(matches!(classify_write(Err(std::io::Error::from(ErrorKind::Interrupted))), WriteStep::Retry));
    assert!(matches!(classify_write(Err(std::io::Error::from(ErrorKind::WouldBlock))), WriteStep::Retry));
    assert!(matches!(
        classify_write(Err(std::io::Error::from(ErrorKind::BrokenPipe))),
        WriteStep::Fail(FrameError::Io(_))
    ));
}

#[test]
fn oversize_send_encodes_nothing() {
    let mut buf = BytesMut::from(&b"stale"[..]);
    let r = encode_for_send(1, b"oversized", 4, &mut buf);
    assert!(matches!(r, Err(FrameError::PayloadTooLarge { size: 9, max: 4 })));
    assert!(buf.is_empty());
    encode_for_send(1, b"ok", 4, &mut buf).unwrap();
    assert_eq!(buf.len(), 10);
}

#[test]
fn handshake_reads() {
    let ok = classify_handshake_read(Ok(Frame::new(0, bytes::Bytes::from_static(b"{}"))), 16);
    assert!(matches!(ok, HandshakeRead::Payload(_)));
    let wrong = classify_handshake_read(Ok(Frame::new(1, bytes::Bytes::from_static(b"{}"))), 16);
    assert!(matches!(wrong, HandshakeRead::Fail(PeerError::HandshakeFailed(_))));
    let big = classify_handshake_read(Ok(Frame::new(0, bytes::Bytes::from(vec![b'a'; 17]))), 16);
    assert!(matches!(big, HandshakeRead::Fail(PeerError::HandshakeFailed(_))));
    let timed_out = classify_handshake_read(Err(FrameError::Io(std::io::Error::from(ErrorKind::TimedOut))), 16);
    assert!(matches!(timed_out, HandshakeRead::Retry));
    let closed = classify_handshake_read(Err(FrameError::ConnectionClosed), 16);
    assert!(matches!(closed, HandshakeRead::Fail(PeerError::Disconnected(_))));
}

#[test]
fn oversize_handshake_frame_fails_the_handshake() {
    let r = classify_handshake_read(Err(FrameError::PayloadTooLarge { size: 300, max: 64 }), 64);
    assert!(matches!(r, HandshakeRead::Fail(PeerError::HandshakeFailed(_))));
    let r = classify_handshake_read(Err(FrameError::Io(std::io::Error::from(ErrorKind::BrokenPipe))), 64);
    assert!(matches!(r, HandshakeRead::Fail(PeerError::Frame(FrameError::Io(ref e))) if e.kind() == ErrorKind::BrokenPipe));
}
