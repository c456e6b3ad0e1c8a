use bytes::{BufMut, Bytes, BytesMut};
use ipcprims::codec::{
    decode_frame, encode_frame, Frame, DEFAULT_MAX_PAYLOAD, HEADER_SIZE, MAGIC_0, MAGIC_1,
};
use ipcprims::error::FrameError;

#[test]
fn test_encode_decode_roundtrip() {
    let mut buf = BytesMut::new();
    let payload = b"hello, ipcprims!";
    let channel = 1u16;

    encode_frame(channel, payload, &mut buf).unwrap();

    assert_eq!(buf.len(), HEADER_SIZE + payload.len());

    let frame = decode_frame(&mut buf, DEFAULT_MAX_PAYLOAD).unwrap().unwrap();

    assert_eq!(frame.channel, channel);
    assert_eq!(frame.payload.as_ref(), payload);
    assert!(buf.is_empty());
}

#[test]
fn test_decode_incomplete_header() {
    let mut buf = BytesMut::from(&[0x49, 0x50, 0x00][..]);
    let result = decode_frame(&mut buf, DEFAULT_MAX_PAYLOAD).unwrap();
    assert!(result.is_none());
}

#[test]
fn test_decode_incomplete_payload() {
    let mut buf = BytesMut::new();
    encode_frame(1, b"hello", &mut buf).unwrap();
    buf.truncate(HEADER_SIZE + 2);

    let result = decode_frame(&mut buf, DEFAULT_MAX_PAYLOAD).unwrap();
    assert!(result.is_none());
}

#[test]
fn test_decode_invalid_magic() {
    let mut buf = BytesMut::from(&[0xFF, 0xFF, 0x00, 0x00, 0x00, 0x00, 0x00, 0x00][..]);
    let result = decode_frame(&mut buf, DEFAULT_MAX_PAYLOAD);
    assert!(matches!(result, Err(FrameError::InvalidMagic)));
}

#[test]
fn test_decode_payload_too_large() {
    let mut buf = BytesMut::new();
    buf.put_slice(&[MAGIC_0, MAGIC_1]);
    buf.put_u32_le(1024 * 1024 * 32);
    buf.put_u16_le(1);

    let result = decode_frame(&mut buf, DEFAULT_MAX_PAYLOAD);
    assert!(matches!(result, Err(FrameError::PayloadTooLarge { .. })));
}

#[test]
fn test_multiple_frames() {
    let mut buf = BytesMut::new();
    encode_frame(1, b"first", &mut buf).unwrap();
    encode_frame(2, b"second", &mut buf).unwrap();

    let f1 = decode_frame(&mut buf, DEFAULT_MAX_PAYLOAD).unwrap().unwrap();
    assert_eq!(f1.channel, 1);
    assert_eq!(f1.payload.as_ref(), b"first");

    let f2 = decode_frame(&mut buf, DEFAULT_MAX_PAYLOAD).unwrap().unwrap();
    assert_eq!(f2.channel, 2);
    assert_eq!(f2.payload.as_ref(), b"second");

    assert!(buf.is_empty());
}

#[test]
fn test_empty_payload() {
    let mut buf = BytesMut::new();
    encode_frame(0, b"", &mut buf).unwrap();

    let frame = decode_frame(&mut buf, DEFAULT_MAX_PAYLOAD).unwrap().unwrap();
    assert_eq!(frame.channel, 0);
    assert!(frame.payload.is_empty());
}

#[test]
fn test_frame_wire_size() {
    let frame = Frame::new(1, Bytes::from_static(b"test"));
    assert_eq!(frame.wire_size(), HEADER_SIZE + 4);
}

#[test]
fn encoded_header_is_bit_exact() {
    let mut buf = BytesMut::new();
    encode_frame(0x0102, b"abc", &mut buf).unwrap();
    assert_eq!(&buf[..], &[0x49, 0x50, 3, 0, 0, 0, 0x02, 0x01, b'a', b'b', b'c'][..]);
}

#[test]
fn encode_appends_after_existing_bytes() {
    let mut buf = BytesMut::from(&b"xy"[..]);
    encode_frame(7, b"z", &mut buf).unwrap();
    assert_eq!(&buf[..2], b"xy");
    assert_eq!(buf.len(), 2 + HEADER_SIZE + 1);
}

#[test]
fn every_proper_prefix_is_incomplete() {
    let mut full = BytesMut::new();
    encode_frame(9, b"payload", &mut full).unwrap();
    for k in 0..full.len() {
        let mut prefix = BytesMut::from(&full[..k]);
        let result = decode_frame(&mut prefix, DEFAULT_MAX_PAYLOAD).unwrap();
        assert!(result.is_none());
        assert_eq!(prefix.len(), k);
    }
}

#[test]
fn bad_magic_fails_whatever_follows() {
    let mut buf = BytesMut::from(&[0x49, 0x51, 5, 0, 0, 0, 1, 0, 1, 2, 3, 4, 5][..]);
    assert!(matches!(decode_frame(&mut buf, DEFAULT_MAX_PAYLOAD), Err(FrameError::InvalidMagic)));
    assert_eq!(buf.len(), 13);
}

#[test]
fn payload_at_the_limit_decodes_and_one_more_is_refused() {
    let mut buf = BytesMut::new();
    encode_frame(2, &[7u8; 32], &mut buf).unwrap();
    let frame = decode_frame(&mut buf.clone(), 32).unwrap().unwrap();
    assert_eq!(frame.payload.len(), 32);
    match decode_frame(&mut buf, 31) {
        Err(FrameError::PayloadTooLarge { size, max }) => {
            assert_eq!(size, 32);
            assert_eq!(max, 31);
        }
        other => panic!("unexpected: {other:?}"),
    }
}

#[test]
fn frames_back_to_back_decode_in_order() {
    let frames: Vec<(u16, Vec<u8>)> = vec![(1, b"a".to_vec()), (3, vec![]), (2, b"ccc".to_vec())];
    let mut buf = BytesMut::new();
    for (c, p) in &frames {
        encode_frame(*c, p, &mut buf).unwrap();
    }
    for (c, p) in &frames {
        let f = decode_frame(&mut buf, DEFAULT_MAX_PAYLOAD).unwrap().unwrap();
        assert_eq!(f.channel, *c);
        assert_eq!(f.payload.as_ref(), p.as_slice());
    }
    assert!(buf.is_empty());
}
