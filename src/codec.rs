//! The frame wire format: encoding and decoding of length-prefixed,
//! channel-tagged frames.
//!
//! ```text
//! offset 0: magic 0x49 0x50 ("IP")
//! offset 2: payload length, u32 little-endian
//! offset 6: channel id, u16 little-endian
//! offset 8: payload bytes
//! ```
use vstd::prelude::*;
use bytes::{Bytes, BytesMut};
use crate::buf::{
    buffer_advance, buffer_byte, buffer_extend, buffer_freeze, buffer_len, buffer_split_to,
    bytes_contents, bytes_len, bytes_mut_contents,
};
use crate::error::FrameError;

verus! {

/// Frame header: magic (2) + length (4) + channel (2) bytes.
pub const HEADER_SIZE: usize = 8;

/// First magic byte ('I').
pub const MAGIC_0: u8 = 0x49;

/// Second magic byte ('P').
pub const MAGIC_1: u8 = 0x50;

/// Default maximum payload size: 16 MiB.
pub const DEFAULT_MAX_PAYLOAD: usize = 16777216;

/// The largest payload length that the length field can carry.
pub const MAX_WIRE_PAYLOAD: usize = 4294967295;

/// A framed message with channel routing.
#[derive(Debug, Clone)]
pub struct Frame {
    /// The channel this message belongs to.
    pub channel: u16,
    /// The message payload.
    pub payload: Bytes,
}

impl Frame {
    /// The payload's bytes.
    pub open spec fn payload_view(&self) -> Seq<u8> {
        bytes_contents(self.payload)
    }

    /// Create a new frame.
    pub fn new(channel: u16, payload: Bytes) -> (r: Frame)
        ensures
            r.channel == channel,
            r.payload_view() == bytes_contents(payload),
    {
        Frame { channel, payload }
    }

    /// The total wire size of this frame (header + payload).
    pub fn wire_size(&self) -> (r: usize)
        requires
            self.payload_view().len() + 8 <= usize::MAX,
        ensures
            r == self.payload_view().len() + 8,
    {
        HEADER_SIZE + bytes_len(&self.payload)
    }
}

/// Four little-endian bytes of `x`.
pub open spec fn le_u32_bytes(x: u32) -> Seq<u8> {
    seq![
        (x % 256) as u8,
        ((x / 256) % 256) as u8,
        ((x / 65536) % 256) as u8,
        (x / 16777216) as u8,
    ]
}

/// Two little-endian bytes of `x`.
pub open spec fn le_u16_bytes(x: u16) -> Seq<u8> {
    seq![(x % 256) as u8, (x / 256) as u8]
}

/// The little-endian u32 stored at `s[at..at + 4]`.
pub open spec fn read_le_u32(s: Seq<u8>, at: int) -> nat {
    (s[at] + 256 * s[at + 1] + 65536 * s[at + 2] + 16777216 * s[at + 3]) as nat
}

/// The little-endian u16 stored at `s[at..at + 2]`.
pub open spec fn read_le_u16(s: Seq<u8>, at: int) -> nat {
    (s[at] + 256 * s[at + 1]) as nat
}

/// The wire bytes of one frame.
pub open spec fn frame_bytes(channel: u16, payload: Seq<u8>) -> Seq<u8>
    recommends
        payload.len() <= u32::MAX,
{
    seq![MAGIC_0, MAGIC_1] + le_u32_bytes(payload.len() as u32) + le_u16_bytes(channel) + payload
}

/// What decoding makes of a buffer.
pub enum Decoded {
    /// Not enough bytes for a frame yet.
    Incomplete,
    /// The first two bytes are not the magic.
    InvalidMagic,
    /// The announced payload length exceeds the maximum.
    TooLarge(nat),
    /// A frame with its channel and payload, and the bytes that follow it.
    Ready(u16, Seq<u8>, Seq<u8>),
}

/// Decoding of the front of a buffer, with payloads up to `max` bytes.
pub open spec fn decode_spec(s: Seq<u8>, max: nat) -> Decoded {
    if s.len() < 8 {
        Decoded::Incomplete
    } else if s[0] != MAGIC_0 || s[1] != MAGIC_1 {
        Decoded::InvalidMagic
    } else if read_le_u32(s, 2) > max {
        Decoded::TooLarge(read_le_u32(s, 2))
    } else if s.len() < 8 + read_le_u32(s, 2) {
        Decoded::Incomplete
    } else {
        Decoded::Ready(
            read_le_u16(s, 6) as u16,
            s.subrange(8, 8 + read_le_u32(s, 2) as int),
            s.subrange(8 + read_le_u32(s, 2) as int, s.len() as int),
        )
    }
}

proof fn lemma_le_u32(x: u32)
    ensures
        le_u32_bytes(x).len() == 4,
        read_le_u32(le_u32_bytes(x), 0) == x,
{
    let b = le_u32_bytes(x);
    assert(b[0] == x % 256);
    assert(b[1] == (x / 256) % 256);
    assert(b[2] == (x / 65536) % 256);
    assert(b[3] == x / 16777216);
    assert((x % 256) + 256 * ((x / 256) % 256) + 65536 * ((x / 65536) % 256) + 16777216 * (x
        / 16777216) == x) by (nonlinear_arith);
}

proof fn lemma_le_u16(x: u16)
    ensures
        le_u16_bytes(x).len() == 2,
        read_le_u16(le_u16_bytes(x), 0) == x,
{
    let b = le_u16_bytes(x);
    assert(b[0] == x % 256);
    assert(b[1] == x / 256);
}

/// The header fields of an encoded frame read back as written.
proof fn lemma_frame_header(channel: u16, payload: Seq<u8>, rest: Seq<u8>)
    requires
        payload.len() <= u32::MAX,
    ensures
        (frame_bytes(channel, payload) + rest).len() == 8 + payload.len() as int + rest.len() as int,
        (frame_bytes(channel, payload) + rest)[0] == MAGIC_0,
        (frame_bytes(channel, payload) + rest)[1] == MAGIC_1,
        read_le_u32(frame_bytes(channel, payload) + rest, 2) == payload.len(),
        read_le_u16(frame_bytes(channel, payload) + rest, 6) == channel,
        (frame_bytes(channel, payload) + rest).subrange(8, 8 + payload.len() as int) == payload,
        (frame_bytes(channel, payload) + rest).subrange(
            8 + payload.len() as int,
            8 + payload.len() as int + rest.len() as int,
        ) == rest,
{
    let l = le_u32_bytes(payload.len() as u32);
    let c = le_u16_bytes(channel);
    lemma_le_u32(payload.len() as u32);
    lemma_le_u16(channel);
    let s = frame_bytes(channel, payload) + rest;
    assert(s[2] == l[0] && s[3] == l[1] && s[4] == l[2] && s[5] == l[3]);
    assert(s[6] == c[0] && s[7] == c[1]);
    assert(s.subrange(8, 8 + payload.len() as int) =~= payload);
    assert(s.subrange(8 + payload.len() as int, 8 + payload.len() as int + rest.len() as int) =~= rest);
}

/// Decoding an encoded frame that is followed by other bytes gives back the
/// frame and leaves exactly the bytes that followed it.
pub proof fn lemma_decode_frame_then_rest(channel: u16, payload: Seq<u8>, rest: Seq<u8>, max: nat)
    requires
        payload.len() <= u32::MAX,
        payload.len() <= max,
    ensures
        decode_spec(frame_bytes(channel, payload) + rest, max) == Decoded::Ready(
            channel,
            payload,
            rest,
        ),
{
    lemma_frame_header(channel, payload, rest);
}

/// Round trip: decoding the bytes of one encoded frame, alone in a buffer,
/// yields exactly that frame and leaves the buffer empty.
pub proof fn lemma_round_trip(channel: u16, payload: Seq<u8>, max: nat)
    requires
        payload.len() <= u32::MAX,
        payload.len() <= max,
    ensures
        decode_spec(frame_bytes(channel, payload), max) == Decoded::Ready(
            channel,
            payload,
            Seq::<u8>::empty(),
        ),
{
    lemma_decode_frame_then_rest(channel, payload, Seq::<u8>::empty(), max);
    assert(frame_bytes(channel, payload) + Seq::<u8>::empty() =~= frame_bytes(channel, payload));
}

/// The bytes of a sequence of frames encoded back to back.
pub open spec fn frames_bytes(frames: Seq<(u16, Seq<u8>)>) -> Seq<u8>
    decreases frames.len(),
{
    if frames.len() == 0 {
        Seq::<u8>::empty()
    } else {
        frame_bytes(frames[0].0, frames[0].1) + frames_bytes(frames.drop_first())
    }
}

/// Decodes `n` frames one after the other from the front of `s`; `None`
/// where one of them is not ready.
pub open spec fn decode_many(s: Seq<u8>, max: nat, n: nat) -> Option<
    (Seq<(u16, Seq<u8>)>, Seq<u8>),
>
    decreases n,
{
    if n == 0 {
        Some((Seq::<(u16, Seq<u8>)>::empty(), s))
    } else {
        match decode_spec(s, max) {
            Decoded::Ready(c, p, rest) => match decode_many(rest, max, (n - 1) as nat) {
                Some((fs, tail)) => Some((seq![(c, p)] + fs, tail)),
                None => None,
            },
            _ => None,
        }
    }
}

/// Frames encoded back to back into one buffer decode to the same frames,
/// in the same order, with nothing left over.
pub proof fn lemma_sequence_round_trip(frames: Seq<(u16, Seq<u8>)>, max: nat)
    requires
        forall|i: int| 0 <= i < frames.len() ==> (#[trigger] frames[i]).1.len() <= u32::MAX,
        forall|i: int| 0 <= i < frames.len() ==> (#[trigger] frames[i]).1.len() <= max,
    ensures
        decode_many(frames_bytes(frames), max, frames.len()) == Some(
            (frames, Seq::<u8>::empty()),
        ),
    decreases frames.len(),
{
    if frames.len() > 0 {
        let rest = frames.drop_first();
        assert forall|i: int| 0 <= i < rest.len() implies (#[trigger] rest[i]).1.len() <= u32::MAX
            && rest[i].1.len() <= max by {
            assert(rest[i] == frames[i + 1]);
        }
        lemma_sequence_round_trip(rest, max);
        assert(frames[0].1.len() <= u32::MAX && frames[0].1.len() <= max);
        lemma_decode_frame_then_rest(frames[0].0, frames[0].1, frames_bytes(rest), max);
        assert(seq![frames[0]] + rest =~= frames);
    }
}

/// Every proper prefix of an encoded frame decodes as incomplete.
pub proof fn lemma_prefix_incomplete(channel: u16, payload: Seq<u8>, max: nat, k: nat)
    requires
        payload.len() <= u32::MAX,
        payload.len() <= max,
        k < 8 + payload.len(),
    ensures
        decode_spec(frame_bytes(channel, payload).take(k as int), max) == Decoded::Incomplete,
{
    lemma_frame_header(channel, payload, Seq::<u8>::empty());
    let full = frame_bytes(channel, payload);
    assert(full + Seq::<u8>::empty() =~= full);
    let s = full.take(k as int);
    if k >= 8 {
        assert(s[0] == full[0] && s[1] == full[1]);
        assert(s[2] == full[2] && s[3] == full[3] && s[4] == full[4] && s[5] == full[5]);
        assert(read_le_u32(s, 2) == read_le_u32(full, 2));
    }
}

/// A buffer of at least a header's length whose first two bytes are not the
/// magic decodes as an invalid-magic failure, whatever follows.
pub proof fn lemma_bad_magic(s: Seq<u8>, max: nat)
    requires
        s.len() >= 8,
        s[0] != MAGIC_0 || s[1] != MAGIC_1,
    ensures
        decode_spec(s, max) == Decoded::InvalidMagic,
{
}

/// Encode a frame into the wire format, appending it to `dst`.
pub fn encode_frame(channel: u16, payload: &[u8], dst: &mut BytesMut) -> (r: Result<(), FrameError>)
    ensures
        payload@.len() > u32::MAX ==> r == Err::<(), FrameError>(
            FrameError::PayloadTooLarge { size: payload@.len() as usize, max: MAX_WIRE_PAYLOAD },
        ) && bytes_mut_contents(*final(dst)) == bytes_mut_contents(*old(dst)),
        payload@.len() <= u32::MAX ==> r is Ok && bytes_mut_contents(*final(dst))
            == bytes_mut_contents(*old(dst)) + frame_bytes(channel, payload@),
{
    let n = payload.len();
    if n > MAX_WIRE_PAYLOAD {
        return Err(FrameError::PayloadTooLarge { size: n, max: MAX_WIRE_PAYLOAD });
    }
    let len = n as u32;
    let mut header: Vec<u8> = Vec::with_capacity(HEADER_SIZE);
    header.push(MAGIC_0);
    header.push(MAGIC_1);
    header.push((len % 256) as u8);
    header.push(((len / 256) % 256) as u8);
    header.push(((len / 65536) % 256) as u8);
    header.push((len / 16777216) as u8);
    header.push((channel % 256) as u8);
    header.push((channel / 256) as u8);
    assert(header@ =~= seq![MAGIC_0, MAGIC_1] + le_u32_bytes(len) + le_u16_bytes(channel));
    buffer_extend(dst, header.as_slice());
    buffer_extend(dst, payload);
    assert(bytes_mut_contents(*dst) =~= bytes_mut_contents(*old(dst)) + frame_bytes(
        channel,
        payload@,
    ));
    Ok(())
}

/// How `decode_frame`'s result and the buffer after it stand to `decode_spec`.
pub open spec fn decode_frame_post(
    before: Seq<u8>,
    max: usize,
    r: Result<Option<Frame>, FrameError>,
    after: Seq<u8>,
) -> bool {
    match decode_spec(before, max as nat) {
        Decoded::Incomplete => r == Ok::<Option<Frame>, FrameError>(None) && after == before,
        Decoded::InvalidMagic => r == Err::<Option<Frame>, FrameError>(FrameError::InvalidMagic)
            && after == before,
        Decoded::TooLarge(n) => r == Err::<Option<Frame>, FrameError>(
            FrameError::PayloadTooLarge { size: n as usize, max },
        ) && after == before,
        Decoded::Ready(c, p, rest) => r matches Ok(Some(f)) && f.channel == c && f.payload_view()
            == p && after == rest,
    }
}

/// Decode a frame from the front of a buffer.
///
/// Returns `Ok(None)` while the buffer holds no complete frame; on success
/// the frame's bytes are consumed from the buffer.
pub fn decode_frame(src: &mut BytesMut, max_payload: usize) -> (r: Result<Option<Frame>, FrameError>)
    ensures
        decode_frame_post(
            bytes_mut_contents(*old(src)),
            max_payload,
            r,
            bytes_mut_contents(*final(src)),
        ),
{
    let ghost s = bytes_mut_contents(*src);
    let avail = buffer_len(src);
    if avail < HEADER_SIZE {
        return Ok(None);
    }
    if buffer_byte(src, 0) != MAGIC_0 || buffer_byte(src, 1) != MAGIC_1 {
        return Err(FrameError::InvalidMagic);
    }
    let b2 = buffer_byte(src, 2) as u32;
    let b3 = buffer_byte(src, 3) as u32;
    let b4 = buffer_byte(src, 4) as u32;
    let b5 = buffer_byte(src, 5) as u32;
    let payload_len = (b2 + b3 * 256 + b4 * 65536 + b5 * 16777216) as usize;
    let channel = buffer_byte(src, 6) as u16 + (buffer_byte(src, 7) as u16) * 256;
    assert(payload_len == read_le_u32(s, 2));
    if payload_len > max_payload {
        return Err(FrameError::PayloadTooLarge { size: payload_len, max: max_payload });
    }
    if avail - HEADER_SIZE < payload_len {
        return Ok(None);
    }
    buffer_advance(src, HEADER_SIZE);
    let body = buffer_split_to(src, payload_len);
    let payload = buffer_freeze(body);
    assert(bytes_contents(payload) =~= s.subrange(8, 8 + payload_len));
    assert(bytes_mut_contents(*src) =~= s.subrange(8 + payload_len, s.len() as int));
    Ok(Some(Frame { channel, payload }))
}

/// Configuration for the frame codec.
#[derive(Debug, Clone)]
pub struct FrameConfig {
    /// Maximum payload size in bytes.
    pub max_payload_size: usize,
    /// Read timeout for blocking operations.
    pub read_timeout: Option<std::time::Duration>,
    /// Write timeout for blocking operations.
    pub write_timeout: Option<std::time::Duration>,
}

impl Default for FrameConfig {
    fn default() -> (r: FrameConfig)
        ensures
            r.max_payload_size == DEFAULT_MAX_PAYLOAD,
            r.read_timeout is None,
            r.write_timeout is None,
    {
        FrameConfig { max_payload_size: DEFAULT_MAX_PAYLOAD, read_timeout: None, write_timeout: None }
    }
}

} // verus!
