//! Stream framing: a decoding buffer that turns the bytes read from a
//! stream into whole frames, the encoding of outgoing frames under a payload
//! cap, and what each read or write outcome means for the framing loop.
use vstd::prelude::*;
use bytes::{Bytes, BytesMut};
use crate::buf::{buffer_clear, buffer_extend, buffer_new, bytes_contents, bytes_mut_contents};
use crate::codec::{decode_frame, decode_frame_post, encode_frame, frame_bytes, Frame, FrameConfig};
use crate::error::{FrameError, PeerError};
use crate::handshake::check_handshake_frame;
use crate::io_kind::{io_kind, io_kind_of, IoKind};
use crate::text::{concat_text, usize_text};

verus! {

/// The bytes read from a stream that have not yet formed a whole frame,
/// with the payload cap applied when decoding them.
pub struct FrameDecoder {
    buf: BytesMut,
    max_payload: usize,
}

impl FrameDecoder {
    /// The buffered bytes.
    pub closed spec fn pending(&self) -> Seq<u8> {
        bytes_mut_contents(self.buf)
    }

    /// The payload cap.
    pub closed spec fn spec_max_payload(&self) -> usize {
        self.max_payload
    }

    /// An empty decoder with payload cap `max_payload`.
    pub fn new(max_payload: usize) -> (r: FrameDecoder)
        ensures
            r.pending() == Seq::<u8>::empty(),
            r.spec_max_payload() == max_payload,
    {
        FrameDecoder { buf: buffer_new(), max_payload }
    }

    /// An empty decoder with the payload cap of `config`.
    pub fn with_config(config: &FrameConfig) -> (r: FrameDecoder)
        ensures
            r.pending() == Seq::<u8>::empty(),
            r.spec_max_payload() == config.max_payload_size,
    {
        Self::new(config.max_payload_size)
    }

    /// The payload cap.
    pub fn max_payload(&self) -> (r: usize)
        ensures
            r == self.spec_max_payload(),
    {
        self.max_payload
    }

    /// Changes the payload cap for the frames decoded from now on.
    pub fn set_max_payload_size(&mut self, max_payload: usize)
        ensures
            final(self).spec_max_payload() == max_payload,
            final(self).pending() == old(self).pending(),
    {
        self.max_payload = max_payload;
    }

    /// Appends bytes read from the stream.
    pub fn feed(&mut self, data: &[u8])
        ensures
            final(self).pending() == old(self).pending() + data@,
            final(self).spec_max_payload() == old(self).spec_max_payload(),
    {
        buffer_extend(&mut self.buf, data);
    }

    /// Takes the next whole frame off the front of the buffered bytes;
    /// `Ok(None)` while more bytes are needed.
    pub fn next_frame(&mut self) -> (r: Result<Option<Frame>, FrameError>)
        ensures
            decode_frame_post(old(self).pending(), old(self).spec_max_payload(), r, final(self).pending()),
            final(self).spec_max_payload() == old(self).spec_max_payload(),
    {
        decode_frame(&mut self.buf, self.max_payload)
    }
}

/// What a framing loop does after one read from the stream.
pub enum ReadStep {
    /// The read was interrupted: read again.
    Retry,
    /// This many bytes arrived: feed them and decode.
    Append(usize),
    /// The framing fails with this error.
    Fail(FrameError),
}

/// The meaning of one read's outcome: no bytes means the peer closed the
/// connection; an interrupted read is retried; any other error is surfaced.
pub fn classify_read(outcome: Result<usize, std::io::Error>) -> (r: ReadStep)
    ensures
        outcome matches Ok(n) ==> if n == 0 {
            r matches ReadStep::Fail(FrameError::ConnectionClosed)
        } else {
            r matches ReadStep::Append(m) && m == n
        },
        outcome matches Err(e) ==> if io_kind_of(e) == IoKind::Interrupted {
            r is Retry
        } else {
            r matches ReadStep::Fail(FrameError::Io(x)) && x == e
        },
{
    match outcome {
        Ok(0) => ReadStep::Fail(FrameError::ConnectionClosed),
        Ok(n) => ReadStep::Append(n),
        Err(e) => {
            if io_kind(&e) == IoKind::Interrupted {
                ReadStep::Retry
            } else {
                ReadStep::Fail(FrameError::Io(e))
            }
        },
    }
}

/// What a write loop does after one write to the stream.
pub enum WriteStep {
    /// Interrupted or would block: write the same bytes again.
    Retry,
    /// This many bytes went out: go on with the rest.
    Advance(usize),
    /// The write fails with this error.
    Fail(FrameError),
}

/// The meaning of one write's outcome: zero bytes written means the
/// connection is closed; interrupted and would-block writes are retried; any
/// other error is surfaced.
pub fn classify_write(outcome: Result<usize, std::io::Error>) -> (r: WriteStep)
    ensures
        outcome matches Ok(n) ==> if n == 0 {
            r matches WriteStep::Fail(FrameError::ConnectionClosed)
        } else {
            r matches WriteStep::Advance(m) && m == n
        },
        outcome matches Err(e) ==> if io_kind_of(e) == IoKind::Interrupted || io_kind_of(e)
            == IoKind::WouldBlock {
            r is Retry
        } else {
            r matches WriteStep::Fail(FrameError::Io(x)) && x == e
        },
{
    match outcome {
        Ok(0) => WriteStep::Fail(FrameError::ConnectionClosed),
        Ok(n) => WriteStep::Advance(n),
        Err(e) => {
            let kind = io_kind(&e);
            if kind == IoKind::Interrupted || kind == IoKind::WouldBlock {
                WriteStep::Retry
            } else {
                WriteStep::Fail(FrameError::Io(e))
            }
        },
    }
}

/// Encodes one outgoing frame into `buf`, replacing what it held. A payload
/// over `max_payload` is refused before anything is encoded, so nothing of
/// it is ever written.
pub fn encode_for_send(channel: u16, payload: &[u8], max_payload: usize, buf: &mut BytesMut) -> (r:
    Result<(), FrameError>)
    ensures
        payload@.len() > max_payload ==> r == Err::<(), FrameError>(
            FrameError::PayloadTooLarge { size: payload@.len() as usize, max: max_payload },
        ) && bytes_mut_contents(*final(buf)) == Seq::<u8>::empty(),
        payload@.len() <= max_payload && payload@.len() <= u32::MAX ==> r is Ok && bytes_mut_contents(
            *final(buf),
        ) == frame_bytes(channel, payload@),
        r is Err ==> bytes_mut_contents(*final(buf)) == Seq::<u8>::empty(),
{
    buffer_clear(buf);
    let n = payload.len();
    if n > max_payload {
        return Err(FrameError::PayloadTooLarge { size: n, max: max_payload });
    }
    let r = encode_frame(channel, payload, buf);
    proof {
        assert(Seq::<u8>::empty() + frame_bytes(channel, payload@) =~= frame_bytes(channel, payload@));
    }
    r
}

/// What a handshake read loop does with one read attempt.
pub enum HandshakeRead {
    /// A valid handshake payload arrived.
    Payload(Bytes),
    /// The read timed out or would block: try again before the deadline.
    Retry,
    /// The handshake fails.
    Fail(PeerError),
}

/// The meaning of one frame read during the handshake: a CONTROL frame
/// within the cap gives its payload; another channel or an oversize payload
/// fails the handshake; a timed-out or would-block read is retried until the
/// deadline; a closed connection is a disconnect; a frame over the cap,
/// which the decoder refuses before reading its payload, fails the handshake
/// too; other frame errors fail as they are.
pub fn classify_handshake_read(outcome: Result<Frame, FrameError>, max_handshake_payload: usize) -> (r:
    HandshakeRead)
    ensures
        outcome matches Ok(f) ==> if f.channel == 0 && f.payload_view().len() <= max_handshake_payload {
            r matches HandshakeRead::Payload(p) && bytes_contents(p) == f.payload_view()
        } else {
            r matches HandshakeRead::Fail(PeerError::HandshakeFailed(_))
        },
        outcome matches Err(FrameError::ConnectionClosed) ==> r matches HandshakeRead::Fail(
            PeerError::Disconnected(_),
        ),
        outcome matches Err(FrameError::InvalidMagic) ==> r matches HandshakeRead::Fail(
            PeerError::Frame(FrameError::InvalidMagic),
        ),
        outcome matches Err(FrameError::PayloadTooLarge { .. }) ==> r matches HandshakeRead::Fail(
            PeerError::HandshakeFailed(_),
        ),
        outcome matches Err(FrameError::Io(e)) ==> if io_kind_of(e) == IoKind::WouldBlock
            || io_kind_of(e) == IoKind::TimedOut {
            r is Retry
        } else {
            r matches HandshakeRead::Fail(PeerError::Frame(FrameError::Io(x))) && x == e
        },
{
    match outcome {
        Ok(frame) => match check_handshake_frame(frame, max_handshake_payload) {
            Ok(p) => HandshakeRead::Payload(p),
            Err(e) => HandshakeRead::Fail(e),
        },
        Err(FrameError::ConnectionClosed) => HandshakeRead::Fail(
            PeerError::Disconnected("connection closed during handshake".to_owned()),
        ),
        Err(FrameError::Io(e)) => {
            let kind = io_kind(&e);
            if kind == IoKind::WouldBlock || kind == IoKind::TimedOut {
                HandshakeRead::Retry
            } else {
                HandshakeRead::Fail(PeerError::Frame(FrameError::Io(e)))
            }
        },
        Err(FrameError::PayloadTooLarge { size, .. }) => HandshakeRead::Fail(
            PeerError::HandshakeFailed(concat_text("handshake payload too large: ", usize_text(size).as_str())),
        ),
        Err(FrameError::InvalidMagic) => HandshakeRead::Fail(PeerError::Frame(FrameError::InvalidMagic)),
    }
}

} // verus!
