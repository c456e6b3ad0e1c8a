//! The peer session: the per-connection state that routes received frames,
//! holds the per-channel spill buffer of selective receive, and runs the
//! control plane (ping/pong, shutdown request/ack, force close).
//!
//! The session decides; its owner moves the bytes. Each receive step hands
//! the session one frame taken from the wire (or one control message taken
//! from a CONTROL frame) and carries out the step it returns.
use vstd::prelude::*;
use std::time::Duration;
use crate::channel::CONTROL;
use crate::codec::{Frame, DEFAULT_MAX_PAYLOAD};
use crate::error::{FrameError, PeerError, SchemaError};
use crate::handshake::HandshakeResult;
use crate::text::{concat_text, same_text};
use crate::time::{duration_from_secs, secs_duration};

verus! {

/// CONTROL message type: ping request.
pub const CONTROL_PING: &'static str = "ping";

/// CONTROL message type: ping response.
pub const CONTROL_PONG: &'static str = "pong";

/// CONTROL message type: graceful shutdown request.
pub const CONTROL_SHUTDOWN_REQUEST: &'static str = "shutdown_request";

/// CONTROL message type: graceful shutdown acknowledgement.
pub const CONTROL_SHUTDOWN_ACK: &'static str = "shutdown_ack";

/// CONTROL message type: force-close request.
pub const CONTROL_SHUTDOWN_FORCE: &'static str = "shutdown_force";

/// Default bound on the frames buffered per channel during selective receive.
pub const DEFAULT_CHANNEL_BUFFER: usize = 64;

/// Shutdown phase of a session.
#[derive(Clone, Copy, Debug, PartialEq, Eq, Structural)]
pub enum Phase {
    Open,
    ShutdownRequestedLocal,
    ShutdownRequestedRemote,
    Closed,
}

/// The well-known control message types; `Other` for any unknown type.
#[derive(Clone, Copy, Debug, PartialEq, Eq, Structural)]
pub enum ControlKind {
    Ping,
    Pong,
    ShutdownRequest,
    ShutdownAck,
    ShutdownForce,
    Other,
}

/// What a receive loop is waiting for.
#[derive(Clone, Copy, Debug, PartialEq, Eq, Structural)]
pub enum Waiting {
    /// The next frame on any application channel (`recv`).
    AnyChannel,
    /// The next frame on one channel (`recv_on`).
    Channel(u16),
    /// A pong (`ping`).
    Pong,
    /// A shutdown acknowledgement (`shutdown`).
    ShutdownAck,
}

/// What the owner does after a control message.
#[derive(Clone, Copy, Debug, PartialEq, Eq, Structural)]
pub enum ControlStep {
    /// Nothing to send; keep reading.
    Continue,
    /// Send a pong, then keep reading.
    ReplyPong,
    /// The awaited pong arrived.
    PongArrived,
    /// The awaited shutdown acknowledgement arrived; the session is closed.
    AckArrived,
    /// The peer asked to shut down: send a shutdown acknowledgement, then
    /// finish with `finish_remote_shutdown`.
    AckThenClose,
}

/// What became of an application frame taken from the wire.
pub enum FrameStep {
    /// Hand this frame to the caller.
    Deliver(Frame),
    /// The frame was kept in its channel's spill buffer; keep reading.
    Buffered,
}

/// Behaviour settings of a session.
#[derive(Clone, Debug)]
pub struct PeerConfig {
    /// How long `shutdown` waits for an acknowledgement.
    pub shutdown_timeout: Duration,
    /// Most frames buffered per channel during selective receive.
    pub channel_buffer_capacity: usize,
}

impl Default for PeerConfig {
    fn default() -> (r: PeerConfig)
        ensures
            r.shutdown_timeout == secs_duration(5),
            r.channel_buffer_capacity == DEFAULT_CHANNEL_BUFFER,
    {
        PeerConfig {
            shutdown_timeout: duration_from_secs(5),
            channel_buffer_capacity: DEFAULT_CHANNEL_BUFFER,
        }
    }
}

/// The payloads of the frames on channel `c`, in order.
pub open spec fn on_channel(s: Seq<(u16, Seq<u8>)>, c: u16) -> Seq<Seq<u8>>
    decreases s.len(),
{
    if s.len() == 0 {
        Seq::<Seq<u8>>::empty()
    } else if s[0].0 == c {
        seq![s[0].1] + on_channel(s.drop_first(), c)
    } else {
        on_channel(s.drop_first(), c)
    }
}

proof fn lemma_on_channel_append(s: Seq<(u16, Seq<u8>)>, t: Seq<(u16, Seq<u8>)>, c: u16)
    ensures
        on_channel(s + t, c) == on_channel(s, c) + on_channel(t, c),
    decreases s.len(),
{
    if s.len() == 0 {
        assert(s + t =~= t);
    } else {
        assert((s + t).drop_first() =~= s.drop_first() + t);
        lemma_on_channel_append(s.drop_first(), t, c);
    }
}

proof fn lemma_on_channel_single(x: (u16, Seq<u8>), c: u16)
    ensures
        on_channel(seq![x], c) == if x.0 == c {
            seq![x.1]
        } else {
            Seq::<Seq<u8>>::empty()
        },
{
    let s = seq![x];
    assert(s.drop_first() =~= Seq::<(u16, Seq<u8>)>::empty());
    assert(on_channel(s.drop_first(), c) == Seq::<Seq<u8>>::empty());
    if x.0 == c {
        assert(seq![x.1] + Seq::<Seq<u8>>::empty() =~= seq![x.1]);
    }
}

proof fn lemma_on_channel_push(s: Seq<(u16, Seq<u8>)>, x: (u16, Seq<u8>), c: u16)
    ensures
        on_channel(s.push(x), c) == if x.0 == c {
            on_channel(s, c).push(x.1)
        } else {
            on_channel(s, c)
        },
{
    lemma_on_channel_append(s, seq![x], c);
    lemma_on_channel_single(x, c);
    assert(s.push(x) =~= s + seq![x]);
    if x.0 == c {
        assert(on_channel(s, c) + seq![x.1] =~= on_channel(s, c).push(x.1));
    } else {
        assert(on_channel(s, c) + Seq::<Seq<u8>>::empty() =~= on_channel(s, c));
    }
}

proof fn lemma_on_channel_none(s: Seq<(u16, Seq<u8>)>, c: u16)
    requires
        forall|i: int| 0 <= i < s.len() ==> (#[trigger] s[i]).0 != c,
    ensures
        on_channel(s, c) == Seq::<Seq<u8>>::empty(),
    decreases s.len(),
{
    if s.len() > 0 {
        assert forall|i: int| 0 <= i < s.drop_first().len() implies (
        #[trigger] s.drop_first()[i]).0 != c by {
            assert(s.drop_first()[i] == s[i + 1]);
        }
        lemma_on_channel_none(s.drop_first(), c);
    }
}

/// Removing the first frame of channel `c` takes the front payload off that
/// channel and leaves every other channel as it was.
proof fn lemma_on_channel_remove(s: Seq<(u16, Seq<u8>)>, idx: int, c: u16, d: u16)
    requires
        0 <= idx < s.len(),
        s[idx].0 == c,
        forall|j: int| 0 <= j < idx ==> (#[trigger] s[j]).0 != c,
    ensures
        on_channel(s, c).len() > 0,
        on_channel(s, c)[0] == s[idx].1,
        on_channel(s.remove(idx), c) == on_channel(s, c).drop_first(),
        d != c ==> on_channel(s.remove(idx), d) == on_channel(s, d),
{
    let pre = s.take(idx);
    let post = s.skip(idx + 1);
    assert(s =~= pre + (seq![s[idx]] + post));
    assert(s.remove(idx) =~= pre + post);
    assert forall|j: int| 0 <= j < pre.len() implies (#[trigger] pre[j]).0 != c by {
        assert(pre[j] == s[j]);
    }
    lemma_on_channel_none(pre, c);
    lemma_on_channel_append(pre, seq![s[idx]] + post, c);
    lemma_on_channel_append(seq![s[idx]], post, c);
    lemma_on_channel_append(pre, post, c);
    lemma_on_channel_append(pre, seq![s[idx]] + post, d);
    lemma_on_channel_append(seq![s[idx]], post, d);
    lemma_on_channel_append(pre, post, d);
    lemma_on_channel_single(s[idx], c);
    lemma_on_channel_single(s[idx], d);
    assert(Seq::<Seq<u8>>::empty() + on_channel(post, d) =~= on_channel(post, d));
    assert(Seq::<Seq<u8>>::empty() + on_channel(post, c) =~= on_channel(post, c));
    assert(Seq::<Seq<u8>>::empty() + on_channel(seq![s[idx]] + post, c) =~= on_channel(seq![s[idx]] + post, c));
    assert(on_channel(s, c) =~= seq![s[idx].1] + on_channel(post, c));
    assert(on_channel(s.remove(idx), c) =~= on_channel(post, c));
}

/// The per-connection state of an open peer session.
pub struct Peer {
    id: String,
    handshake: HandshakeResult,
    queue: Vec<Frame>,
    phase: Phase,
    config: PeerConfig,
    max_payload: usize,
    /// Application frames that the session took from the wire and admitted,
    /// in arrival order.
    accepted: Ghost<Seq<(u16, Seq<u8>)>>,
    /// Application frames handed to the caller, in delivery order.
    delivered: Ghost<Seq<(u16, Seq<u8>)>>,
    /// Whether a spill buffer ever refused a frame.
    overflowed: Ghost<bool>,
}

/// A frame as a channel and its payload.
pub open spec fn frame_entry(f: Frame) -> (u16, Seq<u8>) {
    (f.channel, f.payload_view())
}

/// Frames as channels and payloads, in order.
pub open spec fn queue_entries(q: Seq<Frame>) -> Seq<(u16, Seq<u8>)> {
    q.map_values(|f: Frame| frame_entry(f))
}

impl Peer {
    /// The frames in the spill buffer, oldest first.
    pub closed spec fn buffered(&self) -> Seq<(u16, Seq<u8>)> {
        queue_entries(self.queue@)
    }

    /// Admitted application frames, in arrival order.
    pub closed spec fn accepted(&self) -> Seq<(u16, Seq<u8>)> {
        self.accepted@
    }

    /// Frames handed to the caller, in delivery order.
    pub closed spec fn delivered(&self) -> Seq<(u16, Seq<u8>)> {
        self.delivered@
    }

    /// Whether a spill buffer ever refused a frame.
    pub closed spec fn overflowed(&self) -> bool {
        self.overflowed@
    }

    /// The shutdown phase.
    pub closed spec fn spec_phase(&self) -> Phase {
        self.phase
    }

    /// The negotiated channels.
    pub closed spec fn spec_channels(&self) -> Seq<u16> {
        self.handshake.negotiated_channels@
    }

    /// The operational payload cap.
    pub closed spec fn spec_max_payload(&self) -> usize {
        self.max_payload
    }

    /// The per-channel spill bound.
    pub closed spec fn spec_capacity(&self) -> usize {
        self.config.channel_buffer_capacity
    }

    /// The session's identifier.
    pub closed spec fn spec_id(&self) -> Seq<char> {
        self.id@
    }

    /// The session's invariant: every buffered frame is on a negotiated
    /// channel, and, as long as no spill buffer refused a frame, what was
    /// delivered on each channel followed by what is buffered for it is
    /// exactly what was admitted on it.
    pub closed spec fn wf(&self) -> bool {
        &&& !self.handshake.negotiated_channels@.contains(CONTROL)
        &&& forall|c: u16| #[trigger] on_channel(self.buffered(), c).len() <= self.config.channel_buffer_capacity
        &&& forall|i: int|
            0 <= i < self.queue@.len() ==> self.handshake.negotiated_channels@.contains(
                #[trigger] self.queue@[i].channel,
            )
        &&& !self.overflowed@ ==> forall|c: u16|
            on_channel(self.delivered@, c) + on_channel(self.buffered(), c) == #[trigger] on_channel(
                self.accepted@,
                c,
            )
    }

    /// A new session over a completed handshake.
    pub fn new(id: String, handshake: HandshakeResult, config: PeerConfig) -> (r: Peer)
        requires
            !handshake.negotiated_channels@.contains(CONTROL),
        ensures
            r.wf(),
            r.spec_phase() == Phase::Open,
            r.spec_id() == id@,
            r.spec_channels() == handshake.negotiated_channels@,
            r.spec_max_payload() == DEFAULT_MAX_PAYLOAD,
            r.spec_capacity() == config.channel_buffer_capacity,
            r.buffered() == Seq::<(u16, Seq<u8>)>::empty(),
            r.accepted() == Seq::<(u16, Seq<u8>)>::empty(),
            r.delivered() == Seq::<(u16, Seq<u8>)>::empty(),
            !r.overflowed(),
    {
        let r = Peer {
            id,
            handshake,
            queue: Vec::new(),
            phase: Phase::Open,
            config,
            max_payload: DEFAULT_MAX_PAYLOAD,
            accepted: Ghost(Seq::empty()),
            delivered: Ghost(Seq::empty()),
            overflowed: Ghost(false),
        };
        assert(r.buffered() =~= Seq::<(u16, Seq<u8>)>::empty());
        assert forall|c: u16| #[trigger] on_channel(r.buffered(), c).len() <= r.config.channel_buffer_capacity by {
            assert(on_channel(r.buffered(), c) == Seq::<Seq<u8>>::empty());
        }
        r
    }

    /// The session's peer identifier.
    pub fn id(&self) -> (r: &str)
        ensures
            r@ == self.spec_id(),
    {
        self.id.as_str()
    }

    /// The negotiated channels.
    pub fn channels(&self) -> (r: &[u16])
        ensures
            r@ == self.spec_channels(),
    {
        self.handshake.negotiated_channels.as_slice()
    }

    /// The handshake that opened the session.
    pub fn handshake_result(&self) -> (r: &HandshakeResult)
        ensures
            r.negotiated_channels@ == self.spec_channels(),
    {
        &self.handshake
    }

    /// The shutdown phase.
    pub fn phase(&self) -> (r: Phase)
        ensures
            r == self.spec_phase(),
    {
        self.phase
    }

    /// The session's behaviour settings.
    pub fn config(&self) -> (r: &PeerConfig)
        ensures
            r.channel_buffer_capacity == self.spec_capacity(),
    {
        &self.config
    }

    /// Whether the session is closed.
    pub fn is_closed(&self) -> (r: bool)
        ensures
            r == (self.spec_phase() == Phase::Closed),
    {
        self.phase == Phase::Closed
    }

    /// Whether `channel` was negotiated.
    pub fn supports_channel(&self, channel: u16) -> (r: bool)
        ensures
            r == self.spec_channels().contains(channel),
    {
        let v = &self.handshake.negotiated_channels;
        let mut i: usize = 0;
        while i < v.len()
            invariant
                i <= v.len(),
                v@ == self.spec_channels(),
                forall|j: int| 0 <= j < i ==> v@[j] != channel,
            decreases v.len() - i,
        {
            if v[i] == channel {
                return true;
            }
            i = i + 1;
        }
        false
    }

    /// Checks a send of `payload_len` bytes on `channel`, given the schema
    /// verdict on the payload. CONTROL is always available on an open session.
    pub fn check_send(
        &self,
        channel: u16,
        payload_len: usize,
        verdict: Result<(), SchemaError>,
    ) -> (r: Result<(), PeerError>)
        ensures
            self.spec_phase() == Phase::Closed ==> r matches Err(PeerError::Disconnected(_)),
            self.spec_phase() != Phase::Closed && channel != CONTROL
                && !self.spec_channels().contains(channel) ==> r == Err::<(), PeerError>(
                PeerError::UnsupportedChannel(channel),
            ),
            self.spec_phase() != Phase::Closed && (channel == CONTROL
                || self.spec_channels().contains(channel)) ==> match verdict {
                Err(e) => r == Err::<(), PeerError>(PeerError::Schema(e)),
                Ok(()) => if payload_len > self.spec_max_payload() {
                    r == Err::<(), PeerError>(
                        PeerError::Frame(
                            FrameError::PayloadTooLarge {
                                size: payload_len,
                                max: self.spec_max_payload(),
                            },
                        ),
                    )
                } else {
                    r is Ok
                },
            },
    {
        if self.phase == Phase::Closed {
            return Err(PeerError::Disconnected("session closed".to_owned()));
        }
        if channel != CONTROL && !self.supports_channel(channel) {
            return Err(PeerError::UnsupportedChannel(channel));
        }
        match verdict {
            Err(e) => Err(PeerError::Schema(e)),
            Ok(()) => {
                if payload_len > self.max_payload {
                    Err(
                        PeerError::Frame(
                            FrameError::PayloadTooLarge { size: payload_len, max: self.max_payload },
                        ),
                    )
                } else {
                    Ok(())
                }
            },
        }
    }

    /// Checks that a ping may start.
    pub fn check_ping(&self) -> (r: Result<(), PeerError>)
        ensures
            r is Ok <==> self.spec_phase() != Phase::Closed,
            r is Err ==> r matches Err(PeerError::Disconnected(_)),
    {
        if self.phase == Phase::Closed {
            return Err(PeerError::Disconnected("session closed".to_owned()));
        }
        Ok(())
    }

    /// Index of the first buffered frame that `waiting` can take.
    fn first_buffered(&self, waiting: Waiting) -> (r: Option<usize>)
        ensures
            match r {
                Some(i) => i < self.queue@.len() && takes(waiting, self.queue@[i as int].channel)
                    && forall|j: int| 0 <= j < i ==> !takes(waiting, #[trigger] self.queue@[j].channel),
                None => forall|j: int|
                    0 <= j < self.queue@.len() ==> !takes(waiting, #[trigger] self.queue@[j].channel),
            },
    {
        let mut i: usize = 0;
        while i < self.queue.len()
            invariant
                i <= self.queue@.len(),
                forall|j: int| 0 <= j < i ==> !takes(waiting, #[trigger] self.queue@[j].channel),
            decreases self.queue.len() - i,
        {
            let c = self.queue[i].channel;
            let hit = match waiting {
                Waiting::AnyChannel => true,
                Waiting::Channel(t) => c == t,
                _ => false,
            };
            if hit {
                return Some(i);
            }
            i = i + 1;
        }
        None
    }

    /// Whether a buffered frame is waiting for `waiting`.
    pub fn has_buffered(&self, waiting: Waiting) -> (r: bool)
        ensures
            r == exists|j: int|
                0 <= j < self.buffered().len() && takes(waiting, #[trigger] self.buffered()[j].0),
    {
        let r = self.first_buffered(waiting);
        proof {
            if r is Some {
                assert(self.buffered()[r->0 as int].0 == self.queue@[r->0 as int].channel);
            } else {
                assert forall|j: int| 0 <= j < self.buffered().len() implies !takes(
                    waiting,
                    #[trigger] self.buffered()[j].0,
                ) by {
                    assert(self.buffered()[j].0 == self.queue@[j].channel);
                }
            }
        }
        r.is_some()
    }

    /// Takes the oldest buffered frame that `waiting` accepts, if any. A
    /// closed session hands out nothing.
    pub fn next_buffered(&mut self, waiting: Waiting) -> (r: Option<Frame>)
        requires
            old(self).wf(),
        ensures
            final(self).wf(),
            final(self).spec_phase() == old(self).spec_phase(),
            final(self).spec_channels() == old(self).spec_channels(),
            final(self).spec_id() == old(self).spec_id(),
            final(self).spec_max_payload() == old(self).spec_max_payload(),
            final(self).spec_capacity() == old(self).spec_capacity(),
            final(self).accepted() == old(self).accepted(),
            final(self).overflowed() == old(self).overflowed(),
            old(self).spec_phase() == Phase::Closed ==> r is None,
            old(self).spec_phase() != Phase::Closed ==> (r is Some <==> exists|j: int|
                0 <= j < old(self).buffered().len() && takes(
                    waiting,
                    #[trigger] old(self).buffered()[j].0,
                )),
            match r {
                Some(f) => takes(waiting, f.channel) && final(self).delivered() == old(self).delivered().push(frame_entry(f)),
                None => final(self).delivered() == old(self).delivered() && final(self).buffered()
                    == old(self).buffered(),
            },
    {
        if self.phase == Phase::Closed {
            return None;
        }
        let found = self.first_buffered(waiting);
        match found {
            None => {
                proof {
                    assert forall|j: int| 0 <= j < self.buffered().len() implies !takes(
                        waiting,
                        #[trigger] self.buffered()[j].0,
                    ) by {
                        assert(self.buffered()[j].0 == self.queue@[j].channel);
                    }
                }
                None
            },
            Some(idx) => {
                let ghost before = self.buffered();
                let ghost q = self.queue@;
                let f = self.queue.remove(idx);
                let ghost c = f.channel;
                proof {
                    assert(before[idx as int] == frame_entry(f));
                    assert forall|j: int| 0 <= j < idx implies (#[trigger] before[j]).0 != c by {
                        assert(before[j].0 == q[j].channel);
                    }
                    assert(self.buffered() =~= before.remove(idx as int));
                    assert forall|d: u16| #[trigger] on_channel(self.buffered(), d).len()
                        <= self.config.channel_buffer_capacity by {
                        lemma_on_channel_remove(before, idx as int, c, d);
                    }
                    if !self.overflowed@ {
                        assert forall|d: u16|
                            on_channel(self.delivered@.push(frame_entry(f)), d) + on_channel(
                                self.buffered(),
                                d,
                            ) == #[trigger] on_channel(self.accepted@, d) by {
                            lemma_on_channel_remove(before, idx as int, c, d);
                            lemma_on_channel_push(self.delivered@, frame_entry(f), d);
                            assert(on_channel(old(self).delivered@, d) + on_channel(before, d)
                                == on_channel(self.accepted@, d));
                            if d == c {
                                assert(on_channel(self.delivered@, d).push(f.payload_view())
                                    + on_channel(before, d).drop_first() =~= on_channel(
                                    self.delivered@,
                                    d,
                                ) + on_channel(before, d));
                            }
                        }
                    }
                    assert forall|i: int| 0 <= i < self.queue@.len() implies
                        self.handshake.negotiated_channels@.contains(
                        #[trigger] self.queue@[i].channel,
                    ) by {
                        if i < idx {
                            assert(self.queue@[i] == q[i]);
                        } else {
                            assert(self.queue@[i] == q[i + 1]);
                        }
                    }
                    assert(exists|j: int|
                        0 <= j < before.len() && takes(waiting, #[trigger] before[j].0)) by {
                        assert(takes(waiting, before[idx as int].0));
                    }
                }
                self.delivered = Ghost(self.delivered@.push(frame_entry(f)));
                Some(f)
            },
        }
    }

    /// Counts the buffered frames of `channel`.
    fn buffered_count(&self, channel: u16) -> (r: usize)
        ensures
            r == on_channel(self.buffered(), channel).len(),
    {
        let mut n: usize = 0;
        let mut i: usize = 0;
        assert(self.buffered().take(0) =~= Seq::<(u16, Seq<u8>)>::empty());
        while i < self.queue.len()
            invariant
                i <= self.queue@.len(),
                n <= i,
                self.buffered().len() == self.queue@.len(),
                n == on_channel(self.buffered().take(i as int), channel).len(),
            decreases self.queue.len() - i,
        {
            proof {
                assert(self.buffered().take(i + 1) =~= self.buffered().take(i as int).push(
                    self.buffered()[i as int],
                ));
                lemma_on_channel_push(self.buffered().take(i as int), self.buffered()[i as int], channel);
                assert(self.buffered()[i as int].0 == self.queue@[i as int].channel);
            }
            if self.queue[i].channel == channel {
                n = n + 1;
            }
            i = i + 1;
        }
        assert(self.buffered().take(i as int) =~= self.buffered());
        n
    }

    /// How many frames of `c` the spill buffer holds.
    pub open spec fn buffered_on(&self, c: u16) -> nat {
        on_channel(self.buffered(), c).len()
    }

    /// Handles an application frame taken from the wire while `waiting`,
    /// given the schema verdict on its payload. The caller first drains
    /// `next_buffered`, so no buffered frame is waiting for it.
    ///
    /// A frame that `waiting` takes is delivered; any other frame on a
    /// negotiated channel is buffered, or refused with `BufferFull` when its
    /// channel's buffer is at capacity. A frame on a channel that was not
    /// negotiated, or that the schema rejects, is dropped with an error and
    /// the session stays open.
    pub fn on_frame(
        &mut self,
        frame: Frame,
        waiting: Waiting,
        verdict: Result<(), SchemaError>,
    ) -> (r: Result<FrameStep, PeerError>)
        requires
            old(self).wf(),
            frame.channel != CONTROL,
            forall|j: int|
                0 <= j < old(self).buffered().len() ==> !takes(
                    waiting,
                    #[trigger] old(self).buffered()[j].0,
                ),
        ensures
            final(self).wf(),
            final(self).spec_phase() == old(self).spec_phase(),
            final(self).spec_channels() == old(self).spec_channels(),
            final(self).spec_id() == old(self).spec_id(),
            final(self).spec_max_payload() == old(self).spec_max_payload(),
            final(self).spec_capacity() == old(self).spec_capacity(),
            old(self).spec_phase() == Phase::Closed ==> r matches Err(PeerError::Disconnected(_)),
            old(self).spec_phase() != Phase::Closed && !old(self).spec_channels().contains(
                frame.channel,
            ) ==> r == Err::<FrameStep, PeerError>(PeerError::UnsupportedChannel(frame.channel)),
            old(self).spec_phase() != Phase::Closed && old(self).spec_channels().contains(
                frame.channel,
            ) ==> match verdict {
                Err(e) => r == Err::<FrameStep, PeerError>(PeerError::Schema(e)),
                Ok(()) => if takes(waiting, frame.channel) {
                    r matches Ok(FrameStep::Deliver(f)) && frame_entry(f) == frame_entry(frame)
                        && final(self).delivered() == old(self).delivered().push(
                        frame_entry(frame),
                    ) && final(self).accepted() == old(self).accepted().push(frame_entry(frame))
                } else if old(self).buffered_on(frame.channel) >= old(self).spec_capacity() {
                    r == Err::<FrameStep, PeerError>(PeerError::BufferFull(frame.channel)) && final(
                        self).overflowed() && final(self).buffered() == old(self).buffered()
                } else {
                    r matches Ok(FrameStep::Buffered) && final(self).buffered() == old(self).buffered().push(frame_entry(frame))
                },
            },
            r is Err ==> final(self).delivered() == old(self).delivered(),
    {
        if self.phase == Phase::Closed {
            return Err(PeerError::Disconnected("session closed".to_owned()));
        }
        if !self.supports_channel(frame.channel) {
            return Err(PeerError::UnsupportedChannel(frame.channel));
        }
        if let Err(e) = verdict {
            return Err(PeerError::Schema(e));
        }
        let ghost entry = frame_entry(frame);
        let ghost c = frame.channel;
        let hit = match waiting {
            Waiting::AnyChannel => true,
            Waiting::Channel(t) => frame.channel == t,
            _ => false,
        };
        if hit {
            proof {
                assert forall|j: int| 0 <= j < self.buffered().len() implies (
                #[trigger] self.buffered()[j]).0 != c by {
                    assert(!takes(waiting, self.buffered()[j].0));
                }
                lemma_on_channel_none(self.buffered(), c);
                if !self.overflowed@ {
                    assert forall|d: u16|
                        on_channel(self.delivered@.push(entry), d) + on_channel(self.buffered(), d)
                            == #[trigger] on_channel(self.accepted@.push(entry), d) by {
                        lemma_on_channel_push(self.delivered@, entry, d);
                        lemma_on_channel_push(self.accepted@, entry, d);
                        assert(on_channel(self.delivered@, d) + on_channel(self.buffered(), d)
                            == on_channel(self.accepted@, d));
                        if d == c {
                            assert(on_channel(self.delivered@, d).push(entry.1) + on_channel(
                                self.buffered(),
                                d,
                            ) =~= on_channel(self.delivered@, d).push(entry.1));
                            assert(on_channel(self.accepted@, d) =~= on_channel(
                                self.delivered@,
                                d,
                            ));
                        }
                    }
                }
            }
            self.delivered = Ghost(self.delivered@.push(entry));
            self.accepted = Ghost(self.accepted@.push(entry));
            return Ok(FrameStep::Deliver(frame));
        }
        let count = self.buffered_count(frame.channel);
        if count >= self.config.channel_buffer_capacity {
            self.overflowed = Ghost(true);
            return Err(PeerError::BufferFull(frame.channel));
        }
        let ghost before = self.buffered();
        let ghost q = self.queue@;
        self.queue.push(frame);
        proof {
            assert(self.buffered() =~= before.push(entry));
            assert forall|d: u16| #[trigger] on_channel(self.buffered(), d).len()
                <= self.config.channel_buffer_capacity by {
                lemma_on_channel_push(before, entry, d);
            }
            if !self.overflowed@ {
                assert forall|d: u16|
                    on_channel(self.delivered@, d) + on_channel(self.buffered(), d)
                        == #[trigger] on_channel(self.accepted@.push(entry), d) by {
                    lemma_on_channel_push(before, entry, d);
                    lemma_on_channel_push(self.accepted@, entry, d);
                    assert(on_channel(self.delivered@, d) + on_channel(before, d) == on_channel(
                        self.accepted@,
                        d,
                    ));
                    if d == c {
                        assert(on_channel(self.delivered@, d) + on_channel(before, d).push(entry.1)
                            =~= (on_channel(self.delivered@, d) + on_channel(before, d)).push(
                            entry.1,
                        ));
                    }
                }
            }
            assert forall|i: int| 0 <= i < self.queue@.len() implies
                self.handshake.negotiated_channels@.contains(
                #[trigger] self.queue@[i].channel,
            ) by {
                if i < q.len() {
                    assert(self.queue@[i] == q[i]);
                }
            }
        }
        self.accepted = Ghost(self.accepted@.push(entry));
        Ok(FrameStep::Buffered)
    }

    /// Handles a control message read while `waiting`. A ping is answered
    /// with a pong; a pong ends a ping and is otherwise discarded; a shutdown
    /// request is acknowledged and then closes the session; a shutdown
    /// acknowledgement ends a shutdown and is otherwise discarded; a force
    /// close closes the session at once; unknown types are ignored.
    pub fn on_control(&mut self, kind: ControlKind, waiting: Waiting) -> (r: Result<
        ControlStep,
        PeerError,
    >)
        requires
            old(self).wf(),
        ensures
            final(self).wf(),
            final(self).spec_channels() == old(self).spec_channels(),
            final(self).spec_id() == old(self).spec_id(),
            final(self).spec_max_payload() == old(self).spec_max_payload(),
            final(self).spec_capacity() == old(self).spec_capacity(),
            final(self).buffered() == old(self).buffered(),
            final(self).accepted() == old(self).accepted(),
            final(self).delivered() == old(self).delivered(),
            final(self).overflowed() == old(self).overflowed(),
            old(self).spec_phase() == Phase::Closed ==> (r matches Err(PeerError::Disconnected(_))
                && final(self).spec_phase() == Phase::Closed),
            old(self).spec_phase() != Phase::Closed ==> match kind {
                ControlKind::Ping => r == Ok::<ControlStep, PeerError>(ControlStep::ReplyPong)
                    && final(self).spec_phase() == old(self).spec_phase(),
                ControlKind::Pong => r == Ok::<ControlStep, PeerError>(
                    if waiting == Waiting::Pong {
                        ControlStep::PongArrived
                    } else {
                        ControlStep::Continue
                    },
                ) && final(self).spec_phase() == old(self).spec_phase(),
                ControlKind::ShutdownRequest => r == Ok::<ControlStep, PeerError>(
                    ControlStep::AckThenClose,
                ) && final(self).spec_phase() == Phase::ShutdownRequestedRemote,
                ControlKind::ShutdownAck => if waiting == Waiting::ShutdownAck {
                    r == Ok::<ControlStep, PeerError>(ControlStep::AckArrived) && final(self).spec_phase() == Phase::Closed
                } else {
                    r == Ok::<ControlStep, PeerError>(ControlStep::Continue) && final(self).spec_phase() == old(self).spec_phase()
                },
                ControlKind::ShutdownForce => (r matches Err(PeerError::Disconnected(_))) && final(self).spec_phase() == Phase::Closed,
                ControlKind::Other => r == Ok::<ControlStep, PeerError>(ControlStep::Continue)
                    && final(self).spec_phase() == old(self).spec_phase(),
            },
    {
        if self.phase == Phase::Closed {
            return Err(PeerError::Disconnected("session closed".to_owned()));
        }
        let r = match kind {
            ControlKind::Ping => Ok(ControlStep::ReplyPong),
            ControlKind::Pong => {
                if waiting == Waiting::Pong {
                    Ok(ControlStep::PongArrived)
                } else {
                    Ok(ControlStep::Continue)
                }
            },
            ControlKind::ShutdownRequest => {
                self.phase = Phase::ShutdownRequestedRemote;
                Ok(ControlStep::AckThenClose)
            },
            ControlKind::ShutdownAck => {
                if waiting == Waiting::ShutdownAck {
                    self.phase = Phase::Closed;
                    Ok(ControlStep::AckArrived)
                } else {
                    Ok(ControlStep::Continue)
                }
            },
            ControlKind::ShutdownForce => {
                self.phase = Phase::Closed;
                Err(PeerError::Disconnected("peer forced shutdown".to_owned()))
            },
            ControlKind::Other => Ok(ControlStep::Continue),
        };
        proof {
            assert(self.buffered() =~= old(self).buffered());
        }
        r
    }

    /// After acknowledging a peer's shutdown request: closes the session and
    /// gives the error that the interrupted receive reports.
    pub fn finish_remote_shutdown(&mut self) -> (r: PeerError)
        requires
            old(self).wf(),
        ensures
            final(self).wf(),
            final(self).spec_phase() == Phase::Closed,
            r is Disconnected,
            final(self).spec_channels() == old(self).spec_channels(),
    {
        self.phase = Phase::Closed;
        proof {
            assert(self.buffered() =~= old(self).buffered());
        }
        PeerError::Disconnected("peer requested shutdown".to_owned())
    }

    /// Starts a local shutdown: the caller then sends a shutdown request and
    /// waits for the acknowledgement.
    pub fn begin_shutdown(&mut self) -> (r: Result<(), PeerError>)
        requires
            old(self).wf(),
        ensures
            final(self).wf(),
            final(self).spec_channels() == old(self).spec_channels(),
            old(self).spec_phase() == Phase::Closed ==> (r matches Err(PeerError::Disconnected(_))
                && final(self).spec_phase() == Phase::Closed),
            old(self).spec_phase() != Phase::Closed ==> r is Ok && final(self).spec_phase()
                == Phase::ShutdownRequestedLocal,
    {
        if self.phase == Phase::Closed {
            return Err(PeerError::Disconnected("session closed".to_owned()));
        }
        self.phase = Phase::ShutdownRequestedLocal;
        proof {
            assert(self.buffered() =~= old(self).buffered());
        }
        Ok(())
    }

    /// No acknowledgement came in time: after sending a force close, the
    /// session is closed and the shutdown reports failure.
    pub fn shutdown_timed_out(&mut self) -> (r: PeerError)
        requires
            old(self).wf(),
        ensures
            final(self).wf(),
            final(self).spec_phase() == Phase::Closed,
            r is ShutdownFailed,
            final(self).spec_channels() == old(self).spec_channels(),
    {
        self.phase = Phase::Closed;
        proof {
            assert(self.buffered() =~= old(self).buffered());
        }
        PeerError::ShutdownFailed("no shutdown acknowledgement before the timeout".to_owned())
    }

    /// A local shutdown ended without an acknowledgement for another reason
    /// (a stream or protocol failure): the session is closed and the error
    /// is reported as it is.
    pub fn abandon_shutdown(&mut self, err: PeerError) -> (r: PeerError)
        requires
            old(self).wf(),
        ensures
            final(self).wf(),
            final(self).spec_phase() == Phase::Closed,
            r == err,
            final(self).spec_channels() == old(self).spec_channels(),
    {
        self.phase = Phase::Closed;
        proof {
            assert(self.buffered() =~= old(self).buffered());
        }
        err
    }

    /// Closes the session without any exchange; also used when the stream
    /// fails.
    pub fn close(&mut self)
        requires
            old(self).wf(),
        ensures
            final(self).wf(),
            final(self).spec_phase() == Phase::Closed,
            final(self).spec_channels() == old(self).spec_channels(),
    {
        self.phase = Phase::Closed;
        proof {
            assert(self.buffered() =~= old(self).buffered());
        }
    }
}

/// The control message kind named by a message's `type` field.
pub open spec fn spec_control_kind(t: Seq<char>) -> ControlKind {
    if t == CONTROL_PING@ {
        ControlKind::Ping
    } else if t == CONTROL_PONG@ {
        ControlKind::Pong
    } else if t == CONTROL_SHUTDOWN_REQUEST@ {
        ControlKind::ShutdownRequest
    } else if t == CONTROL_SHUTDOWN_ACK@ {
        ControlKind::ShutdownAck
    } else if t == CONTROL_SHUTDOWN_FORCE@ {
        ControlKind::ShutdownForce
    } else {
        ControlKind::Other
    }
}

/// Classifies a control message by its `type` field.
pub fn control_kind(msg_type: &str) -> (r: ControlKind)
    ensures
        r == spec_control_kind(msg_type@),
{
    if same_text(msg_type, CONTROL_PING) {
        ControlKind::Ping
    } else if same_text(msg_type, CONTROL_PONG) {
        ControlKind::Pong
    } else if same_text(msg_type, CONTROL_SHUTDOWN_REQUEST) {
        ControlKind::ShutdownRequest
    } else if same_text(msg_type, CONTROL_SHUTDOWN_ACK) {
        ControlKind::ShutdownAck
    } else if same_text(msg_type, CONTROL_SHUTDOWN_FORCE) {
        ControlKind::ShutdownForce
    } else {
        ControlKind::Other
    }
}

/// Per-channel order: on every channel, the payloads handed to the caller
/// (by `recv` and `recv_on` alike) followed by those still buffered are
/// exactly the payloads admitted from the wire on it, in arrival order; so
/// what the caller received is a prefix of what arrived, in order. Holds for
/// any session whose spill buffers never refused a frame.
pub proof fn lemma_channel_order(s: &Peer, c: u16)
    requires
        s.wf(),
        !s.overflowed(),
    ensures
        on_channel(s.delivered(), c) + on_channel(s.buffered(), c) == on_channel(s.accepted(), c),
        on_channel(s.delivered(), c) == on_channel(s.accepted(), c).take(
            on_channel(s.delivered(), c).len() as int,
        ),
{
    let d = on_channel(s.delivered(), c);
    let b = on_channel(s.buffered(), c);
    assert(d + b == on_channel(s.accepted(), c));
    assert((d + b).take(d.len() as int) =~= d);
}

/// Whether a receive loop that is `waiting` takes an application frame on
/// channel `c`.
pub open spec fn takes(waiting: Waiting, c: u16) -> bool {
    match waiting {
        Waiting::AnyChannel => true,
        Waiting::Channel(t) => c == t,
        _ => false,
    }
}

} // verus!
