//! What holds of the endpoints and of the relay engine, whatever arrives.

use crate::header::Cmd;
use crate::stream::frame::all_fit;
use crate::stream::frame::declared_len;
use crate::stream::frame::frame_all;
use crate::stream::frame::frames_of;
use crate::stream::frame::front_complete;
use crate::stream::frame::front_payload;
use crate::stream::frame::lemma_frames_of_frame_all;
use crate::stream::frame::lemma_front_splits;
use crate::stream::frame::lemma_front_stays;
use crate::stream::frame::residue;
use crate::stream::frame::spec_frame;
use crate::stream::frame::BUFFER_CAP;
use crate::stream::frame::MAX_PAYLOAD;
use crate::stream::inbound::udp::UdpInBoundView;
use crate::stream::inbound::InBoundView;
use crate::stream::io::ack;
use crate::stream::io::ReadView;
use crate::stream::io::RelayError;
use crate::stream::ActionView;
use crate::stream::Direction;
use crate::stream::EventView;
use crate::stream::Phase;
use crate::stream::StreamView;
use vstd::prelude::*;

verus! {

/// All the bytes that a run of polls delivered, in the order of their
/// arrival.
pub open spec fn delivered(polls: Seq<Option<Seq<u8>>>) -> Seq<u8>
    decreases polls.len(),
{
    if polls.len() == 0 {
        Seq::empty()
    } else {
        (match polls[0] {
            Some(bytes) => bytes,
            None => Seq::empty(),
        }) + delivered(polls.skip(1))
    }
}

/// The units that a run of reads hands on, one read for each poll. A read
/// that waits, that finds the stream closed or that reports an overflow
/// hands nothing on.
pub open spec fn units_read(s: UdpInBoundView, polls: Seq<Option<Seq<u8>>>) -> Seq<Seq<u8>>
    decreases polls.len(),
{
    if polls.len() == 0 {
        Seq::empty()
    } else {
        (match s.read_outcome(polls[0]) {
            Ok(ReadView::Unit(unit)) => seq![unit],
            _ => Seq::empty(),
        }) + units_read(s.after_read(polls[0]), polls.skip(1))
    }
}

/// The state after a run of reads, one read for each poll.
pub open spec fn state_after(s: UdpInBoundView, polls: Seq<Option<Seq<u8>>>) -> UdpInBoundView
    decreases polls.len(),
{
    if polls.len() == 0 {
        s
    } else {
        state_after(s.after_read(polls[0]), polls.skip(1))
    }
}

/// What a write hands to the transport behind the acknowledgement, if any:
/// the payload itself on a TCP session, its frame on a UDP session.
pub open spec fn body(cmd: Cmd, payload: Seq<u8>) -> Seq<u8> {
    match cmd {
        Cmd::Tcp => payload,
        Cmd::Udp => spec_frame(payload),
    }
}

/// A read hands a unit on only when the whole of its frame has arrived, the
/// two bytes of its length and as many bytes as they declare, and the unit
/// is the payload of that frame.
pub proof fn lemma_unit_needs_whole_frame(s: UdpInBoundView, polled: Option<Seq<u8>>)
    ensures
        s.read_outcome(polled) matches Ok(ReadView::Unit(unit)) ==> {
            let buffer = s.fed(polled);
            &&& buffer.len() >= 2
            &&& buffer.len() >= declared_len(buffer) + 2
            &&& unit.len() == declared_len(buffer)
            &&& unit == buffer.subrange(2, 2 + declared_len(buffer))
        },
        !front_complete(s.fed(polled)) ==> !(s.read_outcome(polled) matches Ok(ReadView::Unit(_)))
            && s.after_read(polled).buffer == s.fed(polled),
{
}

/// A read fails only with an overflow, and only when the buffer holds more
/// than its cap and no whole frame. That is the case for one shape of
/// buffer alone: the longest frame that can be declared, one byte short.
pub proof fn lemma_overflow_is_one_byte_short(s: UdpInBoundView, polled: Option<Seq<u8>>)
    ensures
        s.read_outcome(polled) matches Err(e) ==> {
            let buffer = s.fed(polled);
            &&& e == RelayError::BufferOverflow
            &&& !front_complete(buffer)
            &&& buffer.len() == BUFFER_CAP + 1
            &&& declared_len(buffer) == MAX_PAYLOAD
            &&& s.after_read(polled).buffer == buffer
        },
{
}

/// However the stream cuts its bytes into reads, the reads hand on the
/// frames of the stream, whole, in order, each once: the units read are the
/// first frames of all that arrived, and the others are the whole frames
/// that wait in the buffer. What arrived of an unfinished frame stays in the
/// buffer, and reads do not touch the write side.
pub proof fn lemma_reads_follow_the_stream(s: UdpInBoundView, polls: Seq<Option<Seq<u8>>>)
    ensures
        frames_of(s.buffer + delivered(polls)) == units_read(s, polls) + frames_of(
            state_after(s, polls).buffer,
        ),
        residue(s.buffer + delivered(polls)) == residue(state_after(s, polls).buffer),
        state_after(s, polls).is_first == s.is_first,
    decreases polls.len(),
{
    if polls.len() > 0 {
        let fed = s.fed(polls[0]);
        let rest = polls.skip(1);
        lemma_reads_follow_the_stream(s.after_read(polls[0]), rest);
        assert(s.buffer + delivered(polls) =~= fed + delivered(rest));
        if front_complete(fed) {
            lemma_front_stays(fed, delivered(rest));
        }
    }
}

/// No byte is lost, dropped or moved, whether a read reports an overflow or
/// not: the frames of the units read, followed by what the buffer holds, are
/// the bytes that the buffer held followed by those that arrived.
pub proof fn lemma_reads_lose_nothing(s: UdpInBoundView, polls: Seq<Option<Seq<u8>>>)
    ensures
        frame_all(units_read(s, polls)) + state_after(s, polls).buffer == s.buffer + delivered(
            polls,
        ),
        all_fit(units_read(s, polls)),
    decreases polls.len(),
{
    if polls.len() > 0 {
        let fed = s.fed(polls[0]);
        let next = s.after_read(polls[0]);
        let rest = polls.skip(1);
        lemma_reads_lose_nothing(next, rest);
        if front_complete(fed) {
            lemma_front_splits(fed);
            let units = units_read(s, polls);
            assert(units.skip(1) =~= units_read(next, rest));
            assert(frame_all(units) + state_after(s, polls).buffer =~= spec_frame(
                front_payload(fed),
            ) + (frame_all(units_read(next, rest)) + state_after(next, rest).buffer));
        }
    }
}

/// Reading back a stream of frames gives the payloads that were framed, in
/// their order, however the stream cuts its bytes into reads: the units read
/// from a fresh endpoint are the first of the payloads, and the others are
/// the whole frames that wait in the buffer for the reads to come.
pub proof fn lemma_chunking_is_immaterial(payloads: Seq<Seq<u8>>, polls: Seq<Option<Seq<u8>>>)
    requires
        all_fit(payloads),
        delivered(polls) == frame_all(payloads),
    ensures
        payloads == units_read(UdpInBoundView { buffer: Seq::empty(), is_first: true }, polls)
            + frames_of(
            state_after(UdpInBoundView { buffer: Seq::empty(), is_first: true }, polls).buffer,
        ),
{
    let fresh = UdpInBoundView { buffer: Seq::empty(), is_first: true };
    lemma_reads_follow_the_stream(fresh, polls);
    lemma_frames_of_frame_all(payloads);
}

/// The acknowledgement goes before the first bytes written to the client,
/// and before no others: a write on an endpoint that has not written starts
/// with it, a write is never the first after another, and reads change
/// nothing of this.
pub proof fn lemma_acknowledged_once(
    v: InBoundView,
    cmd: Cmd,
    payload: Seq<u8>,
    polled: Option<Seq<u8>>,
)
    ensures
        InBoundView::fresh(cmd).is_first(),
        InBoundView::fresh(cmd).cmd() == cmd,
        !v.after_write().is_first(),
        v.after_write().cmd() == v.cmd(),
        v.after_read(polled).is_first() == v.is_first(),
        v.after_read(polled).cmd() == v.cmd(),
        v.wire(payload) matches Ok(wire) ==> wire == if v.is_first() {
            ack() + body(v.cmd(), payload)
        } else {
            body(v.cmd(), payload)
        },
        v.wire(payload) is Err <==> v.cmd() == Cmd::Udp && payload.len() > MAX_PAYLOAD,
{
}

/// A session that is over stays over: whatever is reported to it, it stays
/// as it is and answers as it ended.
pub proof fn lemma_ended_is_final(s: StreamView, event: EventView)
    requires
        s.ended(),
    ensures
        s.step(event).0 == s,
        s.step(event).1 == match s.phase {
            Phase::Failed(e) => ActionView::Fail(e),
            _ => ActionView::Close,
        },
{
}

/// Whether a turn that leads from `s` to `out` leaves the header and the
/// addresses alone, keeps each endpoint in its variant, never makes a write
/// the first again, and ends the session exactly when it answers with a
/// close or a failure.
pub open spec fn keeps_session(s: StreamView, out: (StreamView, ActionView)) -> bool {
    &&& out.0.header == s.header
    &&& out.0.client_addr == s.client_addr
    &&& out.0.outbound == s.outbound
    &&& out.0.inbound.cmd() == s.inbound.cmd()
    &&& s.wf() ==> out.0.wf()
    &&& !s.inbound.is_first() ==> !out.0.inbound.is_first()
    &&& s.ended() ==> out.0.ended()
    &&& !s.ended() ==> (out.0.ended() <==> (out.1 is Close || out.1 is Fail))
}

/// A read of the client's side keeps the session.
proof fn lemma_upstream_read_keeps_session(s: StreamView, polled: Option<Seq<u8>>)
    requires
        !s.ended(),
    ensures
        keeps_session(s, s.on_upstream_read(polled)),
{
}

/// A read of the destination's side keeps the session.
proof fn lemma_downstream_read_keeps_session(s: StreamView, polled: Option<Seq<u8>>)
    requires
        !s.ended(),
    ensures
        keeps_session(s, s.on_downstream_read(polled)),
{
}

/// A finished write keeps the session.
proof fn lemma_written_keeps_session(
    s: StreamView,
    direction: Direction,
    expected: usize,
    accepted: usize,
)
    requires
        !s.ended(),
    ensures
        keeps_session(s, s.on_written(direction, expected, accepted)),
{
    match direction {
        Direction::Upstream => {
            let next = StreamView { upstream: None, ..s };
            lemma_upstream_read_keeps_session(next, None);
        },
        Direction::Downstream => {},
    }
}

/// A turn of the engine leaves the header and the addresses alone, keeps
/// each endpoint in its variant, and never makes a write the first again.
/// A session that is running ends exactly when the engine answers with a
/// close or a failure, and a session that is over stays over.
pub proof fn lemma_step_keeps_session(s: StreamView, event: EventView)
    ensures
        keeps_session(s, s.step(event)),
{
    if !s.ended() {
        match event {
            EventView::Broken { direction } => {},
            EventView::Read { direction, polled } => {
                if s.in_flight(direction) is None {
                    match direction {
                        Direction::Upstream => lemma_upstream_read_keeps_session(s, polled),
                        Direction::Downstream => lemma_downstream_read_keeps_session(s, polled),
                    }
                }
            },
            EventView::Written { direction, accepted } => {
                if let Some(expected) = s.in_flight(direction) {
                    lemma_written_keeps_session(s, direction, expected, accepted);
                }
            },
        }
    }
}

/// What the client sends reaches the destination as it is: a write that a
/// read of the client's side leads to carries the unit that was read, whole
/// and unchanged, and the unit is not empty. On a TCP session the unit is
/// what the client's stream delivered. The bytes that were polled are bytes
/// in memory, so that their count is a `usize`.
pub proof fn lemma_upstream_is_verbatim(s: StreamView, polled: Option<Seq<u8>>)
    requires
        s.phase == Phase::Running,
        s.upstream is None,
        polled matches Some(bytes) ==> bytes.len() <= usize::MAX,
    ensures
        s.step(EventView::Read { direction: Direction::Upstream, polled }).1 matches ActionView::Write {
            direction,
            wire,
            payload,
        } ==> direction == Direction::Upstream && payload == wire.len() && payload > 0
            && s.inbound.read_outcome(polled) == Ok::<_, RelayError>(ReadView::Unit(wire))
            && s.step(EventView::Read { direction: Direction::Upstream, polled }).0.upstream
            == Some(payload),
        s.inbound is Tcp ==> (s.step(
            EventView::Read { direction: Direction::Upstream, polled },
        ).1 matches ActionView::Write { wire, .. } ==> polled == Some(wire)),
{
}

/// What the destination sends reaches the client behind the
/// acknowledgement, once, and framed as the session's command asks: a write
/// that a read of the destination's side leads to carries the unit that was
/// read, after the acknowledgement where nothing was written before. The
/// bytes that were polled are bytes in memory, so that their count is a
/// `usize`.
pub proof fn lemma_downstream_is_framed(s: StreamView, polled: Option<Seq<u8>>)
    requires
        s.phase == Phase::Running,
        s.downstream is None,
        polled matches Some(bytes) ==> bytes.len() <= usize::MAX,
    ensures
        s.step(EventView::Read { direction: Direction::Downstream, polled }).1 matches ActionView::Write {
            direction,
            wire,
            payload,
        } ==> {
            &&& direction == Direction::Downstream
            &&& polled is Some
            &&& payload == polled.unwrap().len()
            &&& payload > 0
            &&& wire == if s.inbound.is_first() {
                ack() + body(s.inbound.cmd(), polled.unwrap())
            } else {
                body(s.inbound.cmd(), polled.unwrap())
            }
        },
{
}

/// A source that has closed ends the session: at once on the destination's
/// side and on the client's side of a TCP session, and on the client's side
/// of a UDP session as soon as no whole frame is left in a buffer within
/// its cap.
pub proof fn lemma_closed_source_ends_session(s: StreamView, direction: Direction)
    requires
        s.phase == Phase::Running,
        s.in_flight(direction) is None,
    ensures
        ({
            let closed = EventView::Read { direction, polled: Some(Seq::<u8>::empty()) };
            let drained = match (direction, s.inbound) {
                (Direction::Upstream, InBoundView::Udp(endpoint)) => !front_complete(
                    endpoint.buffer,
                ) && endpoint.buffer.len() <= BUFFER_CAP,
                _ => true,
            };
            drained ==> s.step(closed).1 == ActionView::Close && s.step(closed).0.phase
                == Phase::Closed
        }),
{
}

/// A direction goes on only after its sink took the whole unit: a write that
/// took another count of payload bytes than the unit has fails the session
/// with both counts. After a whole write the direction is free again, and
/// asks for its source or, upstream, for the write of a frame that waited.
pub proof fn lemma_short_write_fails(s: StreamView, direction: Direction, accepted: usize)
    requires
        s.phase == Phase::Running,
        s.in_flight(direction) is Some,
    ensures
        ({
            let expected = s.in_flight(direction).unwrap();
            let written = match direction {
                Direction::Upstream => accepted,
                Direction::Downstream => crate::stream::io::payload_accepted(
                    accepted,
                    s.inbound.overhead(),
                ),
            };
            let (next, action) = s.step(EventView::Written { direction, accepted });
            if written == expected {
                match action {
                    ActionView::Read(again) => again == direction && next.in_flight(direction)
                        is None && next.phase == Phase::Running,
                    ActionView::Write { direction: again, .. } => again == direction
                        && direction == Direction::Upstream && s.inbound is Udp,
                    ActionView::Close => direction == Direction::Upstream && s.inbound is Udp,
                    ActionView::Fail(e) => direction == Direction::Upstream && s.inbound is Udp
                        && e == RelayError::BufferOverflow,
                }
            } else {
                action == ActionView::Fail(RelayError::ShortWrite { written, expected })
                    && next.phase == Phase::Failed(RelayError::ShortWrite { written, expected })
            }
        }),
{
}

} // verus!
