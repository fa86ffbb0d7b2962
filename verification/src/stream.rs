//! The relay engine of a session and the endpoints it moves bytes between.
//!
//! A session has two directions, from the client to the destination and
//! back. In each, a unit is read from the source and written to the sink, and
//! the next unit is read only when the sink took the whole of the last one.
//! The engine does no reading or writing itself: it is told what the
//! transports reported and answers with what to do next.

use crate::addr::SocketAddress;
use crate::header::Header;
use crate::header::HeaderView;
use crate::stream::inbound::InBound;
use crate::stream::inbound::InBoundView;
use crate::stream::io::payload_accepted;
use crate::stream::io::ReadOutcome;
use crate::stream::io::ReadView;
use crate::stream::io::RelayError;
use crate::stream::outbound::OutBound;
use vstd::prelude::*;

pub mod frame;
pub mod inbound;
pub mod io;
pub mod laws;
pub mod outbound;

verus! {

/// How many bytes a transport is asked for at most in one read: the longest
/// unit that a frame can carry.
pub const BUFFER_SIZE: usize = 65535;

/// One of the two ways that bytes travel in a session.
#[derive(Clone, Copy, Debug, PartialEq, Eq, Structural)]
pub enum Direction {
    /// From the client to the destination.
    Upstream,
    /// From the destination to the client.
    Downstream,
}

/// How a session stands.
#[derive(Clone, Copy, Debug, PartialEq, Eq, Structural)]
pub enum Phase {
    /// Both directions are at work.
    Running,
    /// A direction read no byte: the session is over.
    Closed,
    /// The session was given up.
    Failed(RelayError),
}

/// What the transports report to the engine.
#[derive(Clone, Debug, PartialEq, Eq)]
pub enum Event {
    /// The source of the direction was polled for bytes: `None` where it was
    /// not ready, no bytes where a stream has closed.
    Read { direction: Direction, polled: Option<Vec<u8>> },
    /// The sink of the direction took this many bytes of what it was handed.
    Written { direction: Direction, accepted: usize },
    /// A transport of the direction failed.
    Broken { direction: Direction },
}

/// What an [`Event`] holds.
pub enum EventView {
    Read { direction: Direction, polled: Option<Seq<u8>> },
    Written { direction: Direction, accepted: usize },
    Broken { direction: Direction },
}

impl View for Event {
    type V = EventView;

    open spec fn view(&self) -> EventView {
        match self {
            Event::Read { direction, polled } => EventView::Read {
                direction: *direction,
                polled: match polled {
                    Some(bytes) => Some(bytes@),
                    None => None,
                },
            },
            Event::Written { direction, accepted } => EventView::Written {
                direction: *direction,
                accepted: *accepted,
            },
            Event::Broken { direction } => EventView::Broken { direction: *direction },
        }
    }
}

/// What the engine asks for next.
#[derive(Clone, Debug, PartialEq, Eq)]
pub enum Action {
    /// Wait for the source of the direction and report what it gave.
    Read(Direction),
    /// Hand `wire` to the sink of the direction and report how much of it
    /// was taken. `payload` is the length of the unit that `wire` carries.
    Write { direction: Direction, wire: Vec<u8>, payload: usize },
    /// Release both endpoints: the session ended in good order.
    Close,
    /// Release both endpoints: the session failed.
    Fail(RelayError),
}

/// What an [`Action`] holds.
pub enum ActionView {
    Read(Direction),
    Write { direction: Direction, wire: Seq<u8>, payload: usize },
    Close,
    Fail(RelayError),
}

impl View for Action {
    type V = ActionView;

    open spec fn view(&self) -> ActionView {
        match self {
            Action::Read(direction) => ActionView::Read(*direction),
            Action::Write { direction, wire, payload } => ActionView::Write {
                direction: *direction,
                wire: wire@,
                payload: *payload,
            },
            Action::Close => ActionView::Close,
            Action::Fail(e) => ActionView::Fail(*e),
        }
    }
}

/// One session: its header, its two endpoints, and how far each direction
/// has got.
pub struct Stream {
    header: Header,
    client_addr: SocketAddress,
    inbound: InBound,
    outbound: OutBound,
    upstream: Option<usize>,
    downstream: Option<usize>,
    phase: Phase,
}

/// What a [`Stream`] holds. `upstream` and `downstream` are the lengths of
/// the units that are being written, where one is.
pub struct StreamView {
    pub header: HeaderView,
    pub client_addr: SocketAddress,
    pub inbound: InBoundView,
    pub outbound: OutBound,
    pub upstream: Option<usize>,
    pub downstream: Option<usize>,
    pub phase: Phase,
}

impl View for Stream {
    type V = StreamView;

    closed spec fn view(&self) -> StreamView {
        StreamView {
            header: self.header@,
            client_addr: self.client_addr,
            inbound: self.inbound@,
            outbound: self.outbound,
            upstream: self.upstream,
            downstream: self.downstream,
            phase: self.phase,
        }
    }
}

impl StreamView {
    /// Whether the endpoints are those that the header asks for.
    pub open spec fn wf(self) -> bool {
        &&& self.inbound.cmd() == self.header.cmd
        &&& self.outbound.serves(self.header.addr, self.header.cmd)
    }

    /// Whether the session is over, in good order or not.
    pub open spec fn ended(self) -> bool {
        self.phase != Phase::Running
    }

    /// The length of the unit that the direction is writing, where it is.
    pub open spec fn in_flight(self, direction: Direction) -> Option<usize> {
        match direction {
            Direction::Upstream => self.upstream,
            Direction::Downstream => self.downstream,
        }
    }

    /// The session given up for `e`.
    pub open spec fn fail(self, e: RelayError) -> (StreamView, ActionView) {
        (StreamView { phase: Phase::Failed(e), ..self }, ActionView::Fail(e))
    }

    /// The session ended in good order.
    pub open spec fn close(self) -> (StreamView, ActionView) {
        (StreamView { phase: Phase::Closed, ..self }, ActionView::Close)
    }

    /// What follows when the client's stream was polled. A unit goes to the
    /// destination as it is; a read of no byte ends the session.
    pub open spec fn on_upstream_read(self, polled: Option<Seq<u8>>) -> (StreamView, ActionView) {
        let next = StreamView { inbound: self.inbound.after_read(polled), ..self };
        match self.inbound.read_outcome(polled) {
            Err(e) => next.fail(e),
            Ok(ReadView::Pending) => (next, ActionView::Read(Direction::Upstream)),
            Ok(ReadView::Closed) => next.close(),
            Ok(ReadView::Unit(unit)) => if unit.len() == 0 {
                next.close()
            } else {
                (
                    StreamView { upstream: Some(unit.len() as usize), ..next },
                    ActionView::Write {
                        direction: Direction::Upstream,
                        wire: unit,
                        payload: unit.len() as usize,
                    },
                )
            },
        }
    }

    /// What follows when the destination's transport was polled. A unit goes
    /// to the client as its side frames it; a read of no byte ends the
    /// session.
    pub open spec fn on_downstream_read(self, polled: Option<Seq<u8>>) -> (StreamView, ActionView) {
        match self.outbound.read_outcome(polled) {
            ReadView::Pending => (self, ActionView::Read(Direction::Downstream)),
            ReadView::Closed => self.close(),
            ReadView::Unit(unit) => if unit.len() == 0 {
                self.close()
            } else {
                match self.inbound.wire(unit) {
                    Err(e) => self.fail(e),
                    Ok(wire) => (
                        StreamView { downstream: Some(unit.len() as usize), ..self },
                        ActionView::Write {
                            direction: Direction::Downstream,
                            wire,
                            payload: unit.len() as usize,
                        },
                    ),
                }
            },
        }
    }

    /// What follows when the sink of `direction` took `accepted` bytes of a
    /// unit of `expected` bytes. The unit must have been taken whole; then
    /// the direction goes on. Upstream, a frame that waits in the buffer is
    /// the next unit, without a new poll; else the source is polled.
    pub open spec fn on_written(self, direction: Direction, expected: usize, accepted: usize) -> (
        StreamView,
        ActionView,
    ) {
        let (next, written) = match direction {
            Direction::Upstream => (StreamView { upstream: None, ..self }, accepted),
            Direction::Downstream => (
                StreamView { downstream: None, inbound: self.inbound.after_write(), ..self },
                payload_accepted(accepted, self.inbound.overhead()),
            ),
        };
        if written != expected {
            next.fail(RelayError::ShortWrite { written, expected })
        } else {
            match direction {
                Direction::Upstream => next.on_upstream_read(None),
                Direction::Downstream => (next, ActionView::Read(Direction::Downstream)),
            }
        }
    }

    /// The state after `event` and what the engine asks for next. A session
    /// that is over stays as it is and repeats how it ended. A read is out of
    /// turn while its direction is writing, and so is a write that nothing
    /// asked for.
    pub open spec fn step(self, event: EventView) -> (StreamView, ActionView) {
        match self.phase {
            Phase::Closed => (self, ActionView::Close),
            Phase::Failed(e) => (self, ActionView::Fail(e)),
            Phase::Running => match event {
                EventView::Broken { direction } => self.fail(RelayError::Transport),
                EventView::Read { direction, polled } => if self.in_flight(direction) is Some {
                    self.fail(RelayError::OutOfTurn)
                } else {
                    match direction {
                        Direction::Upstream => self.on_upstream_read(polled),
                        Direction::Downstream => self.on_downstream_read(polled),
                    }
                },
                EventView::Written { direction, accepted } => match self.in_flight(direction) {
                    None => self.fail(RelayError::OutOfTurn),
                    Some(expected) => self.on_written(direction, expected, accepted),
                },
            },
        }
    }
}

/// The bytes of `polled`, borrowed.
fn borrow_polled(polled: &Option<Vec<u8>>) -> (out: Option<&[u8]>)
    ensures
        crate::stream::io::polled_view(out) == match polled {
            Some(bytes) => Some(bytes@),
            None => None,
        },
{
    match polled {
        Some(bytes) => Some(bytes.as_slice()),
        None => None,
    }
}

impl Stream {
    /// The session that `header` asks for, with the client at `client_addr`:
    /// both endpoints in the variant of the header's command, the
    /// destination's side towards the header's address, and both directions
    /// about to read.
    pub fn from_incoming(header: Header, client_addr: SocketAddress) -> (stream: Stream)
        ensures
            stream@.wf(),
            stream@.header == header@,
            stream@.client_addr == client_addr,
            stream@.inbound == InBoundView::fresh(header@.cmd),
            stream@.upstream is None,
            stream@.downstream is None,
            stream@.phase == Phase::Running,
    {
        let inbound = InBound::new(header.cmd());
        let outbound = OutBound::new(header.addr(), header.cmd());
        Stream {
            header,
            client_addr,
            inbound,
            outbound,
            upstream: None,
            downstream: None,
            phase: Phase::Running,
        }
    }

    /// The header of the session.
    pub fn header(&self) -> (header: &Header)
        ensures
            header@ == self@.header,
    {
        &self.header
    }

    /// The address of the client.
    pub fn client_addr(&self) -> (addr: SocketAddress)
        ensures
            addr == self@.client_addr,
    {
        self.client_addr
    }

    /// The client's side.
    pub fn inbound(&self) -> (inbound: &InBound)
        ensures
            inbound@ == self@.inbound,
    {
        &self.inbound
    }

    /// The destination's side, which tells what to connect to.
    pub fn outbound(&self) -> (outbound: OutBound)
        ensures
            outbound == self@.outbound,
    {
        self.outbound
    }

    /// How the session stands.
    pub fn phase(&self) -> (phase: Phase)
        ensures
            phase == self@.phase,
    {
        self.phase
    }

    /// Gives the session up for `e`.
    fn give_up(&mut self, e: RelayError) -> (action: Action)
        ensures
            (final(self)@, action@) == old(self)@.fail(e),
    {
        self.phase = Phase::Failed(e);
        Action::Fail(e)
    }

    /// Ends the session in good order.
    fn wind_up(&mut self) -> (action: Action)
        ensures
            (final(self)@, action@) == old(self)@.close(),
    {
        self.phase = Phase::Closed;
        Action::Close
    }

    /// One turn of the upstream direction after its source was polled.
    fn upstream_read(&mut self, polled: Option<Vec<u8>>) -> (action: Action)
        ensures
            (final(self)@, action@) == old(self)@.on_upstream_read(
                match polled {
                    Some(bytes) => Some(bytes@),
                    None => None,
                },
            ),
    {
        let res = self.inbound.poll_read(borrow_polled(&polled));
        match res {
            Err(e) => self.give_up(e),
            Ok(ReadOutcome::Pending) => Action::Read(Direction::Upstream),
            Ok(ReadOutcome::Closed) => self.wind_up(),
            Ok(ReadOutcome::Unit(unit)) => {
                let payload: usize = unit.len();
                if payload == 0 {
                    self.wind_up()
                } else {
                    self.upstream = Some(payload);
                    let wire = self.outbound.begin_write(unit);
                    Action::Write { direction: Direction::Upstream, wire, payload }
                }
            },
        }
    }

    /// One turn of the downstream direction after its source was polled.
    fn downstream_read(&mut self, polled: Option<Vec<u8>>) -> (action: Action)
        ensures
            (final(self)@, action@) == old(self)@.on_downstream_read(
                match polled {
                    Some(bytes) => Some(bytes@),
                    None => None,
                },
            ),
    {
        match self.outbound.poll_read(borrow_polled(&polled)) {
            ReadOutcome::Pending => Action::Read(Direction::Downstream),
            ReadOutcome::Closed => self.wind_up(),
            ReadOutcome::Unit(unit) => {
                let payload: usize = unit.len();
                if payload == 0 {
                    self.wind_up()
                } else {
                    match self.inbound.begin_write(unit.as_slice()) {
                        Err(e) => self.give_up(e),
                        Ok(wire) => {
                            self.downstream = Some(payload);
                            Action::Write { direction: Direction::Downstream, wire, payload }
                        },
                    }
                }
            },
        }
    }

    /// One turn of a direction after its sink took `accepted` bytes of a unit
    /// of `expected` bytes.
    fn written(&mut self, direction: Direction, expected: usize, accepted: usize) -> (action:
        Action)
        ensures
            (final(self)@, action@) == old(self)@.on_written(direction, expected, accepted),
    {
        let written: usize = match direction {
            Direction::Upstream => {
                self.upstream = None;
                self.outbound.finish_write(accepted)
            },
            Direction::Downstream => {
                self.downstream = None;
                self.inbound.finish_write(accepted)
            },
        };
        if written != expected {
            self.give_up(RelayError::ShortWrite { written, expected })
        } else {
            match direction {
                Direction::Upstream => self.upstream_read(None),
                Direction::Downstream => Action::Read(Direction::Downstream),
            }
        }
    }

    /// One turn of the session's event loop: takes what a transport reported
    /// and tells what to do next. The caller does what is asked and comes
    /// back with the next event, until it is told to close or that the
    /// session failed.
    pub fn event_loop(&mut self, event: Event) -> (action: Action)
        ensures
            (final(self)@, action@) == old(self)@.step(event@),
            old(self)@.wf() ==> final(self)@.wf(),
    {
        match self.phase {
            Phase::Closed => Action::Close,
            Phase::Failed(e) => Action::Fail(e),
            Phase::Running => match event {
                Event::Broken { direction } => self.give_up(RelayError::Transport),
                Event::Read { direction, polled } => {
                    let busy = match direction {
                        Direction::Upstream => self.upstream.is_some(),
                        Direction::Downstream => self.downstream.is_some(),
                    };
                    if busy {
                        self.give_up(RelayError::OutOfTurn)
                    } else {
                        match direction {
                            Direction::Upstream => self.upstream_read(polled),
                            Direction::Downstream => self.downstream_read(polled),
                        }
                    }
                },
                Event::Written { direction, accepted } => {
                    let in_flight = match direction {
                        Direction::Upstream => self.upstream,
                        Direction::Downstream => self.downstream,
                    };
                    match in_flight {
                        None => self.give_up(RelayError::OutOfTurn),
                        Some(expected) => self.written(direction, expected, accepted),
                    }
                },
            },
        }
    }
}

} // verus!
