//! The client's side of a session, in the variant that the command selects.

use crate::header::Cmd;
use crate::stream::inbound::tcp::TcpInBound;
use crate::stream::inbound::tcp::TcpInBoundView;
use crate::stream::inbound::udp::UdpInBound;
use crate::stream::inbound::udp::UdpInBoundView;
use crate::stream::io::polled_view;
use crate::stream::io::stream_read;
use crate::stream::io::payload_accepted;
use crate::stream::io::ReadOutcome;
use crate::stream::io::ReadView;
use crate::stream::io::RelayError;
use vstd::prelude::*;

pub mod tcp;
pub mod udp;

verus! {

/// The client's side of a session.
pub enum InBound {
    Tcp(TcpInBound),
    Udp(UdpInBound),
}

/// What an [`InBound`] holds.
pub enum InBoundView {
    Tcp(TcpInBoundView),
    Udp(UdpInBoundView),
}

impl View for InBound {
    type V = InBoundView;

    open spec fn view(&self) -> InBoundView {
        match self {
            InBound::Tcp(endpoint) => InBoundView::Tcp(endpoint@),
            InBound::Udp(endpoint) => InBoundView::Udp(endpoint@),
        }
    }
}

impl InBoundView {
    /// The state at the start of a session with the command `cmd`.
    pub open spec fn fresh(cmd: Cmd) -> InBoundView {
        match cmd {
            Cmd::Tcp => InBoundView::Tcp(TcpInBoundView { is_first: true }),
            Cmd::Udp => InBoundView::Udp(UdpInBoundView { buffer: Seq::empty(), is_first: true }),
        }
    }

    /// The command that selected the variant.
    pub open spec fn cmd(self) -> Cmd {
        match self {
            InBoundView::Tcp(_) => Cmd::Tcp,
            InBoundView::Udp(_) => Cmd::Udp,
        }
    }

    /// Whether nothing has been written yet.
    pub open spec fn is_first(self) -> bool {
        match self {
            InBoundView::Tcp(endpoint) => endpoint.is_first,
            InBoundView::Udp(endpoint) => endpoint.is_first,
        }
    }

    /// How a read ends.
    pub open spec fn read_outcome(self, polled: Option<Seq<u8>>) -> Result<ReadView, RelayError> {
        match self {
            InBoundView::Tcp(_) => Ok(stream_read(polled)),
            InBoundView::Udp(endpoint) => endpoint.read_outcome(polled),
        }
    }

    /// The state after a read.
    pub open spec fn after_read(self, polled: Option<Seq<u8>>) -> InBoundView {
        match self {
            InBoundView::Tcp(endpoint) => InBoundView::Tcp(endpoint),
            InBoundView::Udp(endpoint) => InBoundView::Udp(endpoint.after_read(polled)),
        }
    }

    /// How many bytes that are no payload the next write starts with.
    pub open spec fn overhead(self) -> nat {
        match self {
            InBoundView::Tcp(endpoint) => endpoint.overhead(),
            InBoundView::Udp(endpoint) => endpoint.overhead(),
        }
    }

    /// What the next write of `payload` hands to the transport.
    pub open spec fn wire(self, payload: Seq<u8>) -> Result<Seq<u8>, RelayError> {
        match self {
            InBoundView::Tcp(endpoint) => Ok(endpoint.wire(payload)),
            InBoundView::Udp(endpoint) => endpoint.wire(payload),
        }
    }

    /// The state after a write that the transport took.
    pub open spec fn after_write(self) -> InBoundView {
        match self {
            InBoundView::Tcp(endpoint) => InBoundView::Tcp(endpoint.after_write()),
            InBoundView::Udp(endpoint) => InBoundView::Udp(endpoint.after_write()),
        }
    }
}

impl InBound {
    /// The client's side at the start of a session with the command `cmd`.
    pub fn new(cmd: Cmd) -> (endpoint: InBound)
        ensures
            endpoint@ == InBoundView::fresh(cmd),
    {
        match cmd {
            Cmd::Tcp => InBound::Tcp(TcpInBound::new()),
            Cmd::Udp => InBound::Udp(UdpInBound::new()),
        }
    }

    /// Takes what the client's stream reported when it was polled and tries
    /// to hand on one unit, as the variant does.
    pub fn poll_read(&mut self, polled: Option<&[u8]>) -> (res: Result<ReadOutcome, RelayError>)
        ensures
            final(self)@ == old(self)@.after_read(polled_view(polled)),
            match res {
                Ok(outcome) => old(self)@.read_outcome(polled_view(polled)) == Ok::<
                    _,
                    RelayError,
                >(outcome@),
                Err(e) => old(self)@.read_outcome(polled_view(polled)) == Err::<ReadView, _>(e),
            },
    {
        match self {
            InBound::Tcp(endpoint) => Ok(endpoint.poll_read(polled)),
            InBound::Udp(endpoint) => endpoint.poll_read(polled),
        }
    }

    /// The bytes to hand to the client's stream for `payload`, as the variant
    /// frames them.
    pub fn begin_write(&self, payload: &[u8]) -> (res: Result<Vec<u8>, RelayError>)
        ensures
            match res {
                Ok(wire) => self@.wire(payload@) == Ok::<_, RelayError>(wire@),
                Err(e) => self@.wire(payload@) == Err::<Seq<u8>, _>(e),
            },
    {
        match self {
            InBound::Tcp(endpoint) => Ok(endpoint.begin_write(payload)),
            InBound::Udp(endpoint) => endpoint.begin_write(payload),
        }
    }

    /// Takes note that the client's stream took `accepted` bytes of the last
    /// write, and tells how many of them were payload.
    pub fn finish_write(&mut self, accepted: usize) -> (count: usize)
        ensures
            final(self)@ == old(self)@.after_write(),
            count == payload_accepted(accepted, old(self)@.overhead()),
    {
        match self {
            InBound::Tcp(endpoint) => endpoint.finish_write(accepted),
            InBound::Udp(endpoint) => endpoint.finish_write(accepted),
        }
    }
}

} // verus!
