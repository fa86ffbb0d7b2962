//! The client's side of a TCP session: bytes pass as they are, behind the
//! acknowledgement that opens the reply.

use crate::stream::io::ack;
use crate::stream::io::count_payload;
use crate::stream::io::payload_accepted;
use crate::stream::io::polled_view;
use crate::stream::io::read_stream;
use crate::stream::io::stream_read;
use crate::stream::io::ReadOutcome;
use vstd::prelude::*;

verus! {

/// The state of the client's side of a TCP session: whether nothing has been
/// written yet.
pub struct TcpInBound {
    is_first: bool,
}

/// What a [`TcpInBound`] holds.
pub struct TcpInBoundView {
    pub is_first: bool,
}

impl View for TcpInBound {
    type V = TcpInBoundView;

    closed spec fn view(&self) -> TcpInBoundView {
        TcpInBoundView { is_first: self.is_first }
    }
}

impl TcpInBoundView {
    /// How many bytes that are no payload the next write starts with: the
    /// acknowledgement, on the first write.
    pub open spec fn overhead(self) -> nat {
        if self.is_first {
            2
        } else {
            0
        }
    }

    /// What the next write of `payload` hands to the transport.
    pub open spec fn wire(self, payload: Seq<u8>) -> Seq<u8> {
        if self.is_first {
            ack() + payload
        } else {
            payload
        }
    }

    /// The state after a write that the transport took.
    pub open spec fn after_write(self) -> TcpInBoundView {
        TcpInBoundView { is_first: false }
    }
}

impl TcpInBound {
    /// The state at the start of a session: nothing written.
    pub fn new() -> (endpoint: TcpInBound)
        ensures
            endpoint@ == (TcpInBoundView { is_first: true }),
    {
        TcpInBound { is_first: true }
    }

    /// Whether nothing has been written yet.
    pub fn is_first(&self) -> (first: bool)
        ensures
            first == self@.is_first,
    {
        self.is_first
    }

    /// Takes what the client's stream reported when it was polled (`None`
    /// where it was not ready, no bytes where it has closed) and hands the
    /// bytes on as they are.
    pub fn poll_read(&self, polled: Option<&[u8]>) -> (outcome: ReadOutcome)
        ensures
            outcome@ == stream_read(polled_view(polled)),
    {
        read_stream(polled)
    }

    /// The bytes to hand to the client's stream for `payload`: the payload
    /// itself, behind the acknowledgement where this is the first write of
    /// the session.
    pub fn begin_write(&self, payload: &[u8]) -> (wire: Vec<u8>)
        ensures
            wire@ == self@.wire(payload@),
    {
        let mut wire: Vec<u8> = Vec::new();
        if self.is_first {
            wire.push(0);
            wire.push(0);
        }
        wire.extend_from_slice(payload);
        wire
    }

    /// Takes note that the client's stream took `accepted` bytes of what
    /// [`TcpInBound::begin_write`] gave, and tells how many of them were
    /// payload: the acknowledgement is not counted. From here on no write is
    /// the first one.
    pub fn finish_write(&mut self, accepted: usize) -> (count: usize)
        ensures
            final(self)@ == old(self)@.after_write(),
            count == payload_accepted(accepted, old(self)@.overhead()),
    {
        let overhead: usize = if self.is_first {
            2
        } else {
            0
        };
        self.is_first = false;
        count_payload(accepted, overhead)
    }
}

} // verus!
