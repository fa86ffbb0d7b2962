//! What the two sides of a session have in common: how a read ends, and how
//! the bytes that a transport accepted are counted.

use vstd::prelude::*;

verus! {

/// Why a relay stopped with a failure.
#[derive(Clone, Copy, Debug, PartialEq, Eq, Structural)]
pub enum RelayError {
    /// The reassembly buffer holds more than its cap and still no whole
    /// frame.
    BufferOverflow,
    /// A payload of this length does not fit the two-byte length of a frame.
    PayloadTooLarge(usize),
    /// A transport accepted `written` bytes of a unit of `expected` bytes.
    ShortWrite { written: usize, expected: usize },
    /// An event arrived that the direction was not waiting for.
    OutOfTurn,
    /// A transport reported a failure.
    Transport,
}

/// How a read on an endpoint ended.
#[derive(Clone, Debug, PartialEq, Eq)]
pub enum ReadOutcome {
    /// Nothing can be handed on yet.
    Pending,
    /// One unit: a run of stream bytes, or the payload of one datagram.
    Unit(Vec<u8>),
    /// The peer has closed and nothing is left to hand on.
    Closed,
}

/// What a [`ReadOutcome`] holds.
pub enum ReadView {
    Pending,
    Unit(Seq<u8>),
    Closed,
}

impl View for ReadOutcome {
    type V = ReadView;

    open spec fn view(&self) -> ReadView {
        match self {
            ReadOutcome::Pending => ReadView::Pending,
            ReadOutcome::Unit(bytes) => ReadView::Unit(bytes@),
            ReadOutcome::Closed => ReadView::Closed,
        }
    }
}

impl ReadView {
    /// How many bytes the read yielded, where it yielded at all. A read that
    /// yields no byte ends its direction.
    pub open spec fn yielded(self) -> Option<nat> {
        match self {
            ReadView::Pending => None,
            ReadView::Unit(bytes) => Some(bytes.len()),
            ReadView::Closed => Some(0),
        }
    }
}

/// What a transport reported when it was polled for bytes: nothing where it
/// was not ready, and no byte at all where a stream has closed.
pub open spec fn polled_view(polled: Option<&[u8]>) -> Option<Seq<u8>> {
    match polled {
        Some(bytes) => Some(bytes@),
        None => None,
    }
}

/// The acknowledgement that goes before the first bytes written back to a
/// client: two zero bytes.
pub open spec fn ack() -> Seq<u8> {
    seq![0u8, 0u8]
}

/// How a read on a byte stream ends: the bytes that arrived are one unit, and
/// a read of no bytes means that the peer has closed.
pub open spec fn stream_read(polled: Option<Seq<u8>>) -> ReadView {
    match polled {
        None => ReadView::Pending,
        Some(bytes) => if bytes.len() == 0 {
            ReadView::Closed
        } else {
            ReadView::Unit(bytes)
        },
    }
}

/// How a read on a datagram socket ends: each datagram is one unit, an empty
/// one too.
pub open spec fn datagram_read(polled: Option<Seq<u8>>) -> ReadView {
    match polled {
        None => ReadView::Pending,
        Some(bytes) => ReadView::Unit(bytes),
    }
}

/// How many payload bytes a transport accepted, when it accepted `accepted`
/// bytes of a write that began with `overhead` bytes that are no payload.
pub open spec fn payload_accepted(accepted: usize, overhead: nat) -> usize {
    if accepted >= overhead {
        (accepted - overhead) as usize
    } else {
        0
    }
}

/// Ends a read on a byte stream.
pub fn read_stream(polled: Option<&[u8]>) -> (outcome: ReadOutcome)
    ensures
        outcome@ == stream_read(polled_view(polled)),
{
    match polled {
        None => ReadOutcome::Pending,
        Some(bytes) => {
            if bytes.len() == 0 {
                ReadOutcome::Closed
            } else {
                let mut unit: Vec<u8> = Vec::new();
                unit.extend_from_slice(bytes);
                assert(unit@ =~= bytes@);
                ReadOutcome::Unit(unit)
            }
        },
    }
}

/// Ends a read on a datagram socket.
pub fn read_datagram(polled: Option<&[u8]>) -> (outcome: ReadOutcome)
    ensures
        outcome@ == datagram_read(polled_view(polled)),
{
    match polled {
        None => ReadOutcome::Pending,
        Some(bytes) => {
            let mut unit: Vec<u8> = Vec::new();
            unit.extend_from_slice(bytes);
            assert(unit@ =~= bytes@);
            ReadOutcome::Unit(unit)
        },
    }
}

/// Counts the payload bytes among the `accepted` bytes of a write that began
/// with `overhead` bytes that are no payload.
pub fn count_payload(accepted: usize, overhead: usize) -> (count: usize)
    ensures
        count == payload_accepted(accepted, overhead as nat),
{
    if accepted >= overhead {
        accepted - overhead
    } else {
        0
    }
}

} // verus!
