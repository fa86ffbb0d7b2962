//! The client's side of a UDP session: datagrams travel over the client's
//! byte stream as frames, and are put together again from whatever pieces
//! the stream delivers.

use crate::stream::frame::after_front;
use crate::stream::frame::declared_len;
use crate::stream::frame::front_complete;
use crate::stream::frame::front_payload;
use crate::stream::frame::push_frame;
use crate::stream::frame::spec_frame;
use crate::stream::frame::BUFFER_CAP;
use crate::stream::frame::MAX_PAYLOAD;
use crate::stream::io::ack;
use crate::stream::io::count_payload;
use crate::stream::io::payload_accepted;
use crate::stream::io::ReadOutcome;
use crate::stream::io::ReadView;
use crate::stream::io::RelayError;
use crate::stream::io::polled_view;
use std::collections::VecDeque;
use vstd::prelude::*;

verus! {

/// The framing state of the client's side of a UDP session.
pub struct UdpInBound {
    buffer: VecDeque<u8>,
    is_first: bool,
}

/// What a [`UdpInBound`] holds: the bytes that arrived and have not been
/// handed on, oldest first, and whether nothing has been written yet.
pub struct UdpInBoundView {
    pub buffer: Seq<u8>,
    pub is_first: bool,
}

impl View for UdpInBound {
    type V = UdpInBoundView;

    closed spec fn view(&self) -> UdpInBoundView {
        UdpInBoundView { buffer: self.buffer@, is_first: self.is_first }
    }
}

impl UdpInBoundView {
    /// The buffer once what the transport reported has been added to it.
    pub open spec fn fed(self, polled: Option<Seq<u8>>) -> Seq<u8> {
        match polled {
            Some(bytes) => self.buffer + bytes,
            None => self.buffer,
        }
    }

    /// How a read ends. A whole frame at the front is handed on, one frame
    /// for each read. Without one, a buffer over its cap is an overflow; a
    /// closed stream is the end; and otherwise the read waits.
    pub open spec fn read_outcome(self, polled: Option<Seq<u8>>) -> Result<ReadView, RelayError> {
        let buffer = self.fed(polled);
        if front_complete(buffer) {
            Ok(ReadView::Unit(front_payload(buffer)))
        } else if buffer.len() > BUFFER_CAP {
            Err(RelayError::BufferOverflow)
        } else if polled == Some(Seq::<u8>::empty()) {
            Ok(ReadView::Closed)
        } else {
            Ok(ReadView::Pending)
        }
    }

    /// The state after a read: the bytes that arrived are kept, and only a
    /// whole frame ever leaves the buffer.
    pub open spec fn after_read(self, polled: Option<Seq<u8>>) -> UdpInBoundView {
        let buffer = self.fed(polled);
        UdpInBoundView {
            buffer: if front_complete(buffer) {
                after_front(buffer)
            } else {
                buffer
            },
            is_first: self.is_first,
        }
    }

    /// How many bytes that are no payload the next write starts with: the
    /// acknowledgement, on the first write, and the length of the frame.
    pub open spec fn overhead(self) -> nat {
        if self.is_first {
            4
        } else {
            2
        }
    }

    /// What the next write of `payload` hands to the transport.
    pub open spec fn wire(self, payload: Seq<u8>) -> Result<Seq<u8>, RelayError> {
        if payload.len() > MAX_PAYLOAD {
            Err(RelayError::PayloadTooLarge(payload.len() as usize))
        } else if self.is_first {
            Ok(ack() + spec_frame(payload))
        } else {
            Ok(spec_frame(payload))
        }
    }

    /// The state after a write that the transport took.
    pub open spec fn after_write(self) -> UdpInBoundView {
        UdpInBoundView { buffer: self.buffer, is_first: false }
    }
}

impl UdpInBound {
    /// The state at the start of a session: nothing buffered, nothing
    /// written.
    pub fn new() -> (endpoint: UdpInBound)
        ensures
            endpoint@ == (UdpInBoundView { buffer: Seq::empty(), is_first: true }),
    {
        UdpInBound { buffer: VecDeque::new(), is_first: true }
    }

    /// How many bytes are buffered.
    pub fn buffered(&self) -> (n: usize)
        ensures
            n == self@.buffer.len(),
    {
        self.buffer.len()
    }

    /// Whether nothing has been written yet.
    pub fn is_first(&self) -> (first: bool)
        ensures
            first == self@.is_first,
    {
        self.is_first
    }

    /// Takes what the client's stream reported when it was polled (`None`
    /// where it was not ready, no bytes where it has closed) and tries to
    /// hand on one datagram. The bytes join the reassembly buffer; a whole
    /// frame at its front leaves it and its payload is the unit read. No
    /// more than one frame is handed on by one call: what else is whole
    /// stays for the next call.
    pub fn poll_read(&mut self, polled: Option<&[u8]>) -> (res: Result<ReadOutcome, RelayError>)
        ensures
            final(self)@ == old(self)@.after_read(polled_view(polled)),
            match res {
                Ok(outcome) => old(self)@.read_outcome(polled_view(polled)) == Ok::<
                    _,
                    RelayError,
                >(outcome@),
                Err(e) => old(self)@.read_outcome(polled_view(polled)) == Err::<ReadView, _>(e),
            },
    {
        let mut closed: bool = false;
        match polled {
            Some(bytes) => {
                closed = bytes.len() == 0;
                let mut i: usize = 0;
                while i < bytes.len()
                    invariant
                        i <= bytes@.len(),
                        self.is_first == old(self).is_first,
                        self.buffer@ == old(self).buffer@ + bytes@.take(i as int),
                    decreases bytes@.len() - i,
                {
                    self.buffer.push_back(bytes[i]);
                    i += 1;
                }
                assert(closed == (polled_view(polled) == Some(Seq::<u8>::empty()))) by {
                    assert(closed ==> bytes@ =~= Seq::<u8>::empty());
                }
            },
            None => {},
        }
        let ghost fed = old(self)@.fed(polled_view(polled));
        assert(self.buffer@ == fed);
        let len: usize = self.buffer.len();
        let mut whole: bool = false;
        let mut declared: usize = 0;
        if len >= 2 {
            declared = (self.buffer[0] as usize) * 256 + (self.buffer[1] as usize);
            whole = len - 2 >= declared;
        }
        if !whole {
            if len > BUFFER_CAP {
                return Err(RelayError::BufferOverflow);
            }
            if closed {
                return Ok(ReadOutcome::Closed);
            }
            return Ok(ReadOutcome::Pending);
        }
        self.buffer.pop_front();
        self.buffer.pop_front();
        let mut payload: Vec<u8> = Vec::new();
        let mut taken: usize = 0;
        while taken < declared
            invariant
                taken <= declared,
                declared + 2 <= fed.len(),
                self.is_first == old(self).is_first,
                self.buffer@ == fed.skip(2 + taken),
                payload@ == fed.subrange(2, 2 + taken),
            decreases declared - taken,
        {
            let byte = self.buffer.pop_front();
            payload.push(byte.unwrap());
            taken += 1;
        }
        Ok(ReadOutcome::Unit(payload))
    }

    /// The bytes to hand to the client's stream for one datagram: its frame,
    /// behind the acknowledgement where this is the first write of the
    /// session. A payload too long for a frame is refused.
    pub fn begin_write(&self, payload: &[u8]) -> (res: Result<Vec<u8>, RelayError>)
        ensures
            match res {
                Ok(wire) => self@.wire(payload@) == Ok::<_, RelayError>(wire@),
                Err(e) => self@.wire(payload@) == Err::<Seq<u8>, _>(e),
            },
    {
        let mut wire: Vec<u8> = Vec::new();
        if self.is_first {
            wire.push(0);
            wire.push(0);
        }
        assert(wire@ =~= if self.is_first {
            ack()
        } else {
            Seq::<u8>::empty()
        });
        if !push_frame(&mut wire, payload) {
            return Err(RelayError::PayloadTooLarge(payload.len()));
        }
        Ok(wire)
    }

    /// Takes note that the client's stream took `accepted` bytes of what
    /// [`UdpInBound::begin_write`] gave, and tells how many of them were
    /// payload: the acknowledgement and the frame's length are not counted.
    /// From here on no write is the first one.
    pub fn finish_write(&mut self, accepted: usize) -> (count: usize)
        ensures
            final(self)@ == old(self)@.after_write(),
            count == payload_accepted(accepted, old(self)@.overhead()),
    {
        let overhead: usize = if self.is_first {
            4
        } else {
            2
        };
        self.is_first = false;
        count_payload(accepted, overhead)
    }
}

} // verus!
