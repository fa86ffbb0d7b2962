//! The destination's side of a TCP session: one connection, bytes as they
//! are.

use crate::addr::SocketAddress;
use crate::stream::io::polled_view;
use crate::stream::io::read_stream;
use crate::stream::io::stream_read;
use crate::stream::io::ReadOutcome;
use vstd::prelude::*;

verus! {

/// The destination's side of a TCP session: a connection to `peer`.
#[derive(Clone, Copy, Debug, PartialEq, Eq)]
pub struct TcpOutBound {
    peer: SocketAddress,
}

impl TcpOutBound {
    /// The address that the connection goes to.
    pub closed spec fn spec_peer(self) -> SocketAddress {
        self.peer
    }

    /// The destination's side for a connection to `addr`.
    pub fn new(addr: &SocketAddress) -> (endpoint: TcpOutBound)
        ensures
            endpoint.spec_peer() == *addr,
    {
        TcpOutBound { peer: *addr }
    }

    /// The address that the connection goes to.
    #[verifier::when_used_as_spec(spec_peer)]
    pub fn peer(self) -> (peer: SocketAddress)
        ensures
            peer == self.spec_peer(),
    {
        self.peer
    }

    /// Takes what the connection reported when it was polled (`None` where
    /// it was not ready, no bytes where it has closed) and hands the bytes on
    /// as they are.
    pub fn poll_read(&self, polled: Option<&[u8]>) -> (outcome: ReadOutcome)
        ensures
            outcome@ == stream_read(polled_view(polled)),
    {
        read_stream(polled)
    }

    /// The bytes to hand to the connection for `unit`: the unit itself.
    pub fn begin_write(&self, unit: Vec<u8>) -> (wire: Vec<u8>)
        ensures
            wire@ == unit@,
    {
        unit
    }

    /// Tells how many payload bytes the connection took when it took
    /// `accepted` bytes: all of them.
    pub fn finish_write(&self, accepted: usize) -> (count: usize)
        ensures
            count == accepted,
    {
        accepted
    }
}

} // verus!
