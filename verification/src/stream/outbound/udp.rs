//! The destination's side of a UDP session: one socket, one datagram for
//! each unit.

use crate::addr::SocketAddress;
use crate::stream::io::datagram_read;
use crate::stream::io::polled_view;
use crate::stream::io::read_datagram;
use crate::stream::io::ReadOutcome;
use vstd::prelude::*;

verus! {

/// The destination's side of a UDP session: a socket bound to `local` whose
/// default peer is `peer`.
#[derive(Clone, Copy, Debug, PartialEq, Eq)]
pub struct UdpOutBound {
    local: SocketAddress,
    peer: SocketAddress,
}

impl UdpOutBound {
    /// The address that the socket is bound to.
    pub closed spec fn spec_local(self) -> SocketAddress {
        self.local
    }

    /// The address that datagrams go to and come from.
    pub closed spec fn spec_peer(self) -> SocketAddress {
        self.peer
    }

    /// The destination's side for datagrams to `addr`, sent from a port that
    /// the system picks: the socket is bound to `0.0.0.0:0`.
    pub fn new(addr: &SocketAddress) -> (endpoint: UdpOutBound)
        ensures
            endpoint.spec_peer() == *addr,
            endpoint.spec_local().is_unspecified(),
    {
        UdpOutBound { local: SocketAddress::unspecified(), peer: *addr }
    }

    /// The address that the socket is bound to.
    #[verifier::when_used_as_spec(spec_local)]
    pub fn local(self) -> (local: SocketAddress)
        ensures
            local == self.spec_local(),
    {
        self.local
    }

    /// The address that datagrams go to and come from.
    #[verifier::when_used_as_spec(spec_peer)]
    pub fn peer(self) -> (peer: SocketAddress)
        ensures
            peer == self.spec_peer(),
    {
        self.peer
    }

    /// Takes what the socket reported when it was polled (`None` where it was
    /// not ready, else the datagram that arrived) and hands the datagram on
    /// as one unit.
    pub fn poll_read(&self, polled: Option<&[u8]>) -> (outcome: ReadOutcome)
        ensures
            outcome@ == datagram_read(polled_view(polled)),
    {
        read_datagram(polled)
    }

    /// The bytes to send as one datagram for `unit`: the unit itself.
    pub fn begin_write(&self, unit: Vec<u8>) -> (wire: Vec<u8>)
        ensures
            wire@ == unit@,
    {
        unit
    }

    /// Tells how many payload bytes the socket took when it took `accepted`
    /// bytes: all of them.
    pub fn finish_write(&self, accepted: usize) -> (count: usize)
        ensures
            count == accepted,
    {
        accepted
    }
}

} // verus!
