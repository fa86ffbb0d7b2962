//! The destination's side of a session, in the variant that the command
//! selects.

use crate::addr::SocketAddress;
use crate::header::Cmd;
use crate::stream::io::datagram_read;
use crate::stream::io::polled_view;
use crate::stream::io::stream_read;
use crate::stream::io::ReadOutcome;
use crate::stream::io::ReadView;
use crate::stream::outbound::tcp::TcpOutBound;
use crate::stream::outbound::udp::UdpOutBound;
use vstd::prelude::*;

pub mod tcp;
pub mod udp;

verus! {

/// The destination's side of a session.
#[derive(Clone, Copy, Debug, PartialEq, Eq)]
pub enum OutBound {
    Tcp(TcpOutBound),
    Udp(UdpOutBound),
}

impl OutBound {
    /// The command that selected the variant.
    pub open spec fn spec_cmd(self) -> Cmd {
        match self {
            OutBound::Tcp(_) => Cmd::Tcp,
            OutBound::Udp(_) => Cmd::Udp,
        }
    }

    /// The address of the destination.
    pub open spec fn spec_peer(self) -> SocketAddress {
        match self {
            OutBound::Tcp(endpoint) => endpoint.spec_peer(),
            OutBound::Udp(endpoint) => endpoint.spec_peer(),
        }
    }

    /// Whether this is the destination's side that a session with the
    /// command `cmd` and the destination `addr` asks for: a connection to
    /// `addr`, or a socket for datagrams to `addr` that is bound to
    /// `0.0.0.0:0`.
    pub open spec fn serves(self, addr: SocketAddress, cmd: Cmd) -> bool {
        &&& self.spec_cmd() == cmd
        &&& self.spec_peer() == addr
        &&& self matches OutBound::Udp(socket) ==> socket.spec_local().is_unspecified()
    }

    /// How a read ends: a connection hands on the bytes that arrived and
    /// ends when it has closed, a socket hands on each datagram.
    pub open spec fn read_outcome(self, polled: Option<Seq<u8>>) -> ReadView {
        match self {
            OutBound::Tcp(_) => stream_read(polled),
            OutBound::Udp(_) => datagram_read(polled),
        }
    }

    /// The destination's side of a session with the command `cmd` and the
    /// destination `addr`.
    pub fn new(addr: &SocketAddress, cmd: Cmd) -> (endpoint: OutBound)
        ensures
            endpoint.serves(*addr, cmd),
    {
        match cmd {
            Cmd::Tcp => OutBound::Tcp(TcpOutBound::new(addr)),
            Cmd::Udp => OutBound::Udp(UdpOutBound::new(addr)),
        }
    }

    /// The address of the destination.
    #[verifier::when_used_as_spec(spec_peer)]
    pub fn peer(self) -> (peer: SocketAddress)
        ensures
            peer == self.spec_peer(),
    {
        match self {
            OutBound::Tcp(endpoint) => endpoint.peer(),
            OutBound::Udp(endpoint) => endpoint.peer(),
        }
    }

    /// Takes what the destination's transport reported when it was polled and
    /// hands on one unit, as the variant does.
    pub fn poll_read(&self, polled: Option<&[u8]>) -> (outcome: ReadOutcome)
        ensures
            outcome@ == self.read_outcome(polled_view(polled)),
    {
        match self {
            OutBound::Tcp(endpoint) => endpoint.poll_read(polled),
            OutBound::Udp(endpoint) => endpoint.poll_read(polled),
        }
    }

    /// The bytes to hand to the destination's transport for `unit`: the unit
    /// itself, in either variant.
    pub fn begin_write(&self, unit: Vec<u8>) -> (wire: Vec<u8>)
        ensures
            wire@ == unit@,
    {
        match self {
            OutBound::Tcp(endpoint) => endpoint.begin_write(unit),
            OutBound::Udp(endpoint) => endpoint.begin_write(unit),
        }
    }

    /// Tells how many payload bytes the destination's transport took when it
    /// took `accepted` bytes: all of them, in either variant.
    pub fn finish_write(&self, accepted: usize) -> (count: usize)
        ensures
            count == accepted,
    {
        match self {
            OutBound::Tcp(endpoint) => endpoint.finish_write(accepted),
            OutBound::Udp(endpoint) => endpoint.finish_write(accepted),
        }
    }
}

} // verus!
