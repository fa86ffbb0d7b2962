//! Socket addresses as plain values.

use vstd::prelude::*;

verus! {

/// An IP address together with a port: where a session's traffic goes, or
/// where a client connected from.
#[derive(Clone, Copy, Debug, PartialEq, Eq)]
#[allow(inconsistent_fields)]
pub enum SocketAddress {
    /// An IPv4 address, its four octets in network order.
    V4 { octets: [u8; 4], port: u16 },
    /// An IPv6 address, its sixteen octets in network order.
    V6 { octets: [u8; 16], port: u16, flowinfo: u32, scope_id: u32 },
}

impl SocketAddress {
    /// The address's port.
    pub open spec fn spec_port(self) -> u16 {
        match self {
            SocketAddress::V4 { port, .. } => port,
            SocketAddress::V6 { port, .. } => port,
        }
    }

    /// Whether the address leaves the choice of address and port to the
    /// system: `0.0.0.0:0`.
    pub open spec fn is_unspecified(self) -> bool {
        self matches SocketAddress::V4 { octets, port } && port == 0 && octets@ == seq![
            0u8,
            0u8,
            0u8,
            0u8,
        ]
    }

    /// The IPv4 address `octets` with `port`.
    pub fn v4(octets: [u8; 4], port: u16) -> (addr: SocketAddress)
        ensures
            addr == (SocketAddress::V4 { octets, port }),
    {
        SocketAddress::V4 { octets, port }
    }

    /// The address that leaves the choice of address and port to the system:
    /// `0.0.0.0:0`.
    pub fn unspecified() -> (addr: SocketAddress)
        ensures
            addr.is_unspecified(),
    {
        let octets: [u8; 4] = [0, 0, 0, 0];
        SocketAddress::V4 { octets, port: 0 }
    }

    /// The address's port.
    #[verifier::when_used_as_spec(spec_port)]
    pub fn port(self) -> (port: u16)
        ensures
            port == self.spec_port(),
    {
        match self {
            SocketAddress::V4 { port, .. } => port,
            SocketAddress::V6 { port, .. } => port,
        }
    }
}

} // verus!
