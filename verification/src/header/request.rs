//! A handshake as it stands on the wire, before its destination is
//! resolved: the parser and the encoder of the format.

use crate::header::name::host_and_port;
use crate::header::name::lookup_name;
use crate::header::next_field;
use crate::header::reader::copy_range;
use crate::header::scan;
use crate::header::cmd_of_byte;
use crate::header::spec_be16;
use crate::header::Cmd;
use crate::header::HandshakeError;
use crate::header::Progress;
use vstd::prelude::*;

verus! {

/// A destination as the client names it.
#[derive(Clone, Debug, PartialEq, Eq)]
pub enum Address {
    /// An IPv4 address, its four octets in network order.
    Ipv4([u8; 4]),
    /// The bytes of a domain name, at most 255 of them.
    Domain(Vec<u8>),
}

/// What an [`Address`] holds.
pub enum AddressView {
    Ipv4(Seq<u8>),
    Domain(Seq<u8>),
}

impl View for Address {
    type V = AddressView;

    open spec fn view(&self) -> AddressView {
        match self {
            Address::Ipv4(octets) => AddressView::Ipv4(octets@),
            Address::Domain(name) => AddressView::Domain(name@),
        }
    }
}

impl AddressView {
    /// Whether the address fits the wire format: four octets, or a name of at
    /// most 255 bytes.
    pub open spec fn wf(self) -> bool {
        match self {
            AddressView::Ipv4(octets) => octets.len() == 4,
            AddressView::Domain(name) => name.len() <= 255,
        }
    }

    /// The address type byte and the address as they stand on the wire.
    pub open spec fn wire(self) -> Seq<u8> {
        match self {
            AddressView::Ipv4(octets) => seq![1u8] + octets,
            AddressView::Domain(name) => seq![2u8, name.len() as u8] + name,
        }
    }
}

/// The fields of a handshake.
pub struct Request {
    version: u8,
    uuid: [u8; 16],
    cmd: Cmd,
    port: u16,
    address: Address,
}

/// What a [`Request`] holds.
pub struct RequestView {
    pub version: u8,
    pub uuid: Seq<u8>,
    pub cmd: Cmd,
    pub port: u16,
    pub address: AddressView,
}

impl RequestView {
    /// Whether the fields fit the wire format.
    pub open spec fn wf(self) -> bool {
        &&& self.version == 0
        &&& self.uuid.len() == 16
        &&& self.address.wf()
    }
}

/// The fields that a whole handshake at the front of `b` holds.
pub open spec fn request_at(b: Seq<u8>) -> RequestView {
    let l = b[17] as int;
    RequestView {
        version: b[0],
        uuid: b.subrange(1, 17),
        cmd: cmd_of_byte(b[18 + l]).unwrap(),
        port: spec_be16(b[19 + l], b[20 + l]),
        address: if b[21 + l] == 1 {
            AddressView::Ipv4(b.subrange(22 + l, 26 + l))
        } else {
            AddressView::Domain(b.subrange(23 + l, 23 + l + b[22 + l] as int))
        },
    }
}

/// The options that a whole handshake at the front of `b` carries.
pub open spec fn options_at(b: Seq<u8>) -> Seq<u8> {
    b.subrange(18, 18 + b[17] as int)
}

/// What parsing `b` gives: the fields of the handshake at its front and the
/// handshake's length, or the first thing that is wrong with it. Bytes that
/// end inside a field are a truncation in that field.
pub open spec fn spec_parse(b: Seq<u8>) -> Result<(RequestView, usize), HandshakeError> {
    match scan(b) {
        Progress::Complete(n) => Ok((request_at(b), n)),
        Progress::Missing(field, _) => Err(HandshakeError::Truncated(field)),
        Progress::Invalid(e) => Err(e),
    }
}

/// The handshake that carries the fields of `r` and the options `options`.
pub open spec fn spec_encode(r: RequestView, options: Seq<u8>) -> Seq<u8> {
    seq![r.version] + r.uuid + seq![options.len() as u8] + options + seq![
        r.cmd.wire(),
        (r.port / 256) as u8,
        (r.port % 256) as u8,
    ] + r.address.wire()
}

impl View for Request {
    type V = RequestView;

    closed spec fn view(&self) -> RequestView {
        RequestView {
            version: self.version,
            uuid: self.uuid@,
            cmd: self.cmd,
            port: self.port,
            address: self.address@,
        }
    }
}

impl Request {
    #[verifier::type_invariant]
    spec fn fits_wire(self) -> bool {
        self@.wf()
    }

    /// A request of version 0 with the given fields, or nothing where a
    /// domain name is longer than the 255 bytes that the format can carry.
    pub fn new(uuid: [u8; 16], cmd: Cmd, port: u16, address: Address) -> (request: Option<
        Request,
    >)
        ensures
            match request {
                Some(r) => address@.wf() && r@ == (RequestView {
                    version: 0,
                    uuid: uuid@,
                    cmd,
                    port,
                    address: address@,
                }),
                None => !address@.wf(),
            },
    {
        let fits = match &address {
            Address::Ipv4(_) => true,
            Address::Domain(name) => name.len() <= 255,
        };
        if fits {
            Some(Request { version: 0, uuid, cmd, port, address })
        } else {
            None
        }
    }

    /// Parses the handshake at the front of `bytes`. Gives its fields and its
    /// length, so that the caller knows where the payload begins; bytes past
    /// the handshake are not looked at.
    pub fn parse(bytes: &[u8]) -> (res: Result<(Request, usize), HandshakeError>)
        ensures
            match res {
                Ok((request, n)) => spec_parse(bytes@) == Ok::<_, HandshakeError>((request@, n))
                    && n <= bytes@.len()
                    && request@.wf(),
                Err(e) => spec_parse(bytes@) == Err::<(RequestView, usize), _>(e),
            },
    {
        match next_field(bytes) {
            Progress::Missing(field, _) => Err(HandshakeError::Truncated(field)),
            Progress::Invalid(e) => Err(e),
            Progress::Complete(n) => {
                let l: usize = bytes[17] as usize;
                let uuid: [u8; 16] = [
                    bytes[1],
                    bytes[2],
                    bytes[3],
                    bytes[4],
                    bytes[5],
                    bytes[6],
                    bytes[7],
                    bytes[8],
                    bytes[9],
                    bytes[10],
                    bytes[11],
                    bytes[12],
                    bytes[13],
                    bytes[14],
                    bytes[15],
                    bytes[16],
                ];
                assert(uuid@ =~= bytes@.subrange(1, 17));
                let cmd = if bytes[18 + l] == 1 {
                    Cmd::Tcp
                } else {
                    Cmd::Udp
                };
                let port: u16 = (bytes[19 + l] as u16) * 256 + (bytes[20 + l] as u16);
                let address = if bytes[21 + l] == 1 {
                    let octets: [u8; 4] = [
                        bytes[22 + l],
                        bytes[23 + l],
                        bytes[24 + l],
                        bytes[25 + l],
                    ];
                    assert(octets@ =~= bytes@.subrange(22 + l, 26 + l));
                    Address::Ipv4(octets)
                } else {
                    let d: usize = bytes[22 + l] as usize;
                    Address::Domain(copy_range(bytes, 23 + l, 23 + l + d))
                };
                let request = Request { version: bytes[0], uuid, cmd, port, address };
                Ok((request, n))
            },
        }
    }

    /// Encodes the request, with `options` in the options field. Gives
    /// nothing where `options` is longer than the 255 bytes that the field
    /// can carry.
    pub fn encode(&self, options: &[u8]) -> (wire: Option<Vec<u8>>)
        ensures
            match wire {
                Some(bytes) => options@.len() <= 255 && bytes@ == spec_encode(self@, options@),
                None => options@.len() > 255,
            },
    {
        proof {
            use_type_invariant(self);
        }
        if options.len() > 255 {
            return None;
        }
        let mut out: Vec<u8> = Vec::new();
        out.push(self.version);
        out.extend_from_slice(self.uuid.as_slice());
        out.push(options.len() as u8);
        out.extend_from_slice(options);
        out.push(self.cmd.to_byte());
        out.push((self.port / 256) as u8);
        out.push((self.port % 256) as u8);
        match &self.address {
            Address::Ipv4(octets) => {
                out.push(1);
                out.extend_from_slice(octets.as_slice());
            },
            Address::Domain(name) => {
                out.push(2);
                out.push(name.len() as u8);
                out.extend_from_slice(name.as_slice());
            },
        }
        Some(out)
    }

    /// The protocol version, which is 0.
    pub fn version(&self) -> (version: u8)
        ensures
            version == self@.version,
            version == 0,
    {
        proof {
            use_type_invariant(self);
        }
        self.version
    }

    /// The session identifier.
    pub fn uuid(&self) -> (uuid: &[u8; 16])
        ensures
            uuid@ == self@.uuid,
    {
        &self.uuid
    }

    /// The command.
    pub fn cmd(&self) -> (cmd: Cmd)
        ensures
            cmd == self@.cmd,
    {
        self.cmd
    }

    /// The destination port.
    pub fn port(&self) -> (port: u16)
        ensures
            port == self@.port,
    {
        self.port
    }

    /// The destination as the client named it.
    pub fn address(&self) -> (address: &Address)
        ensures
            address@ == self@.address,
            address@.wf(),
    {
        proof {
            use_type_invariant(self);
        }
        &self.address
    }

    /// The name to look up for a domain destination: the host, a colon and
    /// the port. An IPv4 destination needs no lookup and has no such name.
    pub fn lookup_target(&self) -> (target: Option<String>)
        ensures
            match self@.address {
                AddressView::Ipv4(_) => target is None,
                AddressView::Domain(name) => target matches Some(text)
                    && text@ == lookup_name(name, self@.port),
            },
    {
        match &self.address {
            Address::Ipv4(_) => None,
            Address::Domain(name) => Some(host_and_port(name.as_slice(), self.port)),
        }
    }
}

} // verus!
