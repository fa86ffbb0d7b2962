//! The handshake that opens a session: its wire format, its parser and the
//! resolution of its destination.
//!
//! All integers on the wire are big-endian:
//!
//! | offset | size     | field                                   |
//! |--------|----------|-----------------------------------------|
//! | 0      | 1        | version, always 0                       |
//! | 1      | 16       | session id                              |
//! | 17     | 1        | options length `L`                      |
//! | 18     | `L`      | options, skipped                        |
//! | 18+L   | 1        | command, 1 = TCP, 2 = UDP               |
//! | 19+L   | 2        | port                                    |
//! | 21+L   | 1        | address type, 1 = IPv4, 2 = domain      |
//! | 22+L   | 4 or 1+D | four octets, or a length `D` and a name |

use crate::addr::SocketAddress;
use crate::header::name::lookup_name;
use crate::header::reader::Reader;
use crate::header::request::spec_parse;
use crate::header::request::Address;
use crate::header::request::AddressView;
use crate::header::request::Request;
use crate::header::request::RequestView;
use vstd::prelude::*;

pub mod laws;
pub mod name;
pub mod reader;
pub mod request;

verus! {

/// The transport kind a client asks for. It selects the transport towards the
/// destination and the framing on the client's side.
#[derive(Clone, Copy, Debug, PartialEq, Eq, Structural)]
pub enum Cmd {
    Tcp,
    Udp,
}

impl Cmd {
    /// The byte that stands for the command on the wire.
    pub open spec fn wire(self) -> u8 {
        match self {
            Cmd::Tcp => 1,
            Cmd::Udp => 2,
        }
    }

    /// The name of the command as it is shown to people.
    pub open spec fn spec_name(self) -> Seq<char> {
        match self {
            Cmd::Tcp => "TCP"@,
            Cmd::Udp => "UDP"@,
        }
    }

    /// The name of the command as it is shown to people: `TCP` or `UDP`.
    pub fn name(self) -> (name: &'static str)
        ensures
            name@ == self.spec_name(),
    {
        match self {
            Cmd::Tcp => "TCP",
            Cmd::Udp => "UDP",
        }
    }

    /// The byte that stands for the command on the wire.
    pub fn to_byte(self) -> (b: u8)
        ensures
            b == self.wire(),
            cmd_of_byte(b) == Some(self),
    {
        match self {
            Cmd::Tcp => 1,
            Cmd::Udp => 2,
        }
    }
}

/// The fields of a handshake, in wire order.
#[derive(Clone, Copy, Debug, PartialEq, Eq, Structural)]
pub enum Field {
    Version,
    SessionId,
    OptionsLength,
    Options,
    Command,
    Port,
    AddressType,
    Ipv4Address,
    DomainLength,
    Domain,
}

/// Why a handshake did not yield a header.
#[derive(Clone, Copy, Debug, PartialEq, Eq, Structural)]
pub enum HandshakeError {
    /// The version byte, which is carried, is not 0.
    UnsupportedVersion(u8),
    /// The command byte, which is carried, is neither 1 nor 2.
    UnknownCommand(u8),
    /// The address type byte, which is carried, is neither 1 nor 2.
    UnknownAddressType(u8),
    /// The bytes ended inside the field.
    Truncated(Field),
    /// The lookup of a domain name failed or gave no address.
    ResolutionFailed,
}

/// How far a run of bytes gets through the handshake format.
#[derive(Clone, Copy, Debug, PartialEq, Eq, Structural)]
pub enum Progress {
    /// The bytes start with a whole handshake of this length.
    Complete(usize),
    /// The bytes end inside the field, which lacks this many bytes.
    Missing(Field, usize),
    /// A field holds a value that the format does not allow.
    Invalid(HandshakeError),
}

/// The value of two bytes read as a big-endian integer.
pub open spec fn spec_be16(hi: u8, lo: u8) -> u16 {
    (hi as int * 256 + lo as int) as u16
}

/// The command that a wire byte stands for, if any.
pub open spec fn cmd_of_byte(value: u8) -> Option<Cmd> {
    if value == 1 {
        Some(Cmd::Tcp)
    } else if value == 2 {
        Some(Cmd::Udp)
    } else {
        None
    }
}

/// How far `b` gets through the handshake format. The fields are taken in
/// wire order, and each is judged as soon as it is whole: a bad version is
/// reported even when nothing follows it.
pub open spec fn scan(b: Seq<u8>) -> Progress {
    if b.len() < 1 {
        Progress::Missing(Field::Version, 1)
    } else if b[0] != 0 {
        Progress::Invalid(HandshakeError::UnsupportedVersion(b[0]))
    } else if b.len() < 17 {
        Progress::Missing(Field::SessionId, (17 - b.len()) as usize)
    } else if b.len() < 18 {
        Progress::Missing(Field::OptionsLength, 1)
    } else {
        let l = b[17] as int;
        if b.len() < 18 + l {
            Progress::Missing(Field::Options, (18 + l - b.len()) as usize)
        } else if b.len() < 19 + l {
            Progress::Missing(Field::Command, 1)
        } else if cmd_of_byte(b[18 + l]) is None {
            Progress::Invalid(HandshakeError::UnknownCommand(b[18 + l]))
        } else if b.len() < 21 + l {
            Progress::Missing(Field::Port, (21 + l - b.len()) as usize)
        } else if b.len() < 22 + l {
            Progress::Missing(Field::AddressType, 1)
        } else if b[21 + l] == 1 {
            if b.len() < 26 + l {
                Progress::Missing(Field::Ipv4Address, (26 + l - b.len()) as usize)
            } else {
                Progress::Complete((26 + l) as usize)
            }
        } else if b[21 + l] == 2 {
            if b.len() < 23 + l {
                Progress::Missing(Field::DomainLength, 1)
            } else {
                let d = b[22 + l] as int;
                if b.len() < 23 + l + d {
                    Progress::Missing(Field::Domain, (23 + l + d - b.len()) as usize)
                } else {
                    Progress::Complete((23 + l + d) as usize)
                }
            }
        } else {
            Progress::Invalid(HandshakeError::UnknownAddressType(b[21 + l]))
        }
    }
}

/// Tells how far `received` gets through the handshake format: whether it
/// holds a whole handshake, which field is cut short and by how much, or
/// which field is invalid. A caller that reads from a stream reads the
/// missing bytes and asks again, and so never takes a byte that follows the
/// handshake.
pub fn next_field(received: &[u8]) -> (progress: Progress)
    ensures
        progress == scan(received@),
{
    let len: usize = received.len();
    if len < 1 {
        return Progress::Missing(Field::Version, 1);
    }
    if received[0] != 0 {
        return Progress::Invalid(HandshakeError::UnsupportedVersion(received[0]));
    }
    if len < 17 {
        return Progress::Missing(Field::SessionId, 17 - len);
    }
    if len < 18 {
        return Progress::Missing(Field::OptionsLength, 1);
    }
    let l: usize = received[17] as usize;
    if len < 18 + l {
        return Progress::Missing(Field::Options, 18 + l - len);
    }
    if len < 19 + l {
        return Progress::Missing(Field::Command, 1);
    }
    let command: u8 = received[18 + l];
    if command != 1 && command != 2 {
        return Progress::Invalid(HandshakeError::UnknownCommand(command));
    }
    if len < 21 + l {
        return Progress::Missing(Field::Port, 21 + l - len);
    }
    if len < 22 + l {
        return Progress::Missing(Field::AddressType, 1);
    }
    let kind: u8 = received[21 + l];
    if kind == 1 {
        if len < 26 + l {
            Progress::Missing(Field::Ipv4Address, 26 + l - len)
        } else {
            Progress::Complete(26 + l)
        }
    } else if kind == 2 {
        if len < 23 + l {
            return Progress::Missing(Field::DomainLength, 1);
        }
        let d: usize = received[22 + l] as usize;
        if len < 23 + l + d {
            Progress::Missing(Field::Domain, 23 + l + d - len)
        } else {
            Progress::Complete(23 + l + d)
        }
    } else {
        Progress::Invalid(HandshakeError::UnknownAddressType(kind))
    }
}

impl TryFrom<u8> for Cmd {
    type Error = HandshakeError;

    /// The command that the wire byte `value` stands for: 1 is TCP, 2 is
    /// UDP, and every other byte is refused.
    fn try_from(value: u8) -> (res: Result<Cmd, HandshakeError>) {
        if value == 1 {
            Ok(Cmd::Tcp)
        } else if value == 2 {
            Ok(Cmd::Udp)
        } else {
            Err(HandshakeError::UnknownCommand(value))
        }
    }
}

impl vstd::std_specs::convert::TryFromSpecImpl<u8> for Cmd {
    open spec fn obeys_try_from_spec() -> bool {
        true
    }

    open spec fn try_from_spec(value: u8) -> Result<Cmd, HandshakeError> {
        match cmd_of_byte(value) {
            Some(cmd) => Ok(cmd),
            None => Err(HandshakeError::UnknownCommand(value)),
        }
    }
}

/// The session descriptor that a handshake yields: who asks, for which
/// transport, and for which destination, already resolved.
pub struct Header {
    version: u8,
    uuid: [u8; 16],
    cmd: Cmd,
    addr: SocketAddress,
}

/// What a [`Header`] holds.
pub struct HeaderView {
    pub version: u8,
    pub uuid: Seq<u8>,
    pub cmd: Cmd,
    pub addr: SocketAddress,
}

impl View for Header {
    type V = HeaderView;

    closed spec fn view(&self) -> HeaderView {
        HeaderView { version: self.version, uuid: self.uuid@, cmd: self.cmd, addr: self.addr }
    }
}

/// What a lookup gave, as a sequence: nothing where it failed.
pub open spec fn answers_of(lookup: Option<Vec<SocketAddress>>) -> Seq<SocketAddress> {
    match lookup {
        Some(answers) => answers@,
        None => Seq::empty(),
    }
}

/// Whether `outcome` is what resolving the request `r` gives when the lookup
/// of its domain name answered `answers`. An IPv4 destination stands as it
/// is, whatever the answers. A domain destination is the first answer, and
/// without an answer the resolution has failed.
pub open spec fn resolves_to(
    r: RequestView,
    answers: Seq<SocketAddress>,
    outcome: Result<HeaderView, HandshakeError>,
) -> bool {
    match r.address {
        AddressView::Ipv4(wire) => outcome matches Ok(h) && h.version == r.version && h.uuid
            == r.uuid && h.cmd == r.cmd && (h.addr matches SocketAddress::V4 { octets, port }
            && octets@ == wire && port == r.port),
        AddressView::Domain(_) => if answers.len() > 0 {
            outcome == Ok::<_, HandshakeError>(
                HeaderView { version: r.version, uuid: r.uuid, cmd: r.cmd, addr: answers[0] },
            )
        } else {
            outcome == Err::<HeaderView, _>(HandshakeError::ResolutionFailed)
        },
    }
}

/// What a result of headers holds.
pub open spec fn outcome_view(res: Result<Header, HandshakeError>) -> Result<
    HeaderView,
    HandshakeError,
> {
    match res {
        Ok(h) => Ok(h@),
        Err(e) => Err(e),
    }
}

impl Header {
    /// The protocol version.
    pub fn version(&self) -> (version: u8)
        ensures
            version == self@.version,
    {
        self.version
    }

    /// The session identifier.
    pub fn uuid(&self) -> (uuid: &[u8; 16])
        ensures
            uuid@ == self@.uuid,
    {
        &self.uuid
    }

    /// The command.
    pub fn cmd(&self) -> (cmd: Cmd)
        ensures
            cmd == self@.cmd,
    {
        self.cmd
    }

    /// The resolved destination.
    pub fn addr(&self) -> (addr: &SocketAddress)
        ensures
            *addr == self@.addr,
    {
        &self.addr
    }

    /// Resolves the destination of `request`, given what the lookup of its
    /// domain name answered: `None` where the lookup itself failed. The first
    /// answer is kept. An IPv4 destination needs no lookup, and `lookup` is
    /// not looked at.
    pub fn resolve(request: &Request, lookup: &Option<Vec<SocketAddress>>) -> (res: Result<
        Header,
        HandshakeError,
    >)
        ensures
            resolves_to(request@, answers_of(*lookup), outcome_view(res)),
    {
        let addr = match request.address() {
            Address::Ipv4(octets) => SocketAddress::v4(*octets, request.port()),
            Address::Domain(_) => {
                match lookup {
                    Some(answers) => {
                        if answers.len() > 0 {
                            answers[0]
                        } else {
                            return Err(HandshakeError::ResolutionFailed);
                        }
                    },
                    None => {
                        return Err(HandshakeError::ResolutionFailed);
                    },
                }
            },
        };
        Ok(Header { version: request.version(), uuid: *request.uuid(), cmd: request.cmd(), addr })
    }

    /// Reads one handshake from the front of `reader` and resolves its
    /// destination. The reader moves past the handshake and no further: what
    /// follows is the session's payload. Where the handshake is refused, the
    /// reader stays where it was.
    ///
    /// A domain destination is looked up by `lookup`, which is handed the
    /// host, a colon and the port, and answers with the addresses it found, or
    /// with `None` where the lookup failed. It is not called for an IPv4
    /// destination.
    pub fn from_reader<L>(reader: &mut Reader, lookup: L) -> (res: Result<Header, HandshakeError>)
        where L: FnOnce(String) -> Option<Vec<SocketAddress>>
        requires
            forall|name: String| call_requires(lookup, (name,)),
        ensures
            final(reader).bytes() == old(reader).bytes(),
            match spec_parse(old(reader).rest()) {
                Err(e) => outcome_view(res) == Err::<HeaderView, _>(e) && final(reader).taken()
                    == old(reader).taken(),
                Ok((r, n)) => final(reader).taken() == old(reader).taken() + n && match r.address {
                    AddressView::Ipv4(_) => resolves_to(r, Seq::empty(), outcome_view(res)),
                    AddressView::Domain(domain) => exists|
                        name: String,
                        answers: Option<Vec<SocketAddress>>,
                    |
                        name@ == lookup_name(domain, r.port) && call_ensures(
                            lookup,
                            (name,),
                            answers,
                        ) && resolves_to(r, answers_of(answers), outcome_view(res)),
                },
            },
    {
        let (request, n) = match Request::parse(reader.peek()) {
            Ok(parsed) => parsed,
            Err(e) => {
                return Err(e);
            },
        };
        reader.advance(n);
        match request.lookup_target() {
            None => Header::resolve(&request, &None),
            Some(name) => {
                let ghost asked = name;
                let answers = lookup(name);
                let res = Header::resolve(&request, &answers);
                res
            },
        }
    }
}

} // verus!
