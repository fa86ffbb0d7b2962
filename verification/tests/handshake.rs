use tunnel_relay::addr::SocketAddress;
use tunnel_relay::header::name::host_and_port;
use tunnel_relay::header::name::join_host_port;
use tunnel_relay::header::next_field;
use tunnel_relay::header::reader::Reader;
use tunnel_relay::header::request::Address;
use tunnel_relay::header::request::Request;
use tunnel_relay::header::Cmd;
use tunnel_relay::header::Field;
use tunnel_relay::header::HandshakeError;
use tunnel_relay::header::Header;
use tunnel_relay::header::Progress;

const UUID: [u8; 16] = [
    0x10, 0x11, 0x12, 0x13, 0x14, 0x15, 0x16, 0x17, 0x18, 0x19, 0x1a, 0x1b, 0x1c, 0x1d, 0x1e, 0x1f,
];

fn handshake(version: u8, options: &[u8], command: u8, port: u16, address: &[u8]) -> Vec<u8> {
    let mut bytes = vec![version];
    bytes.extend_from_slice(&UUID);
    bytes.push(options.len() as u8);
    bytes.extend_from_slice(options);
    bytes.push(command);
    bytes.extend_from_slice(&port.to_be_bytes());
    bytes.extend_from_slice(address);
    bytes
}

fn ipv4_handshake() -> Vec<u8> {
    handshake(0, &[], 1, 80, &[1, 93, 184, 216, 34])
}

fn domain_handshake() -> Vec<u8> {
    let mut address = vec![2, 11];
    address.extend_from_slice(b"example.com");
    handshake(0, &[0xaa, 0xbb, 0xcc], 2, 53, &address)
}

fn no_lookup(_name: String) -> Option<Vec<SocketAddress>> {
    panic!("an IPv4 destination is not looked up")
}

#[test]
fn parses_an_ipv4_handshake() {
    let bytes = ipv4_handshake();
    assert_eq!(bytes.len(), 26);
    let (request, consumed) = Request::parse(&bytes).unwrap();
    assert_eq!(consumed, 26);
    assert_eq!(request.version(), 0);
    assert_eq!(request.uuid(), &UUID);
    assert_eq!(request.cmd(), Cmd::Tcp);
    assert_eq!(request.port(), 80);
    assert_eq!(request.address(), &Address::Ipv4([93, 184, 216, 34]));
    assert_eq!(request.lookup_target(), None);
}

#[test]
fn parses_a_domain_handshake_with_options() {
    let bytes = domain_handshake();
    assert_eq!(bytes.len(), 18 + 3 + 4 + 1 + 11);
    let (request, consumed) = Request::parse(&bytes).unwrap();
    assert_eq!(consumed, bytes.len());
    assert_eq!(request.cmd(), Cmd::Udp);
    assert_eq!(request.port(), 53);
    assert_eq!(request.address(), &Address::Domain(b"example.com".to_vec()));
    assert_eq!(request.lookup_target(), Some(String::from("example.com:53")));
}

#[test]
fn port_is_big_endian() {
    let bytes = handshake(0, &[], 1, 0x1f90, &[1, 10, 0, 0, 1]);
    assert_eq!(bytes[19], 0x1f);
    assert_eq!(bytes[20], 0x90);
    let (request, _) = Request::parse(&bytes).unwrap();
    assert_eq!(request.port(), 8080);
}

#[test]
fn bytes_behind_the_handshake_are_left_alone() {
    let mut bytes = ipv4_handshake();
    bytes.extend_from_slice(b"GET / HTTP/1.0\r\n\r\n");
    let (request, consumed) = Request::parse(&bytes).unwrap();
    assert_eq!(consumed, 26);
    assert_eq!(request.address(), &Address::Ipv4([93, 184, 216, 34]));
    assert_eq!(next_field(&bytes), Progress::Complete(26));
}

#[test]
fn every_other_version_is_unsupported() {
    for version in 1..=255u8 {
        let whole = handshake(version, &[], 1, 80, &[1, 93, 184, 216, 34]);
        assert_eq!(
            Request::parse(&whole).err(),
            Some(HandshakeError::UnsupportedVersion(version))
        );
        assert_eq!(
            Request::parse(&[version]).err(),
            Some(HandshakeError::UnsupportedVersion(version))
        );
        assert_eq!(
            next_field(&[version]),
            Progress::Invalid(HandshakeError::UnsupportedVersion(version))
        );
    }
}

#[test]
fn every_other_command_is_unknown() {
    for command in 0..=255u8 {
        let whole = handshake(0, &[7, 7], command, 80, &[1, 93, 184, 216, 34]);
        let cut = &whole[..21];
        if command == 1 || command == 2 {
            assert!(Request::parse(&whole).is_ok());
        } else {
            assert_eq!(
                Request::parse(&whole).err(),
                Some(HandshakeError::UnknownCommand(command))
            );
            assert_eq!(Request::parse(cut).err(), Some(HandshakeError::UnknownCommand(command)));
        }
    }
}

#[test]
fn every_other_address_type_is_unknown() {
    for kind in 0..=255u8 {
        let whole = handshake(0, &[], 2, 53, &[kind, 4, 1, 2, 3, 4]);
        if kind == 1 || kind == 2 {
            assert!(Request::parse(&whole).is_ok());
        } else {
            assert_eq!(
                Request::parse(&whole).err(),
                Some(HandshakeError::UnknownAddressType(kind))
            );
        }
    }
}

#[test]
fn a_cut_handshake_names_the_field_it_was_cut_in() {
    let bytes = domain_handshake();
    let expect = |len: usize| -> (Field, usize) {
        match len {
            0 => (Field::Version, 1),
            1..=16 => (Field::SessionId, 17 - len),
            17 => (Field::OptionsLength, 1),
            18..=20 => (Field::Options, 21 - len),
            21 => (Field::Command, 1),
            22..=23 => (Field::Port, 24 - len),
            24 => (Field::AddressType, 1),
            25 => (Field::DomainLength, 1),
            _ => (Field::Domain, 37 - len),
        }
    };
    for len in 0..bytes.len() {
        let (field, missing) = expect(len);
        assert_eq!(next_field(&bytes[..len]), Progress::Missing(field, missing), "at {}", len);
        assert_eq!(
            Request::parse(&bytes[..len]).err(),
            Some(HandshakeError::Truncated(field)),
            "at {}",
            len
        );
    }
    assert_eq!(next_field(&bytes), Progress::Complete(37));
}

#[test]
fn a_cut_ipv4_address_is_named() {
    let bytes = ipv4_handshake();
    for len in 22..26 {
        assert_eq!(next_field(&bytes[..len]), Progress::Missing(Field::Ipv4Address, 26 - len));
        assert_eq!(
            Request::parse(&bytes[..len]).err(),
            Some(HandshakeError::Truncated(Field::Ipv4Address))
        );
    }
}

#[test]
fn reading_field_by_field_takes_no_byte_too_many() {
    let mut stream = domain_handshake();
    let handshake_len = stream.len();
    stream.extend_from_slice(&[0, 3, b'f', b'o', b'o']);
    let mut received: Vec<u8> = Vec::new();
    let mut reads = 0;
    loop {
        match next_field(&received) {
            Progress::Complete(n) => {
                assert_eq!(n, handshake_len);
                break;
            }
            Progress::Missing(_, missing) => {
                let from = received.len();
                received.extend_from_slice(&stream[from..from + missing]);
                reads += 1;
            }
            Progress::Invalid(e) => panic!("refused: {:?}", e),
        }
    }
    assert_eq!(received.len(), handshake_len);
    assert_eq!(reads, 9);
}

#[test]
fn parse_then_encode_gives_the_same_bytes() {
    let ipv4 = ipv4_handshake();
    let (request, consumed) = Request::parse(&ipv4).unwrap();
    assert_eq!(request.encode(&[]), Some(ipv4[..consumed].to_vec()));

    let domain = domain_handshake();
    let (request, consumed) = Request::parse(&domain).unwrap();
    assert_eq!(request.encode(&[0xaa, 0xbb, 0xcc]), Some(domain[..consumed].to_vec()));

    let empty_name = handshake(0, &[], 2, 65535, &[2, 0]);
    let (request, consumed) = Request::parse(&empty_name).unwrap();
    assert_eq!(consumed, 23);
    assert_eq!(request.encode(&[]), Some(empty_name));
}

#[test]
fn encode_then_parse_gives_the_same_fields() {
    let longest = Address::Domain(vec![b'a'; 255]);
    let request = Request::new(UUID, Cmd::Udp, 443, longest.clone()).unwrap();
    let options = vec![9u8; 255];
    let wire = request.encode(&options).unwrap();
    assert_eq!(wire.len(), 18 + 255 + 4 + 1 + 255);
    assert_eq!(wire[17], 255);
    let (parsed, consumed) = Request::parse(&wire).unwrap();
    assert_eq!(consumed, wire.len());
    assert_eq!(parsed.version(), 0);
    assert_eq!(parsed.uuid(), &UUID);
    assert_eq!(parsed.cmd(), Cmd::Udp);
    assert_eq!(parsed.port(), 443);
    assert_eq!(parsed.address(), &longest);
}

#[test]
fn what_does_not_fit_the_format_is_not_encoded() {
    assert!(Request::new(UUID, Cmd::Tcp, 1, Address::Domain(vec![b'a'; 256])).is_none());
    let request = Request::new(UUID, Cmd::Tcp, 1, Address::Ipv4([127, 0, 0, 1])).unwrap();
    assert_eq!(request.encode(&vec![0u8; 256]), None);
    assert!(request.encode(&vec![0u8; 255]).is_some());
}

#[test]
fn commands_and_their_bytes() {
    assert_eq!(Cmd::try_from(1u8), Ok(Cmd::Tcp));
    assert_eq!(Cmd::try_from(2u8), Ok(Cmd::Udp));
    assert_eq!(Cmd::try_from(0u8), Err(HandshakeError::UnknownCommand(0)));
    assert_eq!(Cmd::try_from(3u8), Err(HandshakeError::UnknownCommand(3)));
    assert_eq!(Cmd::Tcp.to_byte(), 1);
    assert_eq!(Cmd::Udp.to_byte(), 2);
    assert_eq!(Cmd::Tcp.name(), "TCP");
    assert_eq!(Cmd::Udp.name(), "UDP");
}

#[test]
fn lookup_names_hold_host_colon_port() {
    assert_eq!(host_and_port(b"example.com", 53), "example.com:53");
    assert_eq!(host_and_port(b"h", 0), "h:0");
    assert_eq!(host_and_port(b"h", 9), "h:9");
    assert_eq!(host_and_port(b"h", 10), "h:10");
    assert_eq!(host_and_port(b"h", 1000), "h:1000");
    assert_eq!(host_and_port(b"h", 65535), "h:65535");
    assert_eq!(host_and_port(b"", 8080), ":8080");
    assert_eq!(join_host_port(String::from("localhost"), 40404), "localhost:40404");
}

#[test]
fn invalid_utf8_in_a_domain_is_replaced() {
    assert_eq!(host_and_port(&[b'a', 0xff, b'b'], 1), "a\u{fffd}b:1");
    assert_eq!(host_and_port("b\u{fc}cher.example".as_bytes(), 80), "b\u{fc}cher.example:80");
    let mut address = vec![2, 3];
    address.extend_from_slice(&[b'x', 0x80, b'y']);
    let bytes = handshake(0, &[], 1, 7, &address);
    let (request, _) = Request::parse(&bytes).unwrap();
    assert_eq!(request.address(), &Address::Domain(vec![b'x', 0x80, b'y']));
    assert_eq!(request.lookup_target(), Some(String::from("x\u{fffd}y:7")));
}

#[test]
fn an_ipv4_destination_resolves_to_itself() {
    let (request, _) = Request::parse(&ipv4_handshake()).unwrap();
    let expected = SocketAddress::V4 { octets: [93, 184, 216, 34], port: 80 };
    for lookup in [None, Some(vec![]), Some(vec![SocketAddress::v4([1, 1, 1, 1], 1)])] {
        let header = Header::resolve(&request, &lookup).ok().unwrap();
        assert_eq!(header.version(), 0);
        assert_eq!(header.uuid(), &UUID);
        assert_eq!(header.cmd(), Cmd::Tcp);
        assert_eq!(header.addr(), &expected);
    }
}

#[test]
fn a_domain_destination_resolves_to_the_first_answer() {
    let (request, _) = Request::parse(&domain_handshake()).unwrap();
    let first = SocketAddress::V6 { octets: [0x20; 16], port: 53, flowinfo: 0, scope_id: 0 };
    let second = SocketAddress::v4([9, 9, 9, 9], 53);
    let header = Header::resolve(&request, &Some(vec![first, second])).ok().unwrap();
    assert_eq!(header.addr(), &first);
    assert_eq!(header.cmd(), Cmd::Udp);
    assert_eq!(header.uuid(), &UUID);
    let header = Header::resolve(&request, &Some(vec![second, first])).ok().unwrap();
    assert_eq!(header.addr(), &second);
}

#[test]
fn a_lookup_without_answer_fails_the_resolution() {
    let (request, _) = Request::parse(&domain_handshake()).unwrap();
    assert_eq!(
        Header::resolve(&request, &Some(vec![])).err(),
        Some(HandshakeError::ResolutionFailed)
    );
    assert_eq!(Header::resolve(&request, &None).err(), Some(HandshakeError::ResolutionFailed));
}

#[test]
fn from_reader_stops_behind_the_handshake() {
    let mut bytes = ipv4_handshake();
    bytes.extend_from_slice(b"GET / HTTP/1.0\r\n\r\n");
    let mut reader = Reader::new(bytes);
    let header = Header::from_reader(&mut reader, no_lookup).ok().unwrap();
    assert_eq!(header.addr(), &SocketAddress::v4([93, 184, 216, 34], 80));
    assert_eq!(header.cmd(), Cmd::Tcp);
    assert_eq!(reader.position(), 26);
    assert_eq!(reader.remaining(), b"GET / HTTP/1.0\r\n\r\n".to_vec());
}

#[test]
fn from_reader_looks_a_domain_up_by_host_and_port() {
    let mut bytes = domain_handshake();
    bytes.extend_from_slice(&[0, 3, b'f', b'o', b'o']);
    let mut reader = Reader::new(bytes);
    let answer = SocketAddress::v4([203, 0, 113, 5], 53);
    let header = Header::from_reader(&mut reader, |name: String| {
        assert_eq!(name, "example.com:53");
        Some(vec![answer, SocketAddress::v4([203, 0, 113, 6], 53)])
    })
    .ok()
    .unwrap();
    assert_eq!(header.addr(), &answer);
    assert_eq!(header.cmd(), Cmd::Udp);
    assert_eq!(reader.position(), 37);
    assert_eq!(reader.peek(), &[0, 3, b'f', b'o', b'o']);
}

#[test]
fn from_reader_reports_a_failed_lookup() {
    let mut reader = Reader::new(domain_handshake());
    let res = Header::from_reader(&mut reader, |_name: String| None);
    assert_eq!(res.err(), Some(HandshakeError::ResolutionFailed));
    assert_eq!(reader.position(), 37);
}

#[test]
fn from_reader_leaves_a_refused_handshake_where_it_is() {
    let mut bytes = ipv4_handshake();
    bytes[0] = 4;
    let mut reader = Reader::new(bytes);
    let res = Header::from_reader(&mut reader, no_lookup);
    assert_eq!(res.err(), Some(HandshakeError::UnsupportedVersion(4)));
    assert_eq!(reader.position(), 0);

    let mut reader = Reader::new(ipv4_handshake()[..20].to_vec());
    let res = Header::from_reader(&mut reader, no_lookup);
    assert_eq!(res.err(), Some(HandshakeError::Truncated(Field::Port)));
    assert_eq!(reader.position(), 0);
}

#[test]
fn a_reader_hands_out_its_bytes_once() {
    let mut reader = Reader::new(vec![1, 2, 3, 4, 5]);
    assert_eq!(reader.read_exact(2), Some(vec![1, 2]));
    assert_eq!(reader.position(), 2);
    assert_eq!(reader.read_exact(4), None);
    assert_eq!(reader.position(), 2);
    assert!(!reader.advance(4));
    assert!(reader.advance(1));
    assert_eq!(reader.peek(), &[4, 5]);
    assert_eq!(reader.read_exact(2), Some(vec![4, 5]));
    assert_eq!(reader.read_exact(0), Some(vec![]));
    assert_eq!(reader.remaining(), Vec::<u8>::new());
}

#[test]
fn socket_addresses_as_values() {
    let v4 = SocketAddress::v4([10, 0, 0, 1], 8080);
    assert_eq!(v4, SocketAddress::V4 { octets: [10, 0, 0, 1], port: 8080 });
    assert_eq!(v4.port(), 8080);
    let v6 = SocketAddress::V6 { octets: [0; 16], port: 443, flowinfo: 1, scope_id: 2 };
    assert_eq!(v6.port(), 443);
    assert_eq!(SocketAddress::unspecified(), SocketAddress::V4 { octets: [0, 0, 0, 0], port: 0 });
}
