use tunnel_relay::addr::SocketAddress;
use tunnel_relay::header::reader::Reader;
use tunnel_relay::header::Cmd;
use tunnel_relay::header::Header;
use tunnel_relay::stream::inbound::InBound;
use tunnel_relay::stream::io::ReadOutcome;
use tunnel_relay::stream::io::RelayError;
use tunnel_relay::stream::outbound::tcp::TcpOutBound;
use tunnel_relay::stream::outbound::udp::UdpOutBound;
use tunnel_relay::stream::outbound::OutBound;
use tunnel_relay::stream::Action;
use tunnel_relay::stream::Direction;
use tunnel_relay::stream::Event;
use tunnel_relay::stream::Phase;
use tunnel_relay::stream::Stream;
use tunnel_relay::stream::BUFFER_SIZE;

const CLIENT: SocketAddress = SocketAddress::V4 { octets: [198, 51, 100, 7], port: 50123 };

fn handshake(command: u8, port: u16, address: &[u8]) -> Vec<u8> {
    let mut bytes = vec![0u8];
    bytes.extend_from_slice(&[0x42; 16]);
    bytes.push(0);
    bytes.push(command);
    bytes.extend_from_slice(&port.to_be_bytes());
    bytes.extend_from_slice(address);
    bytes
}

fn session(command: u8) -> Stream {
    let mut reader = Reader::new(handshake(command, 80, &[1, 93, 184, 216, 34]));
    let header = Header::from_reader(&mut reader, |_| None).ok().unwrap();
    Stream::from_incoming(header, CLIENT)
}

fn read(direction: Direction, bytes: &[u8]) -> Event {
    Event::Read { direction, polled: Some(bytes.to_vec()) }
}

fn written(direction: Direction, accepted: usize) -> Event {
    Event::Written { direction, accepted }
}

fn write(direction: Direction, wire: &[u8], payload: usize) -> Action {
    Action::Write { direction, wire: wire.to_vec(), payload }
}

#[test]
fn a_tcp_session_end_to_end() {
    let request = b"GET / HTTP/1.0\r\n\r\n";
    let mut stream_bytes = handshake(1, 80, &[1, 93, 184, 216, 34]);
    stream_bytes.extend_from_slice(request);
    let mut reader = Reader::new(stream_bytes);
    let header = Header::from_reader(&mut reader, |_| None).ok().unwrap();
    assert_eq!(header.cmd(), Cmd::Tcp);
    assert_eq!(header.addr(), &SocketAddress::v4([93, 184, 216, 34], 80));

    let mut stream = Stream::from_incoming(header, CLIENT);
    assert_eq!(BUFFER_SIZE, 65535);
    assert!(matches!(stream.inbound(), InBound::Tcp(_)));
    assert_eq!(stream.phase(), Phase::Running);
    assert_eq!(stream.client_addr(), CLIENT);
    assert_eq!(stream.header().uuid(), &[0x42; 16]);
    match stream.outbound() {
        OutBound::Tcp(connection) => {
            assert_eq!(connection.peer(), SocketAddress::v4([93, 184, 216, 34], 80))
        }
        OutBound::Udp(_) => panic!("a TCP command opens a connection"),
    }

    // What follows the handshake is the first payload, forwarded as it is.
    let first = reader.remaining();
    assert_eq!(first, request.to_vec());
    let up = Direction::Upstream;
    assert_eq!(stream.event_loop(read(up, &first)), write(up, request, 18));
    assert_eq!(stream.event_loop(written(up, 18)), Action::Read(up));

    // The reply starts with the acknowledgement, once.
    let down = Direction::Downstream;
    let reply = b"HTTP/1.0 200 OK\r\n\r\n";
    let acknowledged = [&[0u8, 0u8][..], reply].concat();
    assert_eq!(stream.event_loop(read(down, reply)), write(down, &acknowledged, 19));
    assert_eq!(stream.event_loop(written(down, 21)), Action::Read(down));
    assert_eq!(stream.event_loop(read(down, b"body")), write(down, b"body", 4));
    assert_eq!(stream.event_loop(written(down, 4)), Action::Read(down));

    // The destination closes: the session is over, in good order.
    assert_eq!(stream.event_loop(read(down, b"")), Action::Close);
    assert_eq!(stream.phase(), Phase::Closed);
    assert_eq!(stream.event_loop(read(up, b"late")), Action::Close);
}

#[test]
fn a_udp_session_end_to_end() {
    let mut address = vec![2, 15];
    address.extend_from_slice(b"dns.example.org");
    let mut stream_bytes = handshake(2, 53, &address);
    stream_bytes.extend_from_slice(&[0x00, 0x03, b'f', b'o', b'o']);
    let resolved = SocketAddress::v4([192, 0, 2, 53], 53);
    let mut reader = Reader::new(stream_bytes);
    let header = Header::from_reader(&mut reader, |name: String| {
        assert_eq!(name, "dns.example.org:53");
        Some(vec![resolved])
    })
    .ok()
    .unwrap();
    assert_eq!(header.cmd(), Cmd::Udp);
    assert_eq!(header.addr(), &resolved);

    let mut stream = Stream::from_incoming(header, CLIENT);
    match stream.outbound() {
        OutBound::Udp(socket) => {
            assert_eq!(socket.peer(), resolved);
            assert_eq!(socket.local(), SocketAddress::v4([0, 0, 0, 0], 0));
        }
        OutBound::Tcp(_) => panic!("a UDP command opens a socket"),
    }

    // The frame arrives in two pieces and leaves as one datagram of 3 bytes.
    let up = Direction::Upstream;
    let rest = reader.remaining();
    assert_eq!(stream.event_loop(read(up, &rest[..4])), Action::Read(up));
    assert_eq!(stream.event_loop(read(up, &rest[4..])), write(up, b"foo", 3));
    assert_eq!(stream.event_loop(written(up, 3)), Action::Read(up));

    // Replies are framed, behind the acknowledgement the first time.
    let down = Direction::Downstream;
    assert_eq!(
        stream.event_loop(read(down, b"bar")),
        write(down, &[0, 0, 0, 3, b'b', b'a', b'r'], 3)
    );
    assert_eq!(stream.event_loop(written(down, 7)), Action::Read(down));
    assert_eq!(stream.event_loop(read(down, b"quux")), write(down, &[0, 4, b'q', b'u', b'u', b'x'], 4));
    assert_eq!(stream.event_loop(written(down, 6)), Action::Read(down));

    // Two frames in one read leave one by one, the second as soon as the
    // first was taken.
    assert_eq!(stream.event_loop(read(up, &[0, 1, b'a', 0, 2, b'b', b'c', 0])), write(up, b"a", 1));
    assert_eq!(stream.event_loop(written(up, 1)), write(up, b"bc", 2));
    assert_eq!(stream.event_loop(written(up, 2)), Action::Read(up));
    let idle = Event::Read { direction: up, polled: None };
    assert_eq!(stream.event_loop(idle), Action::Read(up));
    assert_eq!(stream.event_loop(read(up, &[1, b'z'])), write(up, b"z", 1));
    assert_eq!(stream.event_loop(written(up, 1)), Action::Read(up));

    // The client closes.
    assert_eq!(stream.event_loop(read(up, b"")), Action::Close);
    assert_eq!(stream.phase(), Phase::Closed);
}

#[test]
fn a_source_that_is_not_ready_is_polled_again() {
    for command in [1, 2] {
        let mut stream = session(command);
        for direction in [Direction::Upstream, Direction::Downstream] {
            let idle = Event::Read { direction, polled: None };
            assert_eq!(stream.event_loop(idle), Action::Read(direction));
            assert_eq!(stream.phase(), Phase::Running);
        }
    }
}

#[test]
fn a_short_write_fails_the_session() {
    let up = Direction::Upstream;
    let mut stream = session(1);
    assert_eq!(stream.event_loop(read(up, b"hello")), write(up, b"hello", 5));
    let short = RelayError::ShortWrite { written: 3, expected: 5 };
    assert_eq!(stream.event_loop(written(up, 3)), Action::Fail(short));
    assert_eq!(stream.phase(), Phase::Failed(short));
    assert_eq!(stream.event_loop(read(up, b"more")), Action::Fail(short));
    assert_eq!(stream.event_loop(written(up, 5)), Action::Fail(short));

    // On the way back the acknowledgement and the frame's length are not
    // counted as payload.
    let down = Direction::Downstream;
    let mut stream = session(2);
    assert_eq!(stream.event_loop(read(down, b"hello")), write(down, &[0, 0, 0, 5, b'h', b'e', b'l', b'l', b'o'], 5));
    assert_eq!(
        stream.event_loop(written(down, 5)),
        Action::Fail(RelayError::ShortWrite { written: 1, expected: 5 })
    );

    let mut stream = session(1);
    assert_eq!(stream.event_loop(read(down, b"hello")), write(down, &[0, 0, b'h', b'e', b'l', b'l', b'o'], 5));
    assert_eq!(
        stream.event_loop(written(down, 1)),
        Action::Fail(RelayError::ShortWrite { written: 0, expected: 5 })
    );

    // A sink that claims more than it was given fails the session too.
    let mut stream = session(1);
    assert_eq!(stream.event_loop(read(up, b"hi")), write(up, b"hi", 2));
    assert_eq!(
        stream.event_loop(written(up, 9)),
        Action::Fail(RelayError::ShortWrite { written: 9, expected: 2 })
    );
}

#[test]
fn a_read_of_no_byte_ends_the_session() {
    for command in [1, 2] {
        for direction in [Direction::Upstream, Direction::Downstream] {
            let mut stream = session(command);
            assert_eq!(stream.event_loop(read(direction, b"")), Action::Close);
            assert_eq!(stream.phase(), Phase::Closed);
            assert_eq!(stream.event_loop(written(direction, 1)), Action::Close);
            assert_eq!(stream.event_loop(Event::Broken { direction }), Action::Close);
        }
    }
    // An empty frame is a unit of no byte, and ends the session as well.
    let mut stream = session(2);
    assert_eq!(stream.event_loop(read(Direction::Upstream, &[0, 0])), Action::Close);
    let mut stream = session(2);
    let up = Direction::Upstream;
    assert_eq!(stream.event_loop(read(up, &[0, 1, 5, 0, 0])), write(up, &[5], 1));
    assert_eq!(stream.event_loop(written(up, 1)), Action::Close);
    assert_eq!(stream.phase(), Phase::Closed);
}

#[test]
fn events_out_of_turn_fail_the_session() {
    let up = Direction::Upstream;
    let down = Direction::Downstream;
    let out_of_turn = Action::Fail(RelayError::OutOfTurn);

    let mut stream = session(1);
    assert_eq!(stream.event_loop(written(up, 0)), out_of_turn);
    assert_eq!(stream.phase(), Phase::Failed(RelayError::OutOfTurn));

    let mut stream = session(1);
    assert_eq!(stream.event_loop(read(up, b"a")), write(up, b"a", 1));
    assert_eq!(stream.event_loop(read(up, b"b")), out_of_turn);

    // The directions do not wait for each other.
    let mut stream = session(1);
    assert_eq!(stream.event_loop(read(up, b"a")), write(up, b"a", 1));
    assert_eq!(stream.event_loop(read(down, b"b")), write(down, &[0, 0, b'b'], 1));
    assert_eq!(stream.event_loop(written(down, 3)), Action::Read(down));
    assert_eq!(stream.event_loop(written(up, 1)), Action::Read(up));
    assert_eq!(stream.event_loop(written(down, 3)), out_of_turn);
}

#[test]
fn a_broken_transport_fails_the_session() {
    let mut stream = session(2);
    assert_eq!(
        stream.event_loop(Event::Broken { direction: Direction::Downstream }),
        Action::Fail(RelayError::Transport)
    );
    assert_eq!(stream.phase(), Phase::Failed(RelayError::Transport));
    assert_eq!(
        stream.event_loop(read(Direction::Upstream, &[0, 1, 1])),
        Action::Fail(RelayError::Transport)
    );
}

#[test]
fn an_overflow_fails_the_session() {
    let up = Direction::Upstream;
    let mut stream = session(2);
    let mut bytes = vec![0xff, 0xff];
    bytes.extend_from_slice(&vec![1u8; 65533]);
    assert_eq!(stream.event_loop(read(up, &bytes)), Action::Read(up));
    assert_eq!(stream.event_loop(read(up, &[1])), Action::Fail(RelayError::BufferOverflow));
    assert_eq!(stream.phase(), Phase::Failed(RelayError::BufferOverflow));
    assert_eq!(stream.event_loop(read(up, &[1])), Action::Fail(RelayError::BufferOverflow));
}

#[test]
fn a_datagram_too_long_for_a_frame_fails_the_session() {
    let down = Direction::Downstream;
    let mut stream = session(2);
    let datagram = vec![3u8; 65536];
    assert_eq!(
        stream.event_loop(read(down, &datagram)),
        Action::Fail(RelayError::PayloadTooLarge(65536))
    );
    // A TCP session frames nothing and takes any length.
    let mut stream = session(1);
    let mut wire = vec![0u8, 0u8];
    wire.extend_from_slice(&datagram);
    assert_eq!(stream.event_loop(read(down, &datagram)), write(down, &wire, 65536));
}

#[test]
fn outbound_endpoints_pass_units_on() {
    let peer = SocketAddress::v4([192, 0, 2, 1], 7);
    let tcp = TcpOutBound::new(&peer);
    assert_eq!(tcp.peer(), peer);
    assert_eq!(tcp.poll_read(Some(&[1, 2])), ReadOutcome::Unit(vec![1, 2]));
    assert_eq!(tcp.poll_read(Some(&[])), ReadOutcome::Closed);
    assert_eq!(tcp.poll_read(None), ReadOutcome::Pending);
    assert_eq!(tcp.begin_write(vec![0, 0, 9]), vec![0, 0, 9]);
    assert_eq!(tcp.finish_write(3), 3);

    let udp = UdpOutBound::new(&peer);
    assert_eq!(udp.peer(), peer);
    assert_eq!(udp.local(), SocketAddress::unspecified());
    assert_eq!(udp.poll_read(Some(&[1, 2])), ReadOutcome::Unit(vec![1, 2]));
    assert_eq!(udp.poll_read(Some(&[])), ReadOutcome::Unit(vec![]));
    assert_eq!(udp.poll_read(None), ReadOutcome::Pending);
    assert_eq!(udp.begin_write(vec![5]), vec![5]);
    assert_eq!(udp.finish_write(1), 1);

    let either = OutBound::new(&peer, Cmd::Udp);
    assert_eq!(either, OutBound::Udp(udp));
    assert_eq!(either.peer(), peer);
    assert_eq!(either.poll_read(Some(&[])), ReadOutcome::Unit(vec![]));
    let either = OutBound::new(&peer, Cmd::Tcp);
    assert_eq!(either, OutBound::Tcp(tcp));
    assert_eq!(either.poll_read(Some(&[])), ReadOutcome::Closed);
    assert_eq!(either.begin_write(vec![8, 8]), vec![8, 8]);
    assert_eq!(either.finish_write(2), 2);
}
