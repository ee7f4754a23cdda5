use managed::ManagedSlice;
use socket_registry::dispatch::{
    process_tcp, process_udp, reply_quote_len, rst_reply, tcp_fallback, udp_fallback, IpPayload,
    Packet, IPV4_MIN_MTU, IPV6_MIN_MTU,
};
use socket_registry::handle::SocketHandle;
use socket_registry::set::SocketSet;
use socket_registry::tcp;
use socket_registry::tcp::{Endpoint, State, Tuple};
use socket_registry::udp;
use socket_registry::udp::ListenEndpoint;
use socket_registry::wire::{
    IpAddress, IpProtocol, IpRepr, Ipv4Repr, Ipv6Repr, TcpControl, TcpRepr, UdpRepr,
};

const FIN: u8 = 0x01;
const SYN: u8 = 0x02;
const RST: u8 = 0x04;
const ACK: u8 = 0x10;

fn remote() -> IpAddress {
    IpAddress::v4(192, 168, 69, 100)
}

fn local() -> IpAddress {
    IpAddress::v4(192, 168, 69, 1)
}

fn header(src: IpAddress, dst: IpAddress, protocol: IpProtocol, len: usize) -> IpRepr {
    IpRepr::new(src, dst, protocol, len, 64).unwrap()
}

fn address_bytes(addr: IpAddress) -> Vec<u8> {
    match addr {
        IpAddress::Ipv4(a) => a.to_be_bytes().to_vec(),
        IpAddress::Ipv6(a) => a.to_be_bytes().to_vec(),
    }
}

fn ones_complement(bytes: &[u8]) -> u16 {
    let mut sum: u64 = 0;
    for pair in bytes.chunks(2) {
        let hi = u64::from(pair[0]);
        let lo = if pair.len() > 1 { u64::from(pair[1]) } else { 0 };
        sum += hi * 256 + lo;
    }
    while sum > 0xffff {
        sum = (sum & 0xffff) + (sum >> 16);
    }
    !(sum as u16)
}

fn transport_checksum(ip: &IpRepr, protocol: u8, segment: &[u8]) -> u16 {
    let mut covered = address_bytes(ip.src_addr());
    covered.extend(address_bytes(ip.dst_addr()));
    covered.extend((segment.len() as u32).to_be_bytes());
    covered.extend([0, 0, 0, protocol]);
    covered.extend_from_slice(segment);
    ones_complement(&covered)
}

fn segment(ip: &IpRepr, src_port: u16, dst_port: u16, flags: u8, payload: &[u8]) -> Vec<u8> {
    let mut bytes = Vec::new();
    bytes.extend(src_port.to_be_bytes());
    bytes.extend(dst_port.to_be_bytes());
    bytes.extend(1000u32.to_be_bytes());
    bytes.extend(77u32.to_be_bytes());
    bytes.push(0x50);
    bytes.push(flags);
    bytes.extend(512u16.to_be_bytes());
    bytes.extend([0, 0, 0, 0]);
    bytes.extend_from_slice(payload);
    let checksum = transport_checksum(ip, 6, &bytes);
    bytes[16..18].copy_from_slice(&checksum.to_be_bytes());
    bytes
}

fn datagram(ip: &IpRepr, src_port: u16, dst_port: u16, payload: &[u8]) -> Vec<u8> {
    let mut bytes = Vec::new();
    bytes.extend(src_port.to_be_bytes());
    bytes.extend(dst_port.to_be_bytes());
    bytes.extend(((8 + payload.len()) as u16).to_be_bytes());
    bytes.extend([0, 0]);
    bytes.extend_from_slice(payload);
    let checksum = transport_checksum(ip, 17, &bytes);
    bytes[6..8].copy_from_slice(&checksum.to_be_bytes());
    bytes
}

fn listening(port: u16, any_port: bool) -> tcp::Socket {
    let mut socket = tcp::Socket::new();
    socket.set_any_port(any_port);
    socket.listen(ListenEndpoint::port(port)).unwrap();
    socket
}

fn bound(port: u16, any_port: bool) -> udp::Socket {
    let mut socket = udp::Socket::new();
    socket.set_any_port(any_port);
    socket.bind(ListenEndpoint::port(port)).unwrap();
    socket
}

fn syn_received(
    socket: &tcp::Socket,
    ip: &IpRepr,
    repr: &TcpRepr,
) -> (tcp::Socket, Option<(IpRepr, TcpRepr)>) {
    let mut next = *socket;
    next.connect(
        State::SynReceived,
        Tuple {
            local: Endpoint { addr: ip.dst_addr(), port: repr.dst_port },
            remote: Endpoint { addr: ip.src_addr(), port: repr.src_port },
        },
    );
    let answer = TcpRepr {
        src_port: repr.dst_port,
        dst_port: repr.src_port,
        control: TcpControl::Syn,
        seq_number: 5,
        ack_number: Some(repr.seq_number.wrapping_add(1)),
        window_len: 64,
        payload_len: 0,
    };
    let ip_answer = IpRepr::new(ip.dst_addr(), ip.src_addr(), IpProtocol::Tcp, 20, 64).unwrap();
    (next, Some((ip_answer, answer)))
}

fn rebind_to_sender(
    socket: &udp::Socket,
    _ip: &IpRepr,
    repr: &UdpRepr,
    payload: &[u8],
) -> udp::Socket {
    let mut next = *socket;
    next.close();
    next.bind(ListenEndpoint::port(repr.src_port + payload.len() as u16))
        .unwrap();
    next
}

fn state_of(set: &SocketSet, handle: SocketHandle) -> State {
    set.get::<tcp::Socket>(handle).unwrap().get().state()
}

#[test]
fn segment_goes_to_the_listener_added_before_the_wildcard() {
    let mut set = SocketSet::new(ManagedSlice::Owned(vec![]));
    let b = set.add(listening(6969, false));
    let a = set.add(listening(0, true));
    let ip = header(remote(), local(), IpProtocol::Tcp, 20);
    let bytes = segment(&ip, 40000, 6969, SYN, &[]);
    let reply = process_tcp(&set, &ip, &bytes, syn_received);
    assert_eq!(state_of(&set, b), State::SynReceived);
    assert_eq!(state_of(&set, a), State::Listen);
    let packet = reply.unwrap();
    assert_eq!(packet.ip_repr.dst_addr(), remote());
    assert!(matches!(
        packet.payload,
        IpPayload::Tcp(TcpRepr { control: TcpControl::Syn, ack_number: Some(1001), .. })
    ));
}

#[test]
fn wildcard_added_first_takes_the_segment_for_the_listener() {
    let mut set = SocketSet::new(ManagedSlice::Owned(vec![]));
    let a = set.add(listening(0, true));
    let b = set.add(listening(6969, false));
    let ip = header(remote(), local(), IpProtocol::Tcp, 20);
    let bytes = segment(&ip, 40000, 6969, SYN, &[]);
    assert!(process_tcp(&set, &ip, &bytes, syn_received).is_some());
    assert_eq!(state_of(&set, a), State::SynReceived);
    assert_eq!(state_of(&set, b), State::Listen);
}

#[test]
fn wildcard_takes_what_no_listener_before_it_takes() {
    let mut set = SocketSet::new(ManagedSlice::Owned(vec![]));
    let b = set.add(listening(6969, false));
    let a = set.add(listening(0, true));
    let ip = header(remote(), local(), IpProtocol::Tcp, 20);
    let bytes = segment(&ip, 40000, 80, SYN, &[]);
    assert!(process_tcp(&set, &ip, &bytes, syn_received).is_some());
    assert_eq!(state_of(&set, b), State::Listen);
    assert_eq!(state_of(&set, a), State::SynReceived);
}

#[test]
fn at_most_one_socket_takes_a_segment() {
    let mut set = SocketSet::new(ManagedSlice::Owned(vec![]));
    let first = set.add(listening(80, false));
    let second = set.add(listening(80, false));
    let ip = header(remote(), local(), IpProtocol::Tcp, 20);
    let bytes = segment(&ip, 40000, 80, SYN, &[]);
    process_tcp(&set, &ip, &bytes, syn_received);
    assert_eq!(state_of(&set, first), State::SynReceived);
    assert_eq!(state_of(&set, second), State::Listen);
    let again = segment(&ip, 40001, 80, SYN, &[]);
    process_tcp(&set, &ip, &again, syn_received);
    assert_eq!(state_of(&set, second), State::SynReceived);
}

#[test]
fn connected_socket_takes_its_own_segments_only() {
    let mut set = SocketSet::new(ManagedSlice::Owned(vec![]));
    let handle = set.add(listening(80, false));
    let ip = header(remote(), local(), IpProtocol::Tcp, 20);
    let syn = segment(&ip, 40000, 80, SYN, &[]);
    process_tcp(&set, &ip, &syn, syn_received);
    let closes = |socket: &tcp::Socket, _: &IpRepr, _: &TcpRepr| {
        let mut next = *socket;
        next.abort();
        (next, None)
    };
    let other = segment(&ip, 40001, 80, ACK, &[1]);
    let reply = process_tcp(&set, &ip, &other, closes);
    assert_eq!(state_of(&set, handle), State::SynReceived);
    assert_eq!(reply, tcp_fallback(&ip, &TcpRepr::parse(&ip, &other).unwrap()));
    let own = segment(&ip, 40000, 80, ACK, &[1]);
    assert_eq!(process_tcp(&set, &ip, &own, closes), None);
    assert_eq!(state_of(&set, handle), State::Closed);
}

#[test]
fn unmatched_syn_is_answered_with_one_reset() {
    let mut set = SocketSet::new(ManagedSlice::Owned(vec![]));
    let listener = set.add(listening(6969, false));
    set.add(bound(80, false));
    let ip = header(remote(), local(), IpProtocol::Tcp, 23);
    let bytes = segment(&ip, 40000, 80, SYN, &[1, 2, 3]);
    let reply = process_tcp(&set, &ip, &bytes, syn_received).unwrap();
    assert_eq!(state_of(&set, listener), State::Listen);
    assert_eq!(
        reply,
        Packet {
            ip_repr: IpRepr::Ipv4(Ipv4Repr {
                src_addr: 0xc0a8_4501,
                dst_addr: 0xc0a8_4564,
                next_header: IpProtocol::Tcp,
                payload_len: 20,
                hop_limit: 64,
            }),
            payload: IpPayload::Tcp(TcpRepr {
                src_port: 80,
                dst_port: 40000,
                control: TcpControl::Rst,
                seq_number: 0,
                ack_number: Some(1004),
                window_len: 0,
                payload_len: 0,
            }),
        }
    );
}

#[test]
fn unmatched_reset_is_not_answered() {
    let set = SocketSet::new(ManagedSlice::Owned(vec![]));
    let ip = header(remote(), local(), IpProtocol::Tcp, 20);
    let bytes = segment(&ip, 40000, 80, RST, &[]);
    assert!(TcpRepr::parse(&ip, &bytes).is_some());
    assert_eq!(process_tcp(&set, &ip, &bytes, syn_received), None);
}

#[test]
fn segment_with_unspecified_address_is_not_answered() {
    let set = SocketSet::new(ManagedSlice::Owned(vec![]));
    let from_nowhere = header(IpAddress::v4(0, 0, 0, 0), local(), IpProtocol::Tcp, 20);
    let bytes = segment(&from_nowhere, 40000, 80, SYN, &[]);
    assert_eq!(process_tcp(&set, &from_nowhere, &bytes, syn_received), None);
    let to_nowhere = header(remote(), IpAddress::v4(0, 0, 0, 0), IpProtocol::Tcp, 20);
    let bytes = segment(&to_nowhere, 40000, 80, SYN, &[]);
    assert_eq!(process_tcp(&set, &to_nowhere, &bytes, syn_received), None);
}

#[test]
fn malformed_segment_is_dropped_unseen() {
    let mut set = SocketSet::new(ManagedSlice::Owned(vec![]));
    let handle = set.add(listening(80, false));
    let ip = header(remote(), local(), IpProtocol::Tcp, 20);
    let mut bytes = segment(&ip, 40000, 80, SYN, &[]);
    bytes[4] ^= 0xff;
    assert_eq!(process_tcp(&set, &ip, &bytes, syn_received), None);
    assert_eq!(state_of(&set, handle), State::Listen);
    let both = segment(&ip, 40000, 80, SYN | FIN, &[]);
    assert_eq!(process_tcp(&set, &ip, &both, syn_received), None);
    assert_eq!(process_tcp(&set, &ip, &both[..10], syn_received), None);
    assert_eq!(state_of(&set, handle), State::Listen);
}

#[test]
fn reset_mirrors_the_acknowledgement() {
    let ip = header(remote(), local(), IpProtocol::Tcp, 20);
    let acked = TcpRepr {
        src_port: 1,
        dst_port: 2,
        control: TcpControl::Plain,
        seq_number: 10,
        ack_number: Some(4242),
        window_len: 9,
        payload_len: 5,
    };
    let (_, reset) = rst_reply(&ip, &acked);
    assert_eq!(reset.seq_number, 4242);
    assert_eq!(reset.ack_number, None);
    assert_eq!((reset.src_port, reset.dst_port), (2, 1));
    let syn = TcpRepr {
        control: TcpControl::Syn,
        seq_number: 0xffff_ffff,
        ack_number: None,
        payload_len: 0,
        ..acked
    };
    let (ip_reply, reset) = rst_reply(&ip, &syn);
    assert_eq!(reset.seq_number, 0);
    assert_eq!(reset.ack_number, Some(0));
    assert_eq!(ip_reply.src_addr(), local());
    assert_eq!(ip_reply.dst_addr(), remote());
    let fin = TcpRepr { control: TcpControl::Fin, ack_number: None, ..acked };
    assert_eq!(rst_reply(&ip, &fin).1.ack_number, None);
}

#[test]
fn datagram_goes_to_the_socket_bound_before_the_wildcard() {
    let mut set = SocketSet::new(ManagedSlice::Owned(vec![]));
    let b = set.add(bound(6969, false));
    let a = set.add(bound(0, true));
    let ip = header(remote(), local(), IpProtocol::Udp, 11);
    let bytes = datagram(&ip, 5000, 6969, &[1, 2, 3]);
    assert_eq!(process_udp(&set, false, &ip, &bytes, rebind_to_sender), None);
    assert_eq!(*set.get::<udp::Socket>(b).unwrap().get(), bound(5003, false));
    assert_eq!(*set.get::<udp::Socket>(a).unwrap().get(), bound(0, true));
    let elsewhere = datagram(&ip, 5000, 53, &[]);
    assert_eq!(process_udp(&set, false, &ip, &elsewhere, rebind_to_sender), None);
    assert_eq!(*set.get::<udp::Socket>(a).unwrap().get(), bound(5000, true));
}

#[test]
fn datagram_to_a_closed_port_is_answered_with_port_unreachable() {
    let mut set = SocketSet::new(ManagedSlice::Owned(vec![]));
    let handle = set.add(bound(6969, false));
    set.add(listening(53, false));
    let ip = header(remote(), local(), IpProtocol::Udp, 12);
    let bytes = datagram(&ip, 5000, 53, &[9, 8, 7, 6]);
    let reply = process_udp(&set, false, &ip, &bytes, rebind_to_sender).unwrap();
    assert_eq!(*set.get::<udp::Socket>(handle).unwrap().get(), bound(6969, false));
    assert_eq!(
        reply,
        Packet {
            ip_repr: IpRepr::Ipv4(Ipv4Repr {
                src_addr: 0xc0a8_4501,
                dst_addr: 0xc0a8_4564,
                next_header: IpProtocol::Icmp,
                payload_len: 8 + 20 + 12,
                hop_limit: 64,
            }),
            payload: IpPayload::PortUnreachable { header: ip, data: &bytes[..] },
        }
    );
}

#[test]
fn long_datagram_is_quoted_up_to_the_budget() {
    let set = SocketSet::new(ManagedSlice::Owned(vec![]));
    let payload = vec![0x5a; 1400];
    let ip = header(remote(), local(), IpProtocol::Udp, 1408);
    let bytes = datagram(&ip, 5000, 53, &payload);
    let reply = process_udp(&set, false, &ip, &bytes, rebind_to_sender).unwrap();
    assert_eq!(reply.ip_repr.buffer_len(), 20);
    match reply.payload {
        IpPayload::PortUnreachable { header, data } => {
            assert_eq!(header, ip);
            assert_eq!(data, &bytes[..528]);
        }
        IpPayload::Tcp(_) => panic!("a datagram is not answered with a segment"),
    }
    let ip6 = header(IpAddress::Ipv6(0xfe80 << 112 | 2), IpAddress::Ipv6(0xfe80 << 112 | 1), IpProtocol::Udp, 1408);
    let bytes6 = datagram(&ip6, 5000, 53, &payload);
    let reply = udp_fallback(&ip6, &bytes6, false).unwrap();
    assert_eq!(
        reply.ip_repr,
        IpRepr::Ipv6(Ipv6Repr {
            src_addr: 0xfe80 << 112 | 1,
            dst_addr: 0xfe80 << 112 | 2,
            next_header: IpProtocol::Icmpv6,
            payload_len: 8 + 40 + 1192,
            hop_limit: 64,
        })
    );
    assert!(matches!(
        reply.payload,
        IpPayload::PortUnreachable { data, .. } if data == &bytes6[..1192]
    ));
}

#[test]
fn quote_is_the_payload_or_the_budget() {
    assert_eq!(reply_quote_len(0, IPV4_MIN_MTU, 20), 0);
    assert_eq!(reply_quote_len(527, IPV4_MIN_MTU, 20), 527);
    assert_eq!(reply_quote_len(528, IPV4_MIN_MTU, 20), 528);
    assert_eq!(reply_quote_len(529, IPV4_MIN_MTU, 20), 528);
    assert_eq!(reply_quote_len(65535, IPV6_MIN_MTU, 40), 1192);
    assert_eq!(reply_quote_len(5, 48, 20), 0);
}

#[test]
fn datagram_to_the_unspecified_address_is_not_answered() {
    let set = SocketSet::new(ManagedSlice::Owned(vec![]));
    let ip = header(remote(), IpAddress::v4(0, 0, 0, 0), IpProtocol::Udp, 8);
    let bytes = datagram(&ip, 5000, 53, &[]);
    assert!(UdpRepr::parse(&ip, &bytes).is_some());
    assert_eq!(process_udp(&set, false, &ip, &bytes, rebind_to_sender), None);
}

#[test]
fn datagram_that_a_raw_socket_took_is_not_answered() {
    let set = SocketSet::new(ManagedSlice::Owned(vec![]));
    let ip = header(remote(), local(), IpProtocol::Udp, 8);
    let bytes = datagram(&ip, 5000, 53, &[]);
    assert_eq!(process_udp(&set, true, &ip, &bytes, rebind_to_sender), None);
    assert!(process_udp(&set, false, &ip, &bytes, rebind_to_sender).is_some());
}

#[test]
fn malformed_datagram_is_dropped_unseen() {
    let mut set = SocketSet::new(ManagedSlice::Owned(vec![]));
    let handle = set.add(bound(53, false));
    let ip = header(remote(), local(), IpProtocol::Udp, 9);
    let mut bytes = datagram(&ip, 5000, 53, &[1]);
    bytes[8] = 2;
    assert_eq!(process_udp(&set, false, &ip, &bytes, rebind_to_sender), None);
    assert_eq!(process_udp(&set, false, &ip, &bytes[..5], rebind_to_sender), None);
    assert_eq!(*set.get::<udp::Socket>(handle).unwrap().get(), bound(53, false));
}

#[test]
fn socket_bound_to_an_address_takes_that_address_only() {
    let mut socket = udp::Socket::new();
    socket
        .bind(ListenEndpoint { addr: Some(local()), port: 53 })
        .unwrap();
    let repr = UdpRepr { src_port: 1, dst_port: 53 };
    assert!(socket.accepts(&header(remote(), local(), IpProtocol::Udp, 8), &repr));
    assert!(!socket.accepts(&header(remote(), remote(), IpProtocol::Udp, 8), &repr));
    assert!(!socket.accepts(
        &header(remote(), local(), IpProtocol::Udp, 8),
        &UdpRepr { src_port: 1, dst_port: 54 }
    ));
    assert!(!udp::Socket::new().accepts(&header(remote(), local(), IpProtocol::Udp, 8), &repr));
}

#[test]
fn walk_does_not_touch_cells_past_the_one_that_accepts() {
    let mut set = SocketSet::new(ManagedSlice::Owned(vec![]));
    let first = set.add(listening(80, false));
    set.add(listening(81, false));
    set.add(bound(80, false));
    let ip = header(remote(), local(), IpProtocol::Tcp, 20);
    let bytes = segment(&ip, 40000, 80, SYN, &[]);
    let held = set.cell(1).unwrap().socket_mut();
    let also_held = set.cell(2).unwrap().socket_mut();
    assert!(process_tcp(&set, &ip, &bytes, syn_received).is_some());
    drop(held);
    drop(also_held);
    assert_eq!(state_of(&set, first), State::SynReceived);
}

#[test]
fn datagram_walk_does_not_touch_cells_past_the_one_that_accepts() {
    let mut set = SocketSet::new(ManagedSlice::Owned(vec![]));
    let first = set.add(bound(53, false));
    set.add(bound(54, false));
    let ip = header(remote(), local(), IpProtocol::Udp, 8);
    let bytes = datagram(&ip, 5000, 53, &[]);
    let held = set.cell(1).unwrap().socket_mut();
    assert_eq!(process_udp(&set, false, &ip, &bytes, rebind_to_sender), None);
    drop(held);
    assert_eq!(*set.get::<udp::Socket>(first).unwrap().get(), bound(5000, false));
}
