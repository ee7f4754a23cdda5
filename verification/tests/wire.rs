use socket_registry::checksum;
use socket_registry::wire::{
    control_of, verify_checksum, IpAddress, IpProtocol, IpRepr, TcpControl, TcpRepr, UdpRepr,
};

fn v4_header(protocol: IpProtocol, payload_len: usize) -> IpRepr {
    IpRepr::new(
        IpAddress::v4(192, 168, 1, 1),
        IpAddress::v4(192, 168, 1, 2),
        protocol,
        payload_len,
        64,
    )
    .unwrap()
}

fn v6_header(protocol: IpProtocol, payload_len: usize) -> IpRepr {
    IpRepr::new(
        IpAddress::Ipv6(0xfe80_0000_0000_0000_0000_0000_0000_0001),
        IpAddress::Ipv6(0xfe80_0000_0000_0000_0000_0000_0000_0002),
        protocol,
        payload_len,
        64,
    )
    .unwrap()
}

const UDP_BYTES: [u8; 12] = [
    0xbf, 0x00, 0x00, 0x35, 0x00, 0x0c, 0x12, 0x4d, 0xaa, 0x00, 0x00, 0xff,
];

const SYN_BYTES: [u8; 24] = [
    0xbf, 0x00, 0x00, 0x50, 0x01, 0x23, 0x45, 0x67, 0x00, 0x00, 0x00, 0x00, 0x50, 0x02, 0x01, 0x23,
    0x7a, 0x8d, 0x00, 0x00, 0xaa, 0x00, 0x00, 0xff,
];

#[test]
fn fold_adds_carries_back_in() {
    assert_eq!(checksum::fold(0), 0);
    assert_eq!(checksum::fold(0xffff), 0xffff);
    assert_eq!(checksum::fold(0x1_0000), 1);
    assert_eq!(checksum::fold(0x2_fffd), 0xffff);
    assert_eq!(checksum::fold(0xffff_ffff), 0xffff);
    assert_eq!(checksum::fold(0x1_fffe_0001), 1);
}

#[test]
fn sum_words_pads_an_odd_byte() {
    assert_eq!(checksum::sum_words(&[]), 0);
    assert_eq!(checksum::sum_words(&[0x12]), 0x1200);
    assert_eq!(checksum::sum_words(&[0x12, 0x34]), 0x1234);
    assert_eq!(checksum::sum_words(&[0x12, 0x34, 0x56]), 0x1234 + 0x5600);
    assert_eq!(checksum::sum_words(&[0xff, 0xff, 0xff, 0xff]), 0x1_fffe);
}

#[test]
fn data_checksum_of_known_bytes() {
    assert_eq!(checksum::data(&UDP_BYTES), 0x7c8e);
    assert_eq!(checksum::combine(0x18370, 0x17c8d), 0xffff);
}

#[test]
fn address_words_are_summed() {
    assert_eq!(IpAddress::v4(192, 168, 1, 1), IpAddress::Ipv4(0xc0a8_0101));
    assert_eq!(IpAddress::v4(192, 168, 1, 1).sum_words(), 0xc0a8 + 0x0101);
    assert_eq!(
        IpAddress::Ipv6(0x0001_0002_0003_0004_0005_0006_0007_0008).sum_words(),
        36
    );
    assert!(IpAddress::v4(0, 0, 0, 0).is_unspecified());
    assert!(IpAddress::Ipv6(0).is_unspecified());
    assert!(!IpAddress::v4(10, 0, 0, 1).is_unspecified());
}

#[test]
fn header_of_mixed_families_is_refused() {
    let mixed = IpRepr::new(
        IpAddress::v4(10, 0, 0, 1),
        IpAddress::Ipv6(1),
        IpProtocol::Udp,
        0,
        64,
    );
    assert!(mixed.is_none());
    assert_eq!(v4_header(IpProtocol::Udp, 12).buffer_len(), 20);
    assert_eq!(v6_header(IpProtocol::Udp, 12).buffer_len(), 40);
    assert_eq!(IpProtocol::Icmp.number(), 1);
    assert_eq!(IpProtocol::Tcp.number(), 6);
    assert_eq!(IpProtocol::Udp.number(), 17);
    assert_eq!(IpProtocol::Icmpv6.number(), 58);
}

#[test]
fn udp_datagram_parses() {
    let ip = v4_header(IpProtocol::Udp, UDP_BYTES.len());
    assert!(verify_checksum(&ip, IpProtocol::Udp, &UDP_BYTES));
    let (repr, payload) = UdpRepr::parse(&ip, &UDP_BYTES).unwrap();
    assert_eq!(repr, UdpRepr { src_port: 48896, dst_port: 53 });
    assert_eq!(payload, &[0xaa, 0x00, 0x00, 0xff]);
}

#[test]
fn udp_payload_ends_at_the_declared_length() {
    let ip = v4_header(IpProtocol::Udp, 14);
    let mut bytes = UDP_BYTES.to_vec();
    bytes.extend_from_slice(&[0x55, 0x66]);
    let (_, payload) = UdpRepr::parse(&ip, &bytes).unwrap();
    assert_eq!(payload.len(), 4);
}

#[test]
fn udp_with_wrong_checksum_is_dropped() {
    let ip = v4_header(IpProtocol::Udp, UDP_BYTES.len());
    let mut bytes = UDP_BYTES;
    bytes[8] ^= 0x01;
    assert!(UdpRepr::parse(&ip, &bytes).is_none());
}

#[test]
fn udp_zero_checksum_passes_on_ipv4_only() {
    let mut bytes = UDP_BYTES;
    bytes[6] = 0;
    bytes[7] = 0;
    assert!(UdpRepr::parse(&v4_header(IpProtocol::Udp, 12), &bytes).is_some());
    assert!(UdpRepr::parse(&v6_header(IpProtocol::Udp, 12), &bytes).is_none());
}

#[test]
fn udp_cut_short_is_dropped() {
    let ip = v4_header(IpProtocol::Udp, 7);
    assert!(UdpRepr::parse(&ip, &UDP_BYTES[..7]).is_none());
    assert!(UdpRepr::parse(&ip, &UDP_BYTES[..11]).is_none());
    let mut bytes = UDP_BYTES;
    bytes[5] = 7;
    assert!(UdpRepr::parse(&ip, &bytes).is_none());
    assert!(UdpRepr::parse(&ip, &[]).is_none());
}

#[test]
fn udp_without_destination_port_is_dropped() {
    let ip = v4_header(IpProtocol::Udp, 12);
    let mut bytes = UDP_BYTES;
    bytes[2] = 0;
    bytes[3] = 0;
    bytes[6] = 0;
    bytes[7] = 0;
    assert!(UdpRepr::parse(&ip, &bytes).is_none());
}

#[test]
fn tcp_syn_parses() {
    let ip = v4_header(IpProtocol::Tcp, SYN_BYTES.len());
    let repr = TcpRepr::parse(&ip, &SYN_BYTES).unwrap();
    assert_eq!(
        repr,
        TcpRepr {
            src_port: 48896,
            dst_port: 80,
            control: TcpControl::Syn,
            seq_number: 0x0123_4567,
            ack_number: None,
            window_len: 0x0123,
            payload_len: 4,
        }
    );
}

#[test]
fn tcp_with_wrong_checksum_is_dropped() {
    let ip = v4_header(IpProtocol::Tcp, SYN_BYTES.len());
    let mut bytes = SYN_BYTES;
    bytes[20] ^= 0x80;
    assert!(TcpRepr::parse(&ip, &bytes).is_none());
    assert!(TcpRepr::parse(&v6_header(IpProtocol::Tcp, 24), &SYN_BYTES).is_none());
}

#[test]
fn tcp_cut_short_is_dropped() {
    let ip = v4_header(IpProtocol::Tcp, 19);
    assert!(TcpRepr::parse(&ip, &SYN_BYTES[..19]).is_none());
    let mut bytes = SYN_BYTES;
    bytes[12] = 0x40;
    assert!(TcpRepr::parse(&ip, &bytes).is_none());
    bytes[12] = 0x70;
    assert!(TcpRepr::parse(&ip, &bytes).is_none());
}

#[test]
fn tcp_flags_give_one_control() {
    assert_eq!(control_of(0x00), Some(TcpControl::Plain));
    assert_eq!(control_of(0x10), Some(TcpControl::Plain));
    assert_eq!(control_of(0x08), Some(TcpControl::Psh));
    assert_eq!(control_of(0x02), Some(TcpControl::Syn));
    assert_eq!(control_of(0x12), Some(TcpControl::Syn));
    assert_eq!(control_of(0x0a), Some(TcpControl::Syn));
    assert_eq!(control_of(0x01), Some(TcpControl::Fin));
    assert_eq!(control_of(0x04), Some(TcpControl::Rst));
    assert_eq!(control_of(0x03), None);
    assert_eq!(control_of(0x05), None);
    assert_eq!(control_of(0x06), None);
    assert_eq!(control_of(0x35), None);
}
