//! Parsed representations of the headers that dispatch reads: the IP header
//! handed in by the routing layer, and the UDP and TCP headers parsed here
//! from the transport payload.

use vstd::prelude::*;
use crate::checksum::{fold, fold16, lemma_word_sum_bound, sum_words, word_count, word_sum};

verus! {

/// An internetwork address, IPv4 or IPv6, as one big-endian number.
#[derive(Debug, Clone, Copy, PartialEq, Eq, Structural, Hash)]
pub enum IpAddress {
    /// An IPv4 address: the four octets, first octet in the top byte.
    Ipv4(u32),
    /// An IPv6 address: the sixteen octets, first octet in the top byte.
    Ipv6(u128),
}

/// The sum of the two 16-bit words of an IPv4 address.
pub open spec fn v4_word_sum(addr: u32) -> nat {
    (addr as nat) / 65536 + (addr as nat) % 65536
}

/// The sum of the eight 16-bit words of an IPv6 address.
pub open spec fn v6_word_sum(addr: u128) -> nat {
    let a = addr as nat;
    a % 0x1_0000 + (a / 0x1_0000) % 0x1_0000 + (a / 0x1_0000_0000) % 0x1_0000 + (a
        / 0x1_0000_0000_0000) % 0x1_0000 + (a / 0x1_0000_0000_0000_0000) % 0x1_0000 + (a
        / 0x1_0000_0000_0000_0000_0000) % 0x1_0000 + (a / 0x1_0000_0000_0000_0000_0000_0000)
        % 0x1_0000 + (a / 0x1_0000_0000_0000_0000_0000_0000_0000) % 0x1_0000
}

impl IpAddress {
    /// Whether this is the all-zero address of its family.
    pub open spec fn unspecified(self) -> bool {
        match self {
            IpAddress::Ipv4(a) => a == 0,
            IpAddress::Ipv6(a) => a == 0,
        }
    }

    /// The sum of the 16-bit words of the address, as a pseudo-header
    /// counts them.
    pub open spec fn word_sum(self) -> nat {
        match self {
            IpAddress::Ipv4(a) => v4_word_sum(a),
            IpAddress::Ipv6(a) => v6_word_sum(a),
        }
    }

    /// Builds an IPv4 address from its four octets.
    pub fn v4(a0: u8, a1: u8, a2: u8, a3: u8) -> (addr: IpAddress)
        ensures
            addr == IpAddress::Ipv4(
                (a0 as nat * 0x100_0000 + a1 as nat * 0x1_0000 + a2 as nat * 0x100 + a3 as nat) as u32,
            ),
    {
        let a0: u32 = a0 as u32;
        let a1: u32 = a1 as u32;
        let a2: u32 = a2 as u32;
        let a3: u32 = a3 as u32;
        IpAddress::Ipv4(a0 * 0x100_0000 + a1 * 0x1_0000 + a2 * 0x100 + a3)
    }

    /// Queries whether the address is the unspecified address.
    pub fn is_unspecified(&self) -> (b: bool)
        ensures
            b == self.unspecified(),
    {
        match self {
            IpAddress::Ipv4(a) => *a == 0,
            IpAddress::Ipv6(a) => *a == 0,
        }
    }

    /// Sums the 16-bit words of the address.
    pub fn sum_words(&self) -> (sum: u128)
        ensures
            sum == self.word_sum(),
            sum <= 8 * 0xffff,
    {
        match self {
            IpAddress::Ipv4(a) => {
                let a: u128 = *a as u128;
                a / 65536 + a % 65536
            },
            IpAddress::Ipv6(a) => {
                let a: u128 = *a;
                a % 0x1_0000 + (a / 0x1_0000) % 0x1_0000 + (a / 0x1_0000_0000) % 0x1_0000 + (a
                    / 0x1_0000_0000_0000) % 0x1_0000 + (a / 0x1_0000_0000_0000_0000) % 0x1_0000
                    + (a / 0x1_0000_0000_0000_0000_0000) % 0x1_0000 + (a
                    / 0x1_0000_0000_0000_0000_0000_0000) % 0x1_0000 + (a
                    / 0x1_0000_0000_0000_0000_0000_0000_0000) % 0x1_0000
            },
        }
    }
}

/// The protocol carried in an IP payload.
#[derive(Debug, Clone, Copy, PartialEq, Eq, Structural, Hash)]
pub enum IpProtocol {
    Icmp,
    Tcp,
    Udp,
    Icmpv6,
}

impl IpProtocol {
    /// The protocol number assigned to this protocol.
    pub open spec fn number_spec(self) -> nat {
        match self {
            IpProtocol::Icmp => 1,
            IpProtocol::Tcp => 6,
            IpProtocol::Udp => 17,
            IpProtocol::Icmpv6 => 58,
        }
    }

    /// The protocol number assigned to this protocol.
    pub fn number(&self) -> (n: u8)
        ensures
            n == self.number_spec(),
    {
        match self {
            IpProtocol::Icmp => 1,
            IpProtocol::Tcp => 6,
            IpProtocol::Udp => 17,
            IpProtocol::Icmpv6 => 58,
        }
    }
}

/// A parsed IPv4 header, as far as dispatch needs it.
#[derive(Debug, Clone, Copy, PartialEq, Eq, Structural)]
pub struct Ipv4Repr {
    pub src_addr: u32,
    pub dst_addr: u32,
    pub next_header: IpProtocol,
    pub payload_len: usize,
    pub hop_limit: u8,
}

/// A parsed IPv6 header, as far as dispatch needs it.
#[derive(Debug, Clone, Copy, PartialEq, Eq, Structural)]
pub struct Ipv6Repr {
    pub src_addr: u128,
    pub dst_addr: u128,
    pub next_header: IpProtocol,
    pub payload_len: usize,
    pub hop_limit: u8,
}

/// The length in octets of an IPv4 header without options.
pub const IPV4_HEADER_LEN: usize = 20;

/// The length in octets of the fixed IPv6 header.
pub const IPV6_HEADER_LEN: usize = 40;

/// A parsed IP header of either version.
#[derive(Debug, Clone, Copy, PartialEq, Eq, Structural)]
pub enum IpRepr {
    Ipv4(Ipv4Repr),
    Ipv6(Ipv6Repr),
}

impl IpRepr {
    /// The source address of the packet.
    pub open spec fn src(self) -> IpAddress {
        match self {
            IpRepr::Ipv4(r) => IpAddress::Ipv4(r.src_addr),
            IpRepr::Ipv6(r) => IpAddress::Ipv6(r.src_addr),
        }
    }

    /// The destination address of the packet.
    pub open spec fn dst(self) -> IpAddress {
        match self {
            IpRepr::Ipv4(r) => IpAddress::Ipv4(r.dst_addr),
            IpRepr::Ipv6(r) => IpAddress::Ipv6(r.dst_addr),
        }
    }

    /// The length of the header that this representation stands for.
    pub open spec fn header_len(self) -> nat {
        match self {
            IpRepr::Ipv4(_) => 20,
            IpRepr::Ipv6(_) => 40,
        }
    }

    /// A header from `src_addr` to `dst_addr`, of the family of `src_addr`.
    /// Where the families differ there is no such header.
    pub open spec fn make(
        src_addr: IpAddress,
        dst_addr: IpAddress,
        next_header: IpProtocol,
        payload_len: usize,
        hop_limit: u8,
    ) -> Option<IpRepr> {
        match (src_addr, dst_addr) {
            (IpAddress::Ipv4(s), IpAddress::Ipv4(d)) => Some(
                IpRepr::Ipv4(
                    Ipv4Repr { src_addr: s, dst_addr: d, next_header, payload_len, hop_limit },
                ),
            ),
            (IpAddress::Ipv6(s), IpAddress::Ipv6(d)) => Some(
                IpRepr::Ipv6(
                    Ipv6Repr { src_addr: s, dst_addr: d, next_header, payload_len, hop_limit },
                ),
            ),
            _ => None,
        }
    }

    /// Builds a header from two addresses of one family.
    pub fn new(
        src_addr: IpAddress,
        dst_addr: IpAddress,
        next_header: IpProtocol,
        payload_len: usize,
        hop_limit: u8,
    ) -> (repr: Option<IpRepr>)
        ensures
            repr == IpRepr::make(src_addr, dst_addr, next_header, payload_len, hop_limit),
    {
        match (src_addr, dst_addr) {
            (IpAddress::Ipv4(s), IpAddress::Ipv4(d)) => Some(
                IpRepr::Ipv4(
                    Ipv4Repr { src_addr: s, dst_addr: d, next_header, payload_len, hop_limit },
                ),
            ),
            (IpAddress::Ipv6(s), IpAddress::Ipv6(d)) => Some(
                IpRepr::Ipv6(
                    Ipv6Repr { src_addr: s, dst_addr: d, next_header, payload_len, hop_limit },
                ),
            ),
            _ => None,
        }
    }

    /// The source address of the packet.
    pub fn src_addr(&self) -> (addr: IpAddress)
        ensures
            addr == self.src(),
    {
        match self {
            IpRepr::Ipv4(r) => IpAddress::Ipv4(r.src_addr),
            IpRepr::Ipv6(r) => IpAddress::Ipv6(r.src_addr),
        }
    }

    /// The destination address of the packet.
    pub fn dst_addr(&self) -> (addr: IpAddress)
        ensures
            addr == self.dst(),
    {
        match self {
            IpRepr::Ipv4(r) => IpAddress::Ipv4(r.dst_addr),
            IpRepr::Ipv6(r) => IpAddress::Ipv6(r.dst_addr),
        }
    }

    /// The length of the header that this representation stands for.
    pub fn buffer_len(&self) -> (len: usize)
        ensures
            len == self.header_len(),
    {
        match self {
            IpRepr::Ipv4(_) => IPV4_HEADER_LEN,
            IpRepr::Ipv6(_) => IPV6_HEADER_LEN,
        }
    }
}

/// The sum of the words of the pseudo-header that UDP and TCP checksums
/// cover: both addresses, the protocol number and the transport length.
pub open spec fn pseudo_header_sum(ip: IpRepr, protocol: IpProtocol, len: nat) -> nat {
    ip.src().word_sum() + ip.dst().word_sum() + protocol.number_spec() + len / 65536 + len % 65536
}

/// Whether `segment`, carried by `ip`, passes the transport checksum of
/// `protocol`: the folded sum over pseudo-header and segment is all ones.
pub open spec fn checksum_ok(ip: IpRepr, protocol: IpProtocol, segment: Seq<u8>) -> bool {
    fold16(pseudo_header_sum(ip, protocol, segment.len()) + word_sum(segment)) == 0xffff
}

/// Sums the words of the pseudo-header for a transport segment of `len`
/// octets.
pub fn pseudo_header(ip: &IpRepr, protocol: IpProtocol, len: u32) -> (sum: u128)
    ensures
        sum == pseudo_header_sum(*ip, protocol, len as nat),
        sum <= 19 * 0xffff,
{
    let len: u128 = len as u128;
    ip.src_addr().sum_words() + ip.dst_addr().sum_words() + protocol.number() as u128 + len / 65536
        + len % 65536
}

/// Verifies the transport checksum of `segment` against its pseudo-header.
pub fn verify_checksum(ip: &IpRepr, protocol: IpProtocol, segment: &[u8]) -> (ok: bool)
    requires
        segment@.len() <= u32::MAX,
    ensures
        ok == checksum_ok(*ip, protocol, segment@),
{
    let pseudo: u128 = pseudo_header(ip, protocol, segment.len() as u32);
    let body: u128 = sum_words(segment);
    proof {
        lemma_word_sum_bound(segment@, word_count(segment@));
        assert(word_count(segment@) * 0xffff <= 0x1_0000_0000 * 0xffff)
            by (nonlinear_arith)
            requires
                word_count(segment@) <= 0x1_0000_0000,
        ;
    }
    fold(pseudo + body) == 0xffff
}

/// The big-endian 16-bit number in `buf` at `at`.
pub open spec fn be16(buf: Seq<u8>, at: int) -> nat {
    (buf[at] as nat) * 256 + (buf[at + 1] as nat)
}

/// The big-endian 32-bit number in `buf` at `at`.
pub open spec fn be32(buf: Seq<u8>, at: int) -> nat {
    be16(buf, at) * 65536 + be16(buf, at + 2)
}

/// Reads the big-endian 16-bit number in `buf` at `at`.
pub fn read_u16(buf: &[u8], at: usize) -> (n: u16)
    requires
        at + 1 < buf@.len(),
    ensures
        n == be16(buf@, at as int),
{
    let len: usize = buf.len();
    assert(at + 1 < len);
    let hi: u16 = buf[at] as u16;
    let lo: u16 = buf[at + 1] as u16;
    hi * 256 + lo
}

/// Reads the big-endian 32-bit number in `buf` at `at`.
pub fn read_u32(buf: &[u8], at: usize) -> (n: u32)
    requires
        at + 3 < buf@.len(),
    ensures
        n == be32(buf@, at as int),
{
    let len: usize = buf.len();
    assert(at + 3 < len);
    let hi: u32 = read_u16(buf, at) as u32;
    let lo: u32 = read_u16(buf, at + 2) as u32;
    hi * 65536 + lo
}

/// The length in octets of a UDP header.
pub const UDP_HEADER_LEN: usize = 8;

/// A parsed UDP header.
#[derive(Debug, Clone, Copy, PartialEq, Eq, Structural)]
pub struct UdpRepr {
    pub src_port: u16,
    pub dst_port: u16,
}

/// The length that the header of the datagram in `buf` declares.
pub open spec fn udp_declared_len(buf: Seq<u8>) -> nat {
    be16(buf, 4)
}

/// Whether `buf` holds a whole datagram: a full header whose length field
/// covers at least the header and at most the buffer.
pub open spec fn udp_well_framed(buf: Seq<u8>) -> bool {
    &&& buf.len() >= 8
    &&& 8 <= udp_declared_len(buf) <= buf.len()
}

/// Whether the checksum of the datagram in `buf` is acceptable: it
/// verifies, or it is the zero that IPv4 allows a sender to put in place of
/// one.
pub open spec fn udp_checksum_accepted(ip: IpRepr, buf: Seq<u8>) -> bool {
    ||| checksum_ok(ip, IpProtocol::Udp, buf.take(udp_declared_len(buf) as int))
    ||| (ip is Ipv4 && be16(buf, 6) == 0)
}

/// Whether `buf`, carried by `ip`, parses as a UDP datagram: it is well
/// framed, names a destination port, and its checksum is acceptable.
pub open spec fn udp_valid(ip: IpRepr, buf: Seq<u8>) -> bool {
    &&& udp_well_framed(buf)
    &&& be16(buf, 2) != 0
    &&& udp_checksum_accepted(ip, buf)
}

/// The header fields of the datagram in `buf`.
pub open spec fn udp_repr(buf: Seq<u8>) -> UdpRepr {
    UdpRepr { src_port: be16(buf, 0) as u16, dst_port: be16(buf, 2) as u16 }
}

/// The payload of the datagram in `buf`: what lies between the header and
/// the declared length.
pub open spec fn udp_payload(buf: Seq<u8>) -> Seq<u8> {
    buf.subrange(8, udp_declared_len(buf) as int)
}

impl UdpRepr {
    /// Parses and validates the UDP datagram in `buf`, which `ip` carried.
    /// Returns the header and the payload, or `None` for a datagram that is
    /// cut short, names no destination port or fails its checksum.
    pub fn parse<'a>(ip: &IpRepr, buf: &'a [u8]) -> (parsed: Option<(UdpRepr, &'a [u8])>)
        ensures
            parsed is Some <==> udp_valid(*ip, buf@),
            parsed matches Some((repr, payload)) ==> repr == udp_repr(buf@) && payload@
                == udp_payload(buf@),
    {
        if buf.len() < UDP_HEADER_LEN {
            return None;
        }
        let declared: usize = read_u16(buf, 4) as usize;
        if declared < UDP_HEADER_LEN || declared > buf.len() {
            return None;
        }
        let src_port: u16 = read_u16(buf, 0);
        let dst_port: u16 = read_u16(buf, 2);
        if dst_port == 0 {
            return None;
        }
        let datagram: &[u8] = vstd::slice::slice_subrange(buf, 0, declared);
        assert(datagram@ == buf@.take(declared as int));
        if !verify_checksum(ip, IpProtocol::Udp, datagram) {
            let optional: bool = match ip {
                IpRepr::Ipv4(_) => read_u16(buf, 6) == 0,
                IpRepr::Ipv6(_) => false,
            };
            if !optional {
                return None;
            }
        }
        let payload: &[u8] = vstd::slice::slice_subrange(buf, UDP_HEADER_LEN, declared);
        Some((UdpRepr { src_port, dst_port }, payload))
    }
}

/// The length in octets of a TCP header without options.
pub const TCP_HEADER_LEN: usize = 20;

/// The control flag of a TCP segment, as far as it decides how the segment
/// is handled.
#[derive(Debug, Clone, Copy, PartialEq, Eq, Structural)]
pub enum TcpControl {
    /// None of SYN, FIN, RST, PSH.
    Plain,
    Psh,
    Syn,
    Fin,
    Rst,
}

/// A parsed TCP header. Options are not interpreted: dispatch reads none.
#[derive(Debug, Clone, Copy, PartialEq, Eq)]
pub struct TcpRepr {
    pub src_port: u16,
    pub dst_port: u16,
    pub control: TcpControl,
    pub seq_number: u32,
    pub ack_number: Option<u32>,
    pub window_len: u16,
    pub payload_len: usize,
}

/// Whether any bit of `mask` is set in `flags`.
pub open spec fn flag_set(flags: u8, mask: u8) -> bool {
    flags & mask != 0
}

/// The FIN bit of the flags octet.
pub const TCP_FLAG_FIN: u8 = 0x01;

/// The SYN bit of the flags octet.
pub const TCP_FLAG_SYN: u8 = 0x02;

/// The RST bit of the flags octet.
pub const TCP_FLAG_RST: u8 = 0x04;

/// The PSH bit of the flags octet.
pub const TCP_FLAG_PSH: u8 = 0x08;

/// The ACK bit of the flags octet.
pub const TCP_FLAG_ACK: u8 = 0x10;

/// The control flag that a flags octet stands for. At most one of SYN, FIN
/// and RST may be set; PSH counts only where none of them is.
pub open spec fn tcp_control_of(flags: u8) -> Option<TcpControl> {
    let syn = flag_set(flags, TCP_FLAG_SYN);
    let fin = flag_set(flags, TCP_FLAG_FIN);
    let rst = flag_set(flags, TCP_FLAG_RST);
    let psh = flag_set(flags, TCP_FLAG_PSH);
    if !syn && !fin && !rst {
        if psh {
            Some(TcpControl::Psh)
        } else {
            Some(TcpControl::Plain)
        }
    } else if syn && !fin && !rst {
        Some(TcpControl::Syn)
    } else if !syn && fin && !rst {
        Some(TcpControl::Fin)
    } else if !syn && !fin && rst {
        Some(TcpControl::Rst)
    } else {
        None
    }
}

/// The header length that the data offset of the segment in `buf` declares.
pub open spec fn tcp_declared_header_len(buf: Seq<u8>) -> nat {
    ((buf[12] as nat) / 16) * 4
}

/// Whether `buf` holds a whole segment: a full header whose data offset
/// covers at least the fixed header and at most the buffer.
pub open spec fn tcp_well_framed(buf: Seq<u8>) -> bool {
    &&& 20 <= buf.len() <= u32::MAX
    &&& 20 <= tcp_declared_header_len(buf) <= buf.len()
}

/// Whether `buf`, carried by `ip`, parses as a TCP segment: it is well
/// framed, names both ports, passes its checksum, and its flags stand for
/// one control flag.
pub open spec fn tcp_valid(ip: IpRepr, buf: Seq<u8>) -> bool {
    &&& tcp_well_framed(buf)
    &&& be16(buf, 0) != 0
    &&& be16(buf, 2) != 0
    &&& checksum_ok(ip, IpProtocol::Tcp, buf)
    &&& tcp_control_of(buf[13]) is Some
}

/// The header fields of the segment in `buf`.
pub open spec fn tcp_repr(buf: Seq<u8>) -> TcpRepr {
    TcpRepr {
        src_port: be16(buf, 0) as u16,
        dst_port: be16(buf, 2) as u16,
        control: tcp_control_of(buf[13])->0,
        seq_number: be32(buf, 4) as u32,
        ack_number: if flag_set(buf[13], TCP_FLAG_ACK) {
            Some(be32(buf, 8) as u32)
        } else {
            None
        },
        window_len: be16(buf, 14) as u16,
        payload_len: (buf.len() - tcp_declared_header_len(buf)) as usize,
    }
}

/// Reads the control flag out of a flags octet.
pub fn control_of(flags: u8) -> (control: Option<TcpControl>)
    ensures
        control == tcp_control_of(flags),
{
    let syn: bool = flags & TCP_FLAG_SYN != 0;
    let fin: bool = flags & TCP_FLAG_FIN != 0;
    let rst: bool = flags & TCP_FLAG_RST != 0;
    let psh: bool = flags & TCP_FLAG_PSH != 0;
    if !syn && !fin && !rst {
        if psh {
            Some(TcpControl::Psh)
        } else {
            Some(TcpControl::Plain)
        }
    } else if syn && !fin && !rst {
        Some(TcpControl::Syn)
    } else if !syn && fin && !rst {
        Some(TcpControl::Fin)
    } else if !syn && !fin && rst {
        Some(TcpControl::Rst)
    } else {
        None
    }
}

impl TcpRepr {
    /// The length of the segment in sequence space: the payload, and one
    /// more for a SYN or a FIN.
    pub open spec fn sequence_len(self) -> nat {
        self.payload_len as nat + if self.control == TcpControl::Syn || self.control
            == TcpControl::Fin {
            1nat
        } else {
            0nat
        }
    }

    /// Parses and validates the TCP segment in `buf`, which `ip` carried.
    /// Returns the header, or `None` for a segment that is cut short, lacks
    /// a port, fails its checksum or carries conflicting flags.
    pub fn parse(ip: &IpRepr, buf: &[u8]) -> (parsed: Option<TcpRepr>)
        ensures
            parsed is Some <==> tcp_valid(*ip, buf@),
            parsed matches Some(repr) ==> repr == tcp_repr(buf@),
    {
        let len: usize = buf.len();
        if len < TCP_HEADER_LEN || len > 0xffff_ffff {
            return None;
        }
        let header_len: usize = (buf[12] / 16) as usize * 4;
        if header_len < TCP_HEADER_LEN || header_len > len {
            return None;
        }
        let src_port: u16 = read_u16(buf, 0);
        let dst_port: u16 = read_u16(buf, 2);
        if src_port == 0 || dst_port == 0 {
            return None;
        }
        if !verify_checksum(ip, IpProtocol::Tcp, buf) {
            return None;
        }
        let flags: u8 = buf[13];
        let control: TcpControl = match control_of(flags) {
            Some(control) => control,
            None => {
                return None;
            },
        };
        let ack_number: Option<u32> = if flags & TCP_FLAG_ACK != 0 {
            Some(read_u32(buf, 8))
        } else {
            None
        };
        Some(
            TcpRepr {
                src_port,
                dst_port,
                control,
                seq_number: read_u32(buf, 4),
                ack_number,
                window_len: read_u16(buf, 14),
                payload_len: len - header_len,
            },
        )
    }
}

} // verus!
