//! Demultiplexing of inbound transport packets.
//!
//! A packet goes to the first socket, in the order in which the set is
//! walked, that accepts it: the order of insertion is the priority. A packet
//! that no socket claims is answered as its protocol asks: a UDP datagram
//! with an ICMP port-unreachable message, a TCP segment with a reset.

use vstd::prelude::*;
use crate::set::AnySocketSet;
use crate::socket::{AnySocket, Socket, SocketKind};
use crate::storage::SocketStorage;
use crate::tcp;
use crate::udp;
use crate::wire::{
    tcp_repr, tcp_valid, udp_payload, udp_repr, udp_valid, IpProtocol, IpRepr, Ipv4Repr,
    Ipv6Repr, TcpControl, TcpRepr, UdpRepr, TCP_HEADER_LEN,
};

verus! {

/// The smallest MTU that an IPv4 host must accept.
pub const IPV4_MIN_MTU: usize = 576;

/// The smallest MTU that an IPv6 link must carry.
pub const IPV6_MIN_MTU: usize = 1280;

/// The length in octets of the ICMP header of a destination-unreachable
/// message.
pub const UNREACHABLE_HEADER_LEN: usize = 8;

/// The hop limit of the replies made here.
pub const REPLY_HOP_LIMIT: u8 = 64;

/// What a reply packet carries.
#[derive(Debug, Clone, Copy, PartialEq, Eq)]
pub enum IpPayload<'a> {
    /// An ICMP destination-unreachable message with reason port
    /// unreachable, quoting the header of the packet that it answers and
    /// the start of that packet's payload.
    PortUnreachable { header: IpRepr, data: &'a [u8] },
    /// A TCP segment without payload.
    Tcp(TcpRepr),
}

/// A packet to send: an IP header and what it carries.
#[derive(Debug, Clone, Copy, PartialEq, Eq)]
pub struct Packet<'a> {
    pub ip_repr: IpRepr,
    pub payload: IpPayload<'a>,
}

impl<'a> Packet<'a> {
    /// Puts a header and a payload together.
    pub fn new(ip_repr: IpRepr, payload: IpPayload<'a>) -> (packet: Packet<'a>)
        ensures
            packet == (Packet { ip_repr, payload }),
    {
        Packet { ip_repr, payload }
    }
}

/// How much of a packet's payload an ICMP error about it quotes: all of it,
/// or as much as fits the MTU beside the two IP headers and the ICMP header.
pub open spec fn quote_len(len: nat, mtu: nat, header_len: nat) -> nat {
    let budget = mtu - header_len * 2 - 8;
    if len <= budget {
        len
    } else {
        budget as nat
    }
}

/// Computes how much of a payload of `len` octets an ICMP error quotes.
pub fn reply_quote_len(len: usize, mtu: usize, header_len: usize) -> (quoted: usize)
    requires
        header_len * 2 + 8 <= mtu,
    ensures
        quoted == quote_len(len as nat, mtu as nat, header_len as nat),
        quoted <= len,
{
    let budget: usize = mtu - header_len * 2 - UNREACHABLE_HEADER_LEN;
    if len <= budget {
        len
    } else {
        budget
    }
}

/// The header of a reply to the packet under `ip`: from its destination to
/// its source, with the hop limit of replies.
pub open spec fn reply_header(ip: IpRepr, next_header: IpProtocol, payload_len: usize) -> IpRepr {
    match ip {
        IpRepr::Ipv4(r) => IpRepr::Ipv4(
            Ipv4Repr {
                src_addr: r.dst_addr,
                dst_addr: r.src_addr,
                next_header,
                payload_len,
                hop_limit: REPLY_HOP_LIMIT,
            },
        ),
        IpRepr::Ipv6(r) => IpRepr::Ipv6(
            Ipv6Repr {
                src_addr: r.dst_addr,
                dst_addr: r.src_addr,
                next_header,
                payload_len,
                hop_limit: REPLY_HOP_LIMIT,
            },
        ),
    }
}

/// Builds the header of a reply to the packet under `ip`.
pub fn make_reply_header(ip: &IpRepr, next_header: IpProtocol, payload_len: usize) -> (reply:
    IpRepr)
    ensures
        reply == reply_header(*ip, next_header, payload_len),
{
    match ip {
        IpRepr::Ipv4(r) => IpRepr::Ipv4(
            Ipv4Repr {
                src_addr: r.dst_addr,
                dst_addr: r.src_addr,
                next_header,
                payload_len,
                hop_limit: REPLY_HOP_LIMIT,
            },
        ),
        IpRepr::Ipv6(r) => IpRepr::Ipv6(
            Ipv6Repr {
                src_addr: r.dst_addr,
                dst_addr: r.src_addr,
                next_header,
                payload_len,
                hop_limit: REPLY_HOP_LIMIT,
            },
        ),
    }
}

/// The minimum MTU of the IP version of `ip`.
pub open spec fn min_mtu(ip: IpRepr) -> nat {
    match ip {
        IpRepr::Ipv4(_) => 576,
        IpRepr::Ipv6(_) => 1280,
    }
}

/// The ICMP protocol of the IP version of `ip`.
pub open spec fn error_protocol(ip: IpRepr) -> IpProtocol {
    match ip {
        IpRepr::Ipv4(_) => IpProtocol::Icmp,
        IpRepr::Ipv6(_) => IpProtocol::Icmpv6,
    }
}

/// The port-unreachable message about the datagram `payload` that `ip`
/// carried: it quotes the header and the start of the payload.
pub open spec fn port_unreachable(ip: IpRepr, payload: Seq<u8>) -> (IpRepr, IpRepr, Seq<u8>) {
    let quoted = quote_len(payload.len(), min_mtu(ip), ip.header_len());
    (
        reply_header(ip, error_protocol(ip), (8 + ip.header_len() + quoted) as usize),
        ip,
        payload.take(quoted as int),
    )
}

/// Whether `packet` is the port-unreachable message about the datagram
/// `payload` that `ip` carried.
pub open spec fn is_port_unreachable(packet: Packet<'_>, ip: IpRepr, payload: Seq<u8>) -> bool {
    &&& packet.ip_repr == port_unreachable(ip, payload).0
    &&& packet.payload matches IpPayload::PortUnreachable { header, data }
    &&& header == port_unreachable(ip, payload).1
    &&& data@ == port_unreachable(ip, payload).2
}

/// Whether an unclaimed datagram under `ip` is answered at all: not one
/// that a raw socket took already, and not one to the unspecified address.
pub open spec fn udp_answered(ip: IpRepr, handled_by_raw_socket: bool) -> bool {
    !handled_by_raw_socket && !ip.dst().unspecified()
}

/// Whether `reply` is the right answer to a datagram that no socket
/// claimed: a port-unreachable message where one is due, else nothing.
pub open spec fn is_udp_fallback(
    reply: Option<Packet<'_>>,
    ip: IpRepr,
    payload: Seq<u8>,
    handled_by_raw_socket: bool,
) -> bool {
    if udp_answered(ip, handled_by_raw_socket) {
        reply matches Some(packet) && is_port_unreachable(packet, ip, payload)
    } else {
        reply is None
    }
}

/// Answers a datagram that no socket claimed.
pub fn udp_fallback<'frame>(
    ip_repr: &IpRepr,
    ip_payload: &'frame [u8],
    handled_by_raw_socket: bool,
) -> (reply: Option<Packet<'frame>>)
    ensures
        is_udp_fallback(reply, *ip_repr, ip_payload@, handled_by_raw_socket),
{
    if handled_by_raw_socket || ip_repr.dst_addr().is_unspecified() {
        return None;
    }
    let (mtu, protocol): (usize, IpProtocol) = match ip_repr {
        IpRepr::Ipv4(_) => (IPV4_MIN_MTU, IpProtocol::Icmp),
        IpRepr::Ipv6(_) => (IPV6_MIN_MTU, IpProtocol::Icmpv6),
    };
    let header_len: usize = ip_repr.buffer_len();
    let quoted: usize = reply_quote_len(ip_payload.len(), mtu, header_len);
    let data: &[u8] = vstd::slice::slice_subrange(ip_payload, 0, quoted);
    let reply_repr: IpRepr = make_reply_header(
        ip_repr,
        protocol,
        UNREACHABLE_HEADER_LEN + header_len + quoted,
    );
    Some(Packet::new(reply_repr, IpPayload::PortUnreachable { header: *ip_repr, data }))
}

/// The reset that answers the segment `repr`: ports swapped, sequence
/// number taken from the segment's acknowledgement, and, for a SYN without
/// one, an acknowledgement of the segment itself.
pub open spec fn rst_segment(repr: TcpRepr) -> TcpRepr {
    TcpRepr {
        src_port: repr.dst_port,
        dst_port: repr.src_port,
        control: TcpControl::Rst,
        seq_number: match repr.ack_number {
            Some(ack) => ack,
            None => 0,
        },
        ack_number: if repr.control == TcpControl::Syn && repr.ack_number is None {
            Some(((repr.seq_number + repr.sequence_len()) % 0x1_0000_0000) as u32)
        } else {
            None
        },
        window_len: 0,
        payload_len: 0,
    }
}

/// The reset reply to the segment `repr` that `ip` carried.
pub open spec fn rst_reply_spec(ip: IpRepr, repr: TcpRepr) -> (IpRepr, TcpRepr) {
    (reply_header(ip, IpProtocol::Tcp, 20), rst_segment(repr))
}

/// Builds the reset reply to a segment that is not itself a reset.
pub fn rst_reply(ip_repr: &IpRepr, repr: &TcpRepr) -> (reply: (IpRepr, TcpRepr))
    requires
        repr.control != TcpControl::Rst,
    ensures
        reply == rst_reply_spec(*ip_repr, *repr),
{
    let seq_number: u32 = match repr.ack_number {
        Some(ack) => ack,
        None => 0,
    };
    let ack_number: Option<u32> = if repr.control == TcpControl::Syn && repr.ack_number.is_none() {
        let payload: u64 = repr.payload_len as u64;
        let low: u64 = payload % 0x1_0000_0000;
        proof {
            vstd::arithmetic::div_mod::lemma_fundamental_div_mod(payload as int, 0x1_0000_0000);
            vstd::arithmetic::div_mod::lemma_mod_multiples_vanish(
                (payload / 0x1_0000_0000) as int,
                repr.seq_number + low + 1,
                0x1_0000_0000,
            );
        }
        Some(((repr.seq_number as u64 + low + 1) % 0x1_0000_0000) as u32)
    } else {
        None
    };
    let segment = TcpRepr {
        src_port: repr.dst_port,
        dst_port: repr.src_port,
        control: TcpControl::Rst,
        seq_number,
        ack_number,
        window_len: 0,
        payload_len: 0,
    };
    (make_reply_header(ip_repr, IpProtocol::Tcp, TCP_HEADER_LEN), segment)
}

/// Whether an unclaimed segment is answered at all: never a reset, and
/// never a segment from or to the unspecified address.
pub open spec fn tcp_answered(ip: IpRepr, repr: TcpRepr) -> bool {
    repr.control != TcpControl::Rst && !ip.dst().unspecified() && !ip.src().unspecified()
}

/// The answer to a segment that no socket claimed: a reset where one is
/// due, else nothing.
pub open spec fn tcp_fallback_spec(ip: IpRepr, repr: TcpRepr) -> Option<Packet<'static>> {
    if tcp_answered(ip, repr) {
        Some(
            Packet {
                ip_repr: rst_reply_spec(ip, repr).0,
                payload: IpPayload::Tcp(rst_reply_spec(ip, repr).1),
            },
        )
    } else {
        None
    }
}

/// Answers a segment that no socket claimed.
pub fn tcp_fallback(ip_repr: &IpRepr, repr: &TcpRepr) -> (reply: Option<Packet<'static>>)
    ensures
        reply == tcp_fallback_spec(*ip_repr, *repr),
{
    if repr.control == TcpControl::Rst || ip_repr.dst_addr().is_unspecified()
        || ip_repr.src_addr().is_unspecified() {
        None
    } else {
        let (ip, tcp) = rst_reply(ip_repr, repr);
        Some(Packet::new(ip, IpPayload::Tcp(tcp)))
    }
}

/// The packet that carries a socket's reply, if the socket made one.
pub open spec fn tcp_reply_packet(reply: Option<(IpRepr, TcpRepr)>) -> Option<Packet<'static>> {
    match reply {
        Some((ip, tcp)) => Some(Packet { ip_repr: ip, payload: IpPayload::Tcp(tcp) }),
        None => None,
    }
}

/// Wraps a socket's reply, if it made one, in a packet.
pub fn reply_packet(reply: Option<(IpRepr, TcpRepr)>) -> (packet: Option<Packet<'static>>)
    ensures
        packet == tcp_reply_packet(reply),
{
    match reply {
        Some((ip, tcp)) => Some(Packet::new(ip, IpPayload::Tcp(tcp))),
        None => None,
    }
}

/// Whether some reading of `cell` shows that it does not take the segment:
/// it is found to hold no TCP socket, or an upgradable reading shows a
/// socket that is no TCP socket accepting the segment.
pub open spec fn tcp_passed_over(cell: SocketStorage, ip: IpRepr, repr: TcpRepr) -> bool {
    ||| cell.found_of_kind(SocketKind::Tcp, false)
    ||| exists|seen: Socket|
        #[trigger] cell.locked_as(seen) && !(tcp::Socket::down(seen) matches Some(socket)
            && socket.accepts_spec(ip, repr))
}

/// Whether the cell at `k` is the first to take the segment: an
/// upgradable reading of it shows the TCP socket `before`, which accepts,
/// and every cell before it was passed over.
pub open spec fn tcp_first_taken(
    cells: Seq<SocketStorage>,
    k: int,
    before: tcp::Socket,
    ip: IpRepr,
    repr: TcpRepr,
) -> bool {
    &&& 0 <= k < cells.len()
    &&& cells[k].locked_as(Socket::Tcp(before))
    &&& before.accepts_spec(ip, repr)
    &&& forall|j: int| 0 <= j < k ==> tcp_passed_over(#[trigger] cells[j], ip, repr)
}

/// Whether every cell was passed over for the segment.
pub open spec fn tcp_unclaimed(cells: Seq<SocketStorage>, ip: IpRepr, repr: TcpRepr) -> bool {
    forall|j: int| 0 <= j < cells.len() ==> tcp_passed_over(#[trigger] cells[j], ip, repr)
}

/// Whether `reply` is what dispatch over `cells` gives for a valid segment:
/// the fallback, with every cell passed over, or what `step` made of the
/// socket in the first cell that takes the segment, with the socket's next
/// state written to that cell.
pub open spec fn tcp_dispatched<F: FnOnce(&tcp::Socket, &IpRepr, &TcpRepr) -> (
    tcp::Socket,
    Option<(IpRepr, TcpRepr)>,
)>(
    cells: Seq<SocketStorage>,
    ip: IpRepr,
    repr: TcpRepr,
    step: F,
    reply: Option<Packet<'static>>,
) -> bool {
    ||| reply == tcp_fallback_spec(ip, repr) && tcp_unclaimed(cells, ip, repr)
    ||| exists|k: int, before: tcp::Socket|
        {
            &&& #[trigger] tcp_first_taken(cells, k, before, ip, repr)
            &&& exists|after: tcp::Socket, made: Option<(IpRepr, TcpRepr)>|
                {
                    &&& call_ensures(step, (&before, &ip, &repr), (after, made))
                    &&& cells[k].may_hold(Socket::Tcp(after))
                    &&& reply == tcp_reply_packet(made)
                }
        }
}

/// Whether every upgradable reading of `cell` shows a socket that is no
/// TCP socket accepting the segment.
pub open spec fn tcp_always_rejects(cell: SocketStorage, ip: IpRepr, repr: TcpRepr) -> bool {
    forall|seen: Socket| #[trigger]
        cell.locked_as(seen) ==> !(tcp::Socket::down(seen) matches Some(socket)
            && socket.accepts_spec(ip, repr))
}

/// Whether every reading of `cell` shows a TCP socket that accepts the
/// segment.
pub open spec fn tcp_always_accepts(cell: SocketStorage, ip: IpRepr, repr: TcpRepr) -> bool {
    &&& !cell.found_of_kind(SocketKind::Tcp, false)
    &&& forall|seen: Socket| #[trigger]
        cell.locked_as(seen) ==> (tcp::Socket::down(seen) matches Some(socket)
            && socket.accepts_spec(ip, repr))
}

/// A segment that every cell rejects, whenever it is read, is answered with
/// the fallback: the reset where one is due, and nothing for a reset or for
/// a segment from or to the unspecified address.
pub proof fn lemma_tcp_unmatched_gets_fallback<F: FnOnce(&tcp::Socket, &IpRepr, &TcpRepr) -> (
    tcp::Socket,
    Option<(IpRepr, TcpRepr)>,
)>(
    cells: Seq<SocketStorage>,
    ip: IpRepr,
    repr: TcpRepr,
    step: F,
    reply: Option<Packet<'static>>,
)
    requires
        tcp_dispatched(cells, ip, repr, step, reply),
        forall|j: int| 0 <= j < cells.len() ==> tcp_always_rejects(#[trigger] cells[j], ip, repr),
    ensures
        reply == tcp_fallback_spec(ip, repr),
{
    if !(reply == tcp_fallback_spec(ip, repr) && tcp_unclaimed(cells, ip, repr)) {
        let (k, before) = choose|k: int, before: tcp::Socket| #[trigger]
            tcp_first_taken(cells, k, before, ip, repr);
        assert(tcp_always_rejects(cells[k], ip, repr));
        assert(cells[k].locked_as(Socket::Tcp(before)));
    }
}

/// The order of the cells is the priority. Where the cell at `first`
/// accepts the segment whenever it is read, the segment is taken by that
/// cell or one before it, never by a later one, and the reply is what
/// `step` made there: no fallback is made. Where the cells before it
/// reject the segment whenever they are read, it is that cell which takes
/// the segment.
pub proof fn lemma_tcp_first_accepting_wins<F: FnOnce(&tcp::Socket, &IpRepr, &TcpRepr) -> (
    tcp::Socket,
    Option<(IpRepr, TcpRepr)>,
)>(
    cells: Seq<SocketStorage>,
    first: int,
    ip: IpRepr,
    repr: TcpRepr,
    step: F,
    reply: Option<Packet<'static>>,
)
    requires
        tcp_dispatched(cells, ip, repr, step, reply),
        0 <= first < cells.len(),
        tcp_always_accepts(cells[first], ip, repr),
    ensures
        exists|k: int, before: tcp::Socket|
            {
                &&& k <= first
                &&& #[trigger] tcp_first_taken(cells, k, before, ip, repr)
                &&& (forall|j: int|
                    0 <= j < first ==> tcp_always_rejects(#[trigger] cells[j], ip, repr)) ==> k
                    == first
                &&& exists|after: tcp::Socket, made: Option<(IpRepr, TcpRepr)>|
                    {
                        &&& call_ensures(step, (&before, &ip, &repr), (after, made))
                        &&& cells[k].may_hold(Socket::Tcp(after))
                        &&& reply == tcp_reply_packet(made)
                    }
            },
{
    if reply == tcp_fallback_spec(ip, repr) && tcp_unclaimed(cells, ip, repr) {
        assert(tcp_passed_over(cells[first], ip, repr));
        assert(false);
    }
    let (k, before) = choose|k: int, before: tcp::Socket|
        {
            &&& #[trigger] tcp_first_taken(cells, k, before, ip, repr)
            &&& exists|after: tcp::Socket, made: Option<(IpRepr, TcpRepr)>|
                {
                    &&& call_ensures(step, (&before, &ip, &repr), (after, made))
                    &&& cells[k].may_hold(Socket::Tcp(after))
                    &&& reply == tcp_reply_packet(made)
                }
        };
    if first < k {
        assert(tcp_passed_over(cells[first], ip, repr));
        assert(false);
    }
    if k < first && (forall|j: int|
        0 <= j < first ==> tcp_always_rejects(#[trigger] cells[j], ip, repr)) {
        assert(tcp_always_rejects(cells[k], ip, repr));
        assert(cells[k].locked_as(Socket::Tcp(before)));
        assert(false);
    }
}

/// Hands an inbound TCP segment to the first socket that accepts it.
///
/// The segment is parsed and its checksum verified; a malformed one is
/// dropped without a reply. The cells of `sockets` are then walked in
/// order, and each is read as the walk comes to it. A cell found to hold a
/// TCP socket is tested under an upgradable read lock; the first to accept
/// is locked for writing, `step` computes its next state and its reply from
/// the state that was tested, and no further cell is looked at. A segment
/// that no socket claims is answered with a reset, where one is due.
///
/// The order of the cells is the priority: the reply is that of the first
/// cell whose reading accepts, with every cell before it passed over, or
/// the fallback, with every cell passed over.
pub fn process_tcp<S: AnySocketSet, F>(
    sockets: &S,
    ip_repr: &IpRepr,
    ip_payload: &[u8],
    step: F,
) -> (reply: Option<Packet<'static>>) where
    F: FnOnce(&tcp::Socket, &IpRepr, &TcpRepr) -> (tcp::Socket, Option<(IpRepr, TcpRepr)>),

    requires
        forall|socket: tcp::Socket, ip: IpRepr, repr: TcpRepr|
            call_requires(step, (&socket, &ip, &repr)),
    ensures
        !tcp_valid(*ip_repr, ip_payload@) ==> reply is None,
        tcp_valid(*ip_repr, ip_payload@) ==> tcp_dispatched(
            sockets.cells(),
            *ip_repr,
            tcp_repr(ip_payload@),
            step,
            reply,
        ),
        tcp_valid(*ip_repr, ip_payload@) && sockets.cells().len() == 0 ==> reply
            == tcp_fallback_spec(*ip_repr, tcp_repr(ip_payload@)),
{
    let repr: TcpRepr = match TcpRepr::parse(ip_repr, ip_payload) {
        Some(repr) => repr,
        None => {
            return None;
        },
    };
    let all: Vec<&SocketStorage> = sockets.items();
    let ghost cells = sockets.cells();
    let mut i: usize = 0;
    while i < all.len()
        invariant
            i <= all@.len(),
            cells == sockets.cells(),
            all@.len() == cells.len(),
            forall|k: int| 0 <= k < all@.len() ==> *(#[trigger] all@[k]) == cells[k],
            forall|j: int| 0 <= j < i ==> tcp_passed_over(#[trigger] cells[j], *ip_repr, repr),
            repr == tcp_repr(ip_payload@),
            tcp_valid(*ip_repr, ip_payload@),
            forall|socket: tcp::Socket, ip: IpRepr, repr: TcpRepr|
                call_requires(step, (&socket, &ip, &repr)),
        decreases all@.len() - i,
    {
        let cell: &SocketStorage = all[i];
        assert(*cell == cells[i as int]);
        if cell.has_kind(SocketKind::Tcp) {
            let accepts = |socket: &tcp::Socket| -> (b: bool)
                ensures
                    b == socket.accepts_spec(*ip_repr, repr),
                { socket.accepts(ip_repr, &repr) };
            let tested = cell.downcast_with::<tcp::Socket, _>(accepts);
            let ghost seen = choose|seen: Socket|
                {
                    &&& #[trigger] cell.locked_as(seen)
                    &&& tested is Ok <==> seen.holds::<tcp::Socket>()
                    &&& tested matches Ok(g) ==> Some(g.guarded()) == tcp::Socket::down(seen)
                        && g.lock() == cell.lock()
                };
            match tested {
                Ok(guard) => {
                    let ghost before = guard.guarded();
                    match guard.write() {
                        Some(mut socket) => {
                            let (next, made) = step(socket.get(), ip_repr, &repr);
                            socket.set(next);
                            proof {
                                tcp::Socket::lemma_conversion(seen);
                                assert(seen == Socket::Tcp(before));
                                assert(tcp_first_taken(cells, i as int, before, *ip_repr, repr));
                                assert(call_ensures(step, (&before, ip_repr, &repr), (next, made)));
                                assert(cells[i as int].may_hold(Socket::Tcp(next)));
                            }
                            return reply_packet(made);
                        },
                        None => {
                            assert(!before.accepts_spec(*ip_repr, repr));
                        },
                    }
                },
                Err(_) => {},
            }
        }
        assert(tcp_passed_over(*cell, *ip_repr, repr));
        i = i + 1;
    }
    assert(tcp_unclaimed(cells, *ip_repr, repr));
    tcp_fallback(ip_repr, &repr)
}

/// Whether some reading of `cell` shows that it does not take the
/// datagram: it is found to hold no UDP socket, or an upgradable reading
/// shows a socket that is no UDP socket accepting the datagram.
pub open spec fn udp_passed_over(cell: SocketStorage, ip: IpRepr, repr: UdpRepr) -> bool {
    ||| cell.found_of_kind(SocketKind::Udp, false)
    ||| exists|seen: Socket|
        #[trigger] cell.locked_as(seen) && !(udp::Socket::down(seen) matches Some(socket)
            && socket.accepts_spec(ip, repr))
}

/// Whether the cell at `k` is the first to take the datagram: an
/// upgradable reading of it shows the UDP socket `before`, which accepts,
/// and every cell before it was passed over.
pub open spec fn udp_first_taken(
    cells: Seq<SocketStorage>,
    k: int,
    before: udp::Socket,
    ip: IpRepr,
    repr: UdpRepr,
) -> bool {
    &&& 0 <= k < cells.len()
    &&& cells[k].locked_as(Socket::Udp(before))
    &&& before.accepts_spec(ip, repr)
    &&& forall|j: int| 0 <= j < k ==> udp_passed_over(#[trigger] cells[j], ip, repr)
}

/// Whether every cell was passed over for the datagram.
pub open spec fn udp_unclaimed(cells: Seq<SocketStorage>, ip: IpRepr, repr: UdpRepr) -> bool {
    forall|j: int| 0 <= j < cells.len() ==> udp_passed_over(#[trigger] cells[j], ip, repr)
}

/// Whether `reply` is what dispatch over `cells` gives for a valid
/// datagram: the fallback, with every cell passed over, or nothing, with
/// `step` run on the socket in the first cell that takes the datagram and
/// the socket's next state written to that cell.
pub open spec fn udp_dispatched<F: FnOnce(&udp::Socket, &IpRepr, &UdpRepr, &[u8]) -> udp::Socket>(
    cells: Seq<SocketStorage>,
    ip: IpRepr,
    datagram: Seq<u8>,
    handled_by_raw_socket: bool,
    step: F,
    reply: Option<Packet<'_>>,
) -> bool {
    ||| is_udp_fallback(reply, ip, datagram, handled_by_raw_socket) && udp_unclaimed(
        cells,
        ip,
        udp_repr(datagram),
    )
    ||| exists|k: int, before: udp::Socket|
        {
            &&& #[trigger] udp_first_taken(cells, k, before, ip, udp_repr(datagram))
            &&& reply is None
            &&& exists|after: udp::Socket, payload: &[u8]|
                {
                    &&& payload@ == udp_payload(datagram)
                    &&& call_ensures(step, (&before, &ip, &udp_repr(datagram), payload), after)
                    &&& cells[k].may_hold(Socket::Udp(after))
                }
        }
}

/// Whether every upgradable reading of `cell` shows a socket that is no
/// UDP socket accepting the datagram.
pub open spec fn udp_always_rejects(cell: SocketStorage, ip: IpRepr, repr: UdpRepr) -> bool {
    forall|seen: Socket| #[trigger]
        cell.locked_as(seen) ==> !(udp::Socket::down(seen) matches Some(socket)
            && socket.accepts_spec(ip, repr))
}

/// Whether every reading of `cell` shows a UDP socket that accepts the
/// datagram.
pub open spec fn udp_always_accepts(cell: SocketStorage, ip: IpRepr, repr: UdpRepr) -> bool {
    &&& !cell.found_of_kind(SocketKind::Udp, false)
    &&& forall|seen: Socket| #[trigger]
        cell.locked_as(seen) ==> (udp::Socket::down(seen) matches Some(socket)
            && socket.accepts_spec(ip, repr))
}

/// A datagram that every cell rejects, whenever it is read, is answered
/// with the fallback: one port-unreachable message that quotes the header
/// and the start of the datagram, and nothing for a datagram to the
/// unspecified address or one that a raw socket took.
pub proof fn lemma_udp_unmatched_gets_fallback<F: FnOnce(&udp::Socket, &IpRepr, &UdpRepr, &[u8]) -> udp::Socket>(
    cells: Seq<SocketStorage>,
    ip: IpRepr,
    datagram: Seq<u8>,
    handled_by_raw_socket: bool,
    step: F,
    reply: Option<Packet<'_>>,
)
    requires
        udp_dispatched(cells, ip, datagram, handled_by_raw_socket, step, reply),
        forall|j: int|
            0 <= j < cells.len() ==> udp_always_rejects(
                #[trigger] cells[j],
                ip,
                udp_repr(datagram),
            ),
    ensures
        is_udp_fallback(reply, ip, datagram, handled_by_raw_socket),
{
    if !(is_udp_fallback(reply, ip, datagram, handled_by_raw_socket) && udp_unclaimed(
        cells,
        ip,
        udp_repr(datagram),
    )) {
        let (k, before) = choose|k: int, before: udp::Socket| #[trigger]
            udp_first_taken(cells, k, before, ip, udp_repr(datagram));
        assert(udp_always_rejects(cells[k], ip, udp_repr(datagram)));
        assert(cells[k].locked_as(Socket::Udp(before)));
    }
}

/// The order of the cells is the priority. Where the cell at `first`
/// accepts the datagram whenever it is read, the datagram is taken by that
/// cell or one before it, never by a later one, and no reply is made.
/// Where the cells before it reject the datagram whenever they are read, it
/// is that cell which takes the datagram.
pub proof fn lemma_udp_first_accepting_wins<F: FnOnce(&udp::Socket, &IpRepr, &UdpRepr, &[u8]) -> udp::Socket>(
    cells: Seq<SocketStorage>,
    first: int,
    ip: IpRepr,
    datagram: Seq<u8>,
    handled_by_raw_socket: bool,
    step: F,
    reply: Option<Packet<'_>>,
)
    requires
        udp_dispatched(cells, ip, datagram, handled_by_raw_socket, step, reply),
        0 <= first < cells.len(),
        udp_always_accepts(cells[first], ip, udp_repr(datagram)),
    ensures
        reply is None,
        exists|k: int, before: udp::Socket|
            {
                &&& k <= first
                &&& #[trigger] udp_first_taken(cells, k, before, ip, udp_repr(datagram))
                &&& (forall|j: int|
                    0 <= j < first ==> udp_always_rejects(
                        #[trigger] cells[j],
                        ip,
                        udp_repr(datagram),
                    )) ==> k == first
                &&& exists|after: udp::Socket, payload: &[u8]|
                    {
                        &&& payload@ == udp_payload(datagram)
                        &&& call_ensures(
                            step,
                            (&before, &ip, &udp_repr(datagram), payload),
                            after,
                        )
                        &&& cells[k].may_hold(Socket::Udp(after))
                    }
            },
{
    let repr = udp_repr(datagram);
    if is_udp_fallback(reply, ip, datagram, handled_by_raw_socket) && udp_unclaimed(
        cells,
        ip,
        repr,
    ) {
        assert(udp_passed_over(cells[first], ip, repr));
        assert(false);
    }
    let (k, before) = choose|k: int, before: udp::Socket|
        {
            &&& #[trigger] udp_first_taken(cells, k, before, ip, repr)
            &&& reply is None
            &&& exists|after: udp::Socket, payload: &[u8]|
                {
                    &&& payload@ == udp_payload(datagram)
                    &&& call_ensures(step, (&before, &ip, &repr, payload), after)
                    &&& cells[k].may_hold(Socket::Udp(after))
                }
        };
    if first < k {
        assert(udp_passed_over(cells[first], ip, repr));
        assert(false);
    }
    if k < first && (forall|j: int|
        0 <= j < first ==> udp_always_rejects(#[trigger] cells[j], ip, repr)) {
        assert(udp_always_rejects(cells[k], ip, repr));
        assert(cells[k].locked_as(Socket::Udp(before)));
        assert(false);
    }
}

/// Hands an inbound UDP datagram to the first socket that accepts it.
///
/// The datagram is parsed and its checksum verified; a malformed one is
/// dropped without a reply. The cells of `sockets` are then walked in
/// order, and each is read as the walk comes to it. A cell found to hold a
/// UDP socket is tested under an upgradable read lock; the first to accept
/// is locked for writing, `step` computes its next state from the state
/// that was tested and the payload, and no further cell is looked at. A
/// socket that takes the datagram makes no reply. A datagram that no socket
/// claims is answered with a port-unreachable message, where one is due.
///
/// The order of the cells is the priority: the datagram goes to the first
/// cell whose reading accepts, with every cell before it passed over, or
/// the fallback is made, with every cell passed over.
pub fn process_udp<'frame, S: AnySocketSet, F>(
    sockets: &S,
    handled_by_raw_socket: bool,
    ip_repr: &IpRepr,
    ip_payload: &'frame [u8],
    step: F,
) -> (reply: Option<Packet<'frame>>) where
    F: FnOnce(&udp::Socket, &IpRepr, &UdpRepr, &[u8]) -> udp::Socket,

    requires
        forall|socket: udp::Socket, ip: IpRepr, repr: UdpRepr, payload: &[u8]|
            call_requires(step, (&socket, &ip, &repr, payload)),
    ensures
        !udp_valid(*ip_repr, ip_payload@) ==> reply is None,
        udp_valid(*ip_repr, ip_payload@) ==> udp_dispatched(
            sockets.cells(),
            *ip_repr,
            ip_payload@,
            handled_by_raw_socket,
            step,
            reply,
        ),
        udp_valid(*ip_repr, ip_payload@) && sockets.cells().len() == 0 ==> is_udp_fallback(
            reply,
            *ip_repr,
            ip_payload@,
            handled_by_raw_socket,
        ),
{
    let (repr, payload): (UdpRepr, &[u8]) = match UdpRepr::parse(ip_repr, ip_payload) {
        Some(parsed) => parsed,
        None => {
            return None;
        },
    };
    let all: Vec<&SocketStorage> = sockets.items();
    let ghost cells = sockets.cells();
    let mut i: usize = 0;
    while i < all.len()
        invariant
            i <= all@.len(),
            cells == sockets.cells(),
            all@.len() == cells.len(),
            forall|k: int| 0 <= k < all@.len() ==> *(#[trigger] all@[k]) == cells[k],
            forall|j: int| 0 <= j < i ==> udp_passed_over(#[trigger] cells[j], *ip_repr, repr),
            repr == udp_repr(ip_payload@),
            payload@ == udp_payload(ip_payload@),
            udp_valid(*ip_repr, ip_payload@),
            forall|socket: udp::Socket, ip: IpRepr, repr: UdpRepr, payload: &[u8]|
                call_requires(step, (&socket, &ip, &repr, payload)),
        decreases all@.len() - i,
    {
        let cell: &SocketStorage = all[i];
        assert(*cell == cells[i as int]);
        if cell.has_kind(SocketKind::Udp) {
            let accepts = |socket: &udp::Socket| -> (b: bool)
                ensures
                    b == socket.accepts_spec(*ip_repr, repr),
                { socket.accepts(ip_repr, &repr) };
            let tested = cell.downcast_with::<udp::Socket, _>(accepts);
            let ghost seen = choose|seen: Socket|
                {
                    &&& #[trigger] cell.locked_as(seen)
                    &&& tested is Ok <==> seen.holds::<udp::Socket>()
                    &&& tested matches Ok(g) ==> Some(g.guarded()) == udp::Socket::down(seen)
                        && g.lock() == cell.lock()
                };
            match tested {
                Ok(guard) => {
                    let ghost before = guard.guarded();
                    match guard.write() {
                        Some(mut socket) => {
                            let next = step(socket.get(), ip_repr, &repr, payload);
                            socket.set(next);
                            proof {
                                udp::Socket::lemma_conversion(seen);
                                assert(seen == Socket::Udp(before));
                                assert(udp_first_taken(cells, i as int, before, *ip_repr, repr));
                                assert(call_ensures(step, (&before, ip_repr, &repr, payload), next));
                                assert(cells[i as int].may_hold(Socket::Udp(next)));
                            }
                            return None;
                        },
                        None => {
                            assert(!before.accepts_spec(*ip_repr, repr));
                        },
                    }
                },
                Err(_) => {},
            }
        }
        assert(udp_passed_over(*cell, *ip_repr, repr));
        i = i + 1;
    }
    assert(udp_unclaimed(cells, *ip_repr, repr));
    udp_fallback(ip_repr, ip_payload, handled_by_raw_socket)
}

} // verus!
