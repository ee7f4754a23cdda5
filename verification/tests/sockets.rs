use socket_registry::tcp;
use socket_registry::tcp::{Endpoint, ListenError, State, Tuple};
use socket_registry::udp;
use socket_registry::udp::{BindError, ListenEndpoint};
use socket_registry::wire::{IpAddress, IpProtocol, IpRepr, TcpControl, TcpRepr};

fn header(src: IpAddress, dst: IpAddress) -> IpRepr {
    IpRepr::new(src, dst, IpProtocol::Tcp, 20, 64).unwrap()
}

fn syn(src_port: u16, dst_port: u16) -> TcpRepr {
    TcpRepr {
        src_port,
        dst_port,
        control: TcpControl::Syn,
        seq_number: 1,
        ack_number: None,
        window_len: 100,
        payload_len: 0,
    }
}

#[test]
fn udp_bind_needs_a_port_or_any_port() {
    let mut socket = udp::Socket::new();
    assert!(!socket.is_open());
    assert_eq!(socket.bind(ListenEndpoint::port(0)), Err(BindError::Unaddressable));
    assert!(!socket.is_open());
    socket.set_any_port(true);
    assert_eq!(socket.bind(ListenEndpoint::port(0)), Ok(()));
    assert!(socket.is_open());
    assert_eq!(socket.bind(ListenEndpoint::port(5)), Err(BindError::InvalidState));
    assert_eq!(socket.endpoint, Some(ListenEndpoint::port(0)));
    socket.close();
    assert!(!socket.is_open());
    assert_eq!(socket.bind(ListenEndpoint::port(5)), Ok(()));
}

#[test]
fn tcp_listen_needs_a_port_or_any_port() {
    let mut socket = tcp::Socket::new();
    assert_eq!(socket.state(), State::Closed);
    assert_eq!(socket.listen(ListenEndpoint::port(0)), Err(ListenError::Unaddressable));
    assert_eq!(socket.listen(ListenEndpoint::port(80)), Ok(()));
    assert!(socket.is_open());
    assert!(socket.is_listening());
    assert!(!socket.is_active());
    assert_eq!(socket.listen(ListenEndpoint::port(81)), Err(ListenError::InvalidState));
    assert_eq!(socket.listen(ListenEndpoint::port(0)), Err(ListenError::Unaddressable));
    assert_eq!(socket.listen_endpoint, ListenEndpoint::port(80));
    socket.abort();
    assert!(!socket.is_open());
    socket.set_any_port(true);
    assert_eq!(socket.listen(ListenEndpoint::port(0)), Ok(()));
}

#[test]
fn closed_socket_accepts_nothing() {
    let ip = header(IpAddress::v4(10, 0, 0, 2), IpAddress::v4(10, 0, 0, 1));
    assert!(!tcp::Socket::new().accepts(&ip, &syn(1, 80)));
}

#[test]
fn listener_accepts_any_remote_on_its_port() {
    let mut socket = tcp::Socket::new();
    socket.listen(ListenEndpoint::port(80)).unwrap();
    let ip = header(IpAddress::v4(10, 0, 0, 2), IpAddress::v4(10, 0, 0, 1));
    let other = header(IpAddress::v4(172, 16, 0, 9), IpAddress::v4(10, 0, 0, 1));
    assert!(socket.accepts(&ip, &syn(1, 80)));
    assert!(socket.accepts(&other, &syn(65535, 80)));
    assert!(!socket.accepts(&ip, &syn(1, 81)));
    let acked = TcpRepr { ack_number: Some(3), ..syn(1, 80) };
    assert!(!socket.accepts(&ip, &acked));
}

#[test]
fn listener_on_an_address_accepts_that_address_only() {
    let mut socket = tcp::Socket::new();
    socket
        .listen(ListenEndpoint { addr: Some(IpAddress::v4(10, 0, 0, 1)), port: 80 })
        .unwrap();
    assert!(socket.accepts(
        &header(IpAddress::v4(10, 0, 0, 2), IpAddress::v4(10, 0, 0, 1)),
        &syn(1, 80)
    ));
    assert!(!socket.accepts(
        &header(IpAddress::v4(10, 0, 0, 2), IpAddress::v4(10, 0, 0, 3)),
        &syn(1, 80)
    ));
}

#[test]
fn wildcard_listener_accepts_every_port_but_zero() {
    let mut socket = tcp::Socket::new();
    socket.set_any_port(true);
    socket.listen(ListenEndpoint::port(0)).unwrap();
    let ip = header(IpAddress::v4(10, 0, 0, 2), IpAddress::v4(10, 0, 0, 1));
    assert!(socket.accepts(&ip, &syn(1, 80)));
    assert!(socket.accepts(&ip, &syn(1, 6969)));
    assert!(!socket.accepts(&ip, &syn(1, 0)));
}

#[test]
fn connected_socket_accepts_its_exact_pair_only() {
    let mut socket = tcp::Socket::new();
    socket.connect(
        State::Established,
        Tuple {
            local: Endpoint { addr: IpAddress::v4(10, 0, 0, 1), port: 80 },
            remote: Endpoint { addr: IpAddress::v4(10, 0, 0, 2), port: 4000 },
        },
    );
    assert!(socket.is_active());
    let ip = header(IpAddress::v4(10, 0, 0, 2), IpAddress::v4(10, 0, 0, 1));
    let acked = TcpRepr { control: TcpControl::Plain, ack_number: Some(3), ..syn(4000, 80) };
    assert!(socket.accepts(&ip, &acked));
    assert!(!socket.accepts(&ip, &TcpRepr { src_port: 4001, ..acked }));
    assert!(!socket.accepts(&ip, &TcpRepr { dst_port: 81, ..acked }));
    assert!(!socket.accepts(
        &header(IpAddress::v4(10, 0, 0, 3), IpAddress::v4(10, 0, 0, 1)),
        &acked
    ));
    assert!(!socket.accepts(
        &header(IpAddress::v4(10, 0, 0, 2), IpAddress::v4(10, 0, 0, 4)),
        &acked
    ));
}
