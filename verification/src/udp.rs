//! The UDP socket, as far as the registry and dispatch know it: where it is
//! bound, and which datagrams it accepts.

use vstd::prelude::*;
use crate::wire::{IpAddress, IpRepr, UdpRepr};

verus! {

/// A local address and port to receive on. No address stands for every
/// local address.
#[derive(Debug, Clone, Copy, PartialEq, Eq)]
pub struct ListenEndpoint {
    pub addr: Option<IpAddress>,
    pub port: u16,
}

impl ListenEndpoint {
    /// Whether a packet sent to `dst` reaches this endpoint's address.
    pub open spec fn covers_addr(self, dst: IpAddress) -> bool {
        self.addr is None || self.addr == Some(dst)
    }

    /// Whether a packet sent to port `dst_port` reaches this endpoint's
    /// port. Port zero reaches every port, and only where the socket was set
    /// to take any port.
    pub open spec fn covers_port(self, any_port: bool, dst_port: u16) -> bool {
        self.port == dst_port || (any_port && self.port == 0)
    }

    /// An endpoint on every local address.
    pub fn port(port: u16) -> (endpoint: ListenEndpoint)
        ensures
            endpoint == (ListenEndpoint { addr: None, port }),
    {
        ListenEndpoint { addr: None, port }
    }

    /// Tests whether a packet sent to `dst` reaches this endpoint's address.
    pub fn accepts_addr(&self, dst: IpAddress) -> (b: bool)
        ensures
            b == self.covers_addr(dst),
    {
        match self.addr {
            None => true,
            Some(addr) => addr == dst,
        }
    }

    /// Tests whether a packet sent to `dst_port` reaches this endpoint's
    /// port.
    pub fn accepts_port(&self, any_port: bool, dst_port: u16) -> (b: bool)
        ensures
            b == self.covers_port(any_port, dst_port),
    {
        self.port == dst_port || (any_port && self.port == 0)
    }
}

/// Why a socket could not be bound.
#[derive(Debug, Clone, Copy, PartialEq, Eq, Structural)]
pub enum BindError {
    /// The socket is bound already.
    InvalidState,
    /// The port is zero and the socket does not take any port.
    Unaddressable,
}

/// A UDP socket.
#[derive(Debug, Clone, Copy, PartialEq, Eq)]
pub struct Socket {
    /// Where the socket is bound, if it is.
    pub endpoint: Option<ListenEndpoint>,
    /// Whether binding to port zero makes the socket take every port.
    pub any_port: bool,
}

impl Socket {
    /// Whether the socket is bound.
    pub open spec fn open(self) -> bool {
        self.endpoint is Some
    }

    /// Whether the socket accepts a datagram with header `repr` that `ip`
    /// carried: it is bound, and the datagram's destination reaches the
    /// bound address and port.
    pub open spec fn accepts_spec(self, ip: IpRepr, repr: UdpRepr) -> bool {
        self.endpoint matches Some(endpoint) && endpoint.covers_port(self.any_port, repr.dst_port)
            && endpoint.covers_addr(ip.dst())
    }

    /// An unbound socket that takes no wildcard port.
    pub fn new() -> (socket: Socket)
        ensures
            socket == (Socket { endpoint: None, any_port: false }),
    {
        Socket { endpoint: None, any_port: false }
    }

    /// Sets whether a bind to port zero takes every port.
    pub fn set_any_port(&mut self, any_port: bool)
        ensures
            *final(self) == (Socket { any_port, ..*old(self) }),
    {
        self.any_port = any_port;
    }

    /// Queries whether the socket is bound.
    pub fn is_open(&self) -> (b: bool)
        ensures
            b == self.open(),
    {
        self.endpoint.is_some()
    }

    /// Binds the socket. Fails with `InvalidState` on a bound socket, and
    /// with `Unaddressable` for port zero on a socket that does not take any
    /// port; the socket is then unchanged.
    pub fn bind(&mut self, endpoint: ListenEndpoint) -> (r: Result<(), BindError>)
        ensures
            old(self).open() ==> r == Err::<(), BindError>(BindError::InvalidState),
            !old(self).open() && endpoint.port == 0 && !old(self).any_port ==> r == Err::<
                (),
                BindError,
            >(BindError::Unaddressable),
            !old(self).open() && (endpoint.port != 0 || old(self).any_port) ==> r is Ok,
            r is Ok ==> *final(self) == (Socket { endpoint: Some(endpoint), ..*old(self) }),
            r is Err ==> *final(self) == *old(self),
    {
        if self.endpoint.is_some() {
            return Err(BindError::InvalidState);
        }
        if endpoint.port == 0 && !self.any_port {
            return Err(BindError::Unaddressable);
        }
        self.endpoint = Some(endpoint);
        Ok(())
    }

    /// Unbinds the socket.
    pub fn close(&mut self)
        ensures
            *final(self) == (Socket { endpoint: None, ..*old(self) }),
    {
        self.endpoint = None;
    }

    /// Tests whether the socket accepts the datagram.
    pub fn accepts(&self, ip: &IpRepr, repr: &UdpRepr) -> (b: bool)
        ensures
            b == self.accepts_spec(*ip, *repr),
    {
        match self.endpoint {
            None => false,
            Some(endpoint) => endpoint.accepts_port(self.any_port, repr.dst_port)
                && endpoint.accepts_addr(ip.dst_addr()),
        }
    }
}

} // verus!
