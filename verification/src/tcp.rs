//! The TCP socket, as far as the registry and dispatch know it: its
//! connection state, where it listens or is connected, and which segments it
//! accepts. The protocol step itself is the caller's.

use vstd::prelude::*;
use crate::udp::ListenEndpoint;
use crate::wire::{IpAddress, IpRepr, TcpRepr};

verus! {

/// The state of the TCP state machine.
#[derive(Debug, Clone, Copy, PartialEq, Eq, Structural)]
pub enum State {
    Closed,
    Listen,
    SynSent,
    SynReceived,
    Established,
    FinWait1,
    FinWait2,
    CloseWait,
    Closing,
    LastAck,
    TimeWait,
}

/// An address and a port.
#[derive(Debug, Clone, Copy, PartialEq, Eq, Structural)]
pub struct Endpoint {
    pub addr: IpAddress,
    pub port: u16,
}

/// The two ends of a connection.
#[derive(Debug, Clone, Copy, PartialEq, Eq, Structural)]
pub struct Tuple {
    pub local: Endpoint,
    pub remote: Endpoint,
}

impl Tuple {
    /// Whether a segment with header `repr` that `ip` carried runs from the
    /// remote end of this connection to its local end.
    pub open spec fn matches_segment(self, ip: IpRepr, repr: TcpRepr) -> bool {
        &&& ip.dst() == self.local.addr
        &&& repr.dst_port == self.local.port
        &&& ip.src() == self.remote.addr
        &&& repr.src_port == self.remote.port
    }
}

/// Why a socket could not start to listen.
#[derive(Debug, Clone, Copy, PartialEq, Eq, Structural)]
pub enum ListenError {
    /// The socket is open already.
    InvalidState,
    /// The port is zero and the socket does not take any port.
    Unaddressable,
}

/// A TCP socket.
#[derive(Debug, Clone, Copy, PartialEq, Eq)]
pub struct Socket {
    pub state: State,
    /// Where the socket listens. Read only while no connection is set.
    pub listen_endpoint: ListenEndpoint,
    /// The connection, once the socket has one.
    pub tuple: Option<Tuple>,
    /// Whether listening on port zero makes the socket take every port.
    pub any_port: bool,
}

impl Socket {
    /// Whether the socket is anything but closed.
    pub open spec fn open(self) -> bool {
        self.state != State::Closed
    }

    /// Whether the socket has, or is about to have, a connection.
    pub open spec fn active(self) -> bool {
        self.state != State::Closed && self.state != State::TimeWait && self.state
            != State::Listen
    }

    /// Whether the socket accepts a segment with header `repr` that `ip`
    /// carried. A closed socket accepts nothing, and a listening one no
    /// segment with an ACK. A socket with a connection accepts exactly the
    /// segments of that connection. One without accepts what reaches its
    /// listen address and port, from any remote end.
    pub open spec fn accepts_spec(self, ip: IpRepr, repr: TcpRepr) -> bool {
        if self.state == State::Closed {
            false
        } else if self.state == State::Listen && repr.ack_number is Some {
            false
        } else if let Some(tuple) = self.tuple {
            tuple.matches_segment(ip, repr)
        } else {
            &&& self.listen_endpoint.covers_addr(ip.dst())
            &&& repr.dst_port != 0
            &&& self.listen_endpoint.covers_port(self.any_port, repr.dst_port)
        }
    }

    /// A closed socket.
    pub open spec fn closed(any_port: bool) -> Socket {
        Socket {
            state: State::Closed,
            listen_endpoint: ListenEndpoint { addr: None, port: 0 },
            tuple: None,
            any_port,
        }
    }

    /// A closed socket that takes no wildcard port.
    pub fn new() -> (socket: Socket)
        ensures
            socket == Socket::closed(false),
    {
        Socket {
            state: State::Closed,
            listen_endpoint: ListenEndpoint { addr: None, port: 0 },
            tuple: None,
            any_port: false,
        }
    }

    /// Sets whether listening on port zero takes every port.
    pub fn set_any_port(&mut self, any_port: bool)
        ensures
            *final(self) == (Socket { any_port, ..*old(self) }),
    {
        self.any_port = any_port;
    }

    /// The state of the socket.
    pub fn state(&self) -> (state: State)
        ensures
            state == self.state,
    {
        self.state
    }

    /// Queries whether the socket is open.
    pub fn is_open(&self) -> (b: bool)
        ensures
            b == self.open(),
    {
        self.state != State::Closed
    }

    /// Queries whether the socket is listening.
    pub fn is_listening(&self) -> (b: bool)
        ensures
            b == (self.state == State::Listen),
    {
        self.state == State::Listen
    }

    /// Queries whether the socket has, or is about to have, a connection.
    pub fn is_active(&self) -> (b: bool)
        ensures
            b == self.active(),
    {
        self.state != State::Closed && self.state != State::TimeWait && self.state
            != State::Listen
    }

    /// Starts to listen. Fails with `Unaddressable` for port zero on a
    /// socket that does not take any port, and with `InvalidState` on an
    /// open socket; the socket is then unchanged.
    pub fn listen(&mut self, endpoint: ListenEndpoint) -> (r: Result<(), ListenError>)
        ensures
            endpoint.port == 0 && !old(self).any_port ==> r == Err::<(), ListenError>(
                ListenError::Unaddressable,
            ),
            (endpoint.port != 0 || old(self).any_port) && old(self).open() ==> r == Err::<
                (),
                ListenError,
            >(ListenError::InvalidState),
            (endpoint.port != 0 || old(self).any_port) && !old(self).open() ==> r is Ok,
            r is Ok ==> *final(self) == (Socket {
                state: State::Listen,
                listen_endpoint: endpoint,
                tuple: None,
                any_port: old(self).any_port,
            }),
            r is Err ==> *final(self) == *old(self),
    {
        if endpoint.port == 0 && !self.any_port {
            return Err(ListenError::Unaddressable);
        }
        if self.state != State::Closed {
            return Err(ListenError::InvalidState);
        }
        self.listen_endpoint = endpoint;
        self.tuple = None;
        self.state = State::Listen;
        Ok(())
    }

    /// Puts the socket on a connection, in the given state.
    pub fn connect(&mut self, state: State, tuple: Tuple)
        ensures
            *final(self) == (Socket { state, tuple: Some(tuple), ..*old(self) }),
    {
        self.state = state;
        self.tuple = Some(tuple);
    }

    /// Closes the socket at once and forgets where it listened and what it
    /// was connected to.
    pub fn abort(&mut self)
        ensures
            *final(self) == Socket::closed(old(self).any_port),
    {
        self.state = State::Closed;
        self.listen_endpoint = ListenEndpoint { addr: None, port: 0 };
        self.tuple = None;
    }

    /// Tests whether the socket accepts the segment.
    pub fn accepts(&self, ip: &IpRepr, repr: &TcpRepr) -> (b: bool)
        ensures
            b == self.accepts_spec(*ip, *repr),
    {
        if self.state == State::Closed {
            return false;
        }
        if self.state == State::Listen && repr.ack_number.is_some() {
            return false;
        }
        match self.tuple {
            Some(tuple) => ip.dst_addr() == tuple.local.addr && repr.dst_port == tuple.local.port
                && ip.src_addr() == tuple.remote.addr && repr.src_port == tuple.remote.port,
            None => self.listen_endpoint.accepts_addr(ip.dst_addr()) && repr.dst_port != 0
                && self.listen_endpoint.accepts_port(self.any_port, repr.dst_port),
        }
    }
}

} // verus!
