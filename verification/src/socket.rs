//! The socket variant: one value that holds a socket of any kind, with
//! checked conversion to and from each concrete kind.

use vstd::prelude::*;
use crate::tcp;
use crate::udp;

verus! {

/// The kind of a socket.
#[derive(Debug, Clone, Copy, PartialEq, Eq, Structural, Hash)]
pub enum SocketKind {
    Udp,
    Tcp,
}

/// Why a socket could not be reached through a handle.
#[derive(Debug, Clone, Copy, PartialEq, Eq, Structural)]
pub enum SocketError {
    /// The handle refers to no socket: its slot is free or out of range.
    InvalidHandle,
    /// The handle refers to a socket of another kind than the one asked
    /// for.
    WrongSocketType,
}

/// A network socket of any kind.
#[derive(Debug, Clone, Copy, PartialEq, Eq)]
pub enum Socket {
    Udp(udp::Socket),
    Tcp(tcp::Socket),
}

impl Socket {
    /// The kind of socket held.
    pub open spec fn kind_spec(self) -> SocketKind {
        match self {
            Socket::Udp(_) => SocketKind::Udp,
            Socket::Tcp(_) => SocketKind::Tcp,
        }
    }

    /// Whether the variant holds a socket of type `T`.
    pub open spec fn holds<T: AnySocket>(self) -> bool {
        T::down(self) is Some
    }

    /// Tests whether the variant holds a socket of type `T`.
    pub fn has_type<T: AnySocket>(&self) -> (b: bool)
        ensures
            b == self.holds::<T>(),
            b == (self.kind_spec() == T::kind_of()),
    {
        proof {
            T::lemma_conversion(*self);
        }
        T::downcast(self).is_some()
    }

    /// The kind of socket held.
    pub fn kind(&self) -> (kind: SocketKind)
        ensures
            kind == self.kind_spec(),
    {
        match self {
            Socket::Udp(_) => SocketKind::Udp,
            Socket::Tcp(_) => SocketKind::Tcp,
        }
    }
}

/// A concrete kind of socket, convertible to and from the variant.
pub trait AnySocket: Sized {
    /// The kind tag of this type of socket.
    spec fn kind_of() -> SocketKind;

    /// The variant that holds `self`.
    spec fn up(self) -> Socket;

    /// The socket of this type that `socket` holds, if it holds one.
    spec fn down(socket: Socket) -> Option<Self>;

    /// Conversion to the variant and back gives the socket again, the
    /// variant has this type's kind, and a variant of this kind holds a
    /// socket of this type.
    proof fn lemma_conversion(socket: Socket)
        ensures
            Self::down(socket) is Some <==> socket.kind_spec() == Self::kind_of(),
            Self::down(socket) matches Some(inner) ==> inner.up() == socket,
            forall|inner: Self| #[trigger] Self::down(inner.up()) == Some(inner),
    ;

    /// Wraps the socket in the variant.
    fn upcast(self) -> (socket: Socket)
        ensures
            socket == self.up(),
    ;

    /// Borrows the socket of this type out of the variant, or `None` where
    /// the variant holds another kind.
    fn downcast(socket: &Socket) -> (inner: Option<&Self>)
        ensures
            inner matches Some(s) ==> Self::down(*socket) == Some(*s),
            inner is None ==> Self::down(*socket) is None,
    ;
}

impl AnySocket for udp::Socket {
    open spec fn kind_of() -> SocketKind {
        SocketKind::Udp
    }

    open spec fn up(self) -> Socket {
        Socket::Udp(self)
    }

    open spec fn down(socket: Socket) -> Option<Self> {
        match socket {
            Socket::Udp(inner) => Some(inner),
            _ => None,
        }
    }

    proof fn lemma_conversion(socket: Socket) {
    }

    fn upcast(self) -> (socket: Socket) {
        Socket::Udp(self)
    }

    fn downcast(socket: &Socket) -> (inner: Option<&Self>) {
        match socket {
            Socket::Udp(inner) => Some(inner),
            _ => None,
        }
    }
}

impl AnySocket for tcp::Socket {
    open spec fn kind_of() -> SocketKind {
        SocketKind::Tcp
    }

    open spec fn up(self) -> Socket {
        Socket::Tcp(self)
    }

    open spec fn down(socket: Socket) -> Option<Self> {
        match socket {
            Socket::Tcp(inner) => Some(inner),
            _ => None,
        }
    }

    proof fn lemma_conversion(socket: Socket) {
    }

    fn upcast(self) -> (socket: Socket) {
        Socket::Tcp(self)
    }

    fn downcast(socket: &Socket) -> (inner: Option<&Self>) {
        match socket {
            Socket::Tcp(inner) => Some(inner),
            _ => None,
        }
    }
}

} // verus!
