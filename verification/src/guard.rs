//! Guards over a locked socket: the two-way guard that a test-then-lock
//! access returns, and guards narrowed to one concrete kind of socket.

use vstd::prelude::*;
use core::marker::PhantomData;
use spin::relax::Spin;
use spin::rwlock::{RwLockReadGuard, RwLockUpgradableGuard, RwLockWriteGuard};
use crate::lock::{
    read_guard_get, read_guard_lock, read_guarded, upgradable_guard_downgrade,
    upgradable_guard_get, upgradable_guard_lock, upgradable_guard_upgrade, upgradable_guarded,
    write_guard_get, write_guard_lock, write_guard_set, write_guarded,
};
use spin::rwlock::RwLock;
use crate::socket::{AnySocket, Socket, SocketError};

verus! {

/// Shared or exclusive access to what a lock holds.
#[verifier::reject_recursive_types(T)]
pub enum RwLockGuard<'a, T> {
    Read(RwLockReadGuard<'a, T>),
    Write(RwLockWriteGuard<'a, T, Spin>),
}

impl<'a, T> RwLockGuard<'a, T> {
    /// The read guard, if this is one.
    pub fn read(self) -> (guard: Option<RwLockReadGuard<'a, T>>)
        ensures
            guard == match self {
                RwLockGuard::Read(g) => Some(g),
                RwLockGuard::Write(_) => None,
            },
    {
        match self {
            RwLockGuard::Read(ret) => Some(ret),
            RwLockGuard::Write(_) => None,
        }
    }

    /// The write guard, if this is one.
    pub fn write(self) -> (guard: Option<RwLockWriteGuard<'a, T, Spin>>)
        ensures
            guard == match self {
                RwLockGuard::Read(_) => None,
                RwLockGuard::Write(g) => Some(g),
            },
    {
        match self {
            RwLockGuard::Read(_) => None,
            RwLockGuard::Write(ret) => Some(ret),
        }
    }
}

impl<'a> RwLockGuard<'a, Socket> {
    /// The socket that the guard gives access to.
    pub open spec fn guarded(self) -> Socket {
        match self {
            RwLockGuard::Read(g) => read_guarded(g),
            RwLockGuard::Write(g) => write_guarded(g),
        }
    }

    /// The lock that the guard is on.
    pub open spec fn lock(self) -> RwLock<Socket, Spin> {
        match self {
            RwLockGuard::Read(g) => read_guard_lock(g),
            RwLockGuard::Write(g) => write_guard_lock(g),
        }
    }

    /// Gives up the chance to write: the upgradable guard becomes a read
    /// guard over the same socket, on the same lock.
    pub fn downgrade(guard: RwLockUpgradableGuard<'a, Socket, Spin>) -> (downgraded: Self)
        ensures
            downgraded is Read,
            downgraded.guarded() == upgradable_guarded(guard),
            downgraded.lock() == upgradable_guard_lock(guard),
    {
        RwLockGuard::Read(upgradable_guard_downgrade(guard))
    }

    /// Takes exclusive access: the upgradable guard becomes a write guard
    /// over the same socket, on the same lock.
    pub fn upgrade(guard: RwLockUpgradableGuard<'a, Socket, Spin>) -> (upgraded: Self)
        ensures
            upgraded is Write,
            upgraded.guarded() == upgradable_guarded(guard),
            upgraded.lock() == upgradable_guard_lock(guard),
    {
        RwLockGuard::Write(upgradable_guard_upgrade(guard))
    }

    /// Tests the guarded socket with `f`, and takes exclusive access only
    /// where `f` says so. The guard returned protects the very socket that
    /// `f` saw: the lock is not let go in between.
    pub fn with<F: FnOnce(&Socket) -> bool>(
        guard: RwLockUpgradableGuard<'a, Socket, Spin>,
        f: F,
    ) -> (decided: Self)
        requires
            call_requires(f, (&upgradable_guarded(guard),)),
        ensures
            decided.guarded() == upgradable_guarded(guard),
            decided.lock() == upgradable_guard_lock(guard),
            call_ensures(f, (&upgradable_guarded(guard),), decided is Write),
    {
        if f(upgradable_guard_get(&guard)) {
            RwLockGuard::upgrade(guard)
        } else {
            RwLockGuard::downgrade(guard)
        }
    }

    /// The socket that the guard gives access to.
    pub fn get(&self) -> (socket: &Socket)
        ensures
            *socket == self.guarded(),
    {
        match self {
            RwLockGuard::Read(g) => read_guard_get(g),
            RwLockGuard::Write(g) => write_guard_get(g),
        }
    }
}

/// Shared access to a locked socket, narrowed to its concrete kind `T`.
#[verifier::reject_recursive_types(T)]
pub struct MappedRwLockReadGuard<'a, T: AnySocket> {
    guard: RwLockReadGuard<'a, Socket>,
    kind: PhantomData<T>,
}

impl<'a, T: AnySocket> MappedRwLockReadGuard<'a, T> {
    #[verifier::type_invariant]
    spec fn holds_kind(self) -> bool {
        T::down(read_guarded(self.guard)) is Some
    }

    /// The socket that the guard gives access to.
    pub closed spec fn guarded(self) -> T {
        T::down(read_guarded(self.guard))->0
    }

    /// The socket variant behind the guard.
    pub closed spec fn variant(self) -> Socket {
        read_guarded(self.guard)
    }

    /// The lock that the guard is on.
    pub closed spec fn lock(self) -> RwLock<Socket, Spin> {
        read_guard_lock(self.guard)
    }

    /// Narrows a read guard to kind `T`, or lets go of it with
    /// `WrongSocketType` where it guards a socket of another kind.
    pub fn try_new(guard: RwLockReadGuard<'a, Socket>) -> (mapped: Result<Self, SocketError>)
        ensures
            mapped is Ok <==> read_guarded(guard).holds::<T>(),
            mapped is Err ==> mapped == Err::<Self, SocketError>(SocketError::WrongSocketType),
            mapped matches Ok(m) ==> m.variant() == read_guarded(guard) && Some(m.guarded())
                == T::down(read_guarded(guard)) && m.lock() == read_guard_lock(guard),
    {
        if read_guard_get(&guard).has_type::<T>() {
            Ok(MappedRwLockReadGuard::new(guard))
        } else {
            Err(SocketError::WrongSocketType)
        }
    }

    /// Narrows a read guard over a socket of kind `T`.
    pub fn new(guard: RwLockReadGuard<'a, Socket>) -> (mapped: Self)
        requires
            T::down(read_guarded(guard)) is Some,
        ensures
            mapped.variant() == read_guarded(guard),
            mapped.lock() == read_guard_lock(guard),
            Some(mapped.guarded()) == T::down(read_guarded(guard)),
    {
        MappedRwLockReadGuard { guard, kind: PhantomData }
    }

    /// The socket that the guard gives access to.
    pub fn get(&self) -> (socket: &T)
        ensures
            *socket == self.guarded(),
            socket.up() == self.variant(),
    {
        proof {
            use_type_invariant(self);
            T::lemma_conversion(read_guarded(self.guard));
        }
        T::downcast(read_guard_get(&self.guard)).unwrap()
    }
}

/// Exclusive access to a locked socket, narrowed to its concrete kind `T`.
#[verifier::reject_recursive_types(T)]
pub struct MappedRwLockWriteGuard<'a, T: AnySocket> {
    guard: RwLockWriteGuard<'a, Socket, Spin>,
    kind: PhantomData<T>,
}

impl<'a, T: AnySocket> MappedRwLockWriteGuard<'a, T> {
    #[verifier::type_invariant]
    spec fn holds_kind(self) -> bool {
        T::down(write_guarded(self.guard)) is Some
    }

    /// The socket that the guard gives access to.
    pub closed spec fn guarded(self) -> T {
        T::down(write_guarded(self.guard))->0
    }

    /// The socket variant behind the guard.
    pub closed spec fn variant(self) -> Socket {
        write_guarded(self.guard)
    }

    /// The lock that the guard is on.
    pub closed spec fn lock(self) -> RwLock<Socket, Spin> {
        write_guard_lock(self.guard)
    }

    /// Narrows a write guard to kind `T`, or lets go of it with
    /// `WrongSocketType` where it guards a socket of another kind.
    pub fn try_new(guard: RwLockWriteGuard<'a, Socket, Spin>) -> (mapped: Result<
        Self,
        SocketError,
    >)
        ensures
            mapped is Ok <==> write_guarded(guard).holds::<T>(),
            mapped is Err ==> mapped == Err::<Self, SocketError>(SocketError::WrongSocketType),
            mapped matches Ok(m) ==> m.variant() == write_guarded(guard) && Some(m.guarded())
                == T::down(write_guarded(guard)) && m.lock() == write_guard_lock(guard),
    {
        if write_guard_get(&guard).has_type::<T>() {
            Ok(MappedRwLockWriteGuard::new(guard))
        } else {
            Err(SocketError::WrongSocketType)
        }
    }

    /// Narrows a write guard over a socket of kind `T`.
    pub fn new(guard: RwLockWriteGuard<'a, Socket, Spin>) -> (mapped: Self)
        requires
            T::down(write_guarded(guard)) is Some,
        ensures
            mapped.variant() == write_guarded(guard),
            mapped.lock() == write_guard_lock(guard),
            Some(mapped.guarded()) == T::down(write_guarded(guard)),
    {
        MappedRwLockWriteGuard { guard, kind: PhantomData }
    }

    /// The socket that the guard gives access to.
    pub fn get(&self) -> (socket: &T)
        ensures
            *socket == self.guarded(),
            socket.up() == self.variant(),
    {
        proof {
            use_type_invariant(self);
            T::lemma_conversion(write_guarded(self.guard));
        }
        T::downcast(write_guard_get(&self.guard)).unwrap()
    }

    /// Puts `socket` in place of the guarded socket. The kind cannot
    /// change: the new socket is of type `T` too. A write guard on the
    /// lock now shows the new socket.
    pub fn set(&mut self, socket: T)
        ensures
            final(self).guarded() == socket,
            final(self).variant() == socket.up(),
            final(self).lock() == old(self).lock(),
            exists|guard: RwLockWriteGuard<'_, Socket, Spin>|
                write_guard_lock(guard) == old(self).lock() && #[trigger] write_guarded(guard)
                    == socket.up(),
    {
        proof {
            T::lemma_conversion(socket.up());
        }
        write_guard_set(&mut self.guard, socket.upcast());
    }
}

/// Shared or exclusive access to a locked socket of the concrete kind `T`.
#[verifier::reject_recursive_types(T)]
pub enum MappedRwLockGuard<'a, T: AnySocket> {
    Read(MappedRwLockReadGuard<'a, T>),
    Write(MappedRwLockWriteGuard<'a, T>),
}

impl<'a, T: AnySocket> MappedRwLockGuard<'a, T> {
    /// The socket that the guard gives access to.
    pub open spec fn guarded(self) -> T {
        match self {
            MappedRwLockGuard::Read(g) => g.guarded(),
            MappedRwLockGuard::Write(g) => g.guarded(),
        }
    }

    /// The lock that the guard is on.
    pub open spec fn lock(self) -> RwLock<Socket, Spin> {
        match self {
            MappedRwLockGuard::Read(g) => g.lock(),
            MappedRwLockGuard::Write(g) => g.lock(),
        }
    }

    /// The read guard, if this is one.
    pub fn read(self) -> (guard: Option<MappedRwLockReadGuard<'a, T>>)
        ensures
            guard == match self {
                MappedRwLockGuard::Read(g) => Some(g),
                MappedRwLockGuard::Write(_) => None,
            },
    {
        match self {
            MappedRwLockGuard::Read(ret) => Some(ret),
            MappedRwLockGuard::Write(_) => None,
        }
    }

    /// The write guard, if this is one.
    pub fn write(self) -> (guard: Option<MappedRwLockWriteGuard<'a, T>>)
        ensures
            guard == match self {
                MappedRwLockGuard::Read(_) => None,
                MappedRwLockGuard::Write(g) => Some(g),
            },
    {
        match self {
            MappedRwLockGuard::Read(_) => None,
            MappedRwLockGuard::Write(ret) => Some(ret),
        }
    }

    /// Tests the guarded socket with `f`, if it is of kind `T`, and takes
    /// exclusive access only where `f` says so. The guard returned protects
    /// the very socket that `f` saw. A socket of another kind is let go of
    /// unseen, with `WrongSocketType`.
    pub fn with<F: FnOnce(&T) -> bool>(
        guard: RwLockUpgradableGuard<'a, Socket, Spin>,
        f: F,
    ) -> (decided: Result<Self, SocketError>)
        requires
            forall|socket: T| call_requires(f, (&socket,)),
        ensures
            decided is Ok <==> upgradable_guarded(guard).holds::<T>(),
            decided is Err ==> decided == Err::<Self, SocketError>(SocketError::WrongSocketType),
            decided matches Ok(g) ==> Some(g.guarded()) == T::down(upgradable_guarded(guard))
                && g.lock() == upgradable_guard_lock(guard) && call_ensures(
                f,
                (&g.guarded(),),
                g is Write,
            ),
    {
        let write: bool = match T::downcast(upgradable_guard_get(&guard)) {
            Some(socket) => f(socket),
            None => {
                return Err(SocketError::WrongSocketType);
            },
        };
        if write {
            Ok(MappedRwLockGuard::upgrade(guard))
        } else {
            Ok(MappedRwLockGuard::downgrade(guard))
        }
    }

    /// Gives up the chance to write: the upgradable guard becomes a read
    /// guard, narrowed to `T`, over the same socket.
    pub fn downgrade(guard: RwLockUpgradableGuard<'a, Socket, Spin>) -> (downgraded: Self)
        requires
            T::down(upgradable_guarded(guard)) is Some,
        ensures
            downgraded is Read,
            downgraded.lock() == upgradable_guard_lock(guard),
            Some(downgraded.guarded()) == T::down(upgradable_guarded(guard)),
    {
        MappedRwLockGuard::Read(MappedRwLockReadGuard::new(upgradable_guard_downgrade(guard)))
    }

    /// Takes exclusive access: the upgradable guard becomes a write guard,
    /// narrowed to `T`, over the same socket.
    pub fn upgrade(guard: RwLockUpgradableGuard<'a, Socket, Spin>) -> (upgraded: Self)
        requires
            T::down(upgradable_guarded(guard)) is Some,
        ensures
            upgraded is Write,
            upgraded.lock() == upgradable_guard_lock(guard),
            Some(upgraded.guarded()) == T::down(upgradable_guarded(guard)),
    {
        MappedRwLockGuard::Write(MappedRwLockWriteGuard::new(upgradable_guard_upgrade(guard)))
    }

    /// The socket that the guard gives access to.
    pub fn get(&self) -> (socket: &T)
        ensures
            *socket == self.guarded(),
    {
        match self {
            MappedRwLockGuard::Read(g) => g.get(),
            MappedRwLockGuard::Write(g) => g.get(),
        }
    }
}

} // verus!
