//! The reader/writer lock of a socket cell, and what the library trusts of
//! it.
//!
//! Nothing here is proved: each function states what the lock's source
//! shows. What a guard protects, and which lock it was taken from, are named
//! by spec functions of the guard. A lock has a name for the socket it was
//! made with and one for the socket it gives up when it is taken apart,
//! and none for what it holds in between: a lock is read and written
//! through shared references, so two reads of one lock may differ.

use vstd::prelude::*;
use spin::relax::Spin;
use spin::rwlock::{RwLock, RwLockReadGuard, RwLockUpgradableGuard, RwLockWriteGuard};
use crate::socket::Socket;

verus! {

#[verifier::external_type_specification]
#[verifier::external_body]
pub struct ExSpin(Spin);

#[verifier::external_type_specification]
#[verifier::external_body]
#[verifier::reject_recursive_types(T)]
#[verifier::reject_recursive_types(R)]
pub struct ExRwLock<T: ?Sized, R>(RwLock<T, R>);

#[verifier::external_type_specification]
#[verifier::external_body]
#[verifier::reject_recursive_types(T)]
pub struct ExRwLockReadGuard<'a, T: ?Sized>(RwLockReadGuard<'a, T>);

#[verifier::external_type_specification]
#[verifier::external_body]
#[verifier::reject_recursive_types(T)]
#[verifier::reject_recursive_types(R)]
pub struct ExRwLockWriteGuard<'a, T: 'a + ?Sized, R>(RwLockWriteGuard<'a, T, R>);

#[verifier::external_type_specification]
#[verifier::external_body]
#[verifier::reject_recursive_types(T)]
#[verifier::reject_recursive_types(R)]
pub struct ExRwLockUpgradableGuard<'a, T: 'a + ?Sized, R>(RwLockUpgradableGuard<'a, T, R>);

/// The socket that a read guard gives access to.
pub uninterp spec fn read_guarded(guard: RwLockReadGuard<'_, Socket>) -> Socket;

/// The socket that a write guard gives access to.
pub uninterp spec fn write_guarded(guard: RwLockWriteGuard<'_, Socket, Spin>) -> Socket;

/// The socket that an upgradable read guard gives access to.
pub uninterp spec fn upgradable_guarded(guard: RwLockUpgradableGuard<'_, Socket, Spin>) -> Socket;

/// The lock that a read guard was taken from.
pub uninterp spec fn read_guard_lock(guard: RwLockReadGuard<'_, Socket>) -> RwLock<Socket, Spin>;

/// The lock that a write guard was taken from.
pub uninterp spec fn write_guard_lock(guard: RwLockWriteGuard<'_, Socket, Spin>) -> RwLock<Socket, Spin>;

/// The lock that an upgradable read guard was taken from.
pub uninterp spec fn upgradable_guard_lock(guard: RwLockUpgradableGuard<'_, Socket, Spin>) -> RwLock<Socket, Spin>;

/// The socket that a lock was made with. It says nothing of what the lock
/// holds later.
pub uninterp spec fn lock_made_with(lock: RwLock<Socket, Spin>) -> Socket;

/// The socket that a lock gives up when it is taken apart. A lock is taken
/// apart once, so this is a function of the lock.
pub uninterp spec fn lock_taken(lock: RwLock<Socket, Spin>) -> Socket;

/// Whether `lock` may hold `socket`: it was made with it, or some write
/// guard on it shows it. What a lock holds at any time is such a socket:
/// nothing but a write guard changes it.
pub open spec fn lock_may_hold(lock: RwLock<Socket, Spin>, socket: Socket) -> bool {
    socket == lock_made_with(lock) || exists|writer: RwLockWriteGuard<'_, Socket, Spin>|
        write_guard_lock(writer) == lock && #[trigger] write_guarded(writer) == socket
}

/// `RwLock::new`: a lock around `socket`.
#[verifier::external_body]
pub(crate) fn lock_new(socket: Socket) -> (lock: RwLock<Socket, Spin>)
    ensures
        lock_made_with(lock) == socket,
{
    RwLock::new(socket)
}

/// `RwLock::into_inner`: consumes the lock and returns what it holds at
/// that time: the socket it was made with, or, once it was written to, the
/// socket that a write guard on it showed last.
#[verifier::external_body]
pub(crate) fn lock_into_inner(lock: RwLock<Socket, Spin>) -> (socket: Socket)
    ensures
        socket == lock_taken(lock),
        lock_may_hold(lock, socket),
{
    lock.into_inner()
}

/// `RwLock::read`: spins until no writer and no upgradable reader holds the
/// lock, then returns a read guard on this lock. The guard shows the
/// socket that the lock was made with, or one that a write guard on it
/// showed. The call does not return while the caller itself holds the lock
/// for writing or upgradable reading, and panics only once the count of
/// readers nears the width of `usize`.
#[verifier::external_body]
pub(crate) fn lock_read<'a>(lock: &'a RwLock<Socket, Spin>) -> (guard: RwLockReadGuard<
    'a,
    Socket,
>)
    ensures
        read_guard_lock(guard) == *lock,
        lock_may_hold(*lock, read_guarded(guard)),
{
    lock.read()
}

/// `RwLock::write`: spins until nobody holds the lock, then returns a
/// write guard on this lock. Nothing is promised of what the guard shows.
/// The call does not return while the caller itself holds a guard of the
/// lock.
#[verifier::external_body]
pub(crate) fn lock_write<'a>(lock: &'a RwLock<Socket, Spin>) -> (guard: RwLockWriteGuard<
    'a,
    Socket,
    Spin,
>)
    ensures
        write_guard_lock(guard) == *lock,
{
    lock.write()
}

/// `RwLock::upgradeable_read`: spins until no writer and no other
/// upgradable reader holds the lock, then returns an upgradable read guard
/// on this lock. Readers that hold the lock already stay; new ones wait.
/// The guard shows the socket that the lock was made with, or one that a
/// write guard on it showed. The call does not return while the caller
/// itself holds the lock for writing or upgradable reading.
#[verifier::external_body]
pub(crate) fn lock_upgradable_read<'a>(lock: &'a RwLock<Socket, Spin>) -> (guard:
    RwLockUpgradableGuard<'a, Socket, Spin>)
    ensures
        upgradable_guard_lock(guard) == *lock,
        lock_may_hold(*lock, upgradable_guarded(guard)),
{
    lock.upgradeable_read()
}

/// `RwLock::try_read`: a read guard on this lock, or `None` where the lock
/// is held for writing or upgradable reading at this time. A guard that
/// comes back shows the socket that the lock was made with, or one that a
/// write guard on it showed. Never waits.
#[verifier::external_body]
pub(crate) fn lock_try_read<'a>(lock: &'a RwLock<Socket, Spin>) -> (guard: Option<
    RwLockReadGuard<'a, Socket>,
>)
    ensures
        guard matches Some(g) ==> read_guard_lock(g) == *lock && lock_may_hold(
            *lock,
            read_guarded(g),
        ),
{
    lock.try_read()
}

/// `RwLock::try_write`: a write guard on this lock, or `None` where the
/// lock is held at this time. Never waits.
#[verifier::external_body]
pub(crate) fn lock_try_write<'a>(lock: &'a RwLock<Socket, Spin>) -> (guard: Option<
    RwLockWriteGuard<'a, Socket, Spin>,
>)
    ensures
        guard matches Some(g) ==> write_guard_lock(g) == *lock,
{
    lock.try_write()
}

/// `RwLock::try_upgradeable_read`: an upgradable read guard on this lock,
/// or `None` where the lock is held for writing or upgradable reading at
/// this time. A guard that comes back shows the socket that the lock was
/// made with, or one that a write guard on it showed. Never waits.
#[verifier::external_body]
pub(crate) fn lock_try_upgradable_read<'a>(lock: &'a RwLock<Socket, Spin>) -> (guard: Option<
    RwLockUpgradableGuard<'a, Socket, Spin>,
>)
    ensures
        guard matches Some(g) ==> upgradable_guard_lock(g) == *lock && lock_may_hold(
            *lock,
            upgradable_guarded(g),
        ),
{
    lock.try_upgradeable_read()
}

/// `Deref` of a read guard: a reference to the guarded socket.
#[verifier::external_body]
pub(crate) fn read_guard_get<'g>(guard: &'g RwLockReadGuard<'_, Socket>) -> (socket: &'g Socket)
    ensures
        *socket == read_guarded(*guard),
{
    &**guard
}

/// `Deref` of a write guard: a reference to the guarded socket.
#[verifier::external_body]
pub(crate) fn write_guard_get<'g>(guard: &'g RwLockWriteGuard<'_, Socket, Spin>) -> (socket:
    &'g Socket)
    ensures
        *socket == write_guarded(*guard),
{
    &**guard
}

/// `DerefMut` of a write guard, assigned to: the guard then protects
/// `socket`, on the lock it was on. Neither the dereference nor the
/// assignment can panic.
#[verifier::external_body]
pub(crate) fn write_guard_set(guard: &mut RwLockWriteGuard<'_, Socket, Spin>, socket: Socket)
    ensures
        write_guarded(*final(guard)) == socket,
        write_guard_lock(*final(guard)) == write_guard_lock(*old(guard)),
    no_unwind
{
    **guard = socket;
}

/// `Deref` of an upgradable read guard: a reference to the guarded socket.
#[verifier::external_body]
pub(crate) fn upgradable_guard_get<'g>(
    guard: &'g RwLockUpgradableGuard<'_, Socket, Spin>,
) -> (socket: &'g Socket)
    ensures
        *socket == upgradable_guarded(*guard),
{
    &**guard
}

/// `RwLockUpgradableGuard::upgrade`: spins until the last reader has left,
/// then turns the guard into a write guard on the same lock. No writer can
/// come between, so the write guard protects the socket that the
/// upgradable guard showed.
/// The call does not return while the caller itself holds a read guard of
/// the lock.
#[verifier::external_body]
pub(crate) fn upgradable_guard_upgrade<'a>(
    guard: RwLockUpgradableGuard<'a, Socket, Spin>,
) -> (upgraded: RwLockWriteGuard<'a, Socket, Spin>)
    ensures
        write_guarded(upgraded) == upgradable_guarded(guard),
        write_guard_lock(upgraded) == upgradable_guard_lock(guard),
{
    guard.upgrade()
}

/// `RwLockUpgradableGuard::downgrade`: turns the guard into a read guard
/// on the same lock without letting go of it, so the read guard shows the
/// socket that the upgradable guard showed. Never waits.
#[verifier::external_body]
pub(crate) fn upgradable_guard_downgrade<'a>(
    guard: RwLockUpgradableGuard<'a, Socket, Spin>,
) -> (downgraded: RwLockReadGuard<'a, Socket>)
    ensures
        read_guarded(downgraded) == upgradable_guarded(guard),
        read_guard_lock(downgraded) == upgradable_guard_lock(guard),
{
    guard.downgrade()
}

} // verus!
