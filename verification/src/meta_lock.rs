//! The reader/writer lock of a cell's record, and what the library trusts
//! of it.
//!
//! The record of a cell lies behind a lock of its own, so that reading it
//! never waits for access to the socket. Nothing here is proved: each
//! function states what the lock's source shows, as for the lock of the
//! socket.

use vstd::prelude::*;
use spin::relax::Spin;
use spin::rwlock::{RwLock, RwLockReadGuard, RwLockUpgradableGuard, RwLockWriteGuard};
use crate::storage::Meta;

verus! {

/// The record that a read guard gives access to.
pub uninterp spec fn meta_read_guarded(guard: RwLockReadGuard<'_, Meta>) -> Meta;

/// The record that a write guard gives access to.
pub uninterp spec fn meta_write_guarded(guard: RwLockWriteGuard<'_, Meta, Spin>) -> Meta;

/// The record that an upgradable read guard gives access to.
pub uninterp spec fn meta_upgradable_guarded(guard: RwLockUpgradableGuard<'_, Meta, Spin>) -> Meta;

/// The lock that a read guard was taken from.
pub uninterp spec fn meta_read_guard_lock(guard: RwLockReadGuard<'_, Meta>) -> RwLock<Meta, Spin>;

/// The lock that a write guard was taken from.
pub uninterp spec fn meta_write_guard_lock(guard: RwLockWriteGuard<'_, Meta, Spin>) -> RwLock<Meta, Spin>;

/// The lock that an upgradable read guard was taken from.
pub uninterp spec fn meta_upgradable_guard_lock(guard: RwLockUpgradableGuard<'_, Meta, Spin>) -> RwLock<Meta, Spin>;

/// The record that a lock was made with. It says nothing of what the lock
/// holds later.
pub uninterp spec fn meta_lock_made_with(lock: RwLock<Meta, Spin>) -> Meta;

/// The record that a lock gives up when it is taken apart. A lock is taken
/// apart once, so this is a function of the lock.
pub uninterp spec fn meta_lock_taken(lock: RwLock<Meta, Spin>) -> Meta;

/// Whether `lock` may hold `record`: it was made with it, or some write
/// guard on it shows it. What a lock holds at any time is such a record:
/// nothing but a write guard changes it.
pub open spec fn meta_lock_may_hold(lock: RwLock<Meta, Spin>, record: Meta) -> bool {
    record == meta_lock_made_with(lock) || exists|writer: RwLockWriteGuard<'_, Meta, Spin>|
        meta_write_guard_lock(writer) == lock && #[trigger] meta_write_guarded(writer) == record
}

/// `RwLock::new`: a lock around `record`.
#[verifier::external_body]
pub(crate) fn meta_lock_new(record: Meta) -> (lock: RwLock<Meta, Spin>)
    ensures
        meta_lock_made_with(lock) == record,
{
    RwLock::new(record)
}

/// `RwLock::into_inner`: consumes the lock and returns what it holds at
/// that time: the record it was made with, or, once it was written to, the
/// record that a write guard on it showed last.
#[verifier::external_body]
pub(crate) fn meta_lock_into_inner(lock: RwLock<Meta, Spin>) -> (record: Meta)
    ensures
        record == meta_lock_taken(lock),
        meta_lock_may_hold(lock, record),
{
    lock.into_inner()
}

/// `RwLock::read`: spins until no writer and no upgradable reader holds the
/// lock, then returns a read guard on this lock. The guard shows the
/// record that the lock was made with, or one that a write guard on it
/// showed. The call does not return while the caller itself holds the lock
/// for writing or upgradable reading, and panics only once the count of
/// readers nears the width of `usize`.
#[verifier::external_body]
pub(crate) fn meta_lock_read<'a>(lock: &'a RwLock<Meta, Spin>) -> (guard: RwLockReadGuard<
    'a,
    Meta,
>)
    ensures
        meta_read_guard_lock(guard) == *lock,
        meta_lock_may_hold(*lock, meta_read_guarded(guard)),
{
    lock.read()
}

/// `RwLock::write`: spins until nobody holds the lock, then returns a
/// write guard on this lock. Nothing is promised of what the guard shows.
/// The call does not return while the caller itself holds a guard of the
/// lock.
#[verifier::external_body]
pub(crate) fn meta_lock_write<'a>(lock: &'a RwLock<Meta, Spin>) -> (guard: RwLockWriteGuard<
    'a,
    Meta,
    Spin,
>)
    ensures
        meta_write_guard_lock(guard) == *lock,
{
    lock.write()
}

/// `RwLock::upgradeable_read`: spins until no writer and no other
/// upgradable reader holds the lock, then returns an upgradable read guard
/// on this lock. Readers that hold the lock already stay; new ones wait.
/// The guard shows the record that the lock was made with, or one that a
/// write guard on it showed. The call does not return while the caller
/// itself holds the lock for writing or upgradable reading.
#[verifier::external_body]
pub(crate) fn meta_lock_upgradable_read<'a>(lock: &'a RwLock<Meta, Spin>) -> (guard:
    RwLockUpgradableGuard<'a, Meta, Spin>)
    ensures
        meta_upgradable_guard_lock(guard) == *lock,
        meta_lock_may_hold(*lock, meta_upgradable_guarded(guard)),
{
    lock.upgradeable_read()
}

/// `RwLock::try_read`: a read guard on this lock, or `None` where the lock
/// is held for writing or upgradable reading at this time. A guard that
/// comes back shows the record that the lock was made with, or one that a
/// write guard on it showed. Never waits.
#[verifier::external_body]
pub(crate) fn meta_lock_try_read<'a>(lock: &'a RwLock<Meta, Spin>) -> (guard: Option<
    RwLockReadGuard<'a, Meta>,
>)
    ensures
        guard matches Some(g) ==> meta_read_guard_lock(g) == *lock && meta_lock_may_hold(
            *lock,
            meta_read_guarded(g),
        ),
{
    lock.try_read()
}

/// `RwLock::try_write`: a write guard on this lock, or `None` where the
/// lock is held at this time. Never waits.
#[verifier::external_body]
pub(crate) fn meta_lock_try_write<'a>(lock: &'a RwLock<Meta, Spin>) -> (guard: Option<
    RwLockWriteGuard<'a, Meta, Spin>,
>)
    ensures
        guard matches Some(g) ==> meta_write_guard_lock(g) == *lock,
{
    lock.try_write()
}

/// `RwLock::try_upgradeable_read`: an upgradable read guard on this lock,
/// or `None` where the lock is held for writing or upgradable reading at
/// this time. A guard that comes back shows the record that the lock was
/// made with, or one that a write guard on it showed. Never waits.
#[verifier::external_body]
pub(crate) fn meta_lock_try_upgradable_read<'a>(lock: &'a RwLock<Meta, Spin>) -> (guard: Option<
    RwLockUpgradableGuard<'a, Meta, Spin>,
>)
    ensures
        guard matches Some(g) ==> meta_upgradable_guard_lock(g) == *lock && meta_lock_may_hold(
            *lock,
            meta_upgradable_guarded(g),
        ),
{
    lock.try_upgradeable_read()
}

/// `Deref` of a read guard: a reference to the guarded record.
#[verifier::external_body]
pub(crate) fn meta_read_guard_get<'g>(guard: &'g RwLockReadGuard<'_, Meta>) -> (record: &'g Meta)
    ensures
        *record == meta_read_guarded(*guard),
{
    &**guard
}

/// `Deref` of an upgradable read guard: a reference to the guarded record.
#[verifier::external_body]
pub(crate) fn meta_upgradable_guard_get<'g>(
    guard: &'g RwLockUpgradableGuard<'_, Meta, Spin>,
) -> (record: &'g Meta)
    ensures
        *record == meta_upgradable_guarded(*guard),
{
    &**guard
}

/// `RwLockUpgradableGuard::upgrade`: spins until the last reader has left,
/// then turns the guard into a write guard on the same lock. No writer can
/// come between, so the write guard protects the record that the
/// upgradable guard showed.
/// The call does not return while the caller itself holds a read guard of
/// the lock.
#[verifier::external_body]
pub(crate) fn meta_upgradable_guard_upgrade<'a>(
    guard: RwLockUpgradableGuard<'a, Meta, Spin>,
) -> (upgraded: RwLockWriteGuard<'a, Meta, Spin>)
    ensures
        meta_write_guarded(upgraded) == meta_upgradable_guarded(guard),
        meta_write_guard_lock(upgraded) == meta_upgradable_guard_lock(guard),
{
    guard.upgrade()
}

/// `RwLockUpgradableGuard::downgrade`: turns the guard into a read guard
/// on the same lock without letting go of it, so the read guard shows the
/// record that the upgradable guard showed. Never waits.
#[verifier::external_body]
pub(crate) fn meta_upgradable_guard_downgrade<'a>(
    guard: RwLockUpgradableGuard<'a, Meta, Spin>,
) -> (downgraded: RwLockReadGuard<'a, Meta>)
    ensures
        meta_read_guarded(downgraded) == meta_upgradable_guarded(guard),
        meta_read_guard_lock(downgraded) == meta_upgradable_guard_lock(guard),
{
    guard.downgrade()
}

} // verus!
