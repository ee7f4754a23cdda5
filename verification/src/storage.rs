//! The socket cell: storage for one socket behind its own lock, with the
//! record of the handle it was issued under behind another.

use vstd::prelude::*;
use spin::relax::Spin;
use spin::rwlock::{RwLock, RwLockReadGuard, RwLockUpgradableGuard, RwLockWriteGuard};
use crate::guard::{MappedRwLockGuard, MappedRwLockReadGuard, MappedRwLockWriteGuard, RwLockGuard};
use crate::handle::SocketHandle;
use crate::lock::{
    lock_into_inner, lock_made_with, lock_may_hold, lock_new, lock_read, lock_taken, lock_try_read,
    lock_try_upgradable_read, lock_try_write, lock_upgradable_read, lock_write, read_guard_get,
    read_guard_lock, read_guarded, upgradable_guard_lock, upgradable_guarded, write_guard_lock,
    write_guarded,
};
use crate::meta_lock::{
    meta_lock_into_inner, meta_lock_made_with, meta_lock_may_hold, meta_lock_new, meta_lock_read,
    meta_lock_taken,
    meta_lock_try_read, meta_lock_try_upgradable_read, meta_lock_try_write,
    meta_lock_upgradable_read, meta_lock_write, meta_read_guard_get, meta_read_guard_lock,
    meta_read_guarded, meta_upgradable_guard_downgrade, meta_upgradable_guard_get,
    meta_upgradable_guard_lock, meta_upgradable_guard_upgrade, meta_upgradable_guarded,
    meta_write_guard_lock, meta_write_guarded,
};
use crate::socket::{AnySocket, Socket, SocketError, SocketKind};

verus! {

/// What a cell records beside its socket.
#[derive(Debug, Clone, Copy, PartialEq, Eq, Structural)]
pub struct Meta {
    /// The handle that the socket was issued under.
    pub handle: SocketHandle,
}

/// Storage for one socket.
///
/// The socket lies behind a reader/writer lock of its own, so that access
/// to one cell never waits for another. The record lies behind a second
/// lock, so that reading it never waits for access to the socket.
#[derive(Debug)]
pub struct SocketStorage {
    meta: RwLock<Meta, Spin>,
    socket: RwLock<Socket, Spin>,
}

impl SocketStorage {
    /// The lock that the record lies behind.
    pub closed spec fn record_lock(&self) -> RwLock<Meta, Spin> {
        self.meta
    }

    /// The record that the cell was made with.
    pub open spec fn record(&self) -> Meta {
        meta_lock_made_with(self.record_lock())
    }

    /// The record that the cell gives up when it is taken apart.
    pub open spec fn record_taken(&self) -> Meta {
        meta_lock_taken(self.record_lock())
    }

    /// Whether the cell may come to hold `record`: it was made with it, or
    /// some write guard on the record's lock shows it.
    pub open spec fn may_record(&self, record: Meta) -> bool {
        meta_lock_may_hold(self.record_lock(), record)
    }

    /// Whether `record` is what some reading of this cell's record shows.
    /// What a reading shows is a record that the cell may hold.
    pub open spec fn recorded_as(&self, record: Meta) -> bool {
        &&& self.may_record(record)
        &&& exists|guard: RwLockReadGuard<'_, Meta>|
            meta_read_guard_lock(guard) == self.record_lock() && #[trigger] meta_read_guarded(
                guard,
            ) == record
    }

    /// Whether `record` is what some upgradable reading of this cell's
    /// record shows. What a reading shows is a record that the cell may
    /// hold.
    pub open spec fn record_locked_as(&self, record: Meta) -> bool {
        &&& self.may_record(record)
        &&& exists|guard: RwLockUpgradableGuard<'_, Meta, Spin>|
            meta_upgradable_guard_lock(guard) == self.record_lock()
                && #[trigger] meta_upgradable_guarded(guard) == record
    }

    /// Whether `guard` is on the lock of this cell's record and shows
    /// `record`.
    pub open spec fn record_guarded_by(&self, guard: RwLockGuard<'_, Meta>, record: Meta) -> bool {
        match guard {
            RwLockGuard::Read(g) => meta_read_guard_lock(g) == self.record_lock()
                && meta_read_guarded(g) == record,
            RwLockGuard::Write(g) => meta_write_guard_lock(g) == self.record_lock()
                && meta_write_guarded(g) == record,
        }
    }

    /// The lock that the socket lies behind.
    pub closed spec fn lock(&self) -> RwLock<Socket, Spin> {
        self.socket
    }

    /// Whether `guard` shows a socket of this cell: it is a read guard on
    /// the cell's lock.
    pub open spec fn read_by(&self, guard: RwLockReadGuard<'_, Socket>) -> bool {
        read_guard_lock(guard) == self.lock()
    }

    /// Whether `answer` is what some reading of this cell says to the
    /// question whether it holds a socket of type `T`. What is read is a
    /// socket that the cell may hold. Two readings may say different
    /// things: the socket can be written in between.
    pub open spec fn found_to_hold<T: AnySocket>(&self, answer: bool) -> bool {
        exists|guard: RwLockReadGuard<'_, Socket>|
            {
                &&& #[trigger] self.read_by(guard)
                &&& self.may_hold(read_guarded(guard))
                &&& read_guarded(guard).holds::<T>() == answer
            }
    }

    /// Whether `guard` gives exclusive access to the socket of this cell:
    /// it is a write guard on the cell's lock.
    pub open spec fn written_by(&self, guard: RwLockWriteGuard<'_, Socket, Spin>) -> bool {
        write_guard_lock(guard) == self.lock()
    }

    /// The socket that the cell was made with.
    pub open spec fn made_with(&self) -> Socket {
        lock_made_with(self.lock())
    }

    /// The socket that the cell gives up when it is taken apart.
    pub open spec fn taken(&self) -> Socket {
        lock_taken(self.lock())
    }

    /// Whether the cell may come to hold `socket`: it was made with it,
    /// or some write guard on its lock shows it.
    pub open spec fn may_hold(&self, socket: Socket) -> bool {
        lock_may_hold(self.lock(), socket)
    }

    /// Whether `socket` is what some upgradable reading of this cell
    /// shows. What a reading shows is a socket that the cell may hold.
    pub open spec fn locked_as(&self, socket: Socket) -> bool {
        &&& self.may_hold(socket)
        &&& exists|guard: RwLockUpgradableGuard<'_, Socket, Spin>|
            upgradable_guard_lock(guard) == self.lock() && #[trigger] upgradable_guarded(guard)
                == socket
    }

    /// Whether `found` is what some reading of this cell says to the
    /// question whether it holds a socket of kind `kind`. What is read is
    /// a socket that the cell may hold.
    pub open spec fn found_of_kind(&self, kind: SocketKind, found: bool) -> bool {
        exists|guard: RwLockReadGuard<'_, Socket>|
            {
                &&& #[trigger] self.read_by(guard)
                &&& self.may_hold(read_guarded(guard))
                &&& (read_guarded(guard).kind_spec() == kind) == found
            }
    }

    /// Whether `result` is what narrowing some reading of this cell to a
    /// `T` gives: a guard on this cell's lock over the socket read, where
    /// that is a `T`, and an error where it is not. What is read is a
    /// socket that the cell may hold.
    pub open spec fn narrows_read<T: AnySocket>(
        &self,
        result: Result<MappedRwLockReadGuard<'_, T>, SocketError>,
    ) -> bool {
        exists|guard: RwLockReadGuard<'_, Socket>|
            {
                &&& #[trigger] self.read_by(guard)
                &&& self.may_hold(read_guarded(guard))
                &&& result is Ok <==> read_guarded(guard).holds::<T>()
                &&& result matches Ok(m) ==> m.variant() == read_guarded(guard) && m.lock()
                    == self.lock()
            }
    }

    /// Whether `result` is what narrowing some write access to this cell
    /// to a `T` gives: a guard on this cell's lock over the socket found,
    /// where that is a `T`, and an error where it is not.
    pub open spec fn narrows_write<T: AnySocket>(
        &self,
        result: Result<MappedRwLockWriteGuard<'_, T>, SocketError>,
    ) -> bool {
        exists|guard: RwLockWriteGuard<'_, Socket, Spin>|
            {
                &&& #[trigger] self.written_by(guard)
                &&& result is Ok <==> write_guarded(guard).holds::<T>()
                &&& result matches Ok(m) ==> m.variant() == write_guarded(guard) && m.lock()
                    == self.lock()
            }
    }

    /// Whether `result` is what testing some upgradable reading of this
    /// cell as a `T` gives: a guard on this cell's lock over the socket
    /// read, where that is a `T`, and an error where it is not.
    pub open spec fn narrows_tested<T: AnySocket>(
        &self,
        result: Result<MappedRwLockGuard<'_, T>, SocketError>,
    ) -> bool {
        exists|seen: Socket|
            {
                &&& #[trigger] self.locked_as(seen)
                &&& result is Ok <==> seen.holds::<T>()
                &&& result matches Ok(g) ==> Some(g.guarded()) == T::down(seen) && g.lock()
                    == self.lock()
            }
    }

    /// Makes a cell for `socket`, issued under `handle`.
    #[inline]
    pub fn new(handle: SocketHandle, socket: Socket) -> (cell: Self)
        ensures
            cell.record() == (Meta { handle }),
            cell.made_with() == socket,
    {
        SocketStorage { meta: meta_lock_new(Meta { handle }), socket: lock_new(socket) }
    }

    /// The handle that the socket was issued under, as a reading of the
    /// record shows it.
    #[inline]
    pub fn handle(&self) -> (handle: SocketHandle)
        ensures
            self.recorded_as(Meta { handle }),
    {
        let guard = meta_lock_read(&self.meta);
        let record: &Meta = meta_read_guard_get(&guard);
        record.handle
    }

    /// Takes the cell apart and returns its record: the one it was made
    /// with, or one that was written to it since.
    #[inline]
    pub fn meta(self) -> (record: Meta)
        ensures
            record == self.record_taken(),
            self.may_record(record),
    {
        meta_lock_into_inner(self.meta)
    }

    /// An upgradable read guard on the lock of this cell's record, unless
    /// that lock is held for writing or upgradable reading.
    #[inline]
    pub fn try_meta_lock(&self) -> (guard: Option<RwLockUpgradableGuard<'_, Meta, Spin>>)
        ensures
            guard matches Some(g) ==> meta_upgradable_guard_lock(g) == self.record_lock()
                && self.may_record(meta_upgradable_guarded(g)),
    {
        meta_lock_try_upgradable_read(&self.meta)
    }

    /// A read guard on the lock of this cell's record, unless that lock is
    /// held for writing or upgradable reading.
    #[inline]
    pub fn try_meta_ref(&self) -> (guard: Option<RwLockReadGuard<'_, Meta>>)
        ensures
            guard matches Some(g) ==> meta_read_guard_lock(g) == self.record_lock()
                && self.may_record(meta_read_guarded(g)),
    {
        meta_lock_try_read(&self.meta)
    }

    /// A write guard on the lock of this cell's record, unless that lock is
    /// held.
    #[inline]
    pub fn try_meta_mut(&self) -> (guard: Option<RwLockWriteGuard<'_, Meta, Spin>>)
        ensures
            guard matches Some(g) ==> meta_write_guard_lock(g) == self.record_lock(),
    {
        meta_lock_try_write(&self.meta)
    }

    /// An upgradable read guard on the lock of this cell's record, once no
    /// writer and no other upgradable reader holds it.
    #[inline]
    pub fn meta_lock(&self) -> (guard: RwLockUpgradableGuard<'_, Meta, Spin>)
        ensures
            meta_upgradable_guard_lock(guard) == self.record_lock(),
            self.may_record(meta_upgradable_guarded(guard)),
    {
        meta_lock_upgradable_read(&self.meta)
    }

    /// A read guard on the lock of this cell's record, once no writer and
    /// no upgradable reader holds it.
    #[inline]
    pub fn meta_ref(&self) -> (guard: RwLockReadGuard<'_, Meta>)
        ensures
            meta_read_guard_lock(guard) == self.record_lock(),
            self.may_record(meta_read_guarded(guard)),
    {
        meta_lock_read(&self.meta)
    }

    /// A write guard on the lock of this cell's record, once nobody else
    /// holds it.
    #[inline]
    pub fn meta_mut(&self) -> (guard: RwLockWriteGuard<'_, Meta, Spin>)
        ensures
            meta_write_guard_lock(guard) == self.record_lock(),
    {
        meta_lock_write(&self.meta)
    }

    /// Tests the record with `f` under an upgradable read lock, and takes
    /// the write lock only where `f` returns true; else the lock falls back
    /// to a read lock. The guard that comes back is on the lock of this
    /// cell's record and shows the record that `f` saw; what `f` returned
    /// about it decides which guard it is.
    #[inline]
    pub fn meta_with<F: FnOnce(&Meta) -> bool>(&self, f: F) -> (guard: RwLockGuard<'_, Meta>)
        requires
            forall|record: Meta| call_requires(f, (&record,)),
        ensures
            exists|record: Meta|
                {
                    &&& #[trigger] self.record_locked_as(record)
                    &&& self.record_guarded_by(guard, record)
                    &&& call_ensures(f, (&record,), guard is Write)
                },
    {
        let upgradable = meta_lock_upgradable_read(&self.meta);
        let ghost record = meta_upgradable_guarded(upgradable);
        assert(self.record_locked_as(record));
        if f(meta_upgradable_guard_get(&upgradable)) {
            RwLockGuard::Write(meta_upgradable_guard_upgrade(upgradable))
        } else {
            RwLockGuard::Read(meta_upgradable_guard_downgrade(upgradable))
        }
    }

    /// Takes the cell apart and returns the socket it holds: the one it
    /// was made with, or one that was written to it since.
    #[inline]
    pub fn socket(self) -> (socket: Socket)
        ensures
            socket == self.taken(),
            self.may_hold(socket),
    {
        lock_into_inner(self.socket)
    }

    /// An upgradable read guard on this cell's lock, unless the lock is
    /// held for writing or upgradable reading.
    #[inline]
    pub fn try_socket_lock(&self) -> (guard: Option<RwLockUpgradableGuard<'_, Socket, Spin>>)
        ensures
            guard matches Some(g) ==> upgradable_guard_lock(g) == self.lock() && self.may_hold(
                upgradable_guarded(g),
            ),
    {
        lock_try_upgradable_read(&self.socket)
    }

    /// A read guard on this cell's lock, unless the lock is held for
    /// writing or upgradable reading.
    #[inline]
    pub fn try_socket_ref(&self) -> (guard: Option<RwLockReadGuard<'_, Socket>>)
        ensures
            guard matches Some(g) ==> read_guard_lock(g) == self.lock() && self.may_hold(
                read_guarded(g),
            ),
    {
        lock_try_read(&self.socket)
    }

    /// A write guard on this cell's lock, unless the lock is held.
    #[inline]
    pub fn try_socket_mut(&self) -> (guard: Option<RwLockWriteGuard<'_, Socket, Spin>>)
        ensures
            guard matches Some(g) ==> write_guard_lock(g) == self.lock(),
    {
        lock_try_write(&self.socket)
    }

    /// A read guard on this cell's lock, once no writer and no upgradable
    /// reader holds it.
    #[inline]
    pub fn socket_ref(&self) -> (guard: RwLockReadGuard<'_, Socket>)
        ensures
            read_guard_lock(guard) == self.lock(),
            self.may_hold(read_guarded(guard)),
    {
        lock_read(&self.socket)
    }

    /// An upgradable read guard on this cell's lock, once no writer and no
    /// other upgradable reader holds it.
    #[inline]
    pub fn socket_lock(&self) -> (guard: RwLockUpgradableGuard<'_, Socket, Spin>)
        ensures
            upgradable_guard_lock(guard) == self.lock(),
            self.may_hold(upgradable_guarded(guard)),
    {
        lock_upgradable_read(&self.socket)
    }

    /// A write guard on this cell's lock, once nobody else holds it.
    #[inline]
    pub fn socket_mut(&self) -> (guard: RwLockWriteGuard<'_, Socket, Spin>)
        ensures
            write_guard_lock(guard) == self.lock(),
    {
        lock_write(&self.socket)
    }

    /// Tests the socket with `f` under an upgradable read lock, and takes
    /// the write lock only where `f` returns true; else the lock falls back
    /// to a read lock. What `f` returned about the guarded socket decides
    /// which guard comes back.
    #[inline]
    pub fn socket_with<F: FnOnce(&Socket) -> bool>(&self, f: F) -> (guard: RwLockGuard<
        '_,
        Socket,
    >)
        requires
            forall|socket: Socket| call_requires(f, (&socket,)),
        ensures
            self.locked_as(guard.guarded()),
            guard.lock() == self.lock(),
            call_ensures(f, (&guard.guarded(),), guard is Write),
    {
        RwLockGuard::with(lock_upgradable_read(&self.socket), f)
    }

    /// Tests whether the cell holds, at this time, a socket of kind `kind`:
    /// reads the socket under the cell's lock, and says whether what it
    /// read is of that kind.
    #[inline]
    pub fn has_kind(&self, kind: SocketKind) -> (found: bool)
        ensures
            self.found_of_kind(kind, found),
    {
        let guard = lock_read(&self.socket);
        let found: bool = read_guard_get(&guard).kind() == kind;
        assert(self.read_by(guard));
        found
    }

    /// Tests whether the cell holds, at this time, a socket of type `T`:
    /// reads the socket under the cell's lock, and says whether what it
    /// read is a `T`.
    #[inline]
    pub fn can_cast<T: AnySocket>(&self) -> (found: bool)
        ensures
            self.found_to_hold::<T>(found),
    {
        let guard = lock_read(&self.socket);
        let found: bool = read_guard_get(&guard).has_type::<T>();
        assert(self.read_by(guard));
        found
    }

    /// Shared access to the socket as a `T`, or `WrongSocketType` where the
    /// cell is found to hold another kind.
    #[inline]
    pub fn downcast<T: AnySocket>(&self) -> (guard: Result<
        MappedRwLockReadGuard<'_, T>,
        SocketError,
    >)
        ensures
            guard is Err ==> guard == Err::<MappedRwLockReadGuard<'_, T>, SocketError>(
                SocketError::WrongSocketType,
            ),
            self.narrows_read::<T>(guard),
    {
        let read = lock_read(&self.socket);
        assert(self.read_by(read));
        MappedRwLockReadGuard::try_new(read)
    }

    /// Exclusive access to the socket as a `T`, or `WrongSocketType` where
    /// the cell is found to hold another kind.
    #[inline]
    pub fn downcast_mut<T: AnySocket>(&self) -> (guard: Result<
        MappedRwLockWriteGuard<'_, T>,
        SocketError,
    >)
        ensures
            guard is Err ==> guard == Err::<MappedRwLockWriteGuard<'_, T>, SocketError>(
                SocketError::WrongSocketType,
            ),
            self.narrows_write::<T>(guard),
    {
        let write = lock_write(&self.socket);
        assert(self.written_by(write));
        MappedRwLockWriteGuard::try_new(write)
    }

    /// Tests the socket, as a `T`, with `f` under an upgradable read lock,
    /// and takes the write lock only where `f` returns true; else the lock
    /// falls back to a read lock. Fails with `WrongSocketType`, without
    /// calling `f`, where the cell is found to hold another kind.
    #[inline]
    pub fn downcast_with<T: AnySocket, F: FnOnce(&T) -> bool>(&self, f: F) -> (guard: Result<
        MappedRwLockGuard<'_, T>,
        SocketError,
    >)
        requires
            forall|socket: T| call_requires(f, (&socket,)),
        ensures
            guard is Err ==> guard == Err::<MappedRwLockGuard<'_, T>, SocketError>(
                SocketError::WrongSocketType,
            ),
            self.narrows_tested::<T>(guard),
            guard matches Ok(g) ==> call_ensures(f, (&g.guarded(),), g is Write),
    {
        let upgradable = lock_upgradable_read(&self.socket);
        let ghost seen = upgradable_guarded(upgradable);
        let guard = MappedRwLockGuard::with(upgradable, f);
        assert(self.locked_as(seen));
        guard
    }
}

/// Shared access as a `T` succeeds on a cell whose every reading shows a
/// `T`, and fails on one whose every reading shows another kind.
pub proof fn lemma_downcast_follows_kind<T: AnySocket>(
    cell: SocketStorage,
    result: Result<MappedRwLockReadGuard<'_, T>, SocketError>,
)
    requires
        cell.narrows_read::<T>(result),
    ensures
        (forall|guard: RwLockReadGuard<'_, Socket>| #[trigger]
            cell.read_by(guard) ==> read_guarded(guard).holds::<T>()) ==> result is Ok,
        (forall|guard: RwLockReadGuard<'_, Socket>| #[trigger]
            cell.read_by(guard) ==> !read_guarded(guard).holds::<T>()) ==> result is Err,
{
}

/// Exclusive access as a `T` succeeds on a cell whose every write guard
/// shows a `T`, and fails on one whose every write guard shows another
/// kind.
pub proof fn lemma_downcast_mut_follows_kind<T: AnySocket>(
    cell: SocketStorage,
    result: Result<MappedRwLockWriteGuard<'_, T>, SocketError>,
)
    requires
        cell.narrows_write::<T>(result),
    ensures
        (forall|guard: RwLockWriteGuard<'_, Socket, Spin>| #[trigger]
            cell.written_by(guard) ==> write_guarded(guard).holds::<T>()) ==> result is Ok,
        (forall|guard: RwLockWriteGuard<'_, Socket, Spin>| #[trigger]
            cell.written_by(guard) ==> !write_guarded(guard).holds::<T>()) ==> result is Err,
{
}

/// A test of the socket as a `T` succeeds on a cell whose every upgradable
/// reading shows a `T`, and fails on one whose every upgradable reading
/// shows another kind.
pub proof fn lemma_downcast_with_follows_kind<T: AnySocket>(
    cell: SocketStorage,
    result: Result<MappedRwLockGuard<'_, T>, SocketError>,
)
    requires
        cell.narrows_tested::<T>(result),
    ensures
        (forall|seen: Socket| #[trigger] cell.locked_as(seen) ==> seen.holds::<T>())
            ==> result is Ok,
        (forall|seen: Socket| #[trigger] cell.locked_as(seen) ==> !seen.holds::<T>())
            ==> result is Err,
{
}

/// A cell that was never written to otherwise reads as it was made: where
/// every write guard on the cell's lock shows the socket that the cell was
/// made with, every socket the cell may hold is that socket, and shared
/// access as a `T` shows it, if it is a `T`, and fails if it is not.
pub proof fn lemma_unwritten_cell_reads_as_made<T: AnySocket>(
    cell: SocketStorage,
    result: Result<MappedRwLockReadGuard<'_, T>, SocketError>,
)
    requires
        forall|guard: RwLockWriteGuard<'_, Socket, Spin>|
            cell.written_by(guard) ==> #[trigger] write_guarded(guard) == cell.made_with(),
        cell.narrows_read::<T>(result),
    ensures
        forall|socket: Socket| cell.may_hold(socket) ==> socket == cell.made_with(),
        result is Ok <==> cell.made_with().holds::<T>(),
        result matches Ok(guard) ==> guard.variant() == cell.made_with(),
{
}

} // verus!
