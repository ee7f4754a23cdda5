//! The socket registry: an indexed collection of socket cells behind
//! handles.

use vstd::prelude::*;
use managed::ManagedSlice;
use spin::relax::Spin;
use spin::rwlock::{RwLockReadGuard, RwLockWriteGuard};
use crate::guard::{MappedRwLockGuard, MappedRwLockReadGuard, MappedRwLockWriteGuard};
use crate::handle::SocketHandle;
use crate::lock::{read_guarded, write_guarded};
use crate::socket::{AnySocket, Socket, SocketError, SocketKind};
use crate::storage::{Meta, SocketStorage};

verus! {

#[verifier::external_type_specification]
#[verifier::reject_recursive_types(T)]
pub struct ExManagedSlice<'a, T: 'a>(ManagedSlice<'a, T>);

/// The slots of a backing store, in order.
pub open spec fn slots_of(store: ManagedSlice<'_, Option<SocketStorage>>) -> Seq<
    Option<SocketStorage>,
> {
    match store {
        ManagedSlice::Borrowed(slots) => slots@,
        ManagedSlice::Owned(slots) => slots@,
    }
}

/// Whether `index` is where the next socket goes: the first free slot, or,
/// with no slot free, one past the last slot.
pub open spec fn is_first_free(slots: Seq<Option<SocketStorage>>, index: int) -> bool {
    &&& 0 <= index <= slots.len()
    &&& index < slots.len() ==> slots[index] is None
    &&& forall|j: int| 0 <= j < index ==> (#[trigger] slots[j]) is Some
}

/// The slots after `cell` went in at `index`: into the slot there, or, one
/// past the last slot, into a new slot.
pub open spec fn slots_with(
    slots: Seq<Option<SocketStorage>>,
    index: int,
    cell: SocketStorage,
) -> Seq<Option<SocketStorage>> {
    if index < slots.len() {
        slots.update(index, Some(cell))
    } else {
        slots.push(Some(cell))
    }
}

/// The slots after the cell at `index` was taken out.
pub open spec fn slots_without(slots: Seq<Option<SocketStorage>>, index: int) -> Seq<
    Option<SocketStorage>,
> {
    slots.update(index, None)
}

/// There is one place, and no other, where the next socket goes.
pub proof fn lemma_first_free_unique(slots: Seq<Option<SocketStorage>>, i: int, j: int)
    requires
        is_first_free(slots, i),
        is_first_free(slots, j),
    ensures
        i == j,
{
    if i < j {
        assert(slots[i] is Some);
    }
    if j < i {
        assert(slots[j] is Some);
    }
}

/// Putting a cell in and taking it out again gives the slots back as they
/// were, but for a slot that the store grew by, which stays, free. In
/// between the cell sits at `index`, and no other slot changes.
pub proof fn lemma_add_remove_round_trip(
    slots: Seq<Option<SocketStorage>>,
    index: int,
    cell: SocketStorage,
)
    requires
        is_first_free(slots, index),
    ensures
        slots_with(slots, index, cell)[index] == Some(cell),
        forall|j: int|
            0 <= j < slots.len() && j != index ==> #[trigger] slots_with(slots, index, cell)[j]
                == slots[j],
        slots_without(slots_with(slots, index, cell), index)[index] is None,
        index < slots.len() ==> slots_without(slots_with(slots, index, cell), index) == slots,
        index == slots.len() ==> slots_without(slots_with(slots, index, cell), index)
            == slots.push(None),
        is_first_free(slots_without(slots_with(slots, index, cell), index), index),
{
    let back = slots_without(slots_with(slots, index, cell), index);
    if index < slots.len() {
        assert(back =~= slots);
    } else {
        assert(back =~= slots.push(None));
    }
}

/// The cells in the occupied slots, in slot order.
pub open spec fn occupied_cells(slots: Seq<Option<SocketStorage>>) -> Seq<SocketStorage>
    decreases slots.len(),
{
    if slots.len() == 0 {
        Seq::empty()
    } else {
        match slots.last() {
            Some(cell) => occupied_cells(slots.drop_last()).push(cell),
            None => occupied_cells(slots.drop_last()),
        }
    }
}

/// Whether `at` places `picked` in `cells`: the `k`-th picked cell is the
/// cell at position `at[k]`, and the positions increase.
pub open spec fn selects(
    at: Seq<int>,
    picked: Seq<&SocketStorage>,
    cells: Seq<SocketStorage>,
) -> bool {
    &&& at.len() == picked.len()
    &&& forall|k: int|
        #![trigger at[k]]
        0 <= k < at.len() ==> 0 <= at[k] && at[k] < cells.len() && *picked[k] == cells[at[k]]
    &&& forall|a: int, b: int| #![trigger at[a], at[b]] 0 <= a < b < at.len() ==> at[a] < at[b]
}

/// Whether `picked` is a selection of `cells` that keeps their order:
/// each picked cell is one of `cells`, and the picked cells lie in `cells`
/// at increasing positions.
pub open spec fn is_selection(picked: Seq<&SocketStorage>, cells: Seq<SocketStorage>) -> bool {
    exists|at: Seq<int>| selects(at, picked, cells)
}

/// Whether `at` picks the cells by kind: each cell at a position in `at`
/// was found to hold a socket of kind `kind`, and each other cell was found
/// to hold another kind, by some reading of that cell.
pub open spec fn picks_kind(at: Seq<int>, cells: Seq<SocketStorage>, kind: SocketKind) -> bool {
    forall|i: int|
        0 <= i < cells.len() ==> (#[trigger] cells[i]).found_of_kind(kind, at.contains(i))
}

/// Whether `picked` is the selection of `cells` by kind `kind`: the cells
/// found to hold that kind, in the order of `cells`.
pub open spec fn is_selection_by_kind(
    picked: Seq<&SocketStorage>,
    cells: Seq<SocketStorage>,
    kind: SocketKind,
) -> bool {
    exists|at: Seq<int>| #[trigger] selects(at, picked, cells) && picks_kind(at, cells, kind)
}

/// A collection of socket cells that can be walked in a fixed order.
pub trait AnySocketSet {
    /// The cells of the set, in the order in which they are walked.
    spec fn cells(&self) -> Seq<SocketStorage>;

    /// All the cells of the set, in order. Each is still locked on its
    /// own: the walk locks nothing.
    fn items(&self) -> (items: Vec<&SocketStorage>)
        ensures
            items@.len() == self.cells().len(),
            forall|k: int| 0 <= k < items@.len() ==> *(#[trigger] items@[k]) == self.cells()[k],
    ;

    /// The cells found to hold a socket of kind `kind`, in order. The kind
    /// of each cell is read under its lock as the walk passes: a cell is
    /// picked exactly where that reading shows the kind asked for. The
    /// walk reads every cell before it returns; a caller that stops at the
    /// first cell it wants walks `items` and reads as it goes.
    fn filter(&self, kind: SocketKind) -> (items: Vec<&SocketStorage>)
        ensures
            is_selection(items@, self.cells()),
            is_selection_by_kind(items@, self.cells(), kind),
    ;
}

/// An extensible set of sockets.
///
/// The set owns its sockets. A socket stays in the slot it was put in until
/// it is removed; the handle returned for it wraps that slot's index.
#[derive(Debug)]
pub struct SocketSet<'a> {
    sockets: ManagedSlice<'a, Option<SocketStorage>>,
}

impl<'a> SocketSet<'a> {
    /// The slots of the set: each is free or holds a cell.
    pub closed spec fn slots(&self) -> Seq<Option<SocketStorage>> {
        slots_of(self.sockets)
    }

    /// Whether the backing store can grow.
    pub closed spec fn growable(&self) -> bool {
        self.sockets is Owned
    }

    /// Whether slot `index` exists and holds a cell.
    pub open spec fn occupied(&self, index: int) -> bool {
        0 <= index < self.slots().len() && self.slots()[index] is Some
    }

    /// Whether one more socket can be added: the store can grow, or a slot
    /// is free.
    pub open spec fn has_room(&self) -> bool {
        self.growable() || exists|j: int| 0 <= j < self.slots().len() && (#[trigger] self.slots()[j])
            is None
    }

    /// Whether every cell was made with the handle of the slot it is in.
    pub open spec fn wf(&self) -> bool {
        forall|j: int|
            0 <= j < self.slots().len() ==> (#[trigger] self.slots()[j] matches Some(cell)
                ==> cell.record().handle.index() == j)
    }

    /// Creates a socket set on the provided storage.
    pub fn new(sockets: ManagedSlice<'a, Option<SocketStorage>>) -> (set: SocketSet<'a>)
        ensures
            set.slots() == slots_of(sockets),
            set.growable() == (sockets is Owned),
    {
        SocketSet { sockets }
    }

    /// The number of slots.
    pub fn capacity(&self) -> (n: usize)
        ensures
            n == self.slots().len(),
    {
        match &self.sockets {
            ManagedSlice::Borrowed(slots) => slots.len(),
            ManagedSlice::Owned(slots) => slots.len(),
        }
    }

    /// The cell in slot `index`, if the slot exists and is occupied.
    pub fn cell(&self, index: usize) -> (cell: Option<&SocketStorage>)
        ensures
            self.occupied(index as int) ==> cell == Some(&self.slots()[index as int]->0),
            !self.occupied(index as int) ==> cell is None,
    {
        if index >= self.capacity() {
            return None;
        }
        match &self.sockets {
            ManagedSlice::Borrowed(slots) => slots[index].as_ref(),
            ManagedSlice::Owned(slots) => slots[index].as_ref(),
        }
    }

    /// The index where the next socket goes.
    fn first_free(&self) -> (index: usize)
        ensures
            is_first_free(self.slots(), index as int),
    {
        let n: usize = self.capacity();
        let mut i: usize = 0;
        while i < n
            invariant
                n == self.slots().len(),
                i <= n,
                forall|j: int| 0 <= j < i ==> (#[trigger] self.slots()[j]) is Some,
            decreases n - i,
        {
            if self.cell(i).is_none() {
                return i;
            }
            i = i + 1;
        }
        i
    }

    /// Adds a socket to the set, and returns its handle.
    ///
    /// The socket goes into the first free slot; where none is free, the
    /// store grows by one slot. A store that is full and cannot grow takes
    /// no further socket: `is_full` tells, and the caller must not ask
    /// then.
    pub fn add<T: AnySocket>(&mut self, socket: T) -> (handle: SocketHandle)
        requires
            old(self).has_room(),
        ensures
            is_first_free(old(self).slots(), handle.index() as int),
            final(self).growable() == old(self).growable(),
            final(self).slots().len() == if handle.index() < old(self).slots().len() {
                old(self).slots().len()
            } else {
                old(self).slots().len() + 1
            },
            final(self).occupied(handle.index() as int),
            final(self).slots()[handle.index() as int]->0.record() == (Meta { handle }),
            final(self).slots()[handle.index() as int]->0.made_with() == socket.up(),
            final(self).slots() == slots_with(
                old(self).slots(),
                handle.index() as int,
                final(self).slots()[handle.index() as int]->0,
            ),
            old(self).wf() ==> final(self).wf(),
    {
        let index: usize = self.first_free();
        let handle = SocketHandle::new(index);
        let cell = SocketStorage::new(handle, socket.upcast());
        let ghost put = cell;
        if index < self.capacity() {
            match &mut self.sockets {
                ManagedSlice::Borrowed(slots) => {
                    slots[index] = Some(cell);
                },
                ManagedSlice::Owned(slots) => {
                    slots[index] = Some(cell);
                },
            }
        } else {
            match &mut self.sockets {
                ManagedSlice::Borrowed(_) => {
                    assert(false);
                },
                ManagedSlice::Owned(slots) => {
                    slots.push(Some(cell));
                },
            }
        }
        assert(final(self).slots() =~= slots_with(old(self).slots(), index as int, put));
        handle
    }

    /// Adds a socket to the set where it has room, and returns its handle;
    /// hands the socket back where it has none. A set on a store that can
    /// grow always takes the socket. A full set on a store that cannot grow
    /// never does, and stays as it is: no cell is replaced, moved or
    /// changed.
    pub fn try_add<T: AnySocket>(&mut self, socket: T) -> (added: Result<SocketHandle, T>)
        ensures
            added is Ok <==> old(self).has_room(),
            added matches Err(back) ==> back == socket && final(self).slots() == old(self).slots(),
            final(self).growable() == old(self).growable(),
            added matches Ok(handle) ==> {
                &&& is_first_free(old(self).slots(), handle.index() as int)
                &&& final(self).occupied(handle.index() as int)
                &&& final(self).slots()[handle.index() as int]->0.record() == (Meta { handle })
                &&& final(self).slots()[handle.index() as int]->0.made_with() == socket.up()
                &&& final(self).slots() == slots_with(
                    old(self).slots(),
                    handle.index() as int,
                    final(self).slots()[handle.index() as int]->0,
                )
            },
            old(self).wf() ==> final(self).wf(),
    {
        if self.is_full() {
            Err(socket)
        } else {
            Ok(self.add(socket))
        }
    }

    /// Tests whether the set takes no further socket: no slot is free and
    /// the store cannot grow.
    pub fn is_full(&self) -> (full: bool)
        ensures
            full == !self.has_room(),
    {
        let free: usize = self.first_free();
        let growable: bool = match &self.sockets {
            ManagedSlice::Borrowed(_) => false,
            ManagedSlice::Owned(_) => true,
        };
        !growable && free >= self.capacity()
    }

    /// Removes a socket from the set, without changing its state, and
    /// returns it: what the cell in the handle's slot gives up when it is
    /// taken apart, which is the socket that the cell was made with or one
    /// written to it since. The slot is free afterwards. Fails with
    /// `InvalidHandle`, and changes nothing, where the handle refers to no
    /// socket.
    pub fn remove(&mut self, handle: SocketHandle) -> (removed: Result<Socket, SocketError>)
        ensures
            removed is Ok <==> old(self).occupied(handle.index() as int),
            removed is Err ==> removed == Err::<Socket, SocketError>(SocketError::InvalidHandle)
                && final(self).slots() == old(self).slots(),
            removed is Ok ==> final(self).slots() == slots_without(
                old(self).slots(),
                handle.index() as int,
            ),
            removed matches Ok(socket) ==> socket == old(self).slots()[handle.index() as int]->0
                .taken() && old(self).slots()[handle.index() as int]->0.may_hold(socket),
            final(self).growable() == old(self).growable(),
            old(self).wf() ==> final(self).wf(),
    {
        let index: usize = handle.handle_id();
        if index >= self.capacity() {
            return Err(SocketError::InvalidHandle);
        }
        let mut taken: Option<SocketStorage> = None;
        match &mut self.sockets {
            ManagedSlice::Borrowed(slots) => {
                core::mem::swap(&mut slots[index], &mut taken);
            },
            ManagedSlice::Owned(slots) => {
                core::mem::swap(&mut slots[index], &mut taken);
            },
        }
        match taken {
            Some(cell) => Ok(cell.socket()),
            None => {
                assert(final(self).slots() =~= old(self).slots());
                Err(SocketError::InvalidHandle)
            },
        }
    }

    /// Shared access to the socket behind `handle`, as a `T`. Fails with
    /// `InvalidHandle` where the handle refers to no socket, and with
    /// `WrongSocketType` where the socket is found to be of another kind.
    /// The guard is on the lock of the cell in the handle's slot, over the
    /// socket that was read there.
    pub fn get<T: AnySocket>(&self, handle: SocketHandle) -> (guard: Result<
        MappedRwLockReadGuard<'_, T>,
        SocketError,
    >)
        ensures
            guard == Err::<MappedRwLockReadGuard<'_, T>, SocketError>(SocketError::InvalidHandle)
                <==> !self.occupied(handle.index() as int),
            guard is Err && self.occupied(handle.index() as int) ==> guard == Err::<
                MappedRwLockReadGuard<'_, T>,
                SocketError,
            >(SocketError::WrongSocketType),
            self.occupied(handle.index() as int) ==> self.slots()[handle.index() as int]->0
                .narrows_read::<T>(guard),
    {
        match self.cell(handle.handle_id()) {
            Some(cell) => cell.downcast::<T>(),
            None => Err(SocketError::InvalidHandle),
        }
    }

    /// Exclusive access to the socket behind `handle`, as a `T`. Fails with
    /// `InvalidHandle` where the handle refers to no socket, and with
    /// `WrongSocketType` where the socket is found to be of another kind.
    /// The guard is on the lock of the cell in the handle's slot, over the
    /// socket that was found there.
    pub fn get_mut<T: AnySocket>(&self, handle: SocketHandle) -> (guard: Result<
        MappedRwLockWriteGuard<'_, T>,
        SocketError,
    >)
        ensures
            guard == Err::<MappedRwLockWriteGuard<'_, T>, SocketError>(SocketError::InvalidHandle)
                <==> !self.occupied(handle.index() as int),
            guard is Err && self.occupied(handle.index() as int) ==> guard == Err::<
                MappedRwLockWriteGuard<'_, T>,
                SocketError,
            >(SocketError::WrongSocketType),
            self.occupied(handle.index() as int) ==> self.slots()[handle.index() as int]->0
                .narrows_write::<T>(guard),
    {
        match self.cell(handle.handle_id()) {
            Some(cell) => cell.downcast_mut::<T>(),
            None => Err(SocketError::InvalidHandle),
        }
    }

    /// Tests the socket behind `handle`, as a `T`, with `f`, and returns a
    /// write guard where `f` returned true, else a read guard: the lock is
    /// taken for writing only when needed. Fails as `get` does, without
    /// calling `f`.
    pub fn with<T: AnySocket, F: FnOnce(&T) -> bool>(&self, handle: SocketHandle, f: F) -> (guard:
        Result<MappedRwLockGuard<'_, T>, SocketError>)
        requires
            forall|socket: T| call_requires(f, (&socket,)),
        ensures
            guard == Err::<MappedRwLockGuard<'_, T>, SocketError>(SocketError::InvalidHandle)
                <==> !self.occupied(handle.index() as int),
            guard is Err && self.occupied(handle.index() as int) ==> guard == Err::<
                MappedRwLockGuard<'_, T>,
                SocketError,
            >(SocketError::WrongSocketType),
            self.occupied(handle.index() as int) ==> self.slots()[handle.index() as int]->0
                .narrows_tested::<T>(guard),
            guard matches Ok(g) ==> call_ensures(f, (&g.guarded(),), g is Write),
    {
        match self.cell(handle.handle_id()) {
            Some(cell) => cell.downcast_with::<T, F>(f),
            None => Err(SocketError::InvalidHandle),
        }
    }

    /// Checks that the handle refers to a socket, found to be of type `T`.
    /// Never fails: a handle that refers to no socket gives false; for one
    /// that refers to a socket, the answer is what a reading of its cell
    /// says.
    pub fn check<T: AnySocket>(&self, handle: SocketHandle) -> (valid: bool)
        ensures
            !self.occupied(handle.index() as int) ==> !valid,
            self.occupied(handle.index() as int) ==> self.slots()[handle.index() as int]->0
                .found_to_hold::<T>(valid),
    {
        match self.cell(handle.handle_id()) {
            Some(cell) => cell.can_cast::<T>(),
            None => false,
        }
    }
}

/// A set on a store that can grow always has room.
pub proof fn lemma_growable_has_room(set: SocketSet<'_>)
    requires
        set.growable(),
    ensures
        set.has_room(),
{
}

/// A set on a store that cannot grow has room exactly while a slot is free.
pub proof fn lemma_fixed_room(set: SocketSet<'_>)
    requires
        !set.growable(),
    ensures
        set.has_room() <==> !is_first_free(set.slots(), set.slots().len() as int),
{
    if !is_first_free(set.slots(), set.slots().len() as int) {
        let j = choose|j: int| 0 <= j < set.slots().len() && !((#[trigger] set.slots()[j]) is Some);
        assert(set.slots()[j] is None);
    }
}

/// Taking one more slot adds that slot's cell, if it has one, to the cells
/// taken so far.
pub proof fn lemma_occupied_cells_step(slots: Seq<Option<SocketStorage>>, i: int)
    requires
        0 <= i < slots.len(),
    ensures
        occupied_cells(slots.take(i + 1)) == match slots[i] {
            Some(cell) => occupied_cells(slots.take(i)).push(cell),
            None => occupied_cells(slots.take(i)),
        },
{
    assert(slots.take(i + 1).drop_last() =~= slots.take(i));
}

impl<'a> AnySocketSet for SocketSet<'a> {
    open spec fn cells(&self) -> Seq<SocketStorage> {
        occupied_cells(self.slots())
    }

    fn items(&self) -> (items: Vec<&SocketStorage>) {
        let n: usize = self.capacity();
        let mut items: Vec<&SocketStorage> = Vec::new();
        let mut i: usize = 0;
        while i < n
            invariant
                n == self.slots().len(),
                i <= n,
                items@.len() == occupied_cells(self.slots().take(i as int)).len(),
                forall|k: int|
                    0 <= k < items@.len() ==> *(#[trigger] items@[k]) == occupied_cells(
                        self.slots().take(i as int),
                    )[k],
            decreases n - i,
        {
            proof {
                lemma_occupied_cells_step(self.slots(), i as int);
            }
            match self.cell(i) {
                Some(cell) => {
                    items.push(cell);
                },
                None => {},
            }
            i = i + 1;
        }
        assert(self.slots().take(n as int) =~= self.slots());
        items
    }

    fn filter(&self, kind: SocketKind) -> (items: Vec<&SocketStorage>) {
        let all: Vec<&SocketStorage> = self.items();
        let mut items: Vec<&SocketStorage> = Vec::new();
        let ghost mut at: Seq<int> = Seq::empty();
        let mut i: usize = 0;
        while i < all.len()
            invariant
                i <= all@.len(),
                all@.len() == self.cells().len(),
                forall|k: int| 0 <= k < all@.len() ==> *(#[trigger] all@[k]) == self.cells()[k],
                at.len() == items@.len(),
                forall|k: int|
                    #![trigger at[k]]
                    0 <= k < at.len() ==> 0 <= at[k] && at[k] < i && *items@[k]
                        == self.cells()[at[k]],
                forall|a: int, b: int|
                    #![trigger at[a], at[b]]
                    0 <= a < b < at.len() ==> at[a] < at[b],
                forall|k: int|
                    0 <= k < i ==> (#[trigger] self.cells()[k]).found_of_kind(
                        kind,
                        at.contains(k),
                    ),
            decreases all@.len() - i,
        {
            let cell: &SocketStorage = all[i];
            let found: bool = cell.has_kind(kind);
            let ghost before = at;
            assert(!before.contains(i as int));
            if found {
                items.push(cell);
                proof {
                    at = before.push(i as int);
                    assert(at[before.len() as int] == i);
                }
            }
            proof {
                assert(at.contains(i as int) == found);
                assert(self.cells()[i as int].found_of_kind(kind, at.contains(i as int)));
                assert forall|k: int| 0 <= k < i implies (#[trigger] self.cells()[k]).found_of_kind(
                    kind,
                    at.contains(k),
                ) by {
                    if before.contains(k) {
                        let j = choose|j: int| 0 <= j < before.len() && before[j] == k;
                        assert(at[j] == k);
                    }
                    assert(at.contains(k) == before.contains(k));
                }
            }
            i = i + 1;
        }
        assert(selects(at, items@, self.cells()));
        assert(picks_kind(at, self.cells(), kind));
        items
    }
}

/// A socket taken out of a cell is the one the cell was made with, where
/// every write guard on the cell's lock shows that socket: what was written
/// to the cell, if anything, was the socket it had.
pub proof fn lemma_unwritten_cell_gives_back(cell: SocketStorage, taken: Socket)
    requires
        cell.may_hold(taken),
        forall|guard: RwLockWriteGuard<'_, Socket, Spin>|
            cell.written_by(guard) ==> #[trigger] write_guarded(guard) == cell.made_with(),
    ensures
        taken == cell.made_with(),
{
}

/// The selection by kind picks exactly the cells of the kind asked for,
/// where each cell shows one kind in every reading: the cell at `i` is
/// picked if and only if its kind is the one asked for.
pub proof fn lemma_filter_picks_the_kind(
    at: Seq<int>,
    picked: Seq<&SocketStorage>,
    cells: Seq<SocketStorage>,
    kind: SocketKind,
    kinds: Seq<SocketKind>,
)
    requires
        selects(at, picked, cells),
        picks_kind(at, cells, kind),
        kinds.len() == cells.len(),
        forall|i: int, guard: RwLockReadGuard<'_, Socket>|
            0 <= i < cells.len() && #[trigger] cells[i].read_by(guard) ==> read_guarded(
                guard,
            ).kind_spec() == kinds[i],
    ensures
        forall|i: int| 0 <= i < cells.len() ==> (at.contains(i) <==> #[trigger] kinds[i] == kind),
{
    assert forall|i: int| 0 <= i < cells.len() implies (at.contains(i) <==> #[trigger] kinds[i]
        == kind) by {
        assert(cells[i].found_of_kind(kind, at.contains(i)));
    }
}

} // verus!
