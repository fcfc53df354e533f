//! Generation-checked handle tables for engines, sessions and audio leases.

use vstd::prelude::*;

use crate::abi::session::abi::{PksSessionHandle, PksSessionHandleKind};
use crate::abi::session::error::AbiError;

verus! {

struct HandleSlot<T> {
    generation: u64,
    value: Option<T>,
}

/// A fixed-capacity table whose slots are addressed by generation-checked
/// handles scoped to one owner.
pub struct HandleTable<T> {
    kind: PksSessionHandleKind,
    scope_id: u64,
    slots: Vec<HandleSlot<T>>,
}

/// Abstract value of a handle table: what it issues handles for, the owner
/// scope, and per slot its current generation and occupant.
#[verifier::ext_equal]
pub struct HandleTableView<T> {
    pub kind: PksSessionHandleKind,
    pub scope_id: u64,
    pub generations: Seq<u64>,
    pub values: Seq<Option<T>>,
}

impl<T> View for HandleTable<T> {
    type V = HandleTableView<T>;

    closed spec fn view(&self) -> HandleTableView<T> {
        HandleTableView {
            kind: self.kind,
            scope_id: self.scope_id,
            generations: self.slots@.map_values(|slot: HandleSlot<T>| slot.generation),
            values: self.slots@.map_values(|slot: HandleSlot<T>| slot.value),
        }
    }
}

/// Generation a slot takes after its occupant is removed: one more, wrapping
/// past the maximum back to one so that zero is never issued.
pub open spec fn next_generation(generation: u64) -> u64 {
    if generation == u64::MAX {
        1
    } else {
        (generation + 1) as u64
    }
}

/// Index of the first vacant slot at or after `from`, or the length when
/// every such slot is occupied.
pub open spec fn first_vacant<T>(values: Seq<Option<T>>, from: int) -> int
    decreases values.len() - from,
{
    if from >= values.len() {
        values.len() as int
    } else if values[from] is None {
        from
    } else {
        first_vacant(values, from + 1)
    }
}

/// Number of occupied slots among the first `len` slots.
pub open spec fn occupied_count<T>(values: Seq<Option<T>>, len: int) -> nat
    decreases len,
{
    if len <= 0 {
        0
    } else {
        occupied_count(values, len - 1) + if values[len - 1] is Some {
            1nat
        } else {
            0nat
        }
    }
}

/// The error a handle meets before its slot's occupant is consulted, if any.
pub open spec fn slot_error<T>(table: HandleTableView<T>, handle: PksSessionHandle) -> Option<AbiError> {
    if handle.kind != table.kind {
        Some(AbiError::InvalidHandle)
    } else if handle.scope_id != table.scope_id {
        Some(AbiError::ForeignHandle)
    } else if handle.slot_index >= table.values.len() {
        Some(AbiError::InvalidHandle)
    } else if table.generations[handle.slot_index as int] != handle.generation {
        Some(AbiError::StaleHandle)
    } else {
        None
    }
}

/// What a handle resolves to in a table.
pub open spec fn lookup<T>(table: HandleTableView<T>, handle: PksSessionHandle) -> Result<T, AbiError> {
    match slot_error(table, handle) {
        Some(error) => Err(error),
        None => match table.values[handle.slot_index as int] {
            Some(value) => Ok(value),
            None => Err(AbiError::StaleHandle),
        },
    }
}

impl<T> HandleTableView<T> {
    /// The table with slot `index` holding `value`.
    pub open spec fn with_value(self, index: int, value: Option<T>) -> Self {
        HandleTableView { values: self.values.update(index, value), ..self }
    }

    /// The table with slot `index` emptied and its generation advanced.
    pub open spec fn with_released(self, index: int) -> Self {
        HandleTableView {
            generations: self.generations.update(
                index,
                next_generation(self.generations[index]),
            ),
            values: self.values.update(index, None),
            ..self
        }
    }

    /// The handle issued for slot `index`.
    pub open spec fn handle_for(self, index: int) -> PksSessionHandle {
        PksSessionHandle {
            kind: self.kind,
            slot_index: index as u32,
            generation: self.generations[index],
            scope_id: self.scope_id,
        }
    }
}

/// Result and next table of inserting `value`: it goes into the first vacant
/// slot, and the handle names that slot at its current generation; a table
/// with no vacant slot is unchanged and refuses for want of capacity.
pub open spec fn insert_outcome<T>(table: HandleTableView<T>, value: T) -> (
    Result<PksSessionHandle, AbiError>,
    HandleTableView<T>,
) {
    let index = first_vacant(table.values, 0);
    if index < table.values.len() {
        (Ok(table.handle_for(index)), table.with_value(index, Some(value)))
    } else {
        (Err(AbiError::NoCapacity), table)
    }
}

/// Result and next table of removing what `handle` names: the value, with
/// its slot emptied and its generation advanced; a handle that resolves to
/// nothing leaves the table unchanged with its error.
pub open spec fn remove_outcome<T>(table: HandleTableView<T>, handle: PksSessionHandle) -> (
    Result<T, AbiError>,
    HandleTableView<T>,
) {
    match lookup(table, handle) {
        Ok(value) => (Ok(value), table.with_released(handle.slot_index as int)),
        Err(error) => (Err(error), table),
    }
}

/// A fresh table of `capacity` slots, the first `values.len()` of which hold
/// `values` in order, every slot at generation one.
pub open spec fn filled_table<T>(
    capacity: nat,
    kind: PksSessionHandleKind,
    scope_id: u64,
    values: Seq<T>,
) -> HandleTableView<T> {
    HandleTableView {
        kind,
        scope_id,
        generations: Seq::new(capacity, |i: int| 1u64),
        values: Seq::new(
            capacity,
            |i: int|
                if i < values.len() {
                    Some(values[i])
                } else {
                    None
                },
        ),
    }
}

/// The handle a fresh table issues for slot `index`.
pub open spec fn fresh_handle(kind: PksSessionHandleKind, scope_id: u64, index: int) -> PksSessionHandle {
    PksSessionHandle { kind, slot_index: index as u32, generation: 1, scope_id }
}

impl<T> HandleTable<T> {
    /// Creates a table of `capacity_count` vacant slots, each at generation one.
    pub fn new(capacity_count: usize, kind: PksSessionHandleKind, scope_id: u64) -> (r: Self)
        ensures
            r@ == filled_table::<T>(capacity_count as nat, kind, scope_id, Seq::empty()),
            r@.kind == kind,
            r@.scope_id == scope_id,
            r@.values.len() == capacity_count,
            r@.generations.len() == capacity_count,
            forall|i: int| 0 <= i < capacity_count ==> #[trigger] r@.values[i] is None,
            forall|i: int| 0 <= i < capacity_count ==> #[trigger] r@.generations[i] == 1,
    {
        let mut slots: Vec<HandleSlot<T>> = Vec::with_capacity(capacity_count);
        let mut index: usize = 0;
        while index < capacity_count
            invariant
                index <= capacity_count,
                slots@.len() == index,
                forall|i: int| 0 <= i < index ==> (#[trigger] slots@[i]).value is None,
                forall|i: int| 0 <= i < index ==> (#[trigger] slots@[i]).generation == 1,
            decreases capacity_count - index,
        {
            slots.push(HandleSlot { generation: 1, value: None });
            index = index + 1;
        }
        let table = HandleTable { kind, scope_id, slots };
        proof {
            table.lemma_view_len();
            assert(table@ =~= filled_table::<T>(capacity_count as nat, kind, scope_id, Seq::empty()));
        }
        table
    }

    proof fn lemma_view_len(&self)
        ensures
            self@.values.len() == self.slots@.len(),
            self@.generations.len() == self.slots@.len(),
            forall|i: int|
                0 <= i < self.slots@.len() ==> #[trigger] self@.values[i] == self.slots@[i].value,
            forall|i: int|
                0 <= i < self.slots@.len() ==> #[trigger] self@.generations[i]
                    == self.slots@[i].generation,
    {
    }

    /// Stores `value` in the first vacant slot and returns the handle naming it.
    pub fn insert(&mut self, value: T) -> (r: Result<PksSessionHandle, AbiError>)
        ensures
            (r, final(self)@) == insert_outcome(old(self)@, value),
            final(self)@.generations.len() == final(self)@.values.len(),
    {
        proof {
            self.lemma_view_len();
        }
        let mut index: usize = 0;
        while index < self.slots.len()
            invariant
                index <= self.slots@.len(),
                self@.values.len() == self.slots@.len(),
                forall|i: int|
                    0 <= i < self.slots@.len() ==> #[trigger] self@.values[i]
                        == self.slots@[i].value,
                first_vacant(self@.values, 0) == first_vacant(self@.values, index as int),
            ensures
                index <= self.slots@.len(),
                index < self.slots@.len() ==> self@.values[index as int] is None,
                first_vacant(self@.values, 0) == first_vacant(self@.values, index as int),
            decreases self.slots@.len() - index,
        {
            if self.slots[index].value.is_none() {
                break;
            }
            index = index + 1;
        }
        if index == self.slots.len() {
            return Err(AbiError::NoCapacity);
        }
        let generation = self.slots[index].generation;
        let ghost before = self@;
        self.slots.set(index, HandleSlot { generation, value: Some(value) });
        proof {
            self.lemma_view_len();
            assert(self@.generations =~= before.generations);
            assert(self@.values =~= before.values.update(index as int, Some(value)));
        }
        Ok(PksSessionHandle {
            kind: self.kind,
            slot_index: index as u32,
            generation,
            scope_id: self.scope_id,
        })
    }

    fn validate_owner(&self, handle: PksSessionHandle) -> (r: Result<(), AbiError>)
        ensures
            handle.kind != self@.kind ==> r == Err::<(), AbiError>(AbiError::InvalidHandle),
            handle.kind == self@.kind && handle.scope_id != self@.scope_id ==> r == Err::<
                (),
                AbiError,
            >(AbiError::ForeignHandle),
            handle.kind == self@.kind && handle.scope_id == self@.scope_id ==> r is Ok,
    {
        if handle.kind != self.kind {
            return Err(AbiError::InvalidHandle);
        }
        if handle.scope_id != self.scope_id {
            return Err(AbiError::ForeignHandle);
        }
        Ok(())
    }

    /// Index of the slot a handle names, or the error it meets on the way.
    fn slot(&self, handle: PksSessionHandle) -> (r: Result<usize, AbiError>)
        ensures
            match slot_error(self@, handle) {
                Some(error) => r == Err::<usize, AbiError>(error),
                None => r == Ok::<usize, AbiError>(handle.slot_index as usize),
            },
    {
        proof {
            self.lemma_view_len();
        }
        self.validate_owner(handle)?;
        let index = handle.slot_index as usize;
        if index >= self.slots.len() {
            return Err(AbiError::InvalidHandle);
        }
        if self.slots[index].generation != handle.generation {
            return Err(AbiError::StaleHandle);
        }
        Ok(index)
    }

    /// Resolves a handle to the value it names.
    pub fn get(&self, handle: PksSessionHandle) -> (r: Result<&T, AbiError>)
        ensures
            match lookup(self@, handle) {
                Ok(value) => r matches Ok(v) && *v == value,
                Err(error) => r == Err::<&T, AbiError>(error),
            },
    {
        proof {
            self.lemma_view_len();
        }
        let index = self.slot(handle)?;
        match &self.slots[index].value {
            Some(value) => Ok(value),
            None => Err(AbiError::StaleHandle),
        }
    }

    /// Resolves a handle to its value for in-place update.
    pub fn get_mut(&mut self, handle: PksSessionHandle) -> (r: Result<&mut T, AbiError>)
        ensures
            match lookup(old(self)@, handle) {
                Ok(value) => {
                    &&& r is Ok
                    &&& *r->Ok_0 == value
                    &&& final(self)@ == old(self)@.with_value(
                        handle.slot_index as int,
                        Some(*final(r->Ok_0)),
                    )
                },
                Err(error) => r == Err::<&mut T, AbiError>(error) && final(self)@ == old(self)@,
            },
            final(self)@.generations.len() == final(self)@.values.len(),
    {
        proof {
            self.lemma_view_len();
        }
        let index = self.slot(handle)?;
        if self.slots[index].value.is_none() {
            return Err(AbiError::StaleHandle);
        }
        let slot = &mut self.slots[index];
        let value = slot.value.as_mut().unwrap();
        Ok(value)
    }

    /// Removes and returns the value a handle names; the slot's generation
    /// advances so the handle goes stale.
    pub fn remove(&mut self, handle: PksSessionHandle) -> (r: Result<T, AbiError>)
        ensures
            (r, final(self)@) == remove_outcome(old(self)@, handle),
            final(self)@.generations.len() == final(self)@.values.len(),
    {
        proof {
            self.lemma_view_len();
        }
        let index = self.slot(handle)?;
        if self.slots[index].value.is_none() {
            return Err(AbiError::StaleHandle);
        }
        let current = self.slots[index].generation;
        let generation = if current == u64::MAX {
            1
        } else {
            current + 1
        };
        let ghost before = self@;
        let mut released = HandleSlot { generation, value: None };
        self.slots.set_and_swap(index, &mut released);
        proof {
            self.lemma_view_len();
            assert(self@.generations =~= before.generations.update(index as int, generation));
            assert(self@.values =~= before.values.update(index as int, None));
        }
        match released.value {
            Some(value) => Ok(value),
            None => Err(AbiError::StaleHandle),
        }
    }

    /// Visits every occupied slot's value in slot order. Each occupied slot
    /// ends up holding what one call of `visit` left behind when handed that
    /// slot's value; vacant slots, generations, kind and scope stay as they
    /// were. The order of the calls is not part of the contract.
    pub fn for_each_mut<F: FnMut(&mut T)>(&mut self, visit: F)
        requires
            forall|value: &mut T| #[trigger] visit.requires((value,)),
        ensures
            final(self)@.kind == old(self)@.kind,
            final(self)@.scope_id == old(self)@.scope_id,
            final(self)@.generations == old(self)@.generations,
            final(self)@.values.len() == old(self)@.values.len(),
            forall|i: int|
                0 <= i < old(self)@.values.len() ==> (#[trigger] final(self)@.values[i] is Some
                    <==> old(self)@.values[i] is Some),
            forall|i: int|
                0 <= i < old(self)@.values.len() && old(self)@.values[i] is None
                    ==> #[trigger] final(self)@.values[i] is None,
            forall|i: int|
                0 <= i < old(self)@.values.len() && old(self)@.values[i] is Some ==> exists|
                    m: &mut T,
                |
                    *m == old(self)@.values[i]->0
                        && *final(m) == (#[trigger] final(self)@.values[i])->0
                        && #[trigger] visit.ensures((m,), ()),
            occupied_count(final(self)@.values, final(self)@.values.len() as int) == occupied_count(
                old(self)@.values,
                old(self)@.values.len() as int,
            ),
            forall|handle: PksSessionHandle|
                #[trigger] lookup(final(self)@, handle) is Ok <==> lookup(old(self)@, handle) is Ok,
    {
        proof {
            self.lemma_view_len();
        }
        let ghost start = self@;
        let mut visitor = visit;
        let mut index: usize = 0;
        while index < self.slots.len()
            invariant
                forall|value: &mut T| #[trigger] visitor.requires((value,)),
                visitor == visit,
                start == old(self)@,
                self@.kind == start.kind,
                self@.scope_id == start.scope_id,
                self@.generations == start.generations,
                self@.values.len() == start.values.len(),
                self@.values.len() == self.slots@.len(),
                self@.generations.len() == self.slots@.len(),
                index <= self.slots@.len(),
                forall|i: int|
                    0 <= i < start.values.len() ==> (#[trigger] self@.values[i] is Some
                        <==> start.values[i] is Some),
                forall|i: int|
                    index <= i < start.values.len() ==> #[trigger] self@.values[i]
                        == start.values[i],
                forall|i: int|
                    0 <= i < index && start.values[i] is Some ==> exists|m: &mut T|
                        *m == start.values[i]->0 && *final(m) == (#[trigger] self@.values[i])->0
                            && #[trigger] visit.ensures((m,), ()),
            decreases self.slots@.len() - index,
        {
            if self.slots[index].value.is_some() {
                let ghost before = self@;
                assert(before.values[index as int] == start.values[index as int]);
                let slot = &mut self.slots[index];
                let value = slot.value.as_mut().unwrap();
                visitor(value);
                proof {
                    self.lemma_view_len();
                    assert(self@.generations =~= before.generations);
                    assert(exists|m: &mut T|
                        *m == start.values[index as int]->0
                            && *final(m) == (#[trigger] self@.values[index as int])->0
                            && #[trigger] visit.ensures((m,), ()));
                    assert forall|i: int|
                        0 <= i < index && start.values[i] is Some implies exists|m: &mut T|
                        *m == start.values[i]->0 && *final(m) == (#[trigger] self@.values[i])->0
                            && #[trigger] visit.ensures((m,), ()) by {
                        assert(self@.values[i] == before.values[i]);
                    }
                    assert forall|i: int|
                        0 <= i < start.values.len() && i != index implies #[trigger] self@.values[i]
                        == before.values[i] by {}
                }
            }
            index = index + 1;
        }
        proof {
            // A call of `visit` exists as soon as one slot was occupied; naming
            // it lets the closing step match the calls the loop made.
            assert((exists|j: int| 0 <= j < start.values.len() && #[trigger] start.values[j] is Some)
                ==> exists|m: &mut T| #[trigger] visit.ensures((m,), ())) by {
                if exists|j: int| 0 <= j < start.values.len() && #[trigger] start.values[j] is Some {
                    let j = choose|j: int| 0 <= j < start.values.len() && #[trigger] start.values[j] is Some;
                    assert(self@.values[j] is Some);
                }
            }
            assert forall|i: int|
                0 <= i < old(self)@.values.len() && old(self)@.values[i] is Some implies exists|
                m: &mut T,
            |
                *m == old(self)@.values[i]->0
                    && *final(m) == (#[trigger] final(self)@.values[i])->0
                    && #[trigger] visit.ensures((m,), ()) by {
                assert(self@.values[i] == final(self)@.values[i]);
                assert(start.values[i] == old(self)@.values[i]);
            }
            lemma_same_occupancy_same_count(
                start.values,
                self@.values,
                start.values.len() as int,
            );
        }
    }

    /// Number of occupied slots.
    pub fn active_count(&self) -> (r: usize)
        ensures
            r == occupied_count(self@.values, self@.values.len() as int),
            r <= self@.values.len(),
    {
        proof {
            self.lemma_view_len();
        }
        let mut count: usize = 0;
        let mut index: usize = 0;
        while index < self.slots.len()
            invariant
                index <= self.slots@.len(),
                self@.values.len() == self.slots@.len(),
                forall|i: int|
                    0 <= i < self.slots@.len() ==> #[trigger] self@.values[i]
                        == self.slots@[i].value,
                count == occupied_count(self@.values, index as int),
                count <= index,
            decreases self.slots@.len() - index,
        {
            if self.slots[index].value.is_some() {
                count = count + 1;
            }
            index = index + 1;
        }
        count
    }
}

/// The first vacant slot at or after `from` lies in `[from, len]`, is vacant
/// when it is below the length, and every slot before it from `from` on is
/// occupied.
pub proof fn lemma_first_vacant<T>(values: Seq<Option<T>>, from: int)
    requires
        0 <= from <= values.len(),
    ensures
        from <= first_vacant(values, from) <= values.len(),
        first_vacant(values, from) < values.len() ==> values[first_vacant(values, from)] is None,
        forall|i: int| from <= i < first_vacant(values, from) ==> #[trigger] values[i] is Some,
    decreases values.len() - from,
{
    if from < values.len() && values[from] is Some {
        lemma_first_vacant(values, from + 1);
    }
}

/// A handle returned by `insert` resolves to the inserted value, as long as
/// slot indices fit the handle's 32-bit index.
pub proof fn lemma_inserted_handle_resolves<T>(table: HandleTableView<T>, value: T)
    requires
        table.generations.len() == table.values.len(),
        table.values.len() <= u32::MAX + 1,
        first_vacant(table.values, 0) < table.values.len(),
    ensures
        ({
            let index = first_vacant(table.values, 0);
            lookup(table.with_value(index, Some(value)), table.handle_for(index)) == Ok::<
                T,
                AbiError,
            >(value)
        }),
{
    lemma_first_vacant(table.values, 0);
}

/// `insert` fails for want of capacity exactly when every slot is occupied.
pub proof fn lemma_insert_fails_only_when_full<T>(table: HandleTableView<T>)
    ensures
        (first_vacant(table.values, 0) >= table.values.len()) <==> (forall|i: int|
            0 <= i < table.values.len() ==> #[trigger] table.values[i] is Some),
{
    lemma_first_vacant(table.values, 0);
}

/// Once a value is removed, the handle that named it is reported stale.
pub proof fn lemma_removed_handle_is_stale<T>(table: HandleTableView<T>, handle: PksSessionHandle)
    requires
        table.generations.len() == table.values.len(),
        lookup(table, handle) is Ok,
    ensures
        lookup(table.with_released(handle.slot_index as int), handle) == Err::<T, AbiError>(
            AbiError::StaleHandle,
        ),
{
}

/// A handle of the right kind issued under another owner scope is reported
/// foreign, whatever slot or generation it names.
pub proof fn lemma_other_scope_is_foreign<T>(table: HandleTableView<T>, handle: PksSessionHandle)
    requires
        handle.kind == table.kind,
        handle.scope_id != table.scope_id,
    ensures
        lookup(table, handle) == Err::<T, AbiError>(AbiError::ForeignHandle),
{
}

/// Storing into or releasing one slot leaves what every handle naming
/// another slot resolves to unchanged.
pub proof fn lemma_other_slots_unchanged<T>(
    table: HandleTableView<T>,
    index: int,
    value: Option<T>,
    handle: PksSessionHandle,
)
    requires
        table.generations.len() == table.values.len(),
        0 <= index < table.values.len(),
        handle.slot_index != index,
    ensures
        lookup(table.with_value(index, value), handle) == lookup(table, handle),
        lookup(table.with_released(index), handle) == lookup(table, handle),
{
}

/// Generations stay positive through every release, so a handle with
/// generation zero (such as the invalid handle) never resolves.
pub proof fn lemma_generation_zero_never_resolves<T>(
    table: HandleTableView<T>,
    index: int,
    handle: PksSessionHandle,
)
    requires
        table.generations.len() == table.values.len(),
        0 <= index < table.values.len(),
        forall|i: int| 0 <= i < table.generations.len() ==> #[trigger] table.generations[i] >= 1,
        handle.generation == 0,
    ensures
        forall|i: int|
            0 <= i < table.generations.len() ==> #[trigger] table.with_released(index).generations[i]
                >= 1,
        lookup(table, handle) is Err,
        lookup(table.with_released(index), handle) is Err,
{
}


/// Every table's view has one generation per slot.
pub proof fn lemma_table_lengths_agree<T>(table: &HandleTable<T>)
    ensures
        table@.generations.len() == table@.values.len(),
{
    table.lemma_view_len();
}

proof fn lemma_first_vacant_of_filled<T>(
    capacity: nat,
    kind: PksSessionHandleKind,
    scope_id: u64,
    values: Seq<T>,
    from: int,
)
    requires
        values.len() <= capacity,
        0 <= from <= values.len(),
    ensures
        first_vacant(filled_table(capacity, kind, scope_id, values).values, from) == values.len(),
    decreases values.len() - from,
{
    if from < values.len() {
        lemma_first_vacant_of_filled(capacity, kind, scope_id, values, from + 1);
    }
}

/// A fresh table fills its slots in order: with `values` already stored,
/// the next insert takes slot `values.len()` at generation one while a slot
/// is vacant, and is refused for want of capacity once all are taken. So
/// `new(n, ..)` followed by `n` inserts hands out slots `0..n` in order and
/// refuses the next.
pub proof fn lemma_fresh_table_fills_in_order<T>(
    capacity: nat,
    kind: PksSessionHandleKind,
    scope_id: u64,
    values: Seq<T>,
    next: T,
)
    requires
        values.len() <= capacity,
    ensures
        insert_outcome(filled_table(capacity, kind, scope_id, values), next) == if values.len()
            < capacity {
            (
                Ok::<PksSessionHandle, AbiError>(fresh_handle(kind, scope_id, values.len() as int)),
                filled_table(capacity, kind, scope_id, values.push(next)),
            )
        } else {
            (
                Err::<PksSessionHandle, AbiError>(AbiError::NoCapacity),
                filled_table(capacity, kind, scope_id, values),
            )
        },
{
    lemma_first_vacant_of_filled(capacity, kind, scope_id, values, 0);
    if values.len() < capacity {
        let table = filled_table(capacity, kind, scope_id, values);
        assert(table.with_value(values.len() as int, Some(next)) =~= filled_table(
            capacity,
            kind,
            scope_id,
            values.push(next),
        ));
    }
}

/// A fresh table resolves no handle, and each handle it issued resolves to
/// the value stored with it.
pub proof fn lemma_filled_table_lookup<T>(
    capacity: nat,
    kind: PksSessionHandleKind,
    scope_id: u64,
    values: Seq<T>,
    index: int,
)
    requires
        values.len() <= capacity <= u32::MAX + 1,
        0 <= index < values.len(),
    ensures
        lookup(filled_table(capacity, kind, scope_id, values), fresh_handle(kind, scope_id, index))
            == Ok::<T, AbiError>(values[index]),
        forall|handle: PksSessionHandle|
            #[trigger] lookup(filled_table(capacity, kind, scope_id, Seq::<T>::empty()), handle) is Err,
{
}

/// Occupied slots never outnumber the slots.
pub proof fn lemma_occupied_count_bound<T>(values: Seq<Option<T>>, len: int)
    requires
        0 <= len <= values.len(),
    ensures
        occupied_count(values, len) <= len,
    decreases len,
{
    if len > 0 {
        lemma_occupied_count_bound(values, len - 1);
    }
}

/// Changing one slot changes the occupied count by what left and what came.
pub proof fn lemma_occupied_count_update<T>(
    values: Seq<Option<T>>,
    index: int,
    value: Option<T>,
    len: int,
)
    requires
        0 <= index < values.len(),
        0 <= len <= values.len(),
    ensures
        occupied_count(values.update(index, value), len) + (if index < len && values[index] is Some {
            1int
        } else {
            0int
        }) == occupied_count(values, len) + (if index < len && value is Some {
            1int
        } else {
            0int
        }),
    decreases len,
{
    if len > 0 {
        lemma_occupied_count_update(values, index, value, len - 1);
    }
}

/// A fresh table holding `values` counts exactly that many occupants.
pub proof fn lemma_filled_table_count<T>(
    capacity: nat,
    kind: PksSessionHandleKind,
    scope_id: u64,
    values: Seq<T>,
    len: int,
)
    requires
        values.len() <= capacity,
        0 <= len <= capacity,
    ensures
        occupied_count(filled_table(capacity, kind, scope_id, values).values, len) == if len
            < values.len() {
            len
        } else {
            values.len() as int
        },
    decreases len,
{
    if len > 0 {
        lemma_filled_table_count(capacity, kind, scope_id, values, len - 1);
    }
}

/// A successful insert adds one occupant, a successful remove takes one
/// away, and a refused call leaves the count as it was.
pub proof fn lemma_active_count_tracks_inserts_and_removes<T>(
    table: HandleTableView<T>,
    value: T,
    handle: PksSessionHandle,
)
    requires
        table.generations.len() == table.values.len(),
    ensures
        ({
            let before = occupied_count(table.values, table.values.len() as int);
            let (inserted, after_insert) = insert_outcome(table, value);
            let (removed, after_remove) = remove_outcome(table, handle);
            &&& inserted is Ok ==> occupied_count(after_insert.values, after_insert.values.len() as int)
                == before + 1
            &&& inserted is Err ==> occupied_count(after_insert.values, after_insert.values.len() as int)
                == before
            &&& removed is Ok ==> occupied_count(after_remove.values, after_remove.values.len() as int)
                == before - 1
            &&& removed is Err ==> occupied_count(after_remove.values, after_remove.values.len() as int)
                == before
            &&& before <= table.values.len()
        }),
{
    let len = table.values.len() as int;
    lemma_occupied_count_bound(table.values, len);
    lemma_first_vacant(table.values, 0);
    let index = first_vacant(table.values, 0);
    if index < len {
        lemma_occupied_count_update(table.values, index, Some(value), len);
    }
    if lookup(table, handle) is Ok {
        lemma_occupied_count_update(table.values, handle.slot_index as int, None, len);
    }
}

/// The handles a table resolves are exactly the handles of its occupied
/// slots at their current generations, one per occupied slot.
pub proof fn lemma_resolving_handles_are_issued<T>(
    table: HandleTableView<T>,
    handle: PksSessionHandle,
    index: int,
)
    requires
        table.generations.len() == table.values.len(),
        table.values.len() <= u32::MAX + 1,
        0 <= index < table.values.len(),
    ensures
        lookup(table, handle) is Ok <==> (handle.slot_index < table.values.len() && handle
            == table.handle_for(handle.slot_index as int) && table.values[handle.slot_index as int] is Some),
        lookup(table, table.handle_for(index)) is Ok <==> table.values[index] is Some,
{
}

/// After a remove, the removed handle stays stale even once its slot is
/// reused: the slot's generation has advanced, never to zero, so the new
/// occupant's handle differs from the removed one.
pub proof fn lemma_reused_slot_keeps_removed_handle_stale<T>(
    table: HandleTableView<T>,
    handle: PksSessionHandle,
    value: T,
)
    requires
        table.generations.len() == table.values.len(),
        lookup(table, handle) is Ok,
    ensures
        ({
            let released = remove_outcome(table, handle).1;
            let (reinserted, after) = insert_outcome(released, value);
            &&& lookup(released, handle) == Err::<T, AbiError>(AbiError::StaleHandle)
            &&& released.generations[handle.slot_index as int] == next_generation(handle.generation)
            &&& released.generations[handle.slot_index as int] != 0
            &&& reinserted matches Ok(issued) ==> issued != handle
            &&& lookup(after, handle) == Err::<T, AbiError>(AbiError::StaleHandle)
        }),
{
    let released = remove_outcome(table, handle).1;
    lemma_first_vacant(released.values, 0);
}


/// Results and final table of inserting `values` one after another, in
/// order.
pub open spec fn inserts_outcome<T>(table: HandleTableView<T>, values: Seq<T>) -> (
    Seq<Result<PksSessionHandle, AbiError>>,
    HandleTableView<T>,
)
    decreases values.len(),
{
    if values.len() == 0 {
        (Seq::empty(), table)
    } else {
        let (results, before_last) = inserts_outcome(table, values.drop_last());
        let (last, after) = insert_outcome(before_last, values.last());
        (results.push(last), after)
    }
}

/// Inserts never touch kind, scope or generations: every handle they issue
/// names a slot of the table at the generation it had before them.
pub proof fn lemma_inserts_keep_generations<T>(table: HandleTableView<T>, values: Seq<T>)
    requires
        table.generations.len() == table.values.len(),
    ensures
        ({
            let (results, after) = inserts_outcome(table, values);
            &&& after.kind == table.kind
            &&& after.scope_id == table.scope_id
            &&& after.generations == table.generations
            &&& after.values.len() == table.values.len()
            &&& results.len() == values.len()
            &&& forall|k: int|
                0 <= k < results.len() && #[trigger] results[k] is Ok ==> exists|index: int|
                    0 <= index < table.values.len() && results[k] == Ok::<
                        PksSessionHandle,
                        AbiError,
                    >(table.handle_for(index))
        }),
    decreases values.len(),
{
    if values.len() > 0 {
        let prefix = values.drop_last();
        lemma_inserts_keep_generations(table, prefix);
        let (results, before_last) = inserts_outcome(table, prefix);
        lemma_first_vacant(before_last.values, 0);
        let index = first_vacant(before_last.values, 0);
        let (all, after) = inserts_outcome(table, values);
        assert forall|k: int| 0 <= k < all.len() && #[trigger] all[k] is Ok implies exists|i: int|
            0 <= i < table.values.len() && all[k] == Ok::<PksSessionHandle, AbiError>(
                table.handle_for(i),
            ) by {
            if k == all.len() - 1 {
                assert(all[k] == Ok::<PksSessionHandle, AbiError>(table.handle_for(index)));
            } else {
                assert(all[k] == results[k]);
            }
        }
    }
}

/// `new(n, kind, scope)` holds no occupant and resolves no handle; the first
/// `n` inserts into it succeed in order, the `i`-th taking slot `i` at
/// generation one under the table's kind and scope, and the insert after
/// them is refused for want of capacity.
pub proof fn lemma_new_table_fills_then_refuses<T>(
    capacity: nat,
    kind: PksSessionHandleKind,
    scope_id: u64,
    values: Seq<T>,
    next: T,
)
    requires
        values.len() <= capacity,
    ensures
        occupied_count(
            filled_table(capacity, kind, scope_id, Seq::<T>::empty()).values,
            capacity as int,
        ) == 0,
        forall|handle: PksSessionHandle|
            #[trigger] lookup(filled_table(capacity, kind, scope_id, Seq::<T>::empty()), handle) is Err,
        inserts_outcome(filled_table(capacity, kind, scope_id, Seq::<T>::empty()), values) == (
            Seq::new(
                values.len(),
                |i: int| Ok::<PksSessionHandle, AbiError>(fresh_handle(kind, scope_id, i)),
            ),
            filled_table(capacity, kind, scope_id, values),
        ),
        forall|i: int|
            0 <= i <= u32::MAX ==> (#[trigger] fresh_handle(kind, scope_id, i)).slot_index == i
                && fresh_handle(kind, scope_id, i).generation == 1
                && fresh_handle(kind, scope_id, i).kind == kind
                && fresh_handle(kind, scope_id, i).scope_id == scope_id,
        values.len() == capacity ==> insert_outcome(filled_table(capacity, kind, scope_id, values), next)
            == (
            Err::<PksSessionHandle, AbiError>(AbiError::NoCapacity),
            filled_table(capacity, kind, scope_id, values),
        ),
    decreases values.len(),
{
    lemma_filled_table_count(capacity, kind, scope_id, Seq::<T>::empty(), capacity as int);
    lemma_fresh_table_fills_in_order(capacity, kind, scope_id, values, next);
    if values.len() > 0 {
        let prefix = values.drop_last();
        lemma_new_table_fills_then_refuses(capacity, kind, scope_id, prefix, values.last());
        lemma_fresh_table_fills_in_order(capacity, kind, scope_id, prefix, values.last());
        assert(prefix.push(values.last()) =~= values);
        let expected = Seq::new(
            values.len(),
            |i: int| Ok::<PksSessionHandle, AbiError>(fresh_handle(kind, scope_id, i)),
        );
        let earlier = Seq::new(
            prefix.len(),
            |i: int| Ok::<PksSessionHandle, AbiError>(fresh_handle(kind, scope_id, i)),
        );
        assert(earlier.push(
            Ok::<PksSessionHandle, AbiError>(fresh_handle(kind, scope_id, prefix.len() as int)),
        ) =~= expected);
    } else {
        assert(Seq::new(
            0,
            |i: int| Ok::<PksSessionHandle, AbiError>(fresh_handle(kind, scope_id, i)),
        ) =~= Seq::<Result<PksSessionHandle, AbiError>>::empty());
        assert(filled_table(capacity, kind, scope_id, values) =~= filled_table(
            capacity,
            kind,
            scope_id,
            Seq::<T>::empty(),
        ));
    }
}

/// Removing what a handle names gives back the value it resolved to and
/// empties its slot: the occupant count drops by one, handles of other slots
/// resolve as before, and the slot's generation advances to the next
/// non-zero value. The removed handle is stale from then on, also after any
/// number of later inserts, none of which issues it again.
pub proof fn lemma_removed_handle_stays_stale<T>(
    table: HandleTableView<T>,
    handle: PksSessionHandle,
    other: PksSessionHandle,
    later: Seq<T>,
)
    requires
        table.generations.len() == table.values.len(),
        lookup(table, handle) is Ok,
    ensures
        ({
            let (removed, after) = remove_outcome(table, handle);
            let index = handle.slot_index as int;
            let len = table.values.len() as int;
            let (issued, refilled) = inserts_outcome(after, later);
            &&& removed == lookup(table, handle)
            &&& lookup(after, handle) == Err::<T, AbiError>(AbiError::StaleHandle)
            &&& occupied_count(after.values, len) == occupied_count(table.values, len) - 1
            &&& other.slot_index != handle.slot_index ==> lookup(after, other) == lookup(
                table,
                other,
            )
            &&& after.generations[index] == next_generation(handle.generation)
            &&& after.generations[index] != 0
            &&& after.generations[index] != handle.generation
            &&& lookup(refilled, handle) == Err::<T, AbiError>(AbiError::StaleHandle)
            &&& len <= u32::MAX + 1 ==> forall|k: int|
                0 <= k < issued.len() ==> #[trigger] issued[k] != Ok::<PksSessionHandle, AbiError>(
                    handle,
                )
        }),
{
    let (removed, after) = remove_outcome(table, handle);
    let index = handle.slot_index as int;
    let len = table.values.len() as int;
    lemma_occupied_count_update(table.values, index, None, len);
    lemma_inserts_keep_generations(after, later);
    let (issued, refilled) = inserts_outcome(after, later);
    if len <= u32::MAX + 1 {
        assert forall|k: int| 0 <= k < issued.len() implies #[trigger] issued[k] != Ok::<
            PksSessionHandle,
            AbiError,
        >(handle) by {
            if issued[k] is Ok {
                let i = choose|i: int|
                    0 <= i < after.values.len() && issued[k] == Ok::<PksSessionHandle, AbiError>(
                        after.handle_for(i),
                    );
                if i != index {
                    assert((i as u32) != (index as u32));
                }
            }
        }
    }
}

/// Indices of the occupied slots among the first `len`.
pub open spec fn occupied_slots<T>(values: Seq<Option<T>>, len: int) -> Set<int> {
    Set::new(|i: int| 0 <= i < len && values[i] is Some)
}

/// Every handle the table resolves.
pub open spec fn resolving_handles<T>(table: HandleTableView<T>) -> Set<PksSessionHandle> {
    Set::new(|handle: PksSessionHandle| lookup(table, handle) is Ok)
}

proof fn lemma_occupied_slots_len<T>(values: Seq<Option<T>>, len: int)
    requires
        0 <= len <= values.len(),
    ensures
        occupied_slots(values, len).finite(),
        occupied_slots(values, len).len() == occupied_count(values, len),
    decreases len,
{
    if len == 0 {
        assert(occupied_slots(values, len) =~= Set::<int>::empty());
    } else {
        lemma_occupied_slots_len(values, len - 1);
        if values[len - 1] is Some {
            assert(occupied_slots(values, len) =~= occupied_slots(values, len - 1).insert(len - 1));
        } else {
            assert(occupied_slots(values, len) =~= occupied_slots(values, len - 1));
        }
    }
}

/// The occupant count is the number of handles the table resolves, and no
/// more than its slots, as long as slot indices fit the handle's 32-bit
/// index: one handle resolves per occupied slot, none for a vacant one.
pub proof fn lemma_active_count_is_resolving_handles<T>(table: HandleTableView<T>)
    requires
        table.generations.len() == table.values.len(),
        table.values.len() <= u32::MAX + 1,
    ensures
        resolving_handles(table).finite(),
        resolving_handles(table).len() == occupied_count(
            table.values,
            table.values.len() as int,
        ),
        occupied_count(table.values, table.values.len() as int) <= table.values.len(),
{
    let len = table.values.len() as int;
    let slots = occupied_slots(table.values, len);
    let issue = |i: int| table.handle_for(i);
    lemma_occupied_slots_len(table.values, len);
    lemma_occupied_count_bound(table.values, len);
    assert(vstd::relations::injective_on(issue, slots)) by {
        assert forall|i: int, j: int|
            slots.contains(i) && slots.contains(j) && #[trigger] issue(i) == #[trigger] issue(j)
                implies i == j by {
            assert((i as u32) == (j as u32));
        }
    }
    assert(slots.map(issue) =~= resolving_handles(table)) by {
        assert forall|handle: PksSessionHandle|
            #[trigger] resolving_handles(table).contains(handle) implies slots.map(issue).contains(
                handle,
            ) by {
            let i = handle.slot_index as int;
            lemma_resolving_handles_are_issued(table, handle, i);
            assert(slots.contains(i));
            assert(issue(i) == handle);
        }
        assert forall|handle: PksSessionHandle|
            #[trigger] slots.map(issue).contains(handle) implies resolving_handles(table).contains(
                handle,
            ) by {
            let i = choose|i: int| slots.contains(i) && issue(i) == handle;
            lemma_resolving_handles_are_issued(table, handle, i);
        }
    }
    vstd::set_lib::lemma_map_size(slots, resolving_handles(table), issue);
}

/// Two slot sequences occupied at the same places count the same number of
/// occupants.
pub proof fn lemma_same_occupancy_same_count<T>(
    first: Seq<Option<T>>,
    second: Seq<Option<T>>,
    len: int,
)
    requires
        0 <= len <= first.len(),
        len <= second.len(),
        forall|i: int| 0 <= i < len ==> (#[trigger] first[i] is Some <==> second[i] is Some),
    ensures
        occupied_count(first, len) == occupied_count(second, len),
    decreases len,
{
    if len > 0 {
        lemma_same_occupancy_same_count(first, second, len - 1);
        assert(first[len - 1] is Some <==> second[len - 1] is Some);
    }
}

} // verus!
