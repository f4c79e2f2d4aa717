//! What the hypervisor keeps about the cores of the guest.

use std::collections::BTreeMap;

use vstd::prelude::*;

verus! {

/// Where a core enters the guest, and with which values in x0-x3.
#[derive(Clone, Copy, Debug, Eq, PartialEq)]
pub struct CoreEntry {
    /// The values of x0-x3.
    pub args: [u64; 4],
    /// The address of the first instruction.
    pub entry_point: u64,
}

/// Whether a core enters the guest at `entry_point` with `context_id` in x0 and zeros in x1-x3.
pub open spec fn is_entry_at(entry: CoreEntry, entry_point: u64, context_id: u64) -> bool {
    entry.entry_point == entry_point && entry.args@ == seq![context_id, 0, 0, 0]
}

/// Returns how a core that was started, or that is powered up again, enters the guest: it is given
/// the context in x0, and nothing else.
pub fn core_entry(entry_point: u64, context_id: u64) -> (entry: CoreEntry)
    ensures
        entry.entry_point == entry_point,
        entry.args@ == seq![context_id, 0, 0, 0],
        is_entry_at(entry, entry_point, context_id),
{
    CoreEntry { args: [context_id, 0, 0, 0], entry_point }
}

/// How a suspended core is to enter the guest again.
#[derive(Clone, Copy, Debug, Eq, PartialEq, Structural)]
pub struct SuspendCoreData {
    /// The address at which the core is to enter the guest.
    pub entry_point: u64,
    /// The value that the core is to be given.
    pub context_id: u64,
}

/// Whether `after` are the suspended cores once the core `mpidr` was to enter the guest again at
/// `entry_point` with `context_id`, and `before` those before it.
pub open spec fn is_saved(
    before: Map<u64, SuspendCoreData>,
    mpidr: u64,
    entry_point: u64,
    context_id: u64,
    after: Map<u64, SuspendCoreData>,
) -> bool {
    after == before.insert(mpidr, SuspendCoreData { entry_point, context_id })
}

/// Whether `entry` is how the core `mpidr` enters the guest again, where `before` are the suspended
/// cores, and `after` those that are left.
pub open spec fn is_resumed(
    before: Map<u64, SuspendCoreData>,
    mpidr: u64,
    entry: Option<CoreEntry>,
    after: Map<u64, SuspendCoreData>,
) -> bool {
    &&& after == before.remove(mpidr)
    &&& match entry {
        Some(entry) => before.dom().contains(mpidr) && is_entry_at(
            entry,
            before[mpidr].entry_point,
            before[mpidr].context_id,
        ),
        None => !before.dom().contains(mpidr),
    }
}

/// The suspended cores, by the value of their MPIDR.
pub struct SuspendContexts {
    contexts: BTreeMap<u64, SuspendCoreData>,
}

impl View for SuspendContexts {
    type V = Map<u64, SuspendCoreData>;

    closed spec fn view(&self) -> Map<u64, SuspendCoreData> {
        self.contexts@
    }
}

impl SuspendContexts {
    /// No core is suspended.
    pub fn new() -> (contexts: Self)
        ensures
            contexts@ == Map::<u64, SuspendCoreData>::empty(),
    {
        SuspendContexts { contexts: BTreeMap::new() }
    }

    /// Saves how the core `mpidr`, which is about to be suspended, is to enter the guest again.
    pub fn save(&mut self, mpidr: u64, entry_point: u64, context_id: u64)
        ensures
            final(self)@ == old(self)@.insert(mpidr, SuspendCoreData { entry_point, context_id }),
            is_saved(old(self)@, mpidr, entry_point, context_id, final(self)@),
    {
        broadcast use vstd::std_specs::btree::group_btree_axioms;

        self.contexts.insert(mpidr, SuspendCoreData { entry_point, context_id });
    }

    /// Forgets about the core `mpidr`, which was not powered down after all.
    pub fn discard(&mut self, mpidr: u64)
        ensures
            final(self)@ == old(self)@.remove(mpidr),
    {
        broadcast use vstd::std_specs::btree::group_btree_axioms;

        self.contexts.remove(&mpidr);
    }

    /// Takes out how the core `mpidr`, which is powered up again, is to enter the guest.
    pub fn take(&mut self, mpidr: u64) -> (entry: Option<CoreEntry>)
        ensures
            final(self)@ == old(self)@.remove(mpidr),
            old(self)@.dom().contains(mpidr) <==> entry is Some,
            entry matches Some(entry) ==> {
                &&& entry.entry_point == old(self)@[mpidr].entry_point
                &&& entry.args@ == seq![old(self)@[mpidr].context_id, 0, 0, 0]
            },
            is_resumed(old(self)@, mpidr, entry, final(self)@),
    {
        broadcast use vstd::std_specs::btree::group_btree_axioms;

        match self.contexts.remove(&mpidr) {
            Some(context) => Some(core_entry(context.entry_point, context.context_id)),
            None => None,
        }
    }
}

/// Which of a fixed number of stacks belongs to which core, by the value of its MPIDR.
///
/// A stack that was given to a core is never taken away from it.
pub struct StackSlots {
    owners: Vec<u64>,
    capacity: usize,
}

/// The owners of the stacks once the core `mpidr` was given one, unless it had one or none was left.
pub open spec fn owners_with(owners: Seq<u64>, capacity: nat, mpidr: u64) -> Seq<u64> {
    if owners.contains(mpidr) || owners.len() == capacity {
        owners
    } else {
        owners.push(mpidr)
    }
}

/// Whether the stack `slot` belongs to the core `mpidr`.
pub open spec fn is_slot_of(slot: int, owners: Seq<u64>, mpidr: u64) -> bool {
    0 <= slot < owners.len() && owners[slot] == mpidr
}

impl StackSlots {
    /// The owners of the stacks that were given away, in order.
    pub closed spec fn owners(self) -> Seq<u64> {
        self.owners@
    }

    /// The number of stacks.
    pub closed spec fn capacity(self) -> nat {
        self.capacity as nat
    }

    /// No core owns two stacks, and there are stacks for all owners.
    pub open spec fn wf(self) -> bool {
        &&& self.owners().no_duplicates()
        &&& self.owners().len() <= self.capacity()
    }

    /// None of `capacity` stacks is given away.
    pub fn new(capacity: usize) -> (slots: Self)
        ensures
            slots.wf(),
            slots.capacity() == capacity,
            slots.owners() == Seq::<u64>::empty(),
    {
        StackSlots { owners: Vec::new(), capacity }
    }

    /// Returns the number of the stack of the core `mpidr`: the one that it was given before, or else
    /// the next one, if there is any left.
    pub fn slot_of(&mut self, mpidr: u64) -> (slot: Option<usize>)
        requires
            old(self).wf(),
        ensures
            final(self).wf(),
            final(self).capacity() == old(self).capacity(),
            final(self).owners() == owners_with(
                old(self).owners(),
                old(self).capacity(),
                mpidr,
            ),
            slot is Some <==> final(self).owners().contains(mpidr),
            slot matches Some(slot) ==> is_slot_of(slot as int, final(self).owners(), mpidr),
    {
        let mut index: usize = 0;
        while index < self.owners.len()
            invariant
                self.wf(),
                index <= self.owners@.len(),
                *self == *old(self),
                forall|i: int| 0 <= i < index ==> self.owners@[i] != mpidr,
            decreases self.owners@.len() - index,
        {
            if self.owners[index] == mpidr {
                return Some(index);
            }
            index = index + 1;
        }
        if self.owners.len() == self.capacity {
            return None;
        }
        self.owners.push(mpidr);
        assert(self.owners@[index as int] == mpidr);
        Some(index)
    }
}

/// A core keeps its stack when another core is given one, and no two cores have the same stack.
pub proof fn lemma_stacks_are_private(
    owners: Seq<u64>,
    capacity: nat,
    mpidr: u64,
    slot: int,
    other: u64,
    other_slot: int,
)
    requires
        owners.no_duplicates(),
        is_slot_of(slot, owners, mpidr),
    ensures
        is_slot_of(slot, owners_with(owners, capacity, other), mpidr),
        is_slot_of(other_slot, owners_with(owners, capacity, other), other) ==> (other_slot == slot
            <==> other == mpidr),
{
}

/// How a core enters the guest again is what was saved when it was suspended, whatever other cores
/// did in the meantime, and it enters only once.
pub proof fn lemma_suspended_core_resumes(
    contexts: Map<u64, SuspendCoreData>,
    mpidr: u64,
    saved: SuspendCoreData,
    other: u64,
    other_saved: SuspendCoreData,
)
    requires
        other != mpidr,
    ensures
        contexts.insert(mpidr, saved).insert(other, other_saved)[mpidr] == saved,
        contexts.insert(mpidr, saved).remove(other).dom().contains(mpidr),
        contexts.insert(mpidr, saved).remove(other)[mpidr] == saved,
        !contexts.insert(mpidr, saved).remove(mpidr).dom().contains(mpidr),
        !contexts.dom().contains(mpidr) ==> contexts.insert(mpidr, saved).remove(mpidr) == contexts,
{
    if !contexts.dom().contains(mpidr) {
        assert(contexts.insert(mpidr, saved).remove(mpidr) =~= contexts);
    }
}

} // verus!
