//! Laws of emulated accesses.

use vstd::prelude::*;

use crate::exceptions::GuestRegisters;
use crate::hypervisor::{
    after_read, always_faults, can_call_back, is_emulation, read_emulation, write_emulation, EmulationOutcome,
};
use crate::laws::access::lemma_emulated_load;
use crate::memory_access::{extended_read, MemoryAccess, MemoryAccessKind};
use crate::stage2::{
    region_lookup, MemoryAccessHandlerRegistry, MemoryAccessRegion,
    MemoryReadAccess, MemoryReadResult, MemoryWriteAccess, MemoryWriteResult,
};

verus! {

/// Whether `regions` end where their sizes say, in the order of their addresses, and none of them
/// begins before the one before it ends.
pub open spec fn regions_are_apart<R, W>(regions: Seq<MemoryAccessRegion<R, W>>) -> bool {
    &&& forall|i: int|
        0 <= i < regions.len() ==> (#[trigger] regions[i]).size > 0 && regions[i].end_ipa
            == regions[i].base_ipa + regions[i].size
    &&& forall|i: int, j: int|
        #![trigger regions[i], regions[j]]
        0 <= i < j < regions.len() ==> regions[i].base_ipa + regions[i].size
            <= regions[j].base_ipa
}

/// Whether `region` covers `ipa`.
pub open spec fn is_in_region<R, W>(ipa: int, region: MemoryAccessRegion<R, W>) -> bool {
    region.base_ipa <= ipa < region.base_ipa + region.size
}

/// The regions of a well-formed registry are at most sixteen, consist of whole pages, and are apart.
pub proof fn lemma_registered_regions_are_apart<R, W>(registry: MemoryAccessHandlerRegistry<R, W>)
    requires
        registry.wf(),
    ensures
        regions_are_apart(registry.regions()),
        registry.regions().len() <= 16,
        forall|i: int|
            0 <= i < registry.regions().len() ==> (#[trigger] registry.regions()[i]).base_ipa % 4096
                == 0 && registry.regions()[i].size % 4096 == 0,
{
}

/// An address is looked up in the region that covers it, at its distance from the region's base, and
/// in none if no region covers it.
pub proof fn lemma_lookup<R, W>(regions: Seq<MemoryAccessRegion<R, W>>, index: int, ipa: u64)
    requires
        regions_are_apart(regions),
    ensures
        0 <= index < regions.len() && is_in_region(ipa as int, regions[index]) ==> {
            &&& region_lookup(regions, ipa) matches Some(found)
            &&& found.region == regions[index]
            &&& found.offset == ipa - regions[index].base_ipa
            &&& found.offset < regions[index].size
        },
        (forall|i: int|
            0 <= i < regions.len() ==> !is_in_region(ipa as int, #[trigger] regions[i]))
            ==> region_lookup(regions, ipa) is None,
{
    if 0 <= index < regions.len() && is_in_region(ipa as int, regions[index]) {
        assert(regions[index].range().contains(ipa as int));
        let i = choose|i: int|
            0 <= i < regions.len() && (#[trigger] regions[i]).range().contains(ipa as int);
        assert(regions[i].range().contains(ipa as int));
        assert(i == index);
    }
}

/// A load in a region with a read callback is handed to that callback, with the address, the offset
/// from the base of the region and the width of the load. A load is never handed to a write callback.
pub proof fn lemma_load_reaches_read_callback<R, W>(
    access: MemoryAccess,
    regions: Seq<MemoryAccessRegion<R, W>>,
    index: int,
)
    requires
        regions_are_apart(regions),
        0 <= index < regions.len(),
        is_in_region(access.ipa as int, regions[index]),
        access.kind is Read,
    ensures
        regions[index].handler.read is Some <==> read_emulation(Some(access), regions) is Some,
        read_emulation(Some(access), regions) matches Some((handler, read)) ==> {
            &&& regions[index].handler.read == Some(handler)
            &&& read.ipa == access.ipa
            &&& read.offset == access.ipa - regions[index].base_ipa
            &&& read.width == access.width
        },
        write_emulation(Some(access), regions) is None,
{
    lemma_lookup(regions, index, access.ipa);
}

/// A store in a region with a write callback is handed to that callback, with the address, the offset
/// from the base of the region, and the width and the value of the store. A store is never handed to
/// a read callback.
pub proof fn lemma_store_reaches_write_callback<R, W>(
    access: MemoryAccess,
    regions: Seq<MemoryAccessRegion<R, W>>,
    index: int,
)
    requires
        regions_are_apart(regions),
        0 <= index < regions.len(),
        is_in_region(access.ipa as int, regions[index]),
        access.kind is Write,
    ensures
        regions[index].handler.write is Some <==> write_emulation(Some(access), regions) is Some,
        write_emulation(Some(access), regions) matches Some((handler, write)) ==> {
            &&& regions[index].handler.write == Some(handler)
            &&& write.ipa == access.ipa
            &&& write.offset == access.ipa - regions[index].base_ipa
            &&& write.width == access.width
            &&& access.kind == MemoryAccessKind::Write { value: write.value }
        },
        read_emulation(Some(access), regions) is None,
{
    lemma_lookup(regions, index, access.ipa);
}

/// What is not described by the syndrome, or is in no region, reaches no callback.
pub proof fn lemma_other_accesses_reach_no_callback<R, W>(
    access: MemoryAccess,
    regions: Seq<MemoryAccessRegion<R, W>>,
)
    requires
        regions_are_apart(regions),
    ensures
        read_emulation(None, regions) is None,
        write_emulation(None, regions) is None,
        (forall|i: int|
            0 <= i < regions.len() ==> !is_in_region(access.ipa as int, #[trigger] regions[i])) ==> {
            &&& read_emulation(Some(access), regions) is None
            &&& write_emulation(Some(access), regions) is None
        },
{
    lemma_lookup(regions, 0, access.ipa);
}

/// A callback can tell two stores apart that differ in their address, their width or their value, and
/// two loads that differ in their address or their width.
pub proof fn lemma_callbacks_tell_accesses_apart<R, W>(
    first: MemoryAccess,
    second: MemoryAccess,
    regions: Seq<MemoryAccessRegion<R, W>>,
)
    ensures
        write_emulation(Some(first), regions) matches Some((_, one)) ==> write_emulation(
            Some(second),
            regions,
        ) matches Some((_, other)) ==> one == other ==> {
            &&& first.ipa == second.ipa
            &&& first.width == second.width
            &&& first.kind == second.kind
        },
        read_emulation(Some(first), regions) matches Some((_, one)) ==> read_emulation(
            Some(second),
            regions,
        ) matches Some((_, other)) ==> one == other ==> {
            &&& first.ipa == second.ipa
            &&& first.width == second.width
        },
{
}

/// What comes of a load is what the read callback of its region answers: a value ends up extended in
/// the register of the load, and the guest goes on behind it if there is anything; a fault leaves the
/// guest as it was.
pub proof fn lemma_answer_decides_load<R, W>(
    access: MemoryAccess,
    regions: Seq<MemoryAccessRegion<R, W>>,
    index: int,
    handler: R,
    before: GuestRegisters,
    outcome: EmulationOutcome,
    after: GuestRegisters,
) where
    R: Fn(MemoryReadAccess) -> MemoryReadResult,
    W: Fn(MemoryWriteAccess) -> MemoryWriteResult,

    requires
        regions_are_apart(regions),
        0 <= index < regions.len(),
        is_in_region(access.ipa as int, regions[index]),
        access.kind is Read,
        regions[index].handler.read == Some(handler),
        before.gprs.len() == 31,
        is_emulation(Some(access), regions, before, outcome, after),
    ensures
        exists|read: MemoryReadAccess, answer: MemoryReadResult| #[trigger]
            call_ensures(handler, (read,), answer) && {
                &&& read.ipa == access.ipa
                &&& read.offset == access.ipa - regions[index].base_ipa
                &&& read.width == access.width
                &&& match answer {
                    MemoryReadResult::Value(_) if before.elr + 4 > usize::MAX => outcome
                        == EmulationOutcome::NoNextInstruction && after == before,
                    MemoryReadResult::Value(value) => {
                        &&& outcome == EmulationOutcome::Emulated
                        &&& after.elr == before.elr + 4
                        &&& after.spsr == before.spsr
                        &&& access.register_index < 31 ==> after.gprs == before.gprs.update(
                            access.register_index as int,
                            extended_read(
                                value,
                                access.width,
                                access.sign_extend,
                                access.register_width_64,
                            ) as u64,
                        )
                        &&& access.register_index >= 31 ==> after.gprs == before.gprs
                    },
                    MemoryReadResult::Fault => outcome == EmulationOutcome::NotEmulated && after
                        == before,
                }
            },
{
    lemma_load_reaches_read_callback(access, regions, index);
    let (_, read) = read_emulation(Some(access), regions)->0;
    let answer = choose|answer: MemoryReadResult| #[trigger]
        call_ensures(handler, (read,), answer) && match answer {
            MemoryReadResult::Value(value) => if before.elr + 4 <= usize::MAX {
                outcome == EmulationOutcome::Emulated && after == after_read(before, access, value)
            } else {
                outcome == EmulationOutcome::NoNextInstruction
            },
            MemoryReadResult::Fault => outcome == EmulationOutcome::NotEmulated,
        };
    assert(call_ensures(handler, (read,), answer));
    if answer is Value && before.elr + 4 <= usize::MAX {
        lemma_emulated_load(before, access, answer->Value_0, 0);
        if access.register_index < 31 {
            assert(after.gprs =~= before.gprs.update(
                access.register_index as int,
                extended_read(
                    answer->Value_0,
                    access.width,
                    access.sign_extend,
                    access.register_width_64,
                ) as u64,
            ));
        }
    }
}

/// What comes of a store is what the write callback of its region answers: once it is handled, the
/// guest goes on behind it, if there is anything, with its registers as they were; a fault leaves the
/// guest as it was.
pub proof fn lemma_answer_decides_store<R, W>(
    access: MemoryAccess,
    regions: Seq<MemoryAccessRegion<R, W>>,
    index: int,
    handler: W,
    before: GuestRegisters,
    outcome: EmulationOutcome,
    after: GuestRegisters,
) where
    R: Fn(MemoryReadAccess) -> MemoryReadResult,
    W: Fn(MemoryWriteAccess) -> MemoryWriteResult,

    requires
        regions_are_apart(regions),
        0 <= index < regions.len(),
        is_in_region(access.ipa as int, regions[index]),
        access.kind is Write,
        regions[index].handler.write == Some(handler),
        is_emulation(Some(access), regions, before, outcome, after),
    ensures
        exists|write: MemoryWriteAccess, answer: MemoryWriteResult| #[trigger]
            call_ensures(handler, (write,), answer) && {
                &&& write.ipa == access.ipa
                &&& write.offset == access.ipa - regions[index].base_ipa
                &&& write.width == access.width
                &&& access.kind == MemoryAccessKind::Write { value: write.value }
                &&& match answer {
                    MemoryWriteResult::Handled if before.elr + 4 > usize::MAX => outcome
                        == EmulationOutcome::NoNextInstruction && after == before,
                    MemoryWriteResult::Handled => {
                        &&& outcome == EmulationOutcome::Emulated
                        &&& after.elr == before.elr + 4
                        &&& after.spsr == before.spsr
                        &&& after.gprs == before.gprs
                    },
                    MemoryWriteResult::Fault => outcome == EmulationOutcome::NotEmulated && after
                        == before,
                }
            },
{
    lemma_store_reaches_write_callback(access, regions, index);
    let (_, write) = write_emulation(Some(access), regions)->0;
    let answer = choose|answer: MemoryWriteResult| #[trigger]
        call_ensures(handler, (write,), answer) && match answer {
            MemoryWriteResult::Handled => if before.elr + 4 <= usize::MAX {
                outcome == EmulationOutcome::Emulated && after == before.advanced(4)
            } else {
                outcome == EmulationOutcome::NoNextInstruction
            },
            MemoryWriteResult::Fault => outcome == EmulationOutcome::NotEmulated,
        };
    assert(call_ensures(handler, (write,), answer));
}

/// An access in a region without a callback for it is not emulated, and neither is one in no region
/// or one that the syndrome does not describe. The guest is then left as it was.
pub proof fn lemma_no_callback_no_emulation<R, W>(
    access: MemoryAccess,
    regions: Seq<MemoryAccessRegion<R, W>>,
    index: int,
    before: GuestRegisters,
    outcome: EmulationOutcome,
    after: GuestRegisters,
) where
    R: Fn(MemoryReadAccess) -> MemoryReadResult,
    W: Fn(MemoryWriteAccess) -> MemoryWriteResult,

    requires
        regions_are_apart(regions),
    ensures
        is_emulation(None, regions, before, outcome, after) ==> outcome
            == EmulationOutcome::NotEmulated && after == before,
        is_emulation(Some(access), regions, before, outcome, after) && 0 <= index < regions.len()
            && is_in_region(access.ipa as int, regions[index]) && (if access.kind is Read {
            regions[index].handler.read is None
        } else {
            regions[index].handler.write is None
        }) ==> outcome == EmulationOutcome::NotEmulated && after == before,
        is_emulation(Some(access), regions, before, outcome, after) && (forall|i: int|
            0 <= i < regions.len() ==> !is_in_region(access.ipa as int, #[trigger] regions[i]))
            ==> outcome == EmulationOutcome::NotEmulated && after == before,
{
    lemma_lookup(regions, index, access.ipa);
    lemma_other_accesses_reach_no_callback(access, regions);
}

/// An access is given up for want of a next instruction only at the very end of the address space,
/// and only if a callback answered. The guest is then left as it was.
pub proof fn lemma_no_next_instruction<R, W>(
    access: Option<MemoryAccess>,
    regions: Seq<MemoryAccessRegion<R, W>>,
    before: GuestRegisters,
    outcome: EmulationOutcome,
    after: GuestRegisters,
) where
    R: Fn(MemoryReadAccess) -> MemoryReadResult,
    W: Fn(MemoryWriteAccess) -> MemoryWriteResult,

    requires
        is_emulation(access, regions, before, outcome, after),
    ensures
        outcome == EmulationOutcome::NoNextInstruction ==> before.elr + 4 > usize::MAX && access
            is Some && after == before,
        outcome == EmulationOutcome::Emulated ==> before.elr + 4 <= usize::MAX && access is Some,
{
}

/// If every callback can be called with every access, every access can be handled.
pub proof fn lemma_total_callbacks_can_be_called<R, W>(
    access: Option<MemoryAccess>,
    regions: Seq<MemoryAccessRegion<R, W>>,
) where
    R: Fn(MemoryReadAccess) -> MemoryReadResult,
    W: Fn(MemoryWriteAccess) -> MemoryWriteResult,

    requires
        regions_are_apart(regions),
        forall|handler: R, read: MemoryReadAccess| #[trigger] call_requires(handler, (read,)),
        forall|handler: W, write: MemoryWriteAccess| #[trigger] call_requires(handler, (write,)),
    ensures
        can_call_back(access, regions),
{
}

/// If no callback ever answers, an access can only fault.
pub proof fn lemma_faulting_callbacks_always_fault<R, W>(
    access: Option<MemoryAccess>,
    regions: Seq<MemoryAccessRegion<R, W>>,
) where
    R: Fn(MemoryReadAccess) -> MemoryReadResult,
    W: Fn(MemoryWriteAccess) -> MemoryWriteResult,

    requires
        forall|handler: R, read: MemoryReadAccess, answer: MemoryReadResult| #[trigger]
            call_ensures(handler, (read,), answer) ==> answer is Fault,
        forall|handler: W, write: MemoryWriteAccess, answer: MemoryWriteResult| #[trigger]
            call_ensures(handler, (write,), answer) ==> answer is Fault,
    ensures
        always_faults(access, regions),
{
}

} // verus!
