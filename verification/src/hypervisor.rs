//! Handling of exceptions that the guest takes to the hypervisor, and entry into the guest.

use vstd::arithmetic::power2::{lemma2_to64, lemma2_to64_rest, pow2};
use vstd::prelude::*;
use vstd::std_specs::convert::FromSpecImpl;

use crate::bits::{field, flag, with_field};
use crate::exceptions::{GuestRegisterStateRef, GuestRegisters};
use crate::hvc_response::{HvcResult, SmcccError};
use crate::memory_access::{decoded_access, extended_read, MemoryAccess, MemoryAccessKind};
use crate::psci::{
    is_action_for, is_reading_of, psci_function, try_handle_psci, PsciAction,
};
use crate::stage2::{
    region_lookup, some_region_contains, MemoryAccessHandlerRegistry, MemoryAccessRegion,
    MemoryReadAccess, MemoryReadResult, MemoryWriteAccess, MemoryWriteResult, Stage2Config,
};
use crate::sysregs::{
    cnthctl_el2_flags, elr_el2_with_addr, esr_el1_ec, esr_el1_with_ec, esr_el2_ec, esr_el2_iss,
    far_el2_va, hcr_el2_flags, hpfar_el2_fipa, icc_sre_el2_flags, sctlr_el1_flags, spsr_el1_masks,
    spsr_el1_with_mode, spsr_el2_masks, spsr_el2_with_mode, vtcr_el2_fields,
};

verus! {

/// The length of an AArch64 instruction in bytes.
pub const AARCH64_INSTRUCTION_LENGTH: usize = 4;

/// The exception class of a data abort taken from a lower exception level.
pub const EC_DATA_ABORT_LOWER_EL: u8 = 0x24;

/// The exception class of a data abort taken without a change of the exception level.
pub const EC_DATA_ABORT_SAME_EL: u8 = 0x25;

/// The mode of EL1 with its own stack pointer.
pub const SPSR_EL1H: u8 = 5;

/// The offset in the vector table of synchronous exceptions from the current exception level with
/// its own stack pointer.
pub const CURRENT_EL_SPX_SYNC_OFFSET: u64 = 0x200;

const T0SZ_MAX_SIZE: u8 = 64;

/// The class of an exception.
#[derive(Clone, Copy, Debug, Eq, PartialEq, Structural)]
pub enum ExceptionClass {
    /// HVC instruction execution in `AArch64` state.
    HvcTrappedInAArch64,
    /// SMC instruction execution in `AArch64` state.
    SmcTrappedInAArch64,
    /// Data Abort taken from a lower Exception Level.
    DataAbortLowerEL,
    /// Unknown exception class.
    Unknown(u8),
}

impl ExceptionClass {
    /// The class that `value` stands for.
    pub open spec fn of(value: u8) -> ExceptionClass {
        if value == 0x16 {
            ExceptionClass::HvcTrappedInAArch64
        } else if value == 0x17 {
            ExceptionClass::SmcTrappedInAArch64
        } else if value == EC_DATA_ABORT_LOWER_EL {
            ExceptionClass::DataAbortLowerEL
        } else {
            ExceptionClass::Unknown(value)
        }
    }
}

impl From<u8> for ExceptionClass {
    fn from(value: u8) -> (class: Self) {
        match value {
            0x16 => ExceptionClass::HvcTrappedInAArch64,
            0x17 => ExceptionClass::SmcTrappedInAArch64,
            0x24 => ExceptionClass::DataAbortLowerEL,
            _ => ExceptionClass::Unknown(value),
        }
    }
}

impl FromSpecImpl<u8> for ExceptionClass {
    open spec fn obeys_from_spec() -> bool {
        true
    }

    open spec fn from_spec(value: u8) -> Self {
        ExceptionClass::of(value)
    }
}

/// The access that the guest was trapped at, as far as the syndrome tells.
pub open spec fn trapped_access(
    registers: GuestRegisters,
    esr_el2: u64,
    hpfar_el2: u64,
    far_el2: u64,
) -> Option<MemoryAccess> {
    let iss = field(esr_el2 as int, 0, 25) as u32;
    decoded_access(
        iss,
        field(hpfar_el2 as int, 4, 44) as u64,
        far_el2,
        registers.gpr(crate::memory_access::syndrome_register(iss) as int),
    )
}

/// The callback that emulates a read, and what it is called with.
pub open spec fn read_emulation<R, W>(
    access: Option<MemoryAccess>,
    regions: Seq<MemoryAccessRegion<R, W>>,
) -> Option<(R, MemoryReadAccess)> {
    match access {
        Some(access) => match (access.kind, region_lookup(regions, access.ipa)) {
            (MemoryAccessKind::Read, Some(found)) => match found.region.handler.read {
                Some(handler) => Some(
                    (
                        handler,
                        MemoryReadAccess {
                            ipa: access.ipa,
                            offset: found.offset,
                            width: access.width,
                        },
                    ),
                ),
                None => None,
            },
            _ => None,
        },
        None => None,
    }
}

/// The callback that emulates a write, and what it is called with.
pub open spec fn write_emulation<R, W>(
    access: Option<MemoryAccess>,
    regions: Seq<MemoryAccessRegion<R, W>>,
) -> Option<(W, MemoryWriteAccess)> {
    match access {
        Some(access) => match (access.kind, region_lookup(regions, access.ipa)) {
            (MemoryAccessKind::Write { value }, Some(found)) => match found.region.handler.write {
                Some(handler) => Some(
                    (
                        handler,
                        MemoryWriteAccess {
                            ipa: access.ipa,
                            offset: found.offset,
                            width: access.width,
                            value,
                        },
                    ),
                ),
                None => None,
            },
            _ => None,
        },
        None => None,
    }
}

/// The registers once a read was emulated with `value`: the register of the instruction holds the
/// extended value, and the guest goes on at the next instruction.
pub open spec fn after_read(
    registers: GuestRegisters,
    access: MemoryAccess,
    value: u64,
) -> GuestRegisters {
    registers.with_gpr(
        access.register_index as int,
        extended_read(value, access.width, access.sign_extend, access.register_width_64) as u64,
    ).advanced(AARCH64_INSTRUCTION_LENGTH as int)
}

/// Completes an emulated read: gives the guest the value that was read, and goes on at the next
/// instruction.
///
/// # Errors
///
/// Returns an error, and leaves the guest as it is, if the read faulted or the register of the
/// access does not exist.
pub fn complete_read(
    register_state: &mut GuestRegisterStateRef<'_>,
    access: &MemoryAccess,
    result: MemoryReadResult,
) -> (completed: Result<(), ()>)
    requires
        result is Value && access.register_index <= 31 ==> has_next_instruction(
            old(register_state)@,
        ),
    ensures
        completed is Ok <==> result is Value && access.register_index <= 31,
        final(register_state)@ == if result is Value && access.register_index <= 31 {
            after_read(old(register_state)@, *access, result->Value_0)
        } else {
            old(register_state)@
        },
        *final(final(register_state).volatile) == *final(old(register_state).volatile),
        *final(final(register_state).nonvolatile) == *final(old(register_state).nonvolatile),
{
    match result {
        MemoryReadResult::Value(value) => {
            let value: u64 = access.extend_read_result(value);
            match register_state.write_gpr(access.register_index, value) {
                Ok(()) => {},
                Err(_) => return Err(()),
            }
            advance_guest_pc(register_state);
            Ok(())
        },
        MemoryReadResult::Fault => Err(()),
    }
}

/// Completes an emulated write: goes on at the next instruction.
///
/// # Errors
///
/// Returns an error, and leaves the guest as it is, if the write faulted.
pub fn complete_write(
    register_state: &mut GuestRegisterStateRef<'_>,
    result: MemoryWriteResult,
) -> (completed: Result<(), ()>)
    requires
        result is Handled ==> has_next_instruction(old(register_state)@),
    ensures
        completed is Ok <==> result is Handled,
        final(register_state)@ == if result is Handled {
            old(register_state)@.advanced(AARCH64_INSTRUCTION_LENGTH as int)
        } else {
            old(register_state)@
        },
        *final(final(register_state).volatile) == *final(old(register_state).volatile),
        *final(final(register_state).nonvolatile) == *final(old(register_state).nonvolatile),
{
    match result {
        MemoryWriteResult::Handled => {
            advance_guest_pc(register_state);
            Ok(())
        },
        MemoryWriteResult::Fault => Err(()),
    }
}

fn advance_guest_pc(register_state: &mut GuestRegisterStateRef<'_>)
    requires
        has_next_instruction(old(register_state)@),
    ensures
        final(register_state)@ == old(register_state)@.advanced(AARCH64_INSTRUCTION_LENGTH as int),
        *final(final(register_state).volatile) == *final(old(register_state).volatile),
        *final(final(register_state).nonvolatile) == *final(old(register_state).nonvolatile),
{
    register_state.advance_pc(AARCH64_INSTRUCTION_LENGTH);
}

/// What became of an attempt to emulate an access of the guest.
#[derive(Clone, Copy, Debug, Eq, PartialEq, Structural)]
pub enum EmulationOutcome {
    /// The access was emulated, and the guest goes on behind it.
    Emulated,
    /// The syndrome does not describe the access, no callback is registered for it, or the callback
    /// reported a fault.
    NotEmulated,
    /// The callback answered, but no instruction can follow the one that the guest was trapped at.
    NoNextInstruction,
}

/// Whether an instruction can follow the one at which the guest was trapped.
pub open spec fn has_next_instruction(registers: GuestRegisters) -> bool {
    registers.elr + AARCH64_INSTRUCTION_LENGTH <= usize::MAX
}

/// Whether the callback that emulates `access`, if there is one, can be called.
pub open spec fn can_call_back<R, W>(
    access: Option<MemoryAccess>,
    regions: Seq<MemoryAccessRegion<R, W>>,
) -> bool where
    R: Fn(MemoryReadAccess) -> MemoryReadResult,
    W: Fn(MemoryWriteAccess) -> MemoryWriteResult,
 {
    &&& read_emulation(access, regions) matches Some((handler, read)) ==> call_requires(
        handler,
        (read,),
    )
    &&& write_emulation(access, regions) matches Some((handler, write)) ==> call_requires(
        handler,
        (write,),
    )
}

/// Whether the callback that emulates `access`, if there is one, can only report a fault.
pub open spec fn always_faults<R, W>(
    access: Option<MemoryAccess>,
    regions: Seq<MemoryAccessRegion<R, W>>,
) -> bool where
    R: Fn(MemoryReadAccess) -> MemoryReadResult,
    W: Fn(MemoryWriteAccess) -> MemoryWriteResult,
 {
    &&& read_emulation(access, regions) matches Some((handler, read)) ==> forall|
        answer: MemoryReadResult,
    | #[trigger]
        call_ensures(handler, (read,), answer) ==> answer is Fault
    &&& write_emulation(access, regions) matches Some((handler, write)) ==> forall|
        answer: MemoryWriteResult,
    | #[trigger]
        call_ensures(handler, (write,), answer) ==> answer is Fault
}

/// Whether an attempt to emulate `access` can have this outcome, and leave the guest that had the
/// registers `before` with the registers `after`.
///
/// If there is a callback for the access, its answer decides. A value that was read goes to the
/// register of the instruction, and the guest goes on at the next instruction. Otherwise, and if
/// there is no callback, nothing changes.
pub open spec fn is_emulation<R, W>(
    access: Option<MemoryAccess>,
    regions: Seq<MemoryAccessRegion<R, W>>,
    before: GuestRegisters,
    outcome: EmulationOutcome,
    after: GuestRegisters,
) -> bool where
    R: Fn(MemoryReadAccess) -> MemoryReadResult,
    W: Fn(MemoryWriteAccess) -> MemoryWriteResult,
 {
    &&& outcome != EmulationOutcome::Emulated ==> after == before
    &&& match (read_emulation(access, regions), write_emulation(access, regions)) {
        (Some((handler, read)), _) => exists|answer: MemoryReadResult| #[trigger]
            call_ensures(handler, (read,), answer) && match answer {
                MemoryReadResult::Value(value) => if has_next_instruction(before) {
                    outcome == EmulationOutcome::Emulated && after == after_read(
                        before,
                        access->0,
                        value,
                    )
                } else {
                    outcome == EmulationOutcome::NoNextInstruction
                },
                MemoryReadResult::Fault => outcome == EmulationOutcome::NotEmulated,
            },
        (None, Some((handler, write))) => exists|answer: MemoryWriteResult| #[trigger]
            call_ensures(handler, (write,), answer) && match answer {
                MemoryWriteResult::Handled => if has_next_instruction(before) {
                    outcome == EmulationOutcome::Emulated && after == before.advanced(
                        AARCH64_INSTRUCTION_LENGTH as int,
                    )
                } else {
                    outcome == EmulationOutcome::NoNextInstruction
                },
                MemoryWriteResult::Fault => outcome == EmulationOutcome::NotEmulated,
            },
        (None, None) => outcome == EmulationOutcome::NotEmulated,
    }
}

/// Emulates the access that the guest was trapped at, if it is in a handled region.
pub fn emulate_access<R, W>(
    register_state: &mut GuestRegisterStateRef<'_>,
    handlers: &MemoryAccessHandlerRegistry<R, W>,
    esr_el2: u64,
    hpfar_el2: u64,
    far_el2: u64,
) -> (outcome: EmulationOutcome) where
    R: Fn(MemoryReadAccess) -> MemoryReadResult + Copy,
    W: Fn(MemoryWriteAccess) -> MemoryWriteResult + Copy,

    requires
        handlers.wf(),
        can_call_back(
            trapped_access(old(register_state)@, esr_el2, hpfar_el2, far_el2),
            handlers.regions(),
        ),
    ensures
        is_emulation(
            trapped_access(old(register_state)@, esr_el2, hpfar_el2, far_el2),
            handlers.regions(),
            old(register_state)@,
            outcome,
            final(register_state)@,
        ),
        *final(final(register_state).volatile) == *final(old(register_state).volatile),
        *final(final(register_state).nonvolatile) == *final(old(register_state).nonvolatile),
{
    let iss: u32 = esr_el2_iss(esr_el2);
    let fipa: u64 = hpfar_el2_fipa(hpfar_el2);
    let va: u64 = far_el2_va(far_el2);
    let saved = &*register_state;
    let read_register = |index: usize| -> (value: Option<u64>)
        ensures
            value == saved@.gpr(index as int),
        { saved.read_gpr(index) };
    let access = match MemoryAccess::decode(iss, fipa, va, read_register) {
        Some(access) => access,
        None => return EmulationOutcome::NotEmulated,
    };
    let handler_match = match handlers.find(access.ipa) {
        Some(handler_match) => handler_match,
        None => return EmulationOutcome::NotEmulated,
    };
    let has_next: bool = register_state.exception_return_address() <= usize::MAX
        - AARCH64_INSTRUCTION_LENGTH;
    let completed = match access.kind {
        MemoryAccessKind::Read => {
            let read_handler = match handler_match.region.handler.read {
                Some(read_handler) => read_handler,
                None => return EmulationOutcome::NotEmulated,
            };
            let read = MemoryReadAccess {
                ipa: access.ipa,
                offset: handler_match.offset,
                width: access.width,
            };
            let answer = read_handler(read);
            if !has_next && answer != MemoryReadResult::Fault {
                return EmulationOutcome::NoNextInstruction;
            }
            proof {
                lemma2_to64();
            }
            assert(access.register_index <= 31);
            complete_read(register_state, &access, answer)
        },
        MemoryAccessKind::Write { value } => {
            let write_handler = match handler_match.region.handler.write {
                Some(write_handler) => write_handler,
                None => return EmulationOutcome::NotEmulated,
            };
            let write = MemoryWriteAccess {
                ipa: access.ipa,
                offset: handler_match.offset,
                width: access.width,
                value,
            };
            let answer = write_handler(write);
            if !has_next && answer != MemoryWriteResult::Fault {
                return EmulationOutcome::NoNextInstruction;
            }
            complete_write(register_state, answer)
        },
    };
    match completed {
        Ok(()) => EmulationOutcome::Emulated,
        Err(()) => EmulationOutcome::NotEmulated,
    }
}

/// Emulates the access that the guest was trapped at, if it is in a handled region.
///
/// # Errors
///
/// Returns an error, and leaves the guest as it is, if the syndrome does not describe the access, if
/// no handler is registered for it, or if the handler reports a fault.
pub fn try_memory_access_handler<R, W>(
    register_state: &mut GuestRegisterStateRef<'_>,
    handlers: &MemoryAccessHandlerRegistry<R, W>,
    esr_el2: u64,
    hpfar_el2: u64,
    far_el2: u64,
) -> (result: Result<(), ()>) where
    R: Fn(MemoryReadAccess) -> MemoryReadResult + Copy,
    W: Fn(MemoryWriteAccess) -> MemoryWriteResult + Copy,

    requires
        handlers.wf(),
        can_call_back(
            trapped_access(old(register_state)@, esr_el2, hpfar_el2, far_el2),
            handlers.regions(),
        ),
        has_next_instruction(old(register_state)@) || always_faults(
            trapped_access(old(register_state)@, esr_el2, hpfar_el2, far_el2),
            handlers.regions(),
        ),
    ensures
        is_emulation(
            trapped_access(old(register_state)@, esr_el2, hpfar_el2, far_el2),
            handlers.regions(),
            old(register_state)@,
            if result is Ok {
                EmulationOutcome::Emulated
            } else {
                EmulationOutcome::NotEmulated
            },
            final(register_state)@,
        ),
        *final(final(register_state).volatile) == *final(old(register_state).volatile),
        *final(final(register_state).nonvolatile) == *final(old(register_state).nonvolatile),
{
    match emulate_access(register_state, handlers, esr_el2, hpfar_el2, far_el2) {
        EmulationOutcome::Emulated => Ok(()),
        _ => Err(()),
    }
}

/// An exception status for EL1 with its own stack pointer, in which debug exceptions, SErrors, IRQs
/// and FIQs are masked, made from `spsr`.
pub open spec fn masked_el1h(spsr: int) -> int {
    with_field(with_field(spsr, 0, 4, SPSR_EL1H as int), 6, 4, 0b1111)
}

/// The syndrome by which the guest is told of an abort that the hypervisor took with the syndrome
/// `esr_el2`: the guest handles it at the exception level at which it happened.
pub open spec fn guest_syndrome(esr_el2: u64) -> int {
    if field(esr_el2 as int, 26, 6) == EC_DATA_ABORT_LOWER_EL {
        with_field(esr_el2 as int, 26, 6, EC_DATA_ABORT_SAME_EL as int)
    } else {
        esr_el2 as int
    }
}

/// Whether the guest has a vector for an abort: an exception vector base of zero was never set.
pub open spec fn has_abort_vector(vbar_el1: u64) -> bool {
    vbar_el1 != 0 && vbar_el1 + CURRENT_EL_SPX_SYNC_OFFSET <= usize::MAX
}

/// The registers with which the guest enters its abort vector.
pub open spec fn at_abort_vector(registers: GuestRegisters, vbar_el1: u64) -> GuestRegisters {
    GuestRegisters {
        elr: (vbar_el1 + CURRENT_EL_SPX_SYNC_OFFSET) as usize,
        spsr: masked_el1h(0) as u64,
        ..registers
    }
}

/// The EL1 system registers that tell the guest of a data abort.
#[derive(Clone, Copy, Debug, Eq, PartialEq, Structural)]
pub struct InjectedAbort {
    /// The address at which the guest is to go on after the abort.
    pub elr_el1: u64,
    /// The status with which the guest is to go on after the abort.
    pub spsr_el1: u64,
    /// The faulting address.
    pub far_el1: u64,
    /// The syndrome of the abort.
    pub esr_el1: u64,
}

impl InjectedAbort {
    /// Whether these registers tell of an abort that the guest took with `registers`.
    pub open spec fn tells_of(self, registers: GuestRegisters, far_el2: u64, esr_el2: u64) -> bool {
        &&& self.elr_el1 == registers.elr
        &&& self.spsr_el1 == registers.spsr
        &&& self.far_el1 == far_el2
        &&& self.esr_el1 == guest_syndrome(esr_el2)
    }
}

/// Makes the guest take a data abort: it goes on at its abort vector, and the returned registers
/// tell it of the abort.
pub fn inject_data_abort(
    register_state: &mut GuestRegisterStateRef<'_>,
    far_el2: u64,
    esr_el2: u64,
    vbar_el1: u64,
) -> (abort: InjectedAbort)
    requires
        has_abort_vector(vbar_el1),
    ensures
        abort.tells_of(old(register_state)@, far_el2, esr_el2),
        final(register_state)@ == at_abort_vector(old(register_state)@, vbar_el1),
        final(register_state)@.elr == vbar_el1 + 0x200,
        final(register_state)@.spsr == 0x3c5,
        final(register_state)@.gprs == old(register_state)@.gprs,
        abort.elr_el1 == old(register_state)@.elr,
        abort.spsr_el1 == old(register_state)@.spsr,
        abort.far_el1 == far_el2,
        *final(final(register_state).volatile) == *final(old(register_state).volatile),
        *final(final(register_state).nonvolatile) == *final(old(register_state).nonvolatile),
{
    let handler: u64 = vbar_el1 + CURRENT_EL_SPX_SYNC_OFFSET;
    let mut esr_el1: u64 = esr_el2;
    if esr_el1_ec(esr_el1) == EC_DATA_ABORT_LOWER_EL {
        // The abort was taken from a lower exception level, but the guest handles it at EL1.
        esr_el1 = esr_el1_with_ec(esr_el1, EC_DATA_ABORT_SAME_EL);
    }
    let abort = InjectedAbort {
        elr_el1: register_state.exception_return_address() as u64,
        spsr_el1: register_state.exception_return_status(),
        far_el1: far_el2_va(far_el2),
        esr_el1,
    };
    let mode: u64 = spsr_el1_with_mode(0, SPSR_EL1H);
    let masks: u64 = spsr_el1_masks(true, true, true, true);
    proof {
        lemma_masked_el1h(0, mode, masks);
        lemma2_to64();
    }
    register_state.set_exception_return(handler as usize, mode | masks);
    abort
}

/// Setting the mode and then the four masks gives the status of EL1 with exceptions masked.
proof fn lemma_masked_el1h(spsr: u64, mode: u64, masks: u64)
    requires
        mode == with_field(spsr as int, 0, 4, SPSR_EL1H as int),
        masks == flag(true, 9) + flag(true, 8) + flag(true, 7) + flag(true, 6),
    ensures
        mode | masks == masked_el1h(spsr as int),
{
    lemma2_to64();
    assert(mode | 0x3c0 == mode + (0xf - mode / 0x40 % 0x10) * 0x40) by (bit_vector);
}

/// What became of a data abort of the guest.
#[derive(Clone, Copy, Debug, Eq, PartialEq, Structural)]
pub enum DataAbortOutcome {
    /// The access was emulated, and the guest goes on behind it.
    Emulated,
    /// The guest takes the abort, of which these registers are to tell it.
    Injected(InjectedAbort),
    /// The guest would have to take the abort, but has no vector for it.
    NoVector,
    /// The access would be emulated, but no instruction can follow it.
    NoNextInstruction,
}

impl DataAbortOutcome {
    /// The outcome of the attempt to emulate the access.
    pub open spec fn emulation(self) -> EmulationOutcome {
        match self {
            DataAbortOutcome::Emulated => EmulationOutcome::Emulated,
            DataAbortOutcome::NoNextInstruction => EmulationOutcome::NoNextInstruction,
            _ => EmulationOutcome::NotEmulated,
        }
    }
}

/// Handles a data abort of the guest: emulates the access, or else makes the guest take the abort.
pub fn handle_data_abort<R, W>(
    register_state: &mut GuestRegisterStateRef<'_>,
    handlers: &MemoryAccessHandlerRegistry<R, W>,
    esr_el2: u64,
    hpfar_el2: u64,
    far_el2: u64,
    vbar_el1: u64,
) -> (outcome: DataAbortOutcome) where
    R: Fn(MemoryReadAccess) -> MemoryReadResult + Copy,
    W: Fn(MemoryWriteAccess) -> MemoryWriteResult + Copy,

    requires
        handlers.wf(),
        can_call_back(
            trapped_access(old(register_state)@, esr_el2, hpfar_el2, far_el2),
            handlers.regions(),
        ),
    ensures
        is_emulation(
            trapped_access(old(register_state)@, esr_el2, hpfar_el2, far_el2),
            handlers.regions(),
            old(register_state)@,
            outcome.emulation(),
            if outcome is Emulated {
                final(register_state)@
            } else {
                old(register_state)@
            },
        ),
        match outcome {
            DataAbortOutcome::Emulated => true,
            DataAbortOutcome::Injected(abort) => {
                &&& has_abort_vector(vbar_el1)
                &&& abort.tells_of(old(register_state)@, far_el2, esr_el2)
                &&& final(register_state)@ == at_abort_vector(old(register_state)@, vbar_el1)
            },
            DataAbortOutcome::NoVector => {
                &&& !has_abort_vector(vbar_el1)
                &&& final(register_state)@ == old(register_state)@
            },
            DataAbortOutcome::NoNextInstruction => final(register_state)@ == old(register_state)@,
        },
        outcome is NoVector ==> vbar_el1 == 0 || vbar_el1 + 0x200 > usize::MAX,
        outcome is Injected ==> vbar_el1 != 0 && final(register_state)@.elr == vbar_el1 + 0x200
            && final(register_state)@.spsr == 0x3c5 && final(register_state)@.gprs == old(
            register_state,
        )@.gprs,
        *final(final(register_state).volatile) == *final(old(register_state).volatile),
        *final(final(register_state).nonvolatile) == *final(old(register_state).nonvolatile),
{
    match emulate_access(register_state, handlers, esr_el2, hpfar_el2, far_el2) {
        EmulationOutcome::Emulated => DataAbortOutcome::Emulated,
        EmulationOutcome::NoNextInstruction => DataAbortOutcome::NoNextInstruction,
        EmulationOutcome::NotEmulated => {
            if vbar_el1 == 0 || vbar_el1 > usize::MAX as u64 - CURRENT_EL_SPX_SYNC_OFFSET {
                DataAbortOutcome::NoVector
            } else {
                DataAbortOutcome::Injected(
                    inject_data_abort(register_state, far_el2, esr_el2, vbar_el1),
                )
            }
        },
    }
}

/// Whether a call with this function identifier is one to PSCI.
pub open spec fn is_psci_call(function_id: u64) -> bool {
    0x8400_0000 <= function_id <= 0x8400_001f || 0xc400_0000 <= function_id <= 0xc400_001f
}

/// The class of the exception with the syndrome `esr_el2`.
pub open spec fn exception_class(esr_el2: u64) -> ExceptionClass {
    ExceptionClass::of(field(esr_el2 as int, 26, 6) as u8)
}

/// What is to be done for a synchronous exception of the guest.
#[derive(Clone, Copy, Debug, Eq, PartialEq)]
pub enum SyncAction {
    /// Perform the action for a PSCI call, and then finish the call.
    Psci(PsciAction),
    /// Finish the call with this answer.
    Answer(HvcResult),
    /// Have the platform handle the call, and then finish it.
    PlatformCall {
        /// The function identifier, from x0.
        function_id: u64,
        /// The arguments, from x1-x17.
        args: [u64; 17],
    },
    /// Handle the data abort.
    DataAbort,
    /// No such exception is expected.
    Unexpected(u8),
}

/// Whether `action` is what is to be done for a call that the guest made with `registers`.
pub open spec fn is_call_action(action: SyncAction, registers: GuestRegisters) -> bool {
    let call = registers.gprs.take(4);
    if is_psci_call(call[0]) {
        &&& is_reading_of(psci_function(call), call)
        &&& match psci_function(call) {
            Ok(function) => action matches SyncAction::Psci(action) && is_action_for(
                action,
                function,
                call[0],
                call[1],
                call[2],
                call[3],
            ),
            Err(code) => action == SyncAction::Answer(
                HvcResult::Handled(Err(SmcccError::of_code(code))),
            ),
        }
    } else {
        &&& action matches SyncAction::PlatformCall { function_id, args }
        &&& function_id == call[0]
        &&& args@ == registers.gprs.subrange(1, 18)
    }
}

/// Decides what is to be done for a synchronous exception of the guest with the syndrome `esr_el2`.
pub fn handle_sync_lower(register_state: &GuestRegisterStateRef<'_>, esr_el2: u64) -> (action:
    SyncAction)
    ensures
        match exception_class(esr_el2) {
            ExceptionClass::HvcTrappedInAArch64
            | ExceptionClass::SmcTrappedInAArch64 => is_call_action(action, register_state@),
            ExceptionClass::DataAbortLowerEL => action == SyncAction::DataAbort,
            ExceptionClass::Unknown(class) => action == SyncAction::Unexpected(class),
        },
{
    match ExceptionClass::from(esr_el2_ec(esr_el2)) {
        ExceptionClass::HvcTrappedInAArch64 | ExceptionClass::SmcTrappedInAArch64 => {
            let gprs: &[u64; 19] = register_state.volatile_gprs();
            let function_id: u64 = gprs[0];
            if is_psci_function_id(function_id) {
                assert(register_state@.gprs.take(4) == seq![gprs[0], gprs[1], gprs[2], gprs[3]]);
                match try_handle_psci(function_id, gprs[1], gprs[2], gprs[3]) {
                    Ok(action) => SyncAction::Psci(action),
                    Err(error) => SyncAction::Answer(HvcResult::Handled(Err(error))),
                }
            } else {
                let args: [u64; 17] = call_arguments(gprs);
                assert(args@ == register_state@.gprs.subrange(1, 18));
                SyncAction::PlatformCall { function_id, args }
            }
        },
        ExceptionClass::DataAbortLowerEL => SyncAction::DataAbort,
        ExceptionClass::Unknown(class) => SyncAction::Unexpected(class),
    }
}

/// Whether a call with this function identifier is one to PSCI.
fn is_psci_function_id(function_id: u64) -> (is_psci: bool)
    ensures
        is_psci == is_psci_call(function_id),
{
    (0x8400_0000 <= function_id && function_id <= 0x8400_001f) || (0xc400_0000 <= function_id
        && function_id <= 0xc400_001f)
}

/// Returns the arguments of a call, x1-x17.
fn call_arguments(gprs: &[u64; 19]) -> (args: [u64; 17])
    ensures
        args@ == gprs@.subrange(1, 18),
{
    let mut args: [u64; 17] = [0;17];
    let mut index: usize = 0;
    while index < 17
        invariant
            index <= 17,
            forall|i: int| 0 <= i < index ==> args[i] == gprs[i + 1],
        decreases 17 - index,
    {
        args[index] = gprs[index + 1];
        index = index + 1;
    }
    args
}

/// The registers with which the guest goes on after a call that trapped with the syndrome `esr_el2`.
pub open spec fn after_call(
    registers: GuestRegisters,
    esr_el2: u64,
    result: HvcResult,
) -> GuestRegisters {
    if exception_class(esr_el2) == ExceptionClass::SmcTrappedInAArch64 {
        result.applied_to(registers).advanced(AARCH64_INSTRUCTION_LENGTH as int)
    } else {
        result.applied_to(registers)
    }
}

/// Finishes a call that trapped with the syndrome `esr_el2`: answers it with `result`, and goes on
/// behind it.
///
/// When HVC is called in the guest, ELR gets set to the next instruction. When SMC is called in the
/// guest, it is trapped instead of executed, and so ELR gets set to the *same* instruction. Therefore
/// only an SMC has to be skipped, so that it is not executed again.
pub fn finish_call(
    register_state: &mut GuestRegisterStateRef<'_>,
    esr_el2: u64,
    result: HvcResult,
)
    requires
        exception_class(esr_el2) == ExceptionClass::SmcTrappedInAArch64 ==> has_next_instruction(
            old(register_state)@,
        ),
    ensures
        final(register_state)@ == after_call(old(register_state)@, esr_el2, result),
        *final(final(register_state).volatile) == *final(old(register_state).volatile),
        *final(final(register_state).nonvolatile) == *final(old(register_state).nonvolatile),
{
    result.modify_register_state(register_state);
    if ExceptionClass::from(esr_el2_ec(esr_el2)) == ExceptionClass::SmcTrappedInAArch64 {
        register_state.advance_pc(AARCH64_INSTRUCTION_LENGTH);
    }
}

/// Returns the hypervisor configuration under which the guest runs: AArch64 at EL1, SMC calls
/// trapped, stage-2 translation on, and interrupts not routed to EL2.
pub fn guest_hypervisor_configuration() -> (hcr_el2: u64)
    ensures
        hcr_el2 == pow2(31) + pow2(19) + pow2(0),
        hcr_el2 == 0x8008_0001,
{
    proof {
        lemma2_to64();
    }
    hcr_el2_flags(true, true, true, false)
}

/// The system registers, apart from the hypervisor configuration, with which a core enters the
/// guest.
#[derive(Clone, Copy, Debug, Eq, PartialEq, Structural)]
pub struct GuestEntryState {
    /// The offset of the virtual timer.
    pub cntvoff_el2: u64,
    /// Access of the guest to timers.
    pub cnthctl_el2: u64,
    /// Access of the guest to the interrupt controller.
    pub icc_sre_el2: u64,
    /// The status with which the guest is entered.
    pub spsr_el2: u64,
    /// The address at which the guest is entered.
    pub elr_el2: u64,
    /// The translation table of the guest.
    pub ttbr0_el1: u64,
    /// The translation control of the guest.
    pub tcr_el1: u64,
    /// The exception vector base of the guest.
    pub vbar_el1: u64,
    /// The memory attributes of the guest.
    pub mair_el1: u64,
    /// The stack pointer of the guest.
    pub sp_el1: u64,
    /// The system control of the guest.
    pub sctlr_el1: u64,
}

/// Returns the other system registers with which a core enters the guest at `entry_point`, given what the
/// three registers hold that are not set up anew.
pub fn guest_entry_state(
    entry_point: u64,
    cnthctl_el2: u64,
    icc_sre_el2: u64,
    spsr_el2: u64,
) -> (state: GuestEntryState)
    ensures
        state.cntvoff_el2 == 0,
        // Access to the physical timer and counter.
        state.cnthctl_el2 == with_field(cnthctl_el2 as int, 0, 2, 0b11),
        // System register interface on, bypasses off, access from EL1.
        state.icc_sre_el2 == with_field(icc_sre_el2 as int, 0, 4, 0b1111),
        state.spsr_el2 == masked_el1h(spsr_el2 as int),
        state.elr_el2 == entry_point,
        state.ttbr0_el1 == 0,
        state.tcr_el1 == 0,
        state.vbar_el1 == 0,
        state.mair_el1 == 0,
        state.sp_el1 == 0,
        // MMU and caches off: only the bits are set that are one out of reset.
        state.sctlr_el1 == pow2(11) + pow2(20) + pow2(22) + pow2(23) + pow2(28) + pow2(29),
        state.sctlr_el1 == 0x30d0_0800,
        // What is kept of the registers that are not set up anew.
        state.cnthctl_el2 % 4 == 3,
        state.cnthctl_el2 / 4 == cnthctl_el2 / 4,
        state.icc_sre_el2 % 16 == 15,
        state.icc_sre_el2 / 16 == icc_sre_el2 / 16,
        state.spsr_el2 % 16 == 5,
        state.spsr_el2 / 16 % 4 == spsr_el2 / 16 % 4,
        state.spsr_el2 / 64 % 16 == 15,
        state.spsr_el2 / 1024 == spsr_el2 / 1024,
{
    let timer_flags: u64 = cnthctl_el2_flags(true, true);
    let gic_flags: u64 = icc_sre_el2_flags(true, true, true, true);
    let mode: u64 = spsr_el2_with_mode(spsr_el2, SPSR_EL1H);
    let masks: u64 = spsr_el2_masks(true, true, true, true);
    proof {
        lemma2_to64();
        lemma_masked_el1h(spsr_el2, mode, masks);
        crate::laws::aborts::lemma_masked_status(spsr_el2);
        assert((cnthctl_el2 | 3) % 4 == 3 && (cnthctl_el2 | 3) / 4 == cnthctl_el2 / 4)
            by (bit_vector);
        assert((icc_sre_el2 | 0xf) % 16 == 15 && (icc_sre_el2 | 0xf) / 16 == icc_sre_el2 / 16)
            by (bit_vector);
        assert(cnthctl_el2 | 3 == cnthctl_el2 + (3 - cnthctl_el2 / 1 % 4) * 1) by (bit_vector);
        assert(icc_sre_el2 | 0xf == icc_sre_el2 + (0xf - icc_sre_el2 / 1 % 0x10) * 1)
            by (bit_vector);
    }
    GuestEntryState {
        cntvoff_el2: 0,
        cnthctl_el2: cnthctl_el2 | timer_flags,
        icc_sre_el2: icc_sre_el2 | gic_flags,
        spsr_el2: mode | masks,
        elr_el2: elr_el2_with_addr(entry_point),
        ttbr0_el1: 0,
        tcr_el1: 0,
        vbar_el1: 0,
        mair_el1: 0,
        sp_el1: 0,
        sctlr_el1: sctlr_el1_flags(true, true, true, true, true, true),
    }
}

/// Returns the control of the stage-2 translation: 40 bits of addresses in pages of 4 KiB, looked up
/// from level 0 in inner shareable, write-back cacheable tables.
pub fn stage2_translation_control() -> (vtcr_el2: u64)
    ensures
        field(vtcr_el2 as int, 0, 6) == 64 - 40,
        field(vtcr_el2 as int, 6, 2) == 2,
        field(vtcr_el2 as int, 8, 2) == 1,
        field(vtcr_el2 as int, 10, 2) == 1,
        field(vtcr_el2 as int, 12, 2) == 3,
        field(vtcr_el2 as int, 14, 2) == 0,
        field(vtcr_el2 as int, 16, 3) == 2,
        field(vtcr_el2 as int, 19, 45) == 0,
        vtcr_el2 == 0x2_3598,
{
    proof {
        lemma2_to64();
        lemma2_to64_rest();
    }
    vtcr_el2_fields(2, 0, 3, 1, 1, 2, T0SZ_MAX_SIZE - 40)
}

/// The guest goes on at the next instruction exactly if the access was emulated. A write changes no
/// register, and a read changes no other register than that of the instruction.
pub proof fn lemma_emulation_changes_one_register<R, W>(
    access: MemoryAccess,
    regions: Seq<MemoryAccessRegion<R, W>>,
    before: GuestRegisters,
    outcome: EmulationOutcome,
    after: GuestRegisters,
    index: int,
) where
    R: Fn(MemoryReadAccess) -> MemoryReadResult,
    W: Fn(MemoryWriteAccess) -> MemoryWriteResult,

    requires
        is_emulation(Some(access), regions, before, outcome, after),
        before.gprs.len() == 31,
    ensures
        outcome != EmulationOutcome::Emulated ==> after == before,
        outcome == EmulationOutcome::Emulated ==> after.elr == before.elr
            + AARCH64_INSTRUCTION_LENGTH,
        after.spsr == before.spsr,
        access.kind is Write || index != access.register_index ==> after.gpr(index) == before.gpr(
            index,
        ),
{
}

/// A callback is called for addresses in its own region only, and is told the offset in that region.
pub proof fn lemma_callback_is_called_in_its_region<R, W>(
    access: Option<MemoryAccess>,
    regions: Seq<MemoryAccessRegion<R, W>>,
)
    ensures
        read_emulation(access, regions) matches Some((handler, read)) ==> exists|i: int|
            0 <= i < regions.len() && {
                let region = #[trigger] regions[i];
                &&& region.handler.read == Some(handler)
                &&& region.range().contains(read.ipa as int)
                &&& read.offset == read.ipa - region.base_ipa
            },
        write_emulation(access, regions) matches Some((handler, write)) ==> exists|i: int|
            0 <= i < regions.len() && {
                let region = #[trigger] regions[i];
                &&& region.handler.write == Some(handler)
                &&& region.range().contains(write.ipa as int)
                &&& write.offset == write.ipa - region.base_ipa
            },
{
}

/// An access that the syndrome does not describe, or that is in no handled region, is not emulated.
pub proof fn lemma_unhandled_access_is_not_emulated<R, W>(
    access: Option<MemoryAccess>,
    regions: Seq<MemoryAccessRegion<R, W>>,
    before: GuestRegisters,
    outcome: EmulationOutcome,
    after: GuestRegisters,
) where
    R: Fn(MemoryReadAccess) -> MemoryReadResult,
    W: Fn(MemoryWriteAccess) -> MemoryWriteResult,

    requires
        is_emulation(access, regions, before, outcome, after),
        access is None || !some_region_contains(regions, access->0.ipa as int),
    ensures
        outcome == EmulationOutcome::NotEmulated,
        after == before,
{
}

/// What the guest can access directly is never emulated: a fault there is for the guest to handle.
pub proof fn lemma_mapped_access_is_not_emulated<R, W>(
    config: Stage2Config<R, W>,
    access: MemoryAccess,
    before: GuestRegisters,
    outcome: EmulationOutcome,
    after: GuestRegisters,
) where
    R: Fn(MemoryReadAccess) -> MemoryReadResult,
    W: Fn(MemoryWriteAccess) -> MemoryWriteResult,

    requires
        config.wf(),
        config.maps(access.ipa as int),
        is_emulation(
            Some(access),
            config.memory_access_handlers.regions(),
            before,
            outcome,
            after,
        ),
    ensures
        outcome == EmulationOutcome::NotEmulated,
        after == before,
{
}

/// The guest takes an injected abort at EL1 with exceptions masked, and all that it needs to go on
/// where the abort happened is kept: its general-purpose registers, and where it was.
pub proof fn lemma_injected_abort_keeps_context(
    registers: GuestRegisters,
    abort: InjectedAbort,
    far_el2: u64,
    esr_el2: u64,
    vbar_el1: u64,
)
    requires
        abort.tells_of(registers, far_el2, esr_el2),
        has_abort_vector(vbar_el1),
    ensures
        ({
            let taken = at_abort_vector(registers, vbar_el1);
            &&& taken.gprs == registers.gprs
            &&& taken.elr == vbar_el1 + 0x200
            &&& taken.spsr == 0x3c5
            &&& registers == GuestRegisters {
                elr: abort.elr_el1 as usize,
                spsr: abort.spsr_el1,
                ..taken
            }
        }),
{
    lemma2_to64();
}

/// The guest is told of an abort by its syndrome, in which at most the exception class differs: a
/// data abort from a lower exception level becomes one from the same level.
pub proof fn lemma_guest_syndrome(esr_el2: u64)
    ensures
        0 <= guest_syndrome(esr_el2) <= u64::MAX,
        field(guest_syndrome(esr_el2), 0, 26) == field(esr_el2 as int, 0, 26),
        field(guest_syndrome(esr_el2), 32, 32) == field(esr_el2 as int, 32, 32),
        field(guest_syndrome(esr_el2), 26, 6) == if field(esr_el2 as int, 26, 6) == 0x24 {
            0x25
        } else {
            field(esr_el2 as int, 26, 6)
        },
{
    lemma2_to64();
    lemma2_to64_rest();
}

/// After a call, the guest goes on where the exception would return to, except for an SMC, which is
/// skipped. A call never changes the exception return status.
pub proof fn lemma_only_smc_is_skipped(registers: GuestRegisters, esr_el2: u64, result: HvcResult)
    requires
        has_next_instruction(registers),
    ensures
        after_call(registers, esr_el2, result).elr == registers.elr + if exception_class(esr_el2)
            == ExceptionClass::SmcTrappedInAArch64 {
            4int
        } else {
            0int
        },
        after_call(registers, esr_el2, result).spsr == registers.spsr,
        after_call(registers, esr_el2, result).gprs == result.applied_to(registers).gprs,
{
}

/// The platform is asked about every call that is not one to PSCI, and about no other.
pub proof fn lemma_platform_calls_are_not_psci(action: SyncAction, registers: GuestRegisters)
    requires
        is_call_action(action, registers),
        registers.gprs.len() == 31,
    ensures
        action is PlatformCall <==> !is_psci_call(registers.gprs[0]),
{
}

} // verus!
