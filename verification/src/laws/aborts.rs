//! Laws of injected aborts and of guest entry.

use vstd::arithmetic::power2::{lemma2_to64, lemma2_to64_rest};
use vstd::prelude::*;

use crate::exceptions::GuestRegisters;
use crate::hypervisor::{
    at_abort_vector, exception_class, guest_syndrome, has_abort_vector, has_next_instruction,
    masked_el1h, DataAbortOutcome, EmulationOutcome, ExceptionClass, InjectedAbort,
};

verus! {

/// The guest can take an abort unless its vector base is zero, or so high that the vector would be
/// beyond the address space.
pub proof fn lemma_abort_vector_exists(vbar_el1: u64)
    ensures
        !has_abort_vector(vbar_el1) <==> vbar_el1 == 0 || vbar_el1 + 0x200 > usize::MAX,
{
}

/// The guest takes an abort 0x200 bytes into its vector table, in EL1h with all exceptions masked, and
/// with its general-purpose registers as they were.
pub proof fn lemma_abort_is_taken_at_vector(registers: GuestRegisters, vbar_el1: u64)
    requires
        vbar_el1 + 0x200 <= usize::MAX,
    ensures
        ({
            let taken = at_abort_vector(registers, vbar_el1);
            &&& taken.elr == vbar_el1 + 0x200
            &&& taken.spsr == 0x3c5
            &&& taken.gprs == registers.gprs
        }),
{
    lemma2_to64();
}

/// The EL1 registers hold where and with which status the abort happened, the faulting address as it
/// was, and the syndrome, in which only the class 0x24 becomes 0x25.
pub proof fn lemma_guest_is_told_of_abort(
    abort: InjectedAbort,
    registers: GuestRegisters,
    far_el2: u64,
    esr_el2: u64,
)
    requires
        abort.tells_of(registers, far_el2, esr_el2),
    ensures
        abort.elr_el1 == registers.elr,
        abort.spsr_el1 == registers.spsr,
        abort.far_el1 == far_el2,
        esr_el2 / 0x400_0000 % 64 == 0x24 ==> abort.esr_el1 == esr_el2 + 0x400_0000,
        esr_el2 / 0x400_0000 % 64 != 0x24 ==> abort.esr_el1 == esr_el2,
        0 <= guest_syndrome(esr_el2) <= u64::MAX,
{
    lemma2_to64();
    lemma2_to64_rest();
}

/// A status for EL1h with exceptions masked has 5 in bits 0 to 3 and ones in bits 6 to 9, and all
/// other bits as they were.
pub proof fn lemma_masked_status(spsr: u64)
    ensures
        ({
            let masked = masked_el1h(spsr as int);
            &&& 0 <= masked <= u64::MAX
            &&& masked % 16 == 5
            &&& masked / 16 % 4 == spsr as int / 16 % 4
            &&& masked / 64 % 16 == 15
            &&& masked / 1024 == spsr as int / 1024
        }),
{
    lemma2_to64();
    let mode = spsr - spsr as int % 16 + 5;
    let masked = mode + (15 - mode / 64 % 16) * 64;
    assert(masked_el1h(spsr as int) == masked);
    assert(mode % 16 == 5 && mode / 16 == spsr as int / 16);
    let rest = mode / 1024;
    let low = mode % 64;
    assert(mode == rest * 1024 + (mode / 64 % 16) * 64 + low);
    assert(masked == rest * 1024 + 15 * 64 + low);
    assert(masked / 1024 == rest && masked / 64 % 16 == 15 && masked % 64 == low);
    assert(rest == spsr as int / 1024);
    assert(masked % 16 == low % 16 && masked / 16 % 4 == low / 16);
}

/// The class of an exception is in bits 26 to 31 of its syndrome: 0x16 for HVC, 0x17 for SMC, 0x24 for
/// a data abort from a lower exception level. No other class is expected.
pub proof fn lemma_exception_class(esr_el2: u64)
    ensures
        ({
            let ec = esr_el2 as int / 0x400_0000 % 64;
            &&& exception_class(esr_el2) == ExceptionClass::HvcTrappedInAArch64 <==> ec == 0x16
            &&& exception_class(esr_el2) == ExceptionClass::SmcTrappedInAArch64 <==> ec == 0x17
            &&& exception_class(esr_el2) == ExceptionClass::DataAbortLowerEL <==> ec == 0x24
            &&& exception_class(esr_el2) matches ExceptionClass::Unknown(class) ==> class == ec
        }),
{
    lemma2_to64();
}

/// The class of a value, and back.
pub proof fn lemma_class_values(value: u8)
    ensures
        ExceptionClass::of(value) == ExceptionClass::HvcTrappedInAArch64 <==> value == 0x16,
        ExceptionClass::of(value) == ExceptionClass::SmcTrappedInAArch64 <==> value == 0x17,
        ExceptionClass::of(value) == ExceptionClass::DataAbortLowerEL <==> value == 0x24,
        ExceptionClass::of(value) == ExceptionClass::Unknown(value) <==> value != 0x16 && value
            != 0x17 && value != 0x24,
{
}

/// An abort is injected, or lacks a vector, exactly if the access was not emulated.
pub proof fn lemma_abort_outcomes(outcome: DataAbortOutcome)
    ensures
        outcome is Emulated <==> outcome.emulation() == EmulationOutcome::Emulated,
        outcome is NoNextInstruction <==> outcome.emulation()
            == EmulationOutcome::NoNextInstruction,
        outcome is Injected || outcome is NoVector <==> outcome.emulation()
            == EmulationOutcome::NotEmulated,
{
}

/// An instruction has four bytes, so one follows unless the last four bytes of the address space are
/// reached.
pub proof fn lemma_next_instruction(registers: GuestRegisters)
    ensures
        has_next_instruction(registers) <==> registers.elr + 4 <= usize::MAX,
{
}

} // verus!
