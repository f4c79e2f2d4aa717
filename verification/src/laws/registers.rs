//! Laws of the guest's registers.

use vstd::prelude::*;

use crate::exceptions::{guest_registers, GuestRegisters, NonVolatileRegisters, RegisterState};

verus! {

/// Where each register of the guest is saved: x0-x18, x29 and x30 in the volatile frame, x19-x28 in
/// the other one.
pub proof fn lemma_saved_registers(
    volatile: RegisterState,
    nonvolatile: NonVolatileRegisters,
    index: int,
)
    ensures
        ({
            let registers = guest_registers(volatile, nonvolatile);
            &&& registers.gprs.len() == 31
            &&& 0 <= index <= 18 ==> registers.gprs[index] == volatile.registers[index]
            &&& 19 <= index <= 28 ==> registers.gprs[index] == nonvolatile.registers[index - 19]
            &&& registers.gprs[29] == volatile.fp
            &&& registers.gprs[30] == volatile.sp
            &&& registers.elr == volatile.elr
            &&& registers.spsr == volatile.spsr
        }),
{
}

/// A register reads as what is saved of it, register 31 as zero, and there are no others.
pub proof fn lemma_read_register(registers: GuestRegisters, index: int)
    ensures
        0 <= index <= 30 ==> registers.gpr(index) == Some(registers.gprs[index]),
        registers.gpr(31) == Some(0u64),
        index < 0 || 31 < index ==> registers.gpr(index) is None,
{
}

/// A write changes the saved register and nothing else, and a write to register 31, or to none,
/// changes nothing.
pub proof fn lemma_written_register(registers: GuestRegisters, index: int, value: u64, other: int)
    requires
        registers.gprs.len() == 31,
    ensures
        ({
            let after = registers.with_gpr(index, value);
            &&& after.gprs.len() == 31
            &&& 0 <= index <= 30 ==> after.gprs[index] == value
            &&& 0 <= other <= 30 && other != index ==> after.gprs[other] == registers.gprs[other]
            &&& index < 0 || 31 <= index ==> after == registers
            &&& after.elr == registers.elr
            &&& after.spsr == registers.spsr
        }),
{
}

/// Going on moves the return address alone, by that many bytes.
pub proof fn lemma_advanced_registers(registers: GuestRegisters, byte_count: int)
    requires
        0 <= byte_count,
        registers.elr + byte_count <= usize::MAX,
    ensures
        registers.advanced(byte_count).elr == registers.elr + byte_count,
        registers.advanced(byte_count).spsr == registers.spsr,
        registers.advanced(byte_count).gprs == registers.gprs,
{
}

} // verus!
