//! Laws of decoded loads and stores.

use vstd::arithmetic::power2::{lemma2_to64, lemma2_to64_rest, pow2};
use vstd::prelude::*;

use crate::exceptions::GuestRegisters;
use crate::hypervisor::{after_read, trapped_access};
use crate::memory_access::{
    decoded_access, extended_read, fault_ipa, lemma_extended_read_values, syndrome_is_valid, syndrome_is_write,
    syndrome_register, MemoryAccess, MemoryAccessKind, MemoryAccessWidth,
};

verus! {

/// An access is decoded exactly if the syndrome has bit 24 set and, for a store, the value of its
/// register is known.
pub proof fn lemma_decoded_exactly_if_described(
    iss: u32,
    hpfar_fipa: u64,
    far_va: u64,
    register: Option<u64>,
)
    ensures
        decoded_access(iss, hpfar_fipa, far_va, register) is Some <==> iss / 0x100_0000 % 2 == 1 && (
        iss / 0x40 % 2 == 0 || register is Some),
        syndrome_is_valid(iss) <==> iss / 0x100_0000 % 2 == 1,
        syndrome_is_write(iss) <==> iss / 0x40 % 2 == 1,
        syndrome_register(iss) == iss / 0x1_0000 % 32,
{
    lemma2_to64();
}

/// Each field of a decoded access is the one that the syndrome has in its place, whatever the other
/// bits are: the width in bits 22 and 23, the sign extension in bit 21, the register in bits 16 to 20,
/// the register width in bit 15 and the direction in bit 6.
pub proof fn lemma_decoded_fields(iss: u32, hpfar_fipa: u64, far_va: u64, register: Option<u64>)
    ensures
        decoded_access(iss, hpfar_fipa, far_va, register) matches Some(access) ==> {
            &&& access.width == MemoryAccessWidth::U8 <==> iss / 0x40_0000 % 4 == 0
            &&& access.width == MemoryAccessWidth::U16 <==> iss / 0x40_0000 % 4 == 1
            &&& access.width == MemoryAccessWidth::U32 <==> iss / 0x40_0000 % 4 == 2
            &&& access.width == MemoryAccessWidth::U64 <==> iss / 0x40_0000 % 4 == 3
            &&& access.sign_extend <==> iss / 0x20_0000 % 2 == 1
            &&& access.register_index == iss / 0x1_0000 % 32
            &&& access.register_width_64 <==> iss / 0x8000 % 2 == 1
            &&& access.kind is Write <==> iss / 0x40 % 2 == 1
            &&& access.kind is Read <==> iss / 0x40 % 2 == 0
        },
{
    lemma2_to64();
}

/// The decoded address has the page offset of the faulting address and the page of the fault
/// register.
pub proof fn lemma_decoded_address(iss: u32, hpfar_fipa: u64, far_va: u64, register: Option<u64>)
    ensures
        decoded_access(iss, hpfar_fipa, far_va, register) matches Some(access) ==> {
            &&& access.ipa as int % 4096 == far_va as int % 4096
            &&& access.ipa as int / 4096 == hpfar_fipa as int % 0x10_0000_0000_0000
        },
        0 <= fault_ipa(hpfar_fipa, far_va) <= u64::MAX,
{
}

/// A store hands over the low bits of its register: as many as the access is wide, and nothing above
/// them.
pub proof fn lemma_stored_value(iss: u32, hpfar_fipa: u64, far_va: u64, register: u64)
    requires
        iss / 0x100_0000 % 2 == 1,
        iss / 0x40 % 2 == 1,
    ensures
        decoded_access(iss, hpfar_fipa, far_va, Some(register)) matches Some(access)
            && access.kind matches MemoryAccessKind::Write { value } && {
            &&& iss / 0x40_0000 % 4 == 0 ==> value == register as int % 0x100
            &&& iss / 0x40_0000 % 4 == 1 ==> value == register as int % 0x1_0000
            &&& iss / 0x40_0000 % 4 == 2 ==> value == register as int % 0x1_0000_0000
            &&& iss / 0x40_0000 % 4 == 3 ==> value == register
        },
{
    lemma2_to64();
    lemma2_to64_rest();
    assert(register as int % 0x1_0000_0000_0000_0000 == register);
}

/// The number of bits that an access transfers is 8, 16, 32 or 64.
pub proof fn lemma_width_in_bits(width: MemoryAccessWidth)
    ensures
        width == MemoryAccessWidth::U8 <==> width.bit_count() == 8,
        width == MemoryAccessWidth::U16 <==> width.bit_count() == 16,
        width == MemoryAccessWidth::U32 <==> width.bit_count() == 32,
        width == MemoryAccessWidth::U64 <==> width.bit_count() == 64,
{
}

/// A load without sign extension gives the low bits of what was read, and zeros above them. One into
/// a 32-bit register gives at most 32 bits.
pub proof fn lemma_load_extends_with_zeros(value: u64, register_width_64: bool)
    ensures
        extended_read(value, MemoryAccessWidth::U8, false, register_width_64) == value as int
            % 0x100,
        extended_read(value, MemoryAccessWidth::U16, false, register_width_64) == value as int
            % 0x1_0000,
        extended_read(value, MemoryAccessWidth::U32, false, register_width_64) == value as int
            % 0x1_0000_0000,
{
    lemma_extended_read_values(value, MemoryAccessWidth::U8, false, register_width_64);
    lemma_extended_read_values(value, MemoryAccessWidth::U16, false, register_width_64);
    lemma_extended_read_values(value, MemoryAccessWidth::U32, false, register_width_64);
}

/// A load of 64 bits fills a 64-bit register with what was read, and a 32-bit register with its lower
/// half. There is no sign to extend.
pub proof fn lemma_load_of_64_bits(value: u64, sign_extend: bool)
    ensures
        extended_read(value, MemoryAccessWidth::U64, sign_extend, true) == value,
        extended_read(value, MemoryAccessWidth::U64, sign_extend, false) == value as int
            % 0x1_0000_0000,
{
    lemma_extended_read_values(value, MemoryAccessWidth::U64, sign_extend, true);
    lemma_extended_read_values(value, MemoryAccessWidth::U64, sign_extend, false);
}

/// A load of 8 bits with sign extension gives, modulo the size of the register, the one number that
/// has the bits that were read and lies in the range of a signed number of 8 bits.
pub proof fn lemma_load_extends_sign_of_8_bits(value: u64, number: int)
    requires
        -0x80 <= number < 0x80,
        (value - number) % 0x100 == 0,
    ensures
        extended_read(value, MemoryAccessWidth::U8, true, true) == number
            % 0x1_0000_0000_0000_0000,
        extended_read(value, MemoryAccessWidth::U8, true, false) == number % 0x1_0000_0000,
{
    lemma_extended_read_values(value, MemoryAccessWidth::U8, true, true);
    lemma_extended_read_values(value, MemoryAccessWidth::U8, true, false);
    let low = value as int % 0x100;
    assert(value / 0x80 % 2 == low / 0x80);
    assert(number == if low >= 0x80 {
        low - 0x100
    } else {
        low
    });
}

/// A load of 16 bits with sign extension gives, modulo the size of the register, the one number that
/// has the bits that were read and lies in the range of a signed number of 16 bits.
pub proof fn lemma_load_extends_sign_of_16_bits(value: u64, number: int)
    requires
        -0x8000 <= number < 0x8000,
        (value - number) % 0x1_0000 == 0,
    ensures
        extended_read(value, MemoryAccessWidth::U16, true, true) == number
            % 0x1_0000_0000_0000_0000,
        extended_read(value, MemoryAccessWidth::U16, true, false) == number % 0x1_0000_0000,
{
    lemma_extended_read_values(value, MemoryAccessWidth::U16, true, true);
    lemma_extended_read_values(value, MemoryAccessWidth::U16, true, false);
    let low = value as int % 0x1_0000;
    assert(value / 0x8000 % 2 == low / 0x8000);
    assert(number == if low >= 0x8000 {
        low - 0x1_0000
    } else {
        low
    });
}

/// A load of 32 bits with sign extension gives, modulo the size of the register, the one number that
/// has the bits that were read and lies in the range of a signed number of 32 bits.
pub proof fn lemma_load_extends_sign_of_32_bits(value: u64, number: int)
    requires
        -0x8000_0000 <= number < 0x8000_0000,
        (value - number) % 0x1_0000_0000 == 0,
    ensures
        extended_read(value, MemoryAccessWidth::U32, true, true) == number
            % 0x1_0000_0000_0000_0000,
        extended_read(value, MemoryAccessWidth::U32, true, false) == number % 0x1_0000_0000,
{
    lemma_extended_read_values(value, MemoryAccessWidth::U32, true, true);
    lemma_extended_read_values(value, MemoryAccessWidth::U32, true, false);
    let low = value as int % 0x1_0000_0000;
    assert(value / 0x8000_0000 % 2 == low / 0x8000_0000);
    assert(number == if low >= 0x8000_0000 {
        low - 0x1_0000_0000
    } else {
        low
    });
}

/// What the hypervisor decodes of a trapped access comes from the three fault registers and, for a
/// store, from the register of the guest that the syndrome names: the address from bits 4 to 47 of
/// HPFAR_EL2 and the page offset of FAR_EL2, and all else from ESR_EL2.
pub proof fn lemma_trapped_access(
    registers: GuestRegisters,
    esr_el2: u64,
    hpfar_el2: u64,
    far_el2: u64,
)
    requires
        registers.gprs.len() == 31,
    ensures
        trapped_access(registers, esr_el2, hpfar_el2, far_el2) is Some <==> esr_el2 / 0x100_0000 % 2
            == 1,
        trapped_access(registers, esr_el2, hpfar_el2, far_el2) matches Some(access) ==> {
            &&& access.ipa == (hpfar_el2 as int / 16 % 0x1000_0000_0000) * 4096 + far_el2 as int
                % 4096
            &&& access.width == MemoryAccessWidth::U8 <==> esr_el2 / 0x40_0000 % 4 == 0
            &&& access.width == MemoryAccessWidth::U16 <==> esr_el2 / 0x40_0000 % 4 == 1
            &&& access.width == MemoryAccessWidth::U32 <==> esr_el2 / 0x40_0000 % 4 == 2
            &&& access.width == MemoryAccessWidth::U64 <==> esr_el2 / 0x40_0000 % 4 == 3
            &&& access.sign_extend <==> esr_el2 / 0x20_0000 % 2 == 1
            &&& access.register_index == esr_el2 / 0x1_0000 % 32
            &&& access.register_width_64 <==> esr_el2 / 0x8000 % 2 == 1
            &&& access.kind is Read <==> esr_el2 / 0x40 % 2 == 0
            &&& access.kind matches MemoryAccessKind::Write { value } ==> {
                let register = esr_el2 as int / 0x1_0000 % 32;
                let stored = if register == 31 {
                    0int
                } else {
                    registers.gprs[register] as int
                };
                &&& access.width == MemoryAccessWidth::U8 ==> value == stored % 0x100
                &&& access.width == MemoryAccessWidth::U16 ==> value == stored % 0x1_0000
                &&& access.width == MemoryAccessWidth::U32 ==> value == stored % 0x1_0000_0000
                &&& access.width == MemoryAccessWidth::U64 ==> value == stored
            }
        },
{
    lemma2_to64();
    lemma2_to64_rest();
    let iss = (esr_el2 % 0x200_0000) as u32;
    let fipa = (hpfar_el2 as int / 16 % 0x1000_0000_0000) as u64;
    let register = registers.gpr(iss as int / 0x1_0000 % 32);
    assert(iss / 0x100_0000 % 2 == esr_el2 / 0x100_0000 % 2 && iss / 0x40_0000 % 4 == esr_el2
        / 0x40_0000 % 4 && iss / 0x20_0000 % 2 == esr_el2 / 0x20_0000 % 2 && iss / 0x1_0000 % 32
        == esr_el2 / 0x1_0000 % 32 && iss / 0x8000 % 2 == esr_el2 / 0x8000 % 2 && iss / 0x40 % 2
        == esr_el2 / 0x40 % 2) by (bit_vector)
        requires
            iss == (esr_el2 % 0x200_0000) as u32,
    ;
    assert(trapped_access(registers, esr_el2, hpfar_el2, far_el2) == decoded_access(
        iss,
        fipa,
        far_el2,
        register,
    ));
    lemma_decoded_exactly_if_described(iss, fipa, far_el2, register);
    lemma_decoded_fields(iss, fipa, far_el2, register);
    lemma_decoded_address(iss, fipa, far_el2, register);
    if iss / 0x100_0000 % 2 == 1 && iss / 0x40 % 2 == 1 {
        lemma_stored_value(iss, fipa, far_el2, register->0);
    }
}

/// A load of 64 bits into a 64-bit register puts the value that was read into the register as it is,
/// and the guest goes on behind the load.
pub proof fn lemma_emulated_load_of_64_bits(
    registers: GuestRegisters,
    esr_el2: u64,
    hpfar_el2: u64,
    far_el2: u64,
    value: u64,
)
    requires
        registers.gprs.len() == 31,
        registers.elr + 4 <= usize::MAX,
        esr_el2 / 0x100_0000 % 2 == 1,
        esr_el2 / 0x40_0000 % 4 == 3,
        esr_el2 / 0x8000 % 2 == 1,
        esr_el2 / 0x40 % 2 == 0,
        esr_el2 / 0x1_0000 % 32 != 31,
    ensures
        ({
            let access = trapped_access(registers, esr_el2, hpfar_el2, far_el2)->0;
            let after = after_read(registers, access, value);
            &&& after.gprs == registers.gprs.update(esr_el2 as int / 0x1_0000 % 32, value)
            &&& after.elr == registers.elr + 4
            &&& after.spsr == registers.spsr
        }),
{
    lemma_trapped_access(registers, esr_el2, hpfar_el2, far_el2);
    lemma_load_of_64_bits(value, esr_el2 / 0x20_0000 % 2 == 1);
}

/// Where an emulated load puts its value: into the register of the instruction, and nowhere if that
/// is the zero register. No other register changes, and the guest goes on behind the load.
pub proof fn lemma_emulated_load(
    registers: GuestRegisters,
    access: MemoryAccess,
    value: u64,
    index: int,
)
    requires
        registers.gprs.len() == 31,
        registers.elr + 4 <= usize::MAX,
    ensures
        ({
            let after = after_read(registers, access, value);
            &&& after.gprs.len() == 31
            &&& access.register_index < 31 ==> after.gprs[access.register_index as int]
                == extended_read(value, access.width, access.sign_extend, access.register_width_64)
            &&& 0 <= index < 31 && index != access.register_index ==> after.gprs[index]
                == registers.gprs[index]
            &&& after.elr == registers.elr + 4
            &&& after.spsr == registers.spsr
        }),
{
    lemma2_to64();
    lemma2_to64_rest();
    crate::memory_access::lemma_extension_keeps_read_bits(
        value,
        access.width,
        access.sign_extend,
        access.register_width_64,
    );
}

} // verus!
