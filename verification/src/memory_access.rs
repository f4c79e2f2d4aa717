//! Decoding of trapped guest loads and stores.

use vstd::arithmetic::power2::{lemma2_to64, lemma2_to64_rest, pow2};
use vstd::prelude::*;

use crate::bits::{bit, field};

verus! {

/// Width of a trapped guest memory access.
#[derive(Clone, Copy, Debug, Eq, PartialEq, Structural)]
pub enum MemoryAccessWidth {
    /// 8-bit access.
    U8,
    /// 16-bit access.
    U16,
    /// 32-bit access.
    U32,
    /// 64-bit access.
    U64,
}

impl MemoryAccessWidth {
    /// The number of bits that an access of this width transfers.
    pub open spec fn bit_count(self) -> nat {
        match self {
            MemoryAccessWidth::U8 => 8,
            MemoryAccessWidth::U16 => 16,
            MemoryAccessWidth::U32 => 32,
            MemoryAccessWidth::U64 => 64,
        }
    }

    /// Returns the width in bits.
    #[must_use]
    pub fn bits(self) -> (bits: u32)
        ensures
            bits == self.bit_count(),
            match self {
                MemoryAccessWidth::U8 => bits == 8,
                MemoryAccessWidth::U16 => bits == 16,
                MemoryAccessWidth::U32 => bits == 32,
                MemoryAccessWidth::U64 => bits == 64,
            },
    {
        match self {
            MemoryAccessWidth::U8 => 8,
            MemoryAccessWidth::U16 => 16,
            MemoryAccessWidth::U32 => 32,
            MemoryAccessWidth::U64 => 64,
        }
    }

    /// Returns the value mask for this access width.
    #[must_use]
    pub fn mask(self) -> (mask: u64)
        ensures
            mask == pow2(self.bit_count()) - 1,
            match self {
                MemoryAccessWidth::U8 => mask == 0xff,
                MemoryAccessWidth::U16 => mask == 0xffff,
                MemoryAccessWidth::U32 => mask == 0xffff_ffff,
                MemoryAccessWidth::U64 => mask == 0xffff_ffff_ffff_ffff,
            },
    {
        proof {
            lemma2_to64();
        }
        match self {
            MemoryAccessWidth::U8 => u8::MAX as u64,
            MemoryAccessWidth::U16 => u16::MAX as u64,
            MemoryAccessWidth::U32 => u32::MAX as u64,
            MemoryAccessWidth::U64 => u64::MAX,
        }
    }
}

/// Decoded read or write direction for a trapped memory access.
#[derive(Clone, Copy, Debug, Eq, PartialEq, Structural)]
pub enum MemoryAccessKind {
    /// Guest read from memory into a register.
    Read,
    /// Guest write from a register to memory.
    Write {
        /// Value written by the guest, masked to the access width.
        value: u64,
    },
}

/// Guest memory access decoded from the instruction syndrome that triggered an exception.
///
/// Exception handlers use this to emulate the faulting load or store instruction without decoding
/// the instruction bytes themselves.
pub struct MemoryAccess {
    /// The faulting intermediate physical address.
    pub ipa: u64,
    /// The width of the guest access.
    pub width: MemoryAccessWidth,
    /// Whether the access was a read or write.
    pub kind: MemoryAccessKind,
    /// The general-purpose register encoded in the syndrome.
    pub register_index: usize,
    /// Whether the read result should be sign-extended.
    pub sign_extend: bool,
    /// Whether the target register is 64-bit wide.
    pub register_width_64: bool,
}

// ESR_EL2.ISS fields for a Data Abort exception with a valid instruction syndrome.
//
// See the Arm ESR_EL2 register documentation:
// https://developer.arm.com/documentation/ddi0601/latest/AArch64-Registers/ESR-EL2--Exception-Syndrome-Register--EL2-
const DATA_ABORT_ISS_ISV: u32 = 1 << 24;

const DATA_ABORT_ISS_SAS_SHIFT: u32 = 22;

const DATA_ABORT_ISS_SAS_MASK: u32 = 0b11;

const DATA_ABORT_ISS_SSE: u32 = 1 << 21;

const DATA_ABORT_ISS_SRT_SHIFT: u32 = 16;

const DATA_ABORT_ISS_SRT_MASK: u32 = 0b1_1111;

const DATA_ABORT_ISS_SF: u32 = 1 << 15;

const DATA_ABORT_ISS_WNR: u32 = 1 << 6;

// HPFAR_EL2.FIPA contains the faulting IPA above the 4 KiB page offset. The low
// offset bits come from FAR_EL2.
//
// See the Arm HPFAR_EL2 and FAR_EL2 register documentation:
// https://developer.arm.com/documentation/ddi0601/latest/AArch64-Registers/HPFAR-EL2--Hypervisor-IPA-Fault-Address-Register
// https://developer.arm.com/documentation/ddi0601/latest/AArch64-Registers/FAR-EL2--Fault-Address-Register--EL2-
const FAULT_IPA_PAGE_SHIFT: u64 = 12;

const FAULT_IPA_PAGE_OFFSET_MASK: u64 = 0xfff;

/// Whether the syndrome describes the trapped instruction (ISV, bit 24).
pub open spec fn syndrome_is_valid(iss: u32) -> bool {
    bit(iss as int, 24)
}

/// Whether the syndrome is that of a store (WnR, bit 6).
pub open spec fn syndrome_is_write(iss: u32) -> bool {
    bit(iss as int, 6)
}

/// The width of the access (SAS, bits 22 and 23: the logarithm of the size in bytes).
pub open spec fn syndrome_width(iss: u32) -> MemoryAccessWidth {
    let size = field(iss as int, 22, 2);
    if size == 0 {
        MemoryAccessWidth::U8
    } else if size == 1 {
        MemoryAccessWidth::U16
    } else if size == 2 {
        MemoryAccessWidth::U32
    } else {
        MemoryAccessWidth::U64
    }
}

/// The register that the instruction transfers (SRT, bits 16 to 20).
pub open spec fn syndrome_register(iss: u32) -> usize {
    field(iss as int, 16, 5) as usize
}

/// Whether a load extends the sign of what it reads (SSE, bit 21).
pub open spec fn syndrome_sign_extends(iss: u32) -> bool {
    bit(iss as int, 21)
}

/// Whether the register of the instruction is 64 bits wide (SF, bit 15).
pub open spec fn syndrome_register_is_64_bit(iss: u32) -> bool {
    bit(iss as int, 15)
}

/// The faulting IPA: the page comes from the fault IPA, the offset in it from the fault address.
pub open spec fn fault_ipa(hpfar_fipa: u64, far_va: u64) -> int {
    hpfar_fipa * 4096 % 0x1_0000_0000_0000_0000 + far_va as int % 4096
}

/// The access that a syndrome describes, where `register` is what the register of the instruction
/// holds, if that is known. Only a store needs it.
pub open spec fn decoded_access(
    iss: u32,
    hpfar_fipa: u64,
    far_va: u64,
    register: Option<u64>,
) -> Option<MemoryAccess> {
    let width = syndrome_width(iss);
    if !syndrome_is_valid(iss) || (syndrome_is_write(iss) && register is None) {
        None
    } else {
        Some(
            MemoryAccess {
                ipa: fault_ipa(hpfar_fipa, far_va) as u64,
                width,
                kind: if syndrome_is_write(iss) {
                    MemoryAccessKind::Write {
                        value: (register->0 as int % pow2(width.bit_count()) as int) as u64,
                    }
                } else {
                    MemoryAccessKind::Read
                },
                register_index: syndrome_register(iss),
                sign_extend: syndrome_sign_extends(iss),
                register_width_64: syndrome_register_is_64_bit(iss),
            },
        )
    }
}

/// The number that the low `bit_count` bits of `value` stand for, in two's complement if
/// `signed`.
pub open spec fn loaded_number(value: u64, bit_count: nat, signed: bool) -> int {
    let low = value as int % pow2(bit_count) as int;
    if signed && bit(value as int, (bit_count - 1) as nat) {
        low - pow2(bit_count)
    } else {
        low
    }
}

/// What a register holds once a load put `value` into it: the loaded number, modulo the size of the
/// register. A write to a 32-bit register clears the upper half.
pub open spec fn extended_read(
    value: u64,
    width: MemoryAccessWidth,
    sign_extend: bool,
    register_width_64: bool,
) -> int {
    loaded_number(value, width.bit_count(), sign_extend) % pow2(
        if register_width_64 {
            64
        } else {
            32
        },
    ) as int
}

impl MemoryAccess {
    /// Decodes a Data Abort instruction syndrome into a guest memory access.
    ///
    /// Returns `None` when the syndrome does not include enough information to emulate the access
    /// or when a write access needs a saved register value that `read_register` cannot provide.
    pub fn decode(
        iss: u32,
        hpfar_fipa: u64,
        far_va: u64,
        read_register: impl FnOnce(usize) -> Option<u64>,
    ) -> (access: Option<Self>)
        requires
            syndrome_is_valid(iss) && syndrome_is_write(iss) ==> call_requires(
                read_register,
                (syndrome_register(iss),),
            ),
        ensures
            syndrome_is_valid(iss) && syndrome_is_write(iss) ==> exists|register: Option<u64>|
                #[trigger] call_ensures(read_register, (syndrome_register(iss),), register)
                    && access == decoded_access(iss, hpfar_fipa, far_va, register),
            !(syndrome_is_valid(iss) && syndrome_is_write(iss)) ==> access == decoded_access(
                iss,
                hpfar_fipa,
                far_va,
                None,
            ),
            iss / 0x100_0000 % 2 == 0 ==> access is None,
            iss / 0x100_0000 % 2 == 1 && iss / 0x40 % 2 == 0 ==> access is Some,
            access matches Some(access) ==> {
                &&& access.width == MemoryAccessWidth::U8 <==> iss / 0x40_0000 % 4 == 0
                &&& access.width == MemoryAccessWidth::U16 <==> iss / 0x40_0000 % 4 == 1
                &&& access.width == MemoryAccessWidth::U32 <==> iss / 0x40_0000 % 4 == 2
                &&& access.width == MemoryAccessWidth::U64 <==> iss / 0x40_0000 % 4 == 3
                &&& access.sign_extend <==> iss / 0x20_0000 % 2 == 1
                &&& access.register_index == iss / 0x1_0000 % 32
                &&& access.register_width_64 <==> iss / 0x8000 % 2 == 1
                &&& access.kind is Read <==> iss / 0x40 % 2 == 0
                &&& access.ipa as int % 4096 == far_va as int % 4096
                &&& access.ipa as int / 4096 == hpfar_fipa as int % 0x10_0000_0000_0000
            },
    {
        proof {
            lemma2_to64();
        }
        // Keep emulation syndrome-only: without ISV, ISS does not describe a GPR transfer well
        // enough to handle the abort without decoding the trapped instruction.
        if !decode_valid_instruction_syndrome(iss) {
            return None;
        }
        let width = decode_memory_access_width(iss);
        let register_index: usize = decode_memory_access_register_index(iss);
        let kind = match decode_memory_access_kind(iss, register_index, width, read_register) {
            Some(kind) => kind,
            None => return None,
        };
        Some(
            MemoryAccess {
                ipa: decode_fault_ipa(hpfar_fipa, far_va),
                width,
                kind,
                register_index,
                sign_extend: decode_memory_access_sign_extend(iss),
                register_width_64: decode_memory_access_register_width_64(iss),
            },
        )
    }

    /// Extends an emulated read value according to the decoded access and target register width.
    #[must_use]
    pub fn extend_read_result(&self, value: u64) -> (extended: u64)
        ensures
            extended == extended_read(value, self.width, self.sign_extend, self.register_width_64),
    {
        extend_read_result(value, self.width, self.sign_extend, self.register_width_64)
    }
}

/// Extends `value`, as wide as `width`, to a 32-bit or 64-bit register.
#[must_use]
pub fn extend_read_result(
    value: u64,
    width: MemoryAccessWidth,
    sign_extend: bool,
    register_width_64: bool,
) -> (extended: u64)
    ensures
        extended == extended_read(value, width, sign_extend, register_width_64),
{
    proof {
        lemma2_to64();
        lemma2_to64_rest();
        lemma_mask(value, width);
        if width != MemoryAccessWidth::U64 {
            lemma_sign_extension(value, width);
        }
    }
    let narrow: u64 = value & width.mask();
    assert(narrow & 0xffff_ffff == narrow % 0x1_0000_0000) by (bit_vector);
    assert(narrow as int % 0x1_0000_0000_0000_0000 == narrow);
    assert((narrow - 0x1_0000_0000_0000_0000) % 0x1_0000_0000_0000_0000 == narrow);
    assert((narrow - 0x1_0000_0000_0000_0000) % 0x1_0000_0000 == narrow as int % 0x1_0000_0000);
    if sign_extend && width != MemoryAccessWidth::U64 {
        let shift: u32 = 64 - width.bits();
        let extended: i64 = (narrow << shift) as i64 >> shift;
        if register_width_64 {
            extended as u64
        } else {
            extended as u64 & u32::MAX as u64
        }
    } else if register_width_64 {
        narrow
    } else {
        narrow & u32::MAX as u64
    }
}

/// Shifting the low bits of `value` to the top of a 64-bit register and arithmetically back extends
/// their sign.
proof fn lemma_sign_extension(value: u64, width: MemoryAccessWidth)
    requires
        width != MemoryAccessWidth::U64,
    ensures
        ({
            let narrow = value & ((pow2(width.bit_count()) - 1) as u64);
            let shift = (64 - width.bit_count()) as u32;
            let extended = (narrow << shift) as i64 >> shift;
            &&& extended == loaded_number(value, width.bit_count(), true)
            &&& extended as u64 == extended as int % 0x1_0000_0000_0000_0000
            &&& extended as u64 & 0xffff_ffff == extended as int % 0x1_0000_0000
        }),
{
    lemma2_to64();
    lemma2_to64_rest();
    assert({
        let extended = ((value & 0xff) << 56u32) as i64 >> 56u32;
        &&& value / 0x80 % 2 == 1 ==> extended == value % 0x100 - 0x100
        &&& value / 0x80 % 2 != 1 ==> extended == value % 0x100
    }) by (bit_vector);
    assert({
        let extended = ((value & 0xffff) << 48u32) as i64 >> 48u32;
        &&& value / 0x8000 % 2 == 1 ==> extended == value % 0x1_0000 - 0x1_0000
        &&& value / 0x8000 % 2 != 1 ==> extended == value % 0x1_0000
    }) by (bit_vector);
    assert({
        let extended = ((value & 0xffff_ffff) << 32u32) as i64 >> 32u32;
        &&& value / 0x8000_0000 % 2 == 1 ==> extended == value % 0x1_0000_0000 - 0x1_0000_0000
        &&& value / 0x8000_0000 % 2 != 1 ==> extended == value % 0x1_0000_0000
    }) by (bit_vector);
    let narrow = value & ((pow2(width.bit_count()) - 1) as u64);
    let shift = (64 - width.bit_count()) as u32;
    let extended = (narrow << shift) as i64 >> shift;
    assert(extended as u64 == extended as int % 0x1_0000_0000_0000_0000) by (bit_vector);
    assert(extended as u64 & 0xffff_ffff == extended as int % 0x1_0000_0000) by (bit_vector);
}

fn decode_valid_instruction_syndrome(iss: u32) -> (valid: bool)
    ensures
        valid == syndrome_is_valid(iss),
{
    proof {
        lemma2_to64();
    }
    assert(iss & (1u32 << 24) != 0 <==> iss / 0x100_0000 % 2 == 1) by (bit_vector);
    (iss & DATA_ABORT_ISS_ISV) != 0
}

fn decode_memory_access_width(iss: u32) -> (width: MemoryAccessWidth)
    ensures
        width == syndrome_width(iss),
{
    proof {
        lemma2_to64();
    }
    assert((iss >> 22) & 0b11 == iss / 0x40_0000 % 4) by (bit_vector);
    match (iss >> DATA_ABORT_ISS_SAS_SHIFT) & DATA_ABORT_ISS_SAS_MASK {
        0 => MemoryAccessWidth::U8,
        1 => MemoryAccessWidth::U16,
        2 => MemoryAccessWidth::U32,
        _ => MemoryAccessWidth::U64,
    }
}

fn decode_memory_access_register_index(iss: u32) -> (index: usize)
    ensures
        index == syndrome_register(iss),
        index < 32,
{
    proof {
        lemma2_to64();
    }
    assert((iss >> 16) & 0b1_1111 == iss / 0x1_0000 % 32) by (bit_vector);
    ((iss >> DATA_ABORT_ISS_SRT_SHIFT) & DATA_ABORT_ISS_SRT_MASK) as usize
}

fn decode_memory_access_kind(
    iss: u32,
    register_index: usize,
    width: MemoryAccessWidth,
    read_register: impl FnOnce(usize) -> Option<u64>,
) -> (kind: Option<MemoryAccessKind>)
    requires
        syndrome_is_write(iss) ==> call_requires(read_register, (register_index,)),
    ensures
        !syndrome_is_write(iss) ==> kind == Some(MemoryAccessKind::Read),
        syndrome_is_write(iss) ==> exists|register: Option<u64>| #[trigger]
            call_ensures(read_register, (register_index,), register) && kind == match register {
                Some(value) => Some(
                    MemoryAccessKind::Write {
                        value: (value as int % pow2(width.bit_count()) as int) as u64,
                    },
                ),
                None => None,
            },
{
    if decode_memory_access_is_write(iss) {
        match read_register(register_index) {
            Some(register) => {
                let value: u64 = register & width.mask();
                proof {
                    lemma_mask(register, width);
                }
                Some(MemoryAccessKind::Write { value })
            },
            None => None,
        }
    } else {
        Some(MemoryAccessKind::Read)
    }
}

/// Masking with the mask of a width takes the value modulo the width.
proof fn lemma_mask(value: u64, width: MemoryAccessWidth)
    ensures
        value & ((pow2(width.bit_count()) - 1) as u64) == value as int % pow2(
            width.bit_count(),
        ) as int,
{
    lemma2_to64();
    lemma2_to64_rest();
    assert(value & 0xff == value % 0x100) by (bit_vector);
    assert(value & 0xffff == value % 0x1_0000) by (bit_vector);
    assert(value & 0xffff_ffff == value % 0x1_0000_0000) by (bit_vector);
    assert(value & 0xffff_ffff_ffff_ffff == value) by (bit_vector);
    assert(value as int % 0x1_0000_0000_0000_0000 == value);
}

fn decode_memory_access_is_write(iss: u32) -> (is_write: bool)
    ensures
        is_write == syndrome_is_write(iss),
{
    proof {
        lemma2_to64();
    }
    assert(iss & (1u32 << 6) != 0 <==> iss / 0x40 % 2 == 1) by (bit_vector);
    (iss & DATA_ABORT_ISS_WNR) != 0
}

fn decode_memory_access_sign_extend(iss: u32) -> (sign_extend: bool)
    ensures
        sign_extend == syndrome_sign_extends(iss),
{
    proof {
        lemma2_to64();
    }
    assert(iss & (1u32 << 21) != 0 <==> iss / 0x20_0000 % 2 == 1) by (bit_vector);
    (iss & DATA_ABORT_ISS_SSE) != 0
}

fn decode_memory_access_register_width_64(iss: u32) -> (register_width_64: bool)
    ensures
        register_width_64 == syndrome_register_is_64_bit(iss),
{
    proof {
        lemma2_to64();
    }
    assert(iss & (1u32 << 15) != 0 <==> iss / 0x8000 % 2 == 1) by (bit_vector);
    (iss & DATA_ABORT_ISS_SF) != 0
}

fn decode_fault_ipa(hpfar_fipa: u64, far_va: u64) -> (ipa: u64)
    ensures
        ipa == fault_ipa(hpfar_fipa, far_va),
{
    assert((hpfar_fipa << 12) | (far_va & 0xfff) == hpfar_fipa * 4096 % 0x1_0000_0000_0000_0000
        + far_va % 4096) by (bit_vector);
    (hpfar_fipa << FAULT_IPA_PAGE_SHIFT) | (far_va & FAULT_IPA_PAGE_OFFSET_MASK)
}

/// The value of a decoded write fits in the width of the access.
pub proof fn lemma_written_value_fits(
    iss: u32,
    hpfar_fipa: u64,
    far_va: u64,
    register: Option<u64>,
)
    requires
        decoded_access(iss, hpfar_fipa, far_va, register) is Some,
        syndrome_is_write(iss),
    ensures
        ({
            let access = decoded_access(iss, hpfar_fipa, far_va, register)->0;
            access.kind matches MemoryAccessKind::Write { value } && value < pow2(
                access.width.bit_count(),
            )
        }),
{
    lemma2_to64();
    lemma_mask(register->0, syndrome_width(iss));
}

/// What the register of the instruction holds does not matter for a read.
pub proof fn lemma_read_needs_no_register(
    iss: u32,
    hpfar_fipa: u64,
    far_va: u64,
    register: Option<u64>,
    other: Option<u64>,
)
    requires
        !syndrome_is_write(iss),
    ensures
        decoded_access(iss, hpfar_fipa, far_va, register) == decoded_access(
            iss,
            hpfar_fipa,
            far_va,
            other,
        ),
        decoded_access(iss, hpfar_fipa, far_va, register) is Some <==> syndrome_is_valid(iss),
{
}

/// The register that is decoded exists, or is the zero register.
pub proof fn lemma_decoded_register_exists(iss: u32)
    ensures
        syndrome_register(iss) <= 31,
{
    lemma2_to64();
}

/// The fault IPA has the page offset of the faulting address, and the page of the fault register as
/// far as that fits.
pub proof fn lemma_fault_ipa(hpfar_fipa: u64, far_va: u64)
    ensures
        0 <= fault_ipa(hpfar_fipa, far_va) <= u64::MAX,
        fault_ipa(hpfar_fipa, far_va) % 4096 == far_va as int % 4096,
        fault_ipa(hpfar_fipa, far_va) / 4096 == hpfar_fipa as int % 0x10_0000_0000_0000,
{
}

/// What `extended_read` comes to for each width: the low bits, less the size of their range where the
/// sign is set and extended, modulo the size of the register.
pub proof fn lemma_extended_read_values(
    value: u64,
    width: MemoryAccessWidth,
    sign_extend: bool,
    register_width_64: bool,
)
    ensures
        ({
            let number = match width {
                MemoryAccessWidth::U8 => if sign_extend && value / 0x80 % 2 == 1 {
                    value as int % 0x100 - 0x100
                } else {
                    value as int % 0x100
                },
                MemoryAccessWidth::U16 => if sign_extend && value / 0x8000 % 2 == 1 {
                    value as int % 0x1_0000 - 0x1_0000
                } else {
                    value as int % 0x1_0000
                },
                MemoryAccessWidth::U32 => if sign_extend && value / 0x8000_0000 % 2 == 1 {
                    value as int % 0x1_0000_0000 - 0x1_0000_0000
                } else {
                    value as int % 0x1_0000_0000
                },
                MemoryAccessWidth::U64 => value as int,
            };
            extended_read(value, width, sign_extend, register_width_64) == if register_width_64 {
                number % 0x1_0000_0000_0000_0000
            } else {
                number % 0x1_0000_0000
            }
        }),
{
    lemma2_to64();
    lemma2_to64_rest();
    let number = loaded_number(value, width.bit_count(), sign_extend);
    match width {
        MemoryAccessWidth::U8 => {
            assert(value as int % pow2(8) as int == value as int % 0x100);
            assert(value as int / pow2(7) as int == value as int / 0x80);
        },
        MemoryAccessWidth::U16 => {
            assert(value as int % pow2(16) as int == value as int % 0x1_0000);
            assert(value as int / pow2(15) as int == value as int / 0x8000);
        },
        MemoryAccessWidth::U32 => {
            assert(value as int % pow2(32) as int == value as int % 0x1_0000_0000);
            assert(value as int / pow2(31) as int == value as int / 0x8000_0000);
        },
        MemoryAccessWidth::U64 => {
            assert(value as int % pow2(64) as int == value as int % 0x1_0000_0000_0000_0000);
            assert(number == value || number == value - 0x1_0000_0000_0000_0000);
            assert((value - 0x1_0000_0000_0000_0000) % 0x1_0000_0000 == value as int
                % 0x1_0000_0000);
            assert((value - 0x1_0000_0000_0000_0000) % 0x1_0000_0000_0000_0000 == value as int
                % 0x1_0000_0000_0000_0000);
        },
    }
    assert(number % pow2(64) as int == number % 0x1_0000_0000_0000_0000);
    assert(number % pow2(32) as int == number % 0x1_0000_0000);
}

/// A load leaves the low bits of the register as they were read: those of the access, or those of
/// the register where it is narrower. A load that does not extend the sign clears the bits above.
pub proof fn lemma_extension_keeps_read_bits(
    value: u64,
    width: MemoryAccessWidth,
    sign_extend: bool,
    register_width_64: bool,
)
    ensures
        ({
            let extended = extended_read(value, width, sign_extend, register_width_64);
            let register_bits = if register_width_64 {
                64nat
            } else {
                32nat
            };
            let kept = if width.bit_count() <= register_bits {
                width.bit_count()
            } else {
                register_bits
            };
            &&& 0 <= extended < pow2(register_bits)
            &&& extended % pow2(kept) as int == value as int % pow2(kept) as int
            &&& !sign_extend ==> extended == value as int % pow2(kept) as int
        }),
{
    lemma2_to64();
    lemma2_to64_rest();
    lemma_extended_read_values(value, width, sign_extend, register_width_64);
    match width {
        MemoryAccessWidth::U8 => {
            assert(width.bit_count() == 8);
            assert(value as int % pow2(8) as int == value as int % 0x100);
            let extended = extended_read(value, width, sign_extend, register_width_64);
            assert(extended % pow2(8) as int == extended % 0x100);
        },
        MemoryAccessWidth::U16 => {
            assert(width.bit_count() == 16);
            assert(value as int % pow2(16) as int == value as int % 0x1_0000);
            let extended = extended_read(value, width, sign_extend, register_width_64);
            assert(extended % pow2(16) as int == extended % 0x1_0000);
        },
        MemoryAccessWidth::U32 => {
            assert(width.bit_count() == 32);
            assert(value as int % pow2(32) as int == value as int % 0x1_0000_0000);
            let extended = extended_read(value, width, sign_extend, register_width_64);
            assert(extended % pow2(32) as int == extended % 0x1_0000_0000);
        },
        MemoryAccessWidth::U64 => {
            assert(width.bit_count() == 64);
            assert(value as int % pow2(64) as int == value as int % 0x1_0000_0000_0000_0000);
            assert(value as int % pow2(32) as int == value as int % 0x1_0000_0000);
            let extended = extended_read(value, width, sign_extend, register_width_64);
            assert(extended % pow2(32) as int == extended % 0x1_0000_0000);
            assert(extended % pow2(64) as int == extended % 0x1_0000_0000_0000_0000);
        },
    }
}

} // verus!
