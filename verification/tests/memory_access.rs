use ritm::memory_access::{MemoryAccess, MemoryAccessKind, MemoryAccessWidth};

const DATA_ABORT_ISS_ISV: u32 = 1 << 24;
const DATA_ABORT_ISS_SAS_SHIFT: u32 = 22;
const DATA_ABORT_ISS_SSE: u32 = 1 << 21;
const DATA_ABORT_ISS_SRT_SHIFT: u32 = 16;
const DATA_ABORT_ISS_SRT_MASK: u32 = 0b1_1111;
const DATA_ABORT_ISS_SF: u32 = 1 << 15;
const DATA_ABORT_ISS_WNR: u32 = 1 << 6;

fn iss(width: MemoryAccessWidth, register_index: u32, flags: u32) -> u32 {
    let sas = match width {
        MemoryAccessWidth::U8 => 0,
        MemoryAccessWidth::U16 => 1,
        MemoryAccessWidth::U32 => 2,
        MemoryAccessWidth::U64 => 3,
    };
    DATA_ABORT_ISS_ISV
        | (sas << DATA_ABORT_ISS_SAS_SHIFT)
        | ((register_index & DATA_ABORT_ISS_SRT_MASK) << DATA_ABORT_ISS_SRT_SHIFT)
        | flags
}

fn decode_with_register(iss: u32, register_value: u64) -> Option<MemoryAccess> {
    MemoryAccess::decode(iss, 0x12345, 0xffff_0000_0000_0abc, |index| {
        assert_eq!(index, 7);
        Some(register_value)
    })
}

fn read_access(
    width: MemoryAccessWidth,
    sign_extend: bool,
    register_width_64: bool,
) -> MemoryAccess {
    MemoryAccess {
        ipa: 0,
        width,
        kind: MemoryAccessKind::Read,
        register_index: 0,
        sign_extend,
        register_width_64,
    }
}

#[test]
fn decode_rejects_missing_instruction_syndrome() {
    assert!(MemoryAccess::decode(0, 0x12345, 0xabc, |_| Some(0)).is_none());
}

#[test]
fn decode_read_access_from_syndrome_fields() {
    let access = MemoryAccess::decode(
        iss(
            MemoryAccessWidth::U32,
            9,
            DATA_ABORT_ISS_SSE | DATA_ABORT_ISS_SF,
        ),
        0x12345,
        0xffff_0000_0000_0abc,
        |_| panic!("read access should not read a saved register"),
    )
    .expect("access should decode");

    assert_eq!(access.ipa, 0x1234_5abc);
    assert_eq!(access.width, MemoryAccessWidth::U32);
    assert_eq!(access.kind, MemoryAccessKind::Read);
    assert_eq!(access.register_index, 9);
    assert!(access.sign_extend);
    assert!(access.register_width_64);
}

#[test]
fn decode_write_access_masks_register_value_to_access_width() {
    let access = decode_with_register(
        iss(MemoryAccessWidth::U16, 7, DATA_ABORT_ISS_WNR),
        0xffff_ffff_ffff_1234,
    )
    .expect("access should decode");

    assert_eq!(access.kind, MemoryAccessKind::Write { value: 0x1234 });
    assert_eq!(access.width, MemoryAccessWidth::U16);
    assert_eq!(access.register_index, 7);
}

#[test]
fn decode_write_access_rejects_unavailable_register_value() {
    assert!(
        MemoryAccess::decode(
            iss(MemoryAccessWidth::U64, 4, DATA_ABORT_ISS_WNR),
            0x12345,
            0xabc,
            |_| None,
        )
        .is_none()
    );
}

#[test]
fn extend_read_result_zero_extends_to_32_bit_registers() {
    assert_eq!(
        read_access(MemoryAccessWidth::U32, false, false).extend_read_result(0x1_ffff_ffff),
        0xffff_ffff
    );
    assert_eq!(
        read_access(MemoryAccessWidth::U16, false, false).extend_read_result(0x1234),
        0x1234
    );
}

#[test]
fn extend_read_result_sign_extends_to_requested_register_width() {
    assert_eq!(
        read_access(MemoryAccessWidth::U8, true, true).extend_read_result(0x80),
        0xffff_ffff_ffff_ff80
    );
    assert_eq!(
        read_access(MemoryAccessWidth::U8, true, false).extend_read_result(0x80),
        0xffff_ff80
    );
}

#[test]
fn widths_have_matching_masks() {
    assert_eq!(MemoryAccessWidth::U8.bits(), 8);
    assert_eq!(MemoryAccessWidth::U16.bits(), 16);
    assert_eq!(MemoryAccessWidth::U32.bits(), 32);
    assert_eq!(MemoryAccessWidth::U64.bits(), 64);
    assert_eq!(MemoryAccessWidth::U8.mask(), 0xff);
    assert_eq!(MemoryAccessWidth::U16.mask(), 0xffff);
    assert_eq!(MemoryAccessWidth::U32.mask(), 0xffff_ffff);
    assert_eq!(MemoryAccessWidth::U64.mask(), u64::MAX);
}

#[test]
fn decode_distinguishes_all_widths() {
    for width in [
        MemoryAccessWidth::U8,
        MemoryAccessWidth::U16,
        MemoryAccessWidth::U32,
        MemoryAccessWidth::U64,
    ] {
        let access = decode_with_register(iss(width, 7, DATA_ABORT_ISS_WNR), u64::MAX).unwrap();
        assert_eq!(access.width, width);
        assert_eq!(access.kind, MemoryAccessKind::Write { value: width.mask() });
        assert!(!access.sign_extend);
        assert!(!access.register_width_64);
    }
}

#[test]
fn decode_drops_fault_page_bits_that_do_not_fit() {
    let access =
        MemoryAccess::decode(iss(MemoryAccessWidth::U8, 31, 0), u64::MAX, 0x1fff, |_| None).unwrap();
    assert_eq!(access.ipa, u64::MAX);
    assert_eq!(access.register_index, 31);
}

#[test]
fn full_width_reads_ignore_sign_extension() {
    assert_eq!(
        read_access(MemoryAccessWidth::U64, true, true).extend_read_result(0x8000_0000_0000_0001),
        0x8000_0000_0000_0001
    );
    assert_eq!(
        read_access(MemoryAccessWidth::U64, true, false).extend_read_result(0x8000_0000_8000_0001),
        0x8000_0001
    );
}

#[test]
fn positive_values_are_not_changed_by_sign_extension() {
    assert_eq!(
        read_access(MemoryAccessWidth::U16, true, true).extend_read_result(0xf_7fff),
        0x7fff
    );
    assert_eq!(
        read_access(MemoryAccessWidth::U32, true, true).extend_read_result(0x8000_0000),
        0xffff_ffff_8000_0000
    );
}
