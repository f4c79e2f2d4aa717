use ritm::exceptions::{GuestRegisterStateRef, NonVolatileRegisters, RegisterState};
use ritm::hvc_response::{HvcResponse, HvcResult, SmcccError};
use ritm::hypervisor::{
    complete_read, complete_write, emulate_access, finish_call, guest_entry_state,
    guest_hypervisor_configuration, handle_data_abort, handle_sync_lower, inject_data_abort, stage2_translation_control,
    try_memory_access_handler, DataAbortOutcome, EmulationOutcome, ExceptionClass,
    GuestEntryState, InjectedAbort, SyncAction,
};
use ritm::memory_access::{MemoryAccess, MemoryAccessKind, MemoryAccessWidth};
use ritm::psci::PsciAction;
use ritm::stage2::{
    MemoryAccessHandler, MemoryAccessHandlerRegistry, MemoryReadAccess, MemoryReadResult,
    MemoryWriteAccess, MemoryWriteResult, Stage2Builder,
};

type Read = fn(MemoryReadAccess) -> MemoryReadResult;
type Write = fn(MemoryWriteAccess) -> MemoryWriteResult;

const HVC: u64 = 0x16 << 26;
const SMC: u64 = 0x17 << 26;
const DATA_ABORT: u64 = 0x24 << 26;
const IL: u64 = 1 << 25;
const ISV: u64 = 1 << 24;
const SSE: u64 = 1 << 21;
const WNR: u64 = 1 << 6;

/// Reads give 0x80, except at offset 8, where they fault.
fn read(access: MemoryReadAccess) -> MemoryReadResult {
    assert_eq!(access.ipa, 0x9000 + access.offset);
    assert_eq!(access.width, MemoryAccessWidth::U8);
    if access.offset == 8 {
        MemoryReadResult::Fault
    } else {
        MemoryReadResult::Value(0x80)
    }
}

/// Only a write of 0x34 to offset 4 is handled.
fn write(access: MemoryWriteAccess) -> MemoryWriteResult {
    assert_eq!(access.ipa, 0x9000 + access.offset);
    if access.offset == 4 && access.value == 0x34 {
        MemoryWriteResult::Handled
    } else {
        MemoryWriteResult::Fault
    }
}

fn handlers() -> MemoryAccessHandlerRegistry<Read, Write> {
    let mut builder: Stage2Builder<Read, Write> = Stage2Builder::new();
    let both = MemoryAccessHandler::read_write(read as Read, write as Write);
    builder.handle_range(0x9000, 0x1000, both).unwrap();
    let neither = MemoryAccessHandler::<Read, Write> { read: None, write: None };
    builder.handle_range(0xb000, 0x1000, neither).unwrap();
    builder.build().memory_access_handlers
}

fn volatile() -> RegisterState {
    let mut registers = [0; 19];
    for (index, register) in registers.iter_mut().enumerate() {
        *register = 0x1200 + index as u64;
    }
    RegisterState { registers, fp: 29, sp: 30, elr: 0x8000, spsr: 0x6000_0005 }
}

fn nonvolatile() -> NonVolatileRegisters {
    NonVolatileRegisters { registers: [0x1234; 10] }
}

/// The syndrome of a byte access of register `register`.
fn byte_access(register: u64, flags: u64) -> u64 {
    DATA_ABORT | IL | ISV | (register << 16) | flags
}

#[test]
fn exception_classes_are_recognised() {
    assert_eq!(ExceptionClass::from(0x16), ExceptionClass::HvcTrappedInAArch64);
    assert_eq!(ExceptionClass::from(0x17), ExceptionClass::SmcTrappedInAArch64);
    assert_eq!(ExceptionClass::from(0x24), ExceptionClass::DataAbortLowerEL);
    assert_eq!(ExceptionClass::from(0x25), ExceptionClass::Unknown(0x25));
}

#[test]
fn emulated_read_fills_the_register_and_goes_on() {
    let (mut volatile_frame, mut nonvolatile_frame) = (volatile(), nonvolatile());
    let mut state = GuestRegisterStateRef::new(&mut volatile_frame, &mut nonvolatile_frame);
    let esr = byte_access(20, SSE);
    assert_eq!(
        try_memory_access_handler(&mut state, &handlers(), esr, 0x9 << 4, 0xffff_0010),
        Ok(())
    );
    assert_eq!(nonvolatile_frame.registers[1], 0xffff_ff80);
    nonvolatile_frame.registers[1] = 0x1234;
    assert_eq!(nonvolatile_frame, nonvolatile());
    assert_eq!(volatile_frame, RegisterState { elr: 0x8004, ..volatile() });
}

#[test]
fn emulated_write_hands_over_the_register_and_goes_on() {
    let (mut volatile_frame, mut nonvolatile_frame) = (volatile(), nonvolatile());
    let mut state = GuestRegisterStateRef::new(&mut volatile_frame, &mut nonvolatile_frame);
    let esr = byte_access(20, WNR);
    assert_eq!(
        try_memory_access_handler(&mut state, &handlers(), esr, 0x9 << 4, 4),
        Ok(())
    );
    assert_eq!(nonvolatile_frame, nonvolatile());
    assert_eq!(volatile_frame, RegisterState { elr: 0x8004, ..volatile() });
}

#[test]
fn access_that_cannot_be_emulated_changes_nothing() {
    let cases = [
        // The handlers report faults.
        (byte_access(0, 0), 0x9 << 4, 8),
        (byte_access(20, WNR), 0x9 << 4, 5),
        (byte_access(0, WNR), 0x9 << 4, 4),
        // The region has no callbacks.
        (byte_access(0, 0), 0xb << 4, 0),
        (byte_access(0, WNR), 0xb << 4, 0),
        // There is no region.
        (byte_access(0, 0), 0xa << 4, 0),
        // The syndrome does not describe the access.
        (byte_access(0, 0) & !ISV, 0x9 << 4, 0),
    ];
    for (esr, hpfar, far) in cases {
        let (mut volatile_frame, mut nonvolatile_frame) = (volatile(), nonvolatile());
        let mut state = GuestRegisterStateRef::new(&mut volatile_frame, &mut nonvolatile_frame);
        assert_eq!(
            try_memory_access_handler(&mut state, &handlers(), esr, hpfar, far),
            Err(())
        );
        assert_eq!(volatile_frame, volatile());
        assert_eq!(nonvolatile_frame, nonvolatile());
    }
}

#[test]
fn results_of_handlers_complete_the_access() {
    let access = MemoryAccess {
        ipa: 0,
        width: MemoryAccessWidth::U16,
        kind: MemoryAccessKind::Read,
        register_index: 30,
        sign_extend: true,
        register_width_64: true,
    };
    let (mut volatile_frame, mut nonvolatile_frame) = (volatile(), nonvolatile());
    let mut state = GuestRegisterStateRef::new(&mut volatile_frame, &mut nonvolatile_frame);
    assert_eq!(complete_read(&mut state, &access, MemoryReadResult::Fault), Err(()));
    assert_eq!(complete_write(&mut state, MemoryWriteResult::Fault), Err(()));
    assert_eq!(state.exception_return_address(), 0x8000);
    assert_eq!(complete_read(&mut state, &access, MemoryReadResult::Value(0x8001)), Ok(()));
    assert_eq!(state.read_gpr(30), Some(0xffff_ffff_ffff_8001));
    assert_eq!(complete_write(&mut state, MemoryWriteResult::Handled), Ok(()));
    assert_eq!(state.exception_return_address(), 0x8008);
    let missing = MemoryAccess { register_index: 32, ..access };
    assert_eq!(complete_read(&mut state, &missing, MemoryReadResult::Value(1)), Err(()));
    assert_eq!(state.exception_return_address(), 0x8008);
}

#[test]
fn injected_abort_enters_the_vector_of_the_guest() {
    let (mut volatile_frame, mut nonvolatile_frame) = (volatile(), nonvolatile());
    let mut state = GuestRegisterStateRef::new(&mut volatile_frame, &mut nonvolatile_frame);
    let esr = (7 << 32) | byte_access(3, WNR);
    assert_eq!(
        inject_data_abort(&mut state, 0xffff_0000_1234_5678, esr, 0x4000_0000),
        InjectedAbort {
            elr_el1: 0x8000,
            spsr_el1: 0x6000_0005,
            far_el1: 0xffff_0000_1234_5678,
            esr_el1: esr + (1 << 26),
        }
    );
    assert_eq!(volatile_frame, RegisterState { elr: 0x4000_0200, spsr: 0x3c5, ..volatile() });
    assert_eq!(nonvolatile_frame, nonvolatile());
}

#[test]
fn other_syndromes_are_injected_unchanged() {
    let (mut volatile_frame, mut nonvolatile_frame) = (volatile(), nonvolatile());
    let mut state = GuestRegisterStateRef::new(&mut volatile_frame, &mut nonvolatile_frame);
    let esr = (0x20 << 26) | IL | 5;
    assert_eq!(inject_data_abort(&mut state, 1, esr, 0x1000).esr_el1, esr);
}

#[test]
fn data_abort_is_emulated_or_injected() {
    let handle = |far, vbar| {
        let (mut volatile_frame, mut nonvolatile_frame) = (volatile(), nonvolatile());
        let mut state = GuestRegisterStateRef::new(&mut volatile_frame, &mut nonvolatile_frame);
        let esr = byte_access(0, 0);
        let outcome = handle_data_abort(&mut state, &handlers(), esr, 0x9 << 4, far, vbar);
        (outcome, volatile_frame.elr)
    };
    assert_eq!(handle(0, 0), (DataAbortOutcome::Emulated, 0x8004));
    let (outcome, elr) = handle(8, 0x1000);
    assert!(matches!(outcome, DataAbortOutcome::Injected(_)));
    assert_eq!(elr, 0x1200);
    assert_eq!(handle(8, 0), (DataAbortOutcome::NoVector, 0x8000));
    assert_eq!(handle(8, u64::MAX - 0x1ff), (DataAbortOutcome::NoVector, 0x8000));
}

#[test]
fn access_at_the_end_of_the_address_space_has_no_next_instruction() {
    let handle = |far| {
        let mut volatile_frame = RegisterState { elr: usize::MAX - 3, ..volatile() };
        let mut nonvolatile_frame = nonvolatile();
        let mut state = GuestRegisterStateRef::new(&mut volatile_frame, &mut nonvolatile_frame);
        let esr = byte_access(0, 0);
        let emulation = emulate_access(&mut state, &handlers(), esr, 0x9 << 4, far);
        let outcome = handle_data_abort(&mut state, &handlers(), esr, 0x9 << 4, far, 0x1000);
        (emulation, outcome, volatile_frame.elr)
    };
    assert_eq!(
        handle(0),
        (
            EmulationOutcome::NoNextInstruction,
            DataAbortOutcome::NoNextInstruction,
            usize::MAX - 3
        )
    );
    let (emulation, outcome, elr) = handle(8);
    assert_eq!(emulation, EmulationOutcome::NotEmulated);
    assert!(matches!(outcome, DataAbortOutcome::Injected(_)));
    assert_eq!(elr, 0x1200);
}

fn action_for(esr: u64, gprs: [u64; 19]) -> SyncAction {
    let mut volatile_frame = RegisterState { registers: gprs, ..volatile() };
    let mut nonvolatile_frame = nonvolatile();
    let state = GuestRegisterStateRef::new(&mut volatile_frame, &mut nonvolatile_frame);
    handle_sync_lower(&state, esr)
}

#[test]
fn calls_go_to_psci_or_to_the_platform() {
    let mut gprs = [0; 19];
    for (index, register) in gprs.iter_mut().enumerate() {
        *register = index as u64;
    }
    for (function_id, is_psci) in [
        (0x83ff_ffff, false),
        (0x8400_0000, true),
        (0x8400_001f, true),
        (0x8400_0020, false),
        (0xc3ff_ffff, false),
        (0xc400_0000, true),
        (0xc400_001f, true),
        (0xc400_0020, false),
        (0x1_8400_0000, false),
    ] {
        gprs[0] = function_id;
        for esr in [HVC, SMC] {
            match action_for(esr, gprs) {
                SyncAction::PlatformCall { function_id: id, args } => {
                    assert!(!is_psci);
                    assert_eq!(id, function_id);
                    assert_eq!(args[..], gprs[1..18]);
                }
                _ => assert!(is_psci),
            }
        }
    }
}

#[test]
fn psci_calls_are_decided() {
    let mut gprs = [0; 19];
    gprs[0] = 0xc400_0003;
    gprs[1] = 1;
    gprs[2] = 0x4000_0000;
    gprs[3] = 7;
    assert_eq!(
        action_for(SMC, gprs),
        SyncAction::Psci(PsciAction::CpuOn {
            target_cpu: 1,
            entry_point: 0x4000_0000,
            context_id: 7
        })
    );
    gprs[0] = 0x8400_001f;
    assert_eq!(
        action_for(HVC, gprs),
        SyncAction::Answer(HvcResult::Handled(Err(SmcccError::NotSupported)))
    );
}

#[test]
fn other_exceptions_are_told_apart() {
    assert_eq!(action_for(DATA_ABORT | IL, [0; 19]), SyncAction::DataAbort);
    assert_eq!(action_for((0x20 << 26) | IL, [0; 19]), SyncAction::Unexpected(0x20));
    assert_eq!(action_for((1 << 32) | IL, [0; 19]), SyncAction::Unexpected(0));
}

#[test]
fn only_smc_is_skipped() {
    for (esr, elr) in [(HVC, 0x8000), (SMC, 0x8004)] {
        let (mut volatile_frame, mut nonvolatile_frame) = (volatile(), nonvolatile());
        let mut state = GuestRegisterStateRef::new(&mut volatile_frame, &mut nonvolatile_frame);
        let result = HvcResult::Handled(Ok(HvcResponse::Success([1, 2, 3, 4])));
        finish_call(&mut state, esr, result);
        assert_eq!(volatile_frame.registers[..5], [1, 2, 3, 4, 0x1204]);
        assert_eq!(volatile_frame.elr, elr);
        assert_eq!(nonvolatile_frame, nonvolatile());
    }
}

#[test]
fn guest_is_entered_with_fresh_registers() {
    assert_eq!(guest_hypervisor_configuration(), 0x8008_0001);
    assert_eq!(
        guest_entry_state(0x4000_0000, 0x100, 0x10, 0xf000_000f),
        GuestEntryState {
            cntvoff_el2: 0,
            cnthctl_el2: 0x103,
            icc_sre_el2: 0x1f,
            spsr_el2: 0xf000_03c5,
            elr_el2: 0x4000_0000,
            ttbr0_el1: 0,
            tcr_el1: 0,
            vbar_el1: 0,
            mair_el1: 0,
            sp_el1: 0,
            sctlr_el1: 0x30d0_0800,
        }
    );
}

#[test]
fn stage2_translates_forty_bits_in_small_pages() {
    assert_eq!(stage2_translation_control(), 0x2_3598);
}
