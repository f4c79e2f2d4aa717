use ritm::exceptions::{
    GuestRegisterStateRef, GuestRegisterWriteError, NonVolatileRegisters, RegisterState,
};

fn volatile() -> RegisterState {
    let mut registers = [0; 19];
    for (index, register) in registers.iter_mut().enumerate() {
        *register = 100 + index as u64;
    }
    RegisterState { registers, fp: 129, sp: 130, elr: 0x8000, spsr: 0x3c5 }
}

fn nonvolatile() -> NonVolatileRegisters {
    let mut registers = [0; 10];
    for (index, register) in registers.iter_mut().enumerate() {
        *register = 119 + index as u64;
    }
    NonVolatileRegisters { registers }
}

#[test]
fn registers_are_read_from_both_frames() {
    let (mut volatile, mut nonvolatile) = (volatile(), nonvolatile());
    let state = GuestRegisterStateRef::new(&mut volatile, &mut nonvolatile);
    for index in 0..31 {
        assert_eq!(state.read_gpr(index), Some(100 + index as u64));
    }
    assert_eq!(state.read_gpr(31), Some(0));
    assert_eq!(state.read_gpr(32), None);
    assert_eq!(state.volatile_gprs()[18], 118);
    assert_eq!(state.exception_return_address(), 0x8000);
    assert_eq!(state.exception_return_status(), 0x3c5);
}

#[test]
fn written_register_reads_back_and_others_are_kept() {
    for written in 0..31 {
        let (mut volatile, mut nonvolatile) = (volatile(), nonvolatile());
        let mut state = GuestRegisterStateRef::new(&mut volatile, &mut nonvolatile);
        assert_eq!(state.write_gpr(written, 7), Ok(()));
        for index in 0..31 {
            let expected = if index == written { 7 } else { 100 + index as u64 };
            assert_eq!(state.read_gpr(index), Some(expected));
        }
        assert_eq!(state.exception_return_address(), 0x8000);
    }
}

#[test]
fn zero_register_discards_writes() {
    let (mut volatile_frame, mut nonvolatile_frame) = (volatile(), nonvolatile());
    let mut state = GuestRegisterStateRef::new(&mut volatile_frame, &mut nonvolatile_frame);
    assert_eq!(state.write_gpr(31, 7), Ok(()));
    assert_eq!(state.read_gpr(31), Some(0));
    assert_eq!(volatile_frame, volatile());
    assert_eq!(nonvolatile_frame, nonvolatile());
}

#[test]
fn write_to_missing_register_is_refused() {
    let (mut volatile_frame, mut nonvolatile_frame) = (volatile(), nonvolatile());
    let mut state = GuestRegisterStateRef::new(&mut volatile_frame, &mut nonvolatile_frame);
    assert_eq!(state.write_gpr(32, 7), Err(GuestRegisterWriteError));
    assert_eq!(volatile_frame, volatile());
    assert_eq!(GuestRegisterWriteError.message(), "invalid guest register index");
}

#[test]
fn exception_return_can_be_moved() {
    let (mut volatile, mut nonvolatile) = (volatile(), nonvolatile());
    let mut state = GuestRegisterStateRef::new(&mut volatile, &mut nonvolatile);
    state.advance_pc(4);
    assert_eq!(state.exception_return_address(), 0x8004);
    state.set_exception_return(0x1200, 5);
    assert_eq!(state.exception_return_address(), 0x1200);
    assert_eq!(state.exception_return_status(), 5);
    assert_eq!(volatile.elr, 0x1200);
    assert_eq!(volatile.spsr, 5);
}
