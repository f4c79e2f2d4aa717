use ritm::exceptions::{GuestRegisterStateRef, NonVolatileRegisters, RegisterState};
use ritm::hvc_response::{HvcResponse, HvcResult, SmcccError};

fn registers_after(result: HvcResult) -> Vec<u64> {
    let mut volatile =
        RegisterState { registers: [9; 19], fp: 9, sp: 9, elr: 0x8000, spsr: 0x3c5 };
    let mut nonvolatile = NonVolatileRegisters { registers: [9; 10] };
    let mut state = GuestRegisterStateRef::new(&mut volatile, &mut nonvolatile);
    result.modify_register_state(&mut state);
    assert_eq!(state.exception_return_address(), 0x8000);
    assert_eq!(state.exception_return_status(), 0x3c5);
    (0..31).map(|index| state.read_gpr(index).unwrap()).collect()
}

#[test]
fn success_returns_four_registers_and_keeps_the_others() {
    let after = registers_after(HvcResult::Handled(Ok(HvcResponse::Success([1, 2, 3, 4]))));
    assert_eq!(after[..4], [1, 2, 3, 4]);
    assert_eq!(after[4..], [9; 27]);
}

#[test]
fn large_success_returns_eighteen_registers_and_keeps_the_others() {
    let mut values = [0; 18];
    for (index, value) in values.iter_mut().enumerate() {
        *value = 50 + index as u64;
    }
    let after = registers_after(HvcResult::Handled(Ok(HvcResponse::from(values))));
    assert_eq!(after[..18], values);
    assert_eq!(after[18..], [9; 13]);
}

#[test]
fn unhandled_call_is_answered_as_not_supported() {
    let after = registers_after(HvcResult::Unhandled);
    assert_eq!(after[0], u64::MAX);
    assert_eq!(after[1..], [9; 30]);
    assert_eq!(after, registers_after(HvcResult::Handled(Err(SmcccError::NotSupported))));
}

#[test]
fn errors_are_answered_with_their_codes() {
    let code = |error| registers_after(HvcResult::Handled(Err(error)))[0];
    assert_eq!(code(SmcccError::NotSupported), 0xffff_ffff_ffff_ffff);
    assert_eq!(code(SmcccError::NotRequired), 0xffff_ffff_ffff_fffe);
    assert_eq!(code(SmcccError::InvalidParameter), 0xffff_ffff_ffff_fffd);
    assert_eq!(code(SmcccError::Unknown(-100)), 0xffff_ffff_ffff_ff9c);
    assert_eq!(code(SmcccError::Unknown(17)), 17);
}

#[test]
fn single_value_goes_to_x0() {
    assert_eq!(HvcResponse::from(7u64), HvcResponse::Success([7, 0, 0, 0]));
    assert_eq!(HvcResponse::from([1u64, 2, 3, 4]), HvcResponse::Success([1, 2, 3, 4]));
}

#[test]
fn debug_form_is_the_text() {
    let response = HvcResponse::Success([0, 0xab, 0x10, u64::MAX]);
    assert_eq!(format!("{response:?}"), "HvcResponse(0x0, 0xab, 0x10, 0xffffffffffffffff)");
    assert_eq!(format!("{response:30?}"), format!("{response:?}"));
    assert_eq!(
        format!("{:?}", HvcResult::Handled(Ok(HvcResponse::from(7u64)))),
        "Handled(Ok(HvcResponse(0x7, 0x0, 0x0, 0x0)))"
    );
    assert_eq!(
        format!("{:?}", HvcResponse::from([2u64; 18])),
        format!("HvcResponse({})", ["0x2"; 18].join(", "))
    );
}

#[test]
fn pretty_debug_form_has_one_value_per_line() {
    let response = HvcResponse::Success([1, 0x20, 3, 4]);
    let expected = "HvcResponse(\n    0x1,\n    0x20,\n    0x3,\n    0x4,\n)";
    assert_eq!(response.to_pretty_text(), expected);
    assert_eq!(format!("{response:#?}"), expected);
    assert_eq!(
        format!("{:#?}", Some(response)),
        "Some(\n    HvcResponse(\n        0x1,\n        0x20,\n        0x3,\n        0x4,\n    ),\n)"
    );
}

#[test]
fn responses_are_shown_in_hexadecimal() {
    assert_eq!(
        HvcResponse::Success([0, 0xab, 0x10, u64::MAX]).to_text(),
        "HvcResponse(0x0, 0xab, 0x10, 0xffffffffffffffff)"
    );
    assert_eq!(
        HvcResponse::SuccessLarge([1; 18]).to_text(),
        format!("HvcResponse({})", ["0x1"; 18].join(", "))
    );
}
