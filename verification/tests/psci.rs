use ritm::hvc_response::{HvcResponse, HvcResult, SmcccError};
use ritm::psci::{
    handle_psci, psci_action, psci_response, psci_result_to_u64, try_handle_psci, PsciAction,
    PsciError, PsciFunction, PsciOutcome,
};

fn forward(function: u32, first: [u64; 3]) -> PsciAction {
    let mut args = [0; 17];
    args[..3].copy_from_slice(&first);
    PsciAction::Forward { function, args }
}

#[test]
fn cpu_on_starts_the_target() {
    assert_eq!(
        handle_psci(0xc400_0003, 0xab_0012_3456, 0x1_4000_0000, 0x1_0000_0007),
        Ok(PsciAction::CpuOn {
            target_cpu: 0xab_0012_3456,
            entry_point: 0x1_4000_0000,
            context_id: 0x1_0000_0007,
        })
    );
    assert_eq!(
        handle_psci(0x8400_0003, 0xf_0012_3456, 0x1_4000_0000, 0x1_0000_0007),
        Ok(PsciAction::CpuOn {
            target_cpu: 0x12_3456,
            entry_point: 0x4000_0000,
            context_id: 7,
        })
    );
}

#[test]
fn cpu_suspend_keeps_entry_and_context() {
    assert_eq!(
        handle_psci(0xc400_0001, 0x4000_0003, 0x1_4000_0000, 0x1_0000_0007),
        Ok(PsciAction::CpuSuspend {
            power_state: 0x4000_0003,
            entry_point: 0x1_4000_0000,
            context_id: 0x1_0000_0007,
        })
    );
    assert_eq!(
        handle_psci(0x8400_0001, 0x0fff_ffff, 0x1_4000_0000, 0x1_0000_0007),
        Ok(PsciAction::CpuSuspend {
            power_state: 0x0fff_ffff,
            entry_point: 0x4000_0000,
            context_id: 7,
        })
    );
}

#[test]
fn invalid_parameters_are_refused() {
    for (fn_id, arg0) in [
        (0xc400_0003, 0x100_0000),
        (0xc400_0003, 0x100_0000_0000),
        (0x8400_0003, 0x100_0000),
        (0xc400_0001, 0x8000_0000),
        (0x8400_0001, 0x1000_0000),
    ] {
        assert_eq!(handle_psci(fn_id, arg0, 0, 0), Err(-2));
        assert_eq!(try_handle_psci(fn_id, arg0, 0, 0), Err(SmcccError::NotRequired));
    }
}

#[test]
fn unknown_functions_are_not_supported() {
    for fn_id in [0x8400_0016, 0x8400_001f, 0xc400_0000, 0xc400_0002, 0xc400_001f] {
        assert_eq!(handle_psci(fn_id, 1, 2, 3), Err(-1));
        assert_eq!(try_handle_psci(fn_id, 1, 2, 3), Err(SmcccError::NotSupported));
    }
}

#[test]
fn other_functions_are_forwarded() {
    for fn_id in [
        0x8400_0000u32,
        0x8400_0002,
        0x8400_0006,
        0x8400_0007,
        0x8400_0008,
        0x8400_0009,
        0x8400_000b,
        0x8400_000c,
        0x8400_000e,
        0x8400_0013,
        0x8400_0014,
        0xc400_0007,
        0xc400_000c,
        0xc400_000e,
        0xc400_0014,
    ] {
        assert_eq!(
            try_handle_psci(fn_id.into(), 11, 12, 13),
            Ok(forward(fn_id, [11, 12, 13]))
        );
    }
    assert_eq!(try_handle_psci(0xc400_0004, 1, 3, 0), Ok(forward(0xc400_0004, [1, 3, 0])));
    assert_eq!(
        try_handle_psci(0x8400_000a, 0x8400_0001, 0, 0),
        Ok(forward(0x8400_000a, [0x8400_0001, 0, 0]))
    );
}

#[test]
fn every_recognised_function_keeps_its_identifier() {
    for base in [0x8400_0000u32, 0xc400_0000] {
        for number in 0..0x20 {
            let fn_id = base + number;
            match handle_psci(fn_id.into(), 0, 0, 0) {
                Ok(PsciAction::Forward { function, .. }) => assert_eq!(function, fn_id),
                Ok(PsciAction::CpuOn { .. }) => assert_eq!(number, 3),
                Ok(PsciAction::CpuSuspend { .. }) => assert_eq!(number, 1),
                Err(code) => assert!(code == -1 || code == -2),
            }
        }
    }
}

#[test]
fn action_follows_the_function() {
    assert_eq!(
        psci_action(PsciFunction::Other(0x8400_0000), 0x7_8400_0000, 1, 2, 3),
        forward(0x8400_0000, [1, 2, 3])
    );
    assert_eq!(
        psci_action(
            PsciFunction::CpuOn { target_cpu: 1, entry_point: 2, context_id: 3 },
            0,
            0,
            0,
            0
        ),
        PsciAction::CpuOn { target_cpu: 1, entry_point: 2, context_id: 3 }
    );
    assert_eq!(
        psci_action(
            PsciFunction::CpuSuspend { power_state: 1, entry_point: 2, context_id: 3 },
            0,
            0,
            0,
            0
        ),
        PsciAction::CpuSuspend { power_state: 1, entry_point: 2, context_id: 3 }
    );
}

#[test]
fn core_requests_are_answered_with_their_codes() {
    assert_eq!(psci_result_to_u64(Ok(())), 0);
    let errors = [
        PsciError::NotSupported,
        PsciError::InvalidParameters,
        PsciError::Denied,
        PsciError::AlreadyOn,
        PsciError::OnPending,
        PsciError::InternalFailure,
        PsciError::NotPresent,
        PsciError::Disabled,
        PsciError::InvalidAddress,
    ];
    for (index, error) in errors.into_iter().enumerate() {
        assert_eq!(psci_result_to_u64(Err(error)), u64::MAX - index as u64);
    }
    assert_eq!(psci_result_to_u64(Err(PsciError::Unknown(5))), 5);
    assert_eq!(psci_result_to_u64(Err(PsciError::Unknown(i64::MIN))), 1 << 63);
}

#[test]
fn outcome_is_returned_in_x0() {
    let mut registers = [9; 18];
    registers[0] = 0x1_0001;
    assert_eq!(
        psci_response(PsciOutcome::Forwarded(registers)),
        HvcResult::Handled(Ok(HvcResponse::Success([0x1_0001, 0, 0, 0])))
    );
    assert_eq!(
        psci_response(PsciOutcome::CoreRequest(Err(PsciError::AlreadyOn))),
        HvcResult::Handled(Ok(HvcResponse::Success([0xffff_ffff_ffff_fffc, 0, 0, 0])))
    );
}
