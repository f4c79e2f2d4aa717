//! Laws of the guest's calls and their answers.

use vstd::prelude::*;
use vstd::std_specs::convert::FromSpec;

use crate::exceptions::GuestRegisters;
use crate::hvc_response::{with_response, HvcResponse, HvcResult, SmcccError};
use crate::hypervisor::{after_call, is_call_action, is_psci_call, SyncAction};
use crate::laws::aborts::lemma_exception_class;
use crate::laws::power::{
    lemma_cpu_on_64, lemma_cpu_suspend_64, lemma_forwarded_call,
    lemma_functions_of_any_arguments, lemma_readings, lemma_undefined_functions,
};
use crate::psci::{psci_function, PsciAction};

verus! {

/// A call goes to PSCI exactly if x0 is from 0x84000000 to 0x8400001f or from 0xc4000000 to
/// 0xc400001f.
pub proof fn lemma_psci_calls(function_id: u64)
    ensures
        is_psci_call(function_id) <==> (0x8400_0000 <= function_id && function_id <= 0x8400_001f)
            || (0xc400_0000 <= function_id && function_id <= 0xc400_001f),
{
}

/// A call that is not to PSCI is handed to the platform with x0 and with x1-x17, and nothing is
/// answered before that.
pub proof fn lemma_platform_call(action: SyncAction, registers: GuestRegisters)
    requires
        is_call_action(action, registers),
        registers.gprs.len() == 31,
        !(0x8400_0000 <= registers.gprs[0] <= 0x8400_001f),
        !(0xc400_0000 <= registers.gprs[0] <= 0xc400_001f),
    ensures
        action matches SyncAction::PlatformCall { function_id, args } && {
            &&& function_id == registers.gprs[0]
            &&& forall|i: int| 0 <= i < 17 ==> #[trigger] args[i] == registers.gprs[i + 1]
        },
{
    let args = action->args;
    assert(args@ == registers.gprs.subrange(1, 18));
    assert forall|i: int| 0 <= i < 17 implies #[trigger] args[i] == registers.gprs[i + 1] by {
        assert(args@[i] == registers.gprs[i + 1]);
    }
}

/// A call to PSCI is answered at once only if it is refused, and then with the error that it is
/// refused with. One that is understood leads to an action.
pub proof fn lemma_psci_call(action: SyncAction, registers: GuestRegisters)
    requires
        is_call_action(action, registers),
        registers.gprs.len() == 31,
        (0x8400_0000 <= registers.gprs[0] <= 0x8400_001f) || (0xc400_0000 <= registers.gprs[0]
            <= 0xc400_001f),
    ensures
        ({
            let call = seq![
                registers.gprs[0],
                registers.gprs[1],
                registers.gprs[2],
                registers.gprs[3],
            ];
            match psci_function(call) {
                Ok(_) => action is Psci,
                Err(code) => action == SyncAction::Answer(
                    HvcResult::Handled(
                        Err(
                            if code == -1 {
                                SmcccError::NotSupported
                            } else {
                                SmcccError::NotRequired
                            },
                        ),
                    ),
                ) && (code == -1 || code == -2),
            }
        }),
{
    let call = registers.gprs.take(4);
    assert(call == seq![
        registers.gprs[0],
        registers.gprs[1],
        registers.gprs[2],
        registers.gprs[3],
    ]);
    lemma_readings(psci_function(call), call);
}

/// A call of PSCI_VERSION, CPU_OFF, SYSTEM_OFF, SYSTEM_RESET or another function that takes any
/// arguments is forwarded to the firmware, with x0 as its function and x1-x3 as its arguments.
pub proof fn lemma_system_calls_are_forwarded(action: SyncAction, registers: GuestRegisters)
    requires
        is_call_action(action, registers),
        registers.gprs.len() == 31,
        ({
            let id = registers.gprs[0];
            ||| id == 0x8400_0000 || id == 0x8400_0002 || id == 0x8400_0006 || id == 0x8400_0007
            ||| id == 0x8400_0008 || id == 0x8400_0009 || id == 0x8400_000b || id == 0x8400_000c
            ||| id == 0x8400_000e || id == 0x8400_0013 || id == 0x8400_0014 || id == 0xc400_0007
            ||| id == 0xc400_000c || id == 0xc400_000e || id == 0xc400_0014
        }),
    ensures
        action matches SyncAction::Psci(PsciAction::Forward { function, args }) && {
            &&& function == registers.gprs[0]
            &&& args[0] == registers.gprs[1]
            &&& args[1] == registers.gprs[2]
            &&& args[2] == registers.gprs[3]
            &&& forall|i: int| 3 <= i < 17 ==> #[trigger] args[i] == 0
        },
{
    let call = registers.gprs.take(4);
    let function = psci_function(call);
    assert(call[0] as int % 0x1_0000_0000 == call[0]);
    lemma_functions_of_any_arguments(function, call);
    lemma_forwarded_call(
        action->Psci_0,
        function->Ok_0->Other_0,
        call[0],
        call[1],
        call[2],
        call[3],
    );
}

/// A call of a function that PSCI understands, and that asks for no core, is forwarded: it is never
/// answered by the hypervisor itself.
pub proof fn lemma_understood_calls_are_forwarded(action: SyncAction, registers: GuestRegisters)
    requires
        is_call_action(action, registers),
        registers.gprs.len() == 31,
        (0x8400_0000 <= registers.gprs[0] <= 0x8400_001f) || (0xc400_0000 <= registers.gprs[0]
            <= 0xc400_001f),
        psci_function(
            seq![registers.gprs[0], registers.gprs[1], registers.gprs[2], registers.gprs[3]],
        ) is Ok,
        registers.gprs[0] % 0x4000_0000 != 0x400_0001,
        registers.gprs[0] % 0x4000_0000 != 0x400_0003,
    ensures
        action matches SyncAction::Psci(PsciAction::Forward { function, args }) && {
            &&& function == registers.gprs[0]
            &&& args[0] == registers.gprs[1]
            &&& args[1] == registers.gprs[2]
            &&& args[2] == registers.gprs[3]
            &&& forall|i: int| 3 <= i < 17 ==> #[trigger] args[i] == 0
        },
{
    let call = registers.gprs.take(4);
    assert(call == seq![
        registers.gprs[0],
        registers.gprs[1],
        registers.gprs[2],
        registers.gprs[3],
    ]);
    let function = psci_function(call);
    assert(call[0] as int % 0x1_0000_0000 == call[0]);
    lemma_readings(function, call);
    lemma_forwarded_call(
        action->Psci_0,
        function->Ok_0->Other_0,
        call[0],
        call[1],
        call[2],
        call[3],
    );
}

/// A 64-bit CPU_ON with a valid target starts the core in x1 at the address in x2 with the context in
/// x3, and a 64-bit CPU_SUSPEND with a valid power state suspends to resume so.
pub proof fn lemma_core_calls(action: SyncAction, registers: GuestRegisters)
    requires
        is_call_action(action, registers),
        registers.gprs.len() == 31,
    ensures
        registers.gprs[0] == 0xc400_0003 && registers.gprs[1] < 0x100_0000_0000 && registers.gprs[1]
            / 0x100_0000 % 0x100 == 0 ==> action == SyncAction::Psci(
            PsciAction::CpuOn {
                target_cpu: registers.gprs[1],
                entry_point: registers.gprs[2],
                context_id: registers.gprs[3],
            },
        ),
        registers.gprs[0] == 0xc400_0001 && registers.gprs[1] < 0x8000_0000 && registers.gprs[1]
            / 0x1000_0000 % 4 == 0 ==> action == SyncAction::Psci(
            PsciAction::CpuSuspend {
                power_state: registers.gprs[1] as u32,
                entry_point: registers.gprs[2],
                context_id: registers.gprs[3],
            },
        ),
{
    let call = registers.gprs.take(4);
    let function = psci_function(call);
    if call[0] == 0xc400_0003 {
        lemma_cpu_on_64(function, call);
    }
    if call[0] == 0xc400_0001 {
        assert(call[1] < 0x8000_0000 ==> call[1] as int % 0x1_0000_0000 == call[1]);
        lemma_cpu_suspend_64(function, call);
    }
}

/// A call of a function that PSCI does not define is answered with -1, and reaches nobody.
pub proof fn lemma_undefined_calls_are_refused(action: SyncAction, registers: GuestRegisters)
    requires
        is_call_action(action, registers),
        registers.gprs.len() == 31,
        ({
            let id = registers.gprs[0];
            ||| 0x8400_0016 <= id <= 0x8400_001f
            ||| id == 0xc400_0000 || id == 0xc400_0002 || id == 0xc400_0006
            ||| 0xc400_0008 <= id <= 0xc400_000b
            ||| id == 0xc400_000f || id == 0xc400_0013
            ||| 0xc400_0016 <= id <= 0xc400_001f
        }),
    ensures
        action == SyncAction::Answer(HvcResult::Handled(Err(SmcccError::NotSupported))),
{
    let call = registers.gprs.take(4);
    assert(call[0] as int % 0x1_0000_0000 == call[0]);
    lemma_undefined_functions(psci_function(call), call);
}

/// The named errors of the calling convention have the codes -1 to -3, and each code is that of one
/// error.
pub proof fn lemma_smccc_error_codes(error: SmcccError, code: i32)
    ensures
        match error {
            SmcccError::NotSupported => error.code() == -1,
            SmcccError::NotRequired => error.code() == -2,
            SmcccError::InvalidParameter => error.code() == -3,
            SmcccError::Unknown(code) => error.code() == code,
        },
        SmcccError::of_code(code).code() == code,
        SmcccError::of_code(code) matches SmcccError::Unknown(unknown) ==> unknown != -1 && unknown
            != -2 && unknown != -3,
{
}

/// The guest sees an error as the 64-bit two's complement of its code.
pub proof fn lemma_smccc_error_in_register(error: SmcccError)
    ensures
        error.code() >= 0 ==> error.register_value() == error.code(),
        error.code() < 0 ==> error.register_value() == error.code() + 0x1_0000_0000_0000_0000,
{
}

/// What each answer leaves in the registers of the guest: four values in x0-x3, eighteen in x0-x17,
/// or the code of an error in x0. Every register that is not returned keeps its value.
pub proof fn lemma_answered_registers(registers: GuestRegisters, result: HvcResult, index: int)
    requires
        registers.gprs.len() == 31,
        0 <= index < 31,
    ensures
        ({
            let after = result.applied_to(registers);
            &&& after.gprs.len() == 31
            &&& after.elr == registers.elr
            &&& after.spsr == registers.spsr
            &&& match result {
                HvcResult::Handled(Ok(HvcResponse::Success(values))) => after.gprs[index] == if index
                    < 4 {
                    values@[index]
                } else {
                    registers.gprs[index]
                },
                HvcResult::Handled(Ok(HvcResponse::SuccessLarge(values))) => after.gprs[index]
                    == if index < 18 {
                    values@[index]
                } else {
                    registers.gprs[index]
                },
                HvcResult::Handled(Err(error)) => if index == 0 {
                    (after.gprs[0] - error.code()) % 0x1_0000_0000_0000_0000 == 0
                } else {
                    after.gprs[index] == registers.gprs[index]
                },
                HvcResult::Unhandled => after.gprs[index] == if index == 0 {
                    0xffff_ffff_ffff_ffff
                } else {
                    registers.gprs[index]
                },
            }
        }),
{
}

/// Values are returned from x0 on, and what is behind them keeps its place.
pub proof fn lemma_returned_values(registers: GuestRegisters, values: Seq<u64>, index: int)
    requires
        values.len() <= registers.gprs.len(),
        0 <= index < registers.gprs.len(),
    ensures
        with_response(registers, values).gprs.len() == registers.gprs.len(),
        with_response(registers, values).gprs[index] == if index < values.len() {
            values[index]
        } else {
            registers.gprs[index]
        },
        with_response(registers, values).elr == registers.elr,
        with_response(registers, values).spsr == registers.spsr,
{
}

/// A response made of one value returns it in x0 and zeros in x1-x3, and one made of four or eighteen
/// values returns these.
pub proof fn lemma_responses_from_values(value: u64, four: [u64; 4], eighteen: [u64; 18])
    ensures
        <HvcResponse as FromSpec<u64>>::from_spec(value) matches HvcResponse::Success(values)
            && values@ == seq![value, 0, 0, 0],
        <HvcResponse as FromSpec<[u64; 4]>>::from_spec(four) == HvcResponse::Success(four),
        <HvcResponse as FromSpec<[u64; 18]>>::from_spec(eighteen) == HvcResponse::SuccessLarge(
            eighteen,
        ),
        HvcResponse::Success(four).values() == four@,
        HvcResponse::SuccessLarge(eighteen).values() == eighteen@,
{
}

/// An SMC is skipped when it is answered, by the four bytes of the instruction, and nothing else is. The
/// answer is the same either way.
pub proof fn lemma_finished_call(
    registers: GuestRegisters,
    esr_el2: u64,
    other_esr_el2: u64,
    result: HvcResult,
)
    requires
        registers.elr + 4 <= usize::MAX,
        esr_el2 / 0x400_0000 % 64 == 0x17,
        other_esr_el2 / 0x400_0000 % 64 != 0x17,
    ensures
        ({
            let smc = after_call(registers, esr_el2, result);
            let other = after_call(registers, other_esr_el2, result);
            &&& smc.elr == registers.elr + 4
            &&& other.elr == registers.elr
            &&& smc.spsr == registers.spsr
            &&& other.spsr == registers.spsr
            &&& smc.gprs == result.applied_to(registers).gprs
            &&& other.gprs == result.applied_to(registers).gprs
        }),
{
    lemma_exception_class(esr_el2);
    lemma_exception_class(other_esr_el2);
}

} // verus!
