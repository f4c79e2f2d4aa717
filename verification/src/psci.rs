//! Power State Coordination Interface calls of the guest.

use arm_psci::{ErrorCode, Function, ReturnCode};
use vstd::arithmetic::power2::lemma2_to64;
use vstd::prelude::*;

use crate::bits::field;
use crate::hvc_response::{smccc_error_from_code, HvcResponse, HvcResult, SmcccError};

verus! {

/// The code with which a call of an unknown PSCI function is refused.
pub const PSCI_NOT_SUPPORTED: i32 = -1;

/// The code with which a PSCI call with invalid parameters is refused.
pub const PSCI_INVALID_PARAMETERS: i32 = -2;

/// A PSCI call of the guest.
#[derive(Clone, Copy, Debug, Eq, PartialEq, Structural)]
pub enum PsciFunction {
    /// Start a core.
    CpuOn {
        /// The affinity fields of the core to start.
        target_cpu: u64,
        /// The address at which the core is to enter the guest.
        entry_point: u64,
        /// The value that the core is to be given.
        context_id: u64,
    },
    /// Suspend the calling core.
    CpuSuspend {
        /// The power state to enter.
        power_state: u32,
        /// The address at which the core is to enter the guest once it is powered up again.
        entry_point: u64,
        /// The value that the core is to be given then.
        context_id: u64,
    },
    /// Any other function, by its identifier.
    Other(u32),
}

/// What is to be done for a PSCI call.
#[derive(Clone, Copy, Debug, Eq, PartialEq)]
pub enum PsciAction {
    /// Hand the call on to the firmware.
    Forward {
        /// The identifier of the function.
        function: u32,
        /// The arguments of the call.
        args: [u64; 17],
    },
    /// Start the core `target_cpu`, and enter the guest on it.
    CpuOn {
        /// The affinity fields of the core to start.
        target_cpu: u64,
        /// The address at which the core is to enter the guest.
        entry_point: u64,
        /// The value that the core is to be given.
        context_id: u64,
    },
    /// Suspend the calling core, and enter the guest on it when it is powered up again.
    CpuSuspend {
        /// The power state to enter.
        power_state: u32,
        /// The address at which the core is to enter the guest.
        entry_point: u64,
        /// The value that the core is to be given.
        context_id: u64,
    },
}

/// What came of an action for a PSCI call.
#[derive(Clone, Copy, Debug, Eq, PartialEq)]
pub enum PsciOutcome {
    /// The firmware answered a forwarded call with these registers.
    Forwarded([u64; 18]),
    /// A core was started or suspended, or could not be.
    CoreRequest(Result<(), PsciError>),
}

/// Error that a PSCI call can be answered with.
#[derive(Clone, Copy, Debug, Eq, PartialEq, Structural)]
pub enum PsciError {
    /// PSCI call not supported.
    NotSupported,
    /// Invalid parameters to PSCI call.
    InvalidParameters,
    /// PSCI call denied.
    Denied,
    /// Core already on.
    AlreadyOn,
    /// Core already being turned on.
    OnPending,
    /// Internal failure in PSCI call.
    InternalFailure,
    /// Trusted OS not present on target core.
    NotPresent,
    /// Core disabled.
    Disabled,
    /// Invalid address passed to PSCI call.
    InvalidAddress,
    /// Any other error code.
    Unknown(i64),
}

impl PsciError {
    /// The code of the error.
    pub open spec fn code(self) -> int {
        match self {
            PsciError::NotSupported => -1,
            PsciError::InvalidParameters => -2,
            PsciError::Denied => -3,
            PsciError::AlreadyOn => -4,
            PsciError::OnPending => -5,
            PsciError::InternalFailure => -6,
            PsciError::NotPresent => -7,
            PsciError::Disabled => -8,
            PsciError::InvalidAddress => -9,
            PsciError::Unknown(code) => code as int,
        }
    }
}

/// Calls the conversion of `smccc::psci::Error` to `i64`: -1 to -9 for the errors that have a name,
/// in the order in which they are listed, and the code itself for an unknown one.
#[verifier::external_body]
fn psci_error_to_code(error: PsciError) -> (code: i64)
    ensures
        code == error.code(),
{
    i64::from(
        match error {
            PsciError::NotSupported => smccc::psci::Error::NotSupported,
            PsciError::InvalidParameters => smccc::psci::Error::InvalidParameters,
            PsciError::Denied => smccc::psci::Error::Denied,
            PsciError::AlreadyOn => smccc::psci::Error::AlreadyOn,
            PsciError::OnPending => smccc::psci::Error::OnPending,
            PsciError::InternalFailure => smccc::psci::Error::InternalFailure,
            PsciError::NotPresent => smccc::psci::Error::NotPresent,
            PsciError::Disabled => smccc::psci::Error::Disabled,
            PsciError::InvalidAddress => smccc::psci::Error::InvalidAddress,
            PsciError::Unknown(code) => smccc::psci::Error::Unknown(code),
        },
    )
}

/// Calls the conversion of `arm_psci::ReturnCode::Success` to `i32`: success has the code 0.
#[verifier::external_body]
fn psci_success_code() -> (code: i32)
    ensures
        code == 0,
{
    i32::from(ReturnCode::Success)
}

/// What the registers of a PSCI call, of which the first holds the function identifier, ask for: the
/// function, or the code of the error with which the call is refused.
pub uninterp spec fn psci_function(registers: Seq<u64>) -> Result<PsciFunction, i32>;

/// The low 32 bits of a register.
pub open spec fn low_word(register: u64) -> int {
    field(register as int, 0, 32)
}

/// Whether `id` identifies a PSCI function.
pub open spec fn is_psci_id(id: int) -> bool {
    ||| 0x8400_0000 <= id <= 0x8400_0015
    ||| id == 0xc400_0001
    ||| 0xc400_0003 <= id <= 0xc400_0005
    ||| id == 0xc400_0007
    ||| 0xc400_000c <= id <= 0xc400_000e
    ||| 0xc400_0010 <= id <= 0xc400_0012
    ||| 0xc400_0014 <= id <= 0xc400_0015
}

/// Whether the PSCI function `id` starts or suspends a core: CPU_SUSPEND or CPU_ON.
pub open spec fn is_core_request(id: int) -> bool {
    id == 0x8400_0001 || id == 0xc400_0001 || id == 0x8400_0003 || id == 0xc400_0003
}

/// Whether the arguments of the PSCI function `id` can have any value: PSCI_VERSION, CPU_OFF,
/// MIGRATE_INFO_TYPE, MIGRATE_INFO_UP_CPU, SYSTEM_OFF, SYSTEM_RESET, CPU_FREEZE,
/// CPU_DEFAULT_SUSPEND, SYSTEM_SUSPEND, MEM_PROTECT and MEM_PROTECT_CHECK_RANGE.
pub open spec fn takes_any_arguments(id: int) -> bool {
    ||| id == 0x8400_0000
    ||| id == 0x8400_0002
    ||| 0x8400_0006 <= id <= 0x8400_0009
    ||| 0x8400_000b <= id <= 0x8400_000c
    ||| id == 0x8400_000e
    ||| 0x8400_0013 <= id <= 0x8400_0014
    ||| id == 0xc400_0007
    ||| id == 0xc400_000c
    ||| id == 0xc400_000e
    ||| id == 0xc400_0014
}

/// Whether `target` holds affinity fields alone: bits 0 to 23 and 32 to 39.
pub open spec fn is_affinity(target: int) -> bool {
    field(target, 24, 8) == 0 && field(target, 40, 24) == 0
}

/// Whether `state` holds a state identifier and type alone: bits 0 to 27 and 30.
pub open spec fn is_power_state(state: int) -> bool {
    field(state, 28, 2) == 0 && field(state, 31, 1) == 0
}

/// Whether a call with `registers` can be understood as `function`: the calls that start or suspend
/// a core have their arguments in the registers, in full for a 64-bit call and in their low words
/// for a 32-bit call. Other functions keep their identifier, and an identifier that is not one of
/// PSCI is not supported.
pub open spec fn is_reading_of(function: Result<PsciFunction, i32>, registers: Seq<u64>) -> bool {
    let id = low_word(registers[0]);
    &&& id == 0xc400_0003 ==> function == if is_affinity(registers[1] as int) {
        Ok::<_, i32>(
            PsciFunction::CpuOn {
                target_cpu: registers[1],
                entry_point: registers[2],
                context_id: registers[3],
            },
        )
    } else {
        Err(PSCI_INVALID_PARAMETERS)
    }
    &&& id == 0x8400_0003 ==> function == if is_affinity(low_word(registers[1])) {
        Ok::<_, i32>(
            PsciFunction::CpuOn {
                target_cpu: low_word(registers[1]) as u64,
                entry_point: low_word(registers[2]) as u64,
                context_id: low_word(registers[3]) as u64,
            },
        )
    } else {
        Err(PSCI_INVALID_PARAMETERS)
    }
    &&& id == 0xc400_0001 ==> function == if is_power_state(low_word(registers[1])) {
        Ok::<_, i32>(
            PsciFunction::CpuSuspend {
                power_state: low_word(registers[1]) as u32,
                entry_point: registers[2],
                context_id: registers[3],
            },
        )
    } else {
        Err(PSCI_INVALID_PARAMETERS)
    }
    &&& id == 0x8400_0001 ==> function == if is_power_state(low_word(registers[1])) {
        Ok::<_, i32>(
            PsciFunction::CpuSuspend {
                power_state: low_word(registers[1]) as u32,
                entry_point: low_word(registers[2]) as u64,
                context_id: low_word(registers[3]) as u64,
            },
        )
    } else {
        Err(PSCI_INVALID_PARAMETERS)
    }
    &&& !is_psci_id(id) ==> function == Err::<PsciFunction, _>(PSCI_NOT_SUPPORTED)
    &&& takes_any_arguments(id) ==> function == Ok::<_, i32>(PsciFunction::Other(id as u32))
    &&& function is Ok && !is_core_request(id) ==> function == Ok::<_, i32>(
        PsciFunction::Other(id as u32),
    )
    &&& function matches Err(code) ==> code == PSCI_NOT_SUPPORTED || code == PSCI_INVALID_PARAMETERS
}

/// Calls `arm_psci::Function::try_from` and, where it fails, the conversion of its error to
/// `arm_psci::ErrorCode` and to `i32`. The function is identified by the low word of the first
/// register. The arguments of CPU_ON and CPU_SUSPEND are given back as they were passed, unless they
/// have bits set that must be zero. An unknown identifier has the code of NOT_SUPPORTED, and
/// arguments that are refused that of INVALID_PARAMETERS. Which arguments the functions refuse that
/// are neither CPU_ON nor CPU_SUSPEND, and do not take any arguments, is left unsaid.
#[verifier::external_body]
fn read_psci_function(registers: [u64; 4]) -> (function: Result<PsciFunction, i32>)
    ensures
        function == psci_function(registers@),
        is_reading_of(function, registers@),
{
    match Function::try_from(&registers) {
        Ok(Function::CpuOn { target_cpu, entry }) => Ok(PsciFunction::CpuOn {
            target_cpu: target_cpu.into(),
            entry_point: entry.entry_point_address(),
            context_id: entry.context_id(),
        }),
        Ok(Function::CpuSuspend { state, entry }) => Ok(PsciFunction::CpuSuspend {
            power_state: state.into(),
            entry_point: entry.entry_point_address(),
            context_id: entry.context_id(),
        }),
        Ok(other) => Ok(PsciFunction::Other(other.function_id().into())),
        Err(error) => Err(i32::from(ErrorCode::from(error))),
    }
}

/// The arguments of a forwarded call: the three of the PSCI call, and zeros.
pub open spec fn forwarded_args(arg0: u64, arg1: u64, arg2: u64) -> Seq<u64> {
    seq![arg0, arg1, arg2] + Seq::new(14, |i: int| 0u64)
}

/// Whether `action` is what is to be done for a call that was understood as `function`: cores are
/// started and suspended by the hypervisor itself, and every other call is forwarded unchanged.
pub open spec fn is_action_for(
    action: PsciAction,
    function: PsciFunction,
    fn_id: u64,
    arg0: u64,
    arg1: u64,
    arg2: u64,
) -> bool {
    match function {
        PsciFunction::CpuOn { target_cpu, entry_point, context_id } => action
            == PsciAction::CpuOn { target_cpu, entry_point, context_id },
        PsciFunction::CpuSuspend { power_state, entry_point, context_id } => action
            == PsciAction::CpuSuspend { power_state, entry_point, context_id },
        PsciFunction::Other(_) => {
            &&& action matches PsciAction::Forward { function, args }
            &&& function == low_word(fn_id)
            &&& args@ == forwarded_args(arg0, arg1, arg2)
        },
    }
}

/// Decides what is to be done for a PSCI call that was understood as `function`.
pub fn psci_action(function: PsciFunction, fn_id: u64, arg0: u64, arg1: u64, arg2: u64) -> (action:
    PsciAction)
    ensures
        is_action_for(action, function, fn_id, arg0, arg1, arg2),
{
    match function {
        PsciFunction::CpuOn { target_cpu, entry_point, context_id } => {
            PsciAction::CpuOn { target_cpu, entry_point, context_id }
        },
        PsciFunction::CpuSuspend { power_state, entry_point, context_id } => {
            PsciAction::CpuSuspend { power_state, entry_point, context_id }
        },
        PsciFunction::Other(_) => {
            let mut args: [u64; 17] = [0;17];
            args[0] = arg0;
            args[1] = arg1;
            args[2] = arg2;
            assert(args@ == forwarded_args(arg0, arg1, arg2));
            assert(fn_id as u32 == fn_id % 0x1_0000_0000) by (bit_vector);
            proof {
                lemma2_to64();
            }
            // The function identifier has 32 bits, so the upper half can be dropped.
            PsciAction::Forward { function: fn_id as u32, args }
        },
    }
}

/// Decides what is to be done for a PSCI call.
///
/// # Errors
///
/// Returns the code of the error when an unknown PSCI function has been called, or one with invalid
/// parameters.
pub fn handle_psci(fn_id: u64, arg0: u64, arg1: u64, arg2: u64) -> (action: Result<PsciAction, i32>)
    ensures
        is_reading_of(psci_function(seq![fn_id, arg0, arg1, arg2]), seq![fn_id, arg0, arg1, arg2]),
        match psci_function(seq![fn_id, arg0, arg1, arg2]) {
            Ok(function) => action matches Ok(action) && is_action_for(
                action,
                function,
                fn_id,
                arg0,
                arg1,
                arg2,
            ),
            Err(code) => action == Err::<PsciAction, _>(code),
        },
{
    let registers: [u64; 4] = [fn_id, arg0, arg1, arg2];
    assert(registers@ == seq![fn_id, arg0, arg1, arg2]);
    match read_psci_function(registers) {
        Ok(function) => Ok(psci_action(function, fn_id, arg0, arg1, arg2)),
        Err(code) => Err(code),
    }
}

/// Decides what is to be done for a PSCI call, and with which error a call is refused.
///
/// # Errors
///
/// Returns the error that the guest is to be answered with when an unknown PSCI function has been
/// called, or one with invalid parameters.
pub fn try_handle_psci(fn_id: u64, arg0: u64, arg1: u64, arg2: u64) -> (action: Result<
    PsciAction,
    SmcccError,
>)
    ensures
        is_reading_of(psci_function(seq![fn_id, arg0, arg1, arg2]), seq![fn_id, arg0, arg1, arg2]),
        match psci_function(seq![fn_id, arg0, arg1, arg2]) {
            Ok(function) => action matches Ok(action) && is_action_for(
                action,
                function,
                fn_id,
                arg0,
                arg1,
                arg2,
            ),
            Err(code) => action == Err::<PsciAction, _>(SmcccError::of_code(code)),
        },
{
    match handle_psci(fn_id, arg0, arg1, arg2) {
        Ok(action) => Ok(action),
        Err(code) => Err(smccc_error_from_code(code)),
    }
}

/// The value that the guest is given in x0 for the request to start or suspend a core: zero, or the
/// code of the error in two's complement.
pub open spec fn core_request_value(result: Result<(), PsciError>) -> u64 {
    match result {
        Ok(()) => 0,
        Err(error) => (error.code() % 0x1_0000_0000_0000_0000) as u64,
    }
}

/// Returns the value that the guest is given in x0 for the request to start or suspend a core.
pub fn psci_result_to_u64(result: Result<(), PsciError>) -> (value: u64)
    ensures
        value == core_request_value(result),
{
    match result {
        Ok(()) => psci_success_code() as u32 as u64,
        Err(error) => {
            let code: i64 = psci_error_to_code(error);
            assert(code as u64 == code as int % 0x1_0000_0000_0000_0000) by (bit_vector);
            code as u64
        },
    }
}

/// The value that the guest is given in x0 for a PSCI call.
pub open spec fn psci_value(outcome: PsciOutcome) -> u64 {
    match outcome {
        PsciOutcome::Forwarded(registers) => registers[0],
        PsciOutcome::CoreRequest(result) => core_request_value(result),
    }
}

/// Returns the answer to a PSCI call, once its action was performed.
pub fn psci_response(outcome: PsciOutcome) -> (result: HvcResult)
    ensures
        result == HvcResult::Handled(
            Ok(HvcResponse::Success([psci_value(outcome), 0, 0, 0])),
        ),
{
    let value: u64 = match outcome {
        PsciOutcome::Forwarded(registers) => registers[0],
        PsciOutcome::CoreRequest(result) => psci_result_to_u64(result),
    };
    HvcResult::Handled(Ok(HvcResponse::from(value)))
}

/// A 64-bit CPU_ON call with a valid target starts that core at the address and with the context
/// that the guest passed.
pub proof fn lemma_cpu_on(
    function: Result<PsciFunction, i32>,
    action: PsciAction,
    target_cpu: u64,
    entry_point: u64,
    context_id: u64,
)
    requires
        is_reading_of(function, seq![0xc400_0003u64, target_cpu, entry_point, context_id]),
        is_affinity(target_cpu as int),
    ensures
        function is Ok,
        is_action_for(
            action,
            function->Ok_0,
            0xc400_0003,
            target_cpu,
            entry_point,
            context_id,
        ) <==> action == (PsciAction::CpuOn { target_cpu, entry_point, context_id }),
{
    lemma2_to64();
}

/// A 64-bit CPU_SUSPEND call with a valid power state suspends the core with the address and the
/// context that the guest passed.
pub proof fn lemma_cpu_suspend(
    function: Result<PsciFunction, i32>,
    action: PsciAction,
    power_state: u32,
    entry_point: u64,
    context_id: u64,
)
    requires
        is_reading_of(
            function,
            seq![0xc400_0001u64, power_state as u64, entry_point, context_id],
        ),
        is_power_state(power_state as int),
    ensures
        function is Ok,
        is_action_for(
            action,
            function->Ok_0,
            0xc400_0001,
            power_state as u64,
            entry_point,
            context_id,
        ) <==> action == (PsciAction::CpuSuspend { power_state, entry_point, context_id }),
{
    lemma2_to64();
}

/// A call that neither starts nor suspends a core is forwarded with its identifier and its arguments,
/// unless it is refused.
pub proof fn lemma_other_calls_are_forwarded(
    function: Result<PsciFunction, i32>,
    action: PsciAction,
    fn_id: u64,
    arg0: u64,
    arg1: u64,
    arg2: u64,
)
    requires
        is_reading_of(function, seq![fn_id, arg0, arg1, arg2]),
        !is_core_request(low_word(fn_id)),
        function is Ok,
        is_action_for(action, function->Ok_0, fn_id, arg0, arg1, arg2),
    ensures
        action matches PsciAction::Forward { function, args } && function == low_word(fn_id)
            && args@ == forwarded_args(arg0, arg1, arg2),
{
}

/// A call with an identifier that is not one of PSCI is refused as not supported.
pub proof fn lemma_unknown_function_is_not_supported(
    function: Result<PsciFunction, i32>,
    fn_id: u64,
    arg0: u64,
    arg1: u64,
    arg2: u64,
)
    requires
        is_reading_of(function, seq![fn_id, arg0, arg1, arg2]),
        !is_psci_id(low_word(fn_id)),
    ensures
        function is Err,
        SmcccError::of_code(function->Err_0) == SmcccError::NotSupported,
{
}

} // verus!
