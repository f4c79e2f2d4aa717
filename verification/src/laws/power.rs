//! Laws of PSCI calls and of cores.

use vstd::arithmetic::power2::{lemma2_to64, lemma2_to64_rest};
use vstd::prelude::*;

use crate::cores::{
    is_entry_at, is_resumed, is_saved, is_slot_of, owners_with, CoreEntry, SuspendCoreData,
};
use crate::psci::{
    core_request_value, forwarded_args, is_action_for, is_reading_of, low_word, psci_value,
    PsciAction, PsciError, PsciFunction, PsciOutcome,
};

verus! {

/// A 64-bit CPU_ON names the core in x1, and the address and context for it in x2 and x3. It is
/// refused as invalid exactly if x1 has other bits than those of the affinity levels: 0 to 23 and 32
/// to 39.
pub proof fn lemma_cpu_on_64(function: Result<PsciFunction, i32>, registers: Seq<u64>)
    requires
        is_reading_of(function, registers),
        registers[0] as int % 0x1_0000_0000 == 0xc400_0003,
    ensures
        registers[1] < 0x100_0000_0000 && registers[1] / 0x100_0000 % 0x100 == 0 ==> {
            &&& function matches Ok(PsciFunction::CpuOn { target_cpu, entry_point, context_id })
            &&& target_cpu == registers[1]
            &&& entry_point == registers[2]
            &&& context_id == registers[3]
        },
        !(registers[1] < 0x100_0000_0000 && registers[1] / 0x100_0000 % 0x100 == 0) ==> (function
            matches Err(code) && code == -2),
{
    lemma2_to64();
    lemma2_to64_rest();
}

/// A 32-bit CPU_ON is one whose arguments are the low halves of x1-x3.
pub proof fn lemma_cpu_on_32(function: Result<PsciFunction, i32>, registers: Seq<u64>)
    requires
        is_reading_of(function, registers),
        registers[0] as int % 0x1_0000_0000 == 0x8400_0003,
    ensures
        registers[1] as int % 0x1_0000_0000 < 0x100_0000 ==> {
            &&& function matches Ok(PsciFunction::CpuOn { target_cpu, entry_point, context_id })
            &&& target_cpu == registers[1] as int % 0x1_0000_0000
            &&& entry_point == registers[2] as int % 0x1_0000_0000
            &&& context_id == registers[3] as int % 0x1_0000_0000
        },
        registers[1] as int % 0x1_0000_0000 >= 0x100_0000 ==> (function matches Err(code) && code
            == -2),
{
    lemma2_to64();
    lemma2_to64_rest();
}

/// A 64-bit CPU_SUSPEND has the power state in the low half of x1, and the address and context to
/// resume with in x2 and x3. It is refused as invalid exactly if bit 28, 29 or 31 of the power state is
/// set.
pub proof fn lemma_cpu_suspend_64(function: Result<PsciFunction, i32>, registers: Seq<u64>)
    requires
        is_reading_of(function, registers),
        registers[0] as int % 0x1_0000_0000 == 0xc400_0001,
    ensures
        ({
            let state = registers[1] as int % 0x1_0000_0000;
            if state < 0x8000_0000 && state / 0x1000_0000 % 4 == 0 {
                &&& function matches Ok(
                    PsciFunction::CpuSuspend { power_state, entry_point, context_id },
                )
                &&& power_state == state
                &&& entry_point == registers[2]
                &&& context_id == registers[3]
            } else {
                function matches Err(code) && code == -2
            }
        }),
{
    lemma2_to64();
    lemma2_to64_rest();
}

/// A 32-bit CPU_SUSPEND is one whose arguments are the low halves of x1-x3.
pub proof fn lemma_cpu_suspend_32(function: Result<PsciFunction, i32>, registers: Seq<u64>)
    requires
        is_reading_of(function, registers),
        registers[0] as int % 0x1_0000_0000 == 0x8400_0001,
    ensures
        ({
            let state = registers[1] as int % 0x1_0000_0000;
            if state < 0x8000_0000 && state / 0x1000_0000 % 4 == 0 {
                &&& function matches Ok(
                    PsciFunction::CpuSuspend { power_state, entry_point, context_id },
                )
                &&& power_state == state
                &&& entry_point == registers[2] as int % 0x1_0000_0000
                &&& context_id == registers[3] as int % 0x1_0000_0000
            } else {
                function matches Err(code) && code == -2
            }
        }),
{
    lemma2_to64();
    lemma2_to64_rest();
}

/// PSCI_VERSION, CPU_OFF, MIGRATE_INFO_TYPE, MIGRATE_INFO_UP_CPU, SYSTEM_OFF, SYSTEM_RESET,
/// CPU_FREEZE, CPU_DEFAULT_SUSPEND, SYSTEM_SUSPEND, MEM_PROTECT and MEM_PROTECT_CHECK_RANGE are
/// understood whatever their arguments are.
pub proof fn lemma_functions_of_any_arguments(
    function: Result<PsciFunction, i32>,
    registers: Seq<u64>,
)
    requires
        is_reading_of(function, registers),
        ({
            let id = registers[0] as int % 0x1_0000_0000;
            ||| id == 0x8400_0000 || id == 0x8400_0002 || id == 0x8400_0006 || id == 0x8400_0007
            ||| id == 0x8400_0008 || id == 0x8400_0009 || id == 0x8400_000b || id == 0x8400_000c
            ||| id == 0x8400_000e || id == 0x8400_0013 || id == 0x8400_0014 || id == 0xc400_0007
            ||| id == 0xc400_000c || id == 0xc400_000e || id == 0xc400_0014
        }),
    ensures
        function matches Ok(PsciFunction::Other(id)) && id == registers[0] as int % 0x1_0000_0000,
{
    lemma2_to64();
}

/// An identifier that PSCI does not define is refused as not supported: those from 0x16 on, and of the
/// 64-bit ones those of functions that have no 64-bit form.
pub proof fn lemma_undefined_functions(function: Result<PsciFunction, i32>, registers: Seq<u64>)
    requires
        is_reading_of(function, registers),
        ({
            let id = registers[0] as int % 0x1_0000_0000;
            ||| id < 0x8400_0000
            ||| 0x8400_0016 <= id <= 0xc400_0000
            ||| id == 0xc400_0002 || id == 0xc400_0006
            ||| 0xc400_0008 <= id <= 0xc400_000b
            ||| id == 0xc400_000f || id == 0xc400_0013
            ||| 0xc400_0016 <= id
        }),
    ensures
        function matches Err(code) && code == -1,
{
    lemma2_to64();
}

/// Only CPU_ON and CPU_SUSPEND ask for a core, every other function that is understood keeps its
/// identifier, and a call is refused with -1 or -2.
pub proof fn lemma_readings(function: Result<PsciFunction, i32>, registers: Seq<u64>)
    requires
        is_reading_of(function, registers),
    ensures
        ({
            let id = registers[0] as int % 0x1_0000_0000;
            match function {
                Ok(PsciFunction::CpuOn { .. }) => id == 0x8400_0003 || id == 0xc400_0003,
                Ok(PsciFunction::CpuSuspend { .. }) => id == 0x8400_0001 || id == 0xc400_0001,
                Ok(PsciFunction::Other(other)) => other == id && id != 0x8400_0001 && id
                    != 0x8400_0003 && id != 0xc400_0001 && id != 0xc400_0003,
                Err(code) => code == -1 || code == -2,
            }
        }),
{
    lemma2_to64();
}

/// A call is forwarded with the low half of x0 as its function, with x1-x3 as its first three
/// arguments and zeros as the other fourteen.
pub proof fn lemma_forwarded_call(
    action: PsciAction,
    id: u32,
    fn_id: u64,
    arg0: u64,
    arg1: u64,
    arg2: u64,
)
    requires
        is_action_for(action, PsciFunction::Other(id), fn_id, arg0, arg1, arg2),
    ensures
        action matches PsciAction::Forward { function, args } && {
            &&& function == fn_id as int % 0x1_0000_0000
            &&& args[0] == arg0
            &&& args[1] == arg1
            &&& args[2] == arg2
            &&& forall|i: int| 3 <= i < 17 ==> #[trigger] args[i] == 0
        },
        low_word(fn_id) == fn_id as int % 0x1_0000_0000,
{
    lemma2_to64();
    let args = action->Forward_args;
    assert(args@ == forwarded_args(arg0, arg1, arg2));
    assert forall|i: int| 3 <= i < 17 implies #[trigger] args[i] == 0 by {
        assert(args@[i] == 0);
    }
    assert(args@[0] == arg0 && args@[1] == arg1 && args@[2] == arg2);
}

/// A core is started, or suspended, with exactly what the call asked for.
pub proof fn lemma_core_actions(
    action: PsciAction,
    target: u64,
    state: u32,
    entry_point: u64,
    context_id: u64,
    fn_id: u64,
    arg0: u64,
    arg1: u64,
    arg2: u64,
)
    ensures
        is_action_for(
            action,
            PsciFunction::CpuOn { target_cpu: target, entry_point, context_id },
            fn_id,
            arg0,
            arg1,
            arg2,
        ) ==> action == (PsciAction::CpuOn { target_cpu: target, entry_point, context_id }),
        is_action_for(
            action,
            PsciFunction::CpuSuspend { power_state: state, entry_point, context_id },
            fn_id,
            arg0,
            arg1,
            arg2,
        ) ==> action == (PsciAction::CpuSuspend { power_state: state, entry_point, context_id }),
{
}

/// The codes of the errors that PSCI names are -1 to -9, and any other error has its own code.
pub proof fn lemma_psci_error_codes(error: PsciError)
    ensures
        match error {
            PsciError::NotSupported => error.code() == -1,
            PsciError::InvalidParameters => error.code() == -2,
            PsciError::Denied => error.code() == -3,
            PsciError::AlreadyOn => error.code() == -4,
            PsciError::OnPending => error.code() == -5,
            PsciError::InternalFailure => error.code() == -6,
            PsciError::NotPresent => error.code() == -7,
            PsciError::Disabled => error.code() == -8,
            PsciError::InvalidAddress => error.code() == -9,
            PsciError::Unknown(code) => error.code() == code,
        },
{
}

/// The answer to a request for a core is zero if it succeeded, and else the 64-bit two's complement of
/// the error's code: as a signed number it is the code.
pub proof fn lemma_core_request_answer(error: PsciError)
    ensures
        core_request_value(Ok(())) == 0,
        error.code() >= 0 ==> core_request_value(Err(error)) == error.code(),
        error.code() < 0 ==> core_request_value(Err(error)) == error.code()
            + 0x1_0000_0000_0000_0000,
{
}

/// A forwarded call is answered with what the firmware returned first, and a request for a core with
/// its result.
pub proof fn lemma_psci_answer(registers: [u64; 18], result: Result<(), PsciError>)
    ensures
        psci_value(PsciOutcome::Forwarded(registers)) == registers@[0],
        psci_value(PsciOutcome::CoreRequest(result)) == core_request_value(result),
        result is Ok ==> psci_value(PsciOutcome::CoreRequest(result)) == 0,
{
}

/// A core enters the guest where it was asked to, with the context in x0 and with zeros in x1-x3.
pub proof fn lemma_core_entry(entry: CoreEntry, entry_point: u64, context_id: u64)
    requires
        is_entry_at(entry, entry_point, context_id),
    ensures
        entry.entry_point == entry_point,
        entry.args@[0] == context_id,
        entry.args@[1] == 0,
        entry.args@[2] == 0,
        entry.args@[3] == 0,
{
}

/// A core that was suspended resumes at the address and with the context that it was suspended with,
/// even if another core is suspended or resumes in between. It resumes so once.
pub proof fn lemma_suspend_and_resume(
    before: Map<u64, SuspendCoreData>,
    mpidr: u64,
    entry_point: u64,
    context_id: u64,
    saved: Map<u64, SuspendCoreData>,
    other: u64,
    other_entry_point: u64,
    other_context_id: u64,
    between: Map<u64, SuspendCoreData>,
    other_entry: Option<CoreEntry>,
    entry: Option<CoreEntry>,
    after: Map<u64, SuspendCoreData>,
    again: Option<CoreEntry>,
    last: Map<u64, SuspendCoreData>,
)
    requires
        is_saved(before, mpidr, entry_point, context_id, saved),
        other != mpidr,
        between == saved || is_saved(saved, other, other_entry_point, other_context_id, between)
            || is_resumed(saved, other, other_entry, between),
        is_resumed(between, mpidr, entry, after),
        is_resumed(after, mpidr, again, last),
    ensures
        entry matches Some(entry) && {
            &&& entry.entry_point == entry_point
            &&& entry.args@[0] == context_id
            &&& entry.args@[1] == 0
            &&& entry.args@[2] == 0
            &&& entry.args@[3] == 0
        },
        again is None,
{
}

/// Giving a core its stack takes none away and gives no core a second one. A core gets one as long as
/// there are any left.
pub proof fn lemma_stack_owners(owners: Seq<u64>, capacity: nat, mpidr: u64, slot: int)
    requires
        owners.len() <= capacity,
        owners.no_duplicates(),
    ensures
        ({
            let after = owners_with(owners, capacity, mpidr);
            &&& after.no_duplicates()
            &&& owners.len() <= after.len() <= capacity
            &&& forall|i: int| 0 <= i < owners.len() ==> after[i] == #[trigger] owners[i]
            &&& forall|i: int|
                owners.len() <= i < after.len() ==> #[trigger] after[i] == mpidr
            &&& owners.len() < capacity ==> after.contains(mpidr)
            &&& owners.contains(mpidr) ==> after == owners
            &&& is_slot_of(slot, after, mpidr) <==> 0 <= slot < after.len() && after[slot] == mpidr
        }),
{
    if !owners.contains(mpidr) && owners.len() < capacity {
        assert(owners_with(owners, capacity, mpidr)[owners.len() as int] == mpidr);
    }
}

} // verus!
