# ritm

The core of RITM, a thin AArch64 hypervisor that runs a single guest at EL1, verified with Verus.

- `src/memory_access.rs` decodes trapped guest loads and stores from the exception syndrome.
- `src/exceptions.rs` is the guest's register state.
- `src/stage2.rs` is the access policy: which guest memory is mapped and which is emulated. It keeps
  its ranges in the tables of `src/tables.rs` and maps pages through `src/page_table.rs`.
- `src/hypervisor.rs` decides what is done for an exception of the guest, emulates accesses, injects
  aborts, and computes the system registers with which the guest is entered.
- `src/hvc_response.rs` and `src/psci.rs` answer hypervisor and PSCI calls.
- `src/cores.rs` keeps track of suspended cores and of the stacks of secondary cores.
- `src/sysregs.rs` knows the layouts of the system registers, and `src/bits.rs` how to speak of them.

Reading and writing system registers, exception entry and exit, and firmware calls are in `app/`.
