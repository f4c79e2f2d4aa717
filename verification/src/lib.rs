//! Verified core of a thin AArch64 hypervisor that runs a single guest at EL1.
//!
//! The crate holds the decisions of the hypervisor: how a trapped guest access is decoded and
//! emulated, which parts of guest memory are mapped and which are left to emulation, how hypervisor
//! and PSCI calls are answered, and which values the system registers get. Reading and writing the
//! registers themselves, and everything else that needs the machine, is left to the caller.

pub mod bits;
pub mod cores;
pub mod exceptions;
pub mod hvc_response;
pub mod hypervisor;
pub mod laws;
pub mod memory_access;
pub mod page_table;
pub mod psci;
pub mod stage2;
mod sysregs;
pub mod tables;
