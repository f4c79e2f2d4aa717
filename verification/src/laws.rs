//! What holds of the hypervisor for every guest, stated over the bits of the architecture.
//!
//! These laws speak of addresses, register numbers and bit positions as the architecture manual
//! gives them, and of how results relate to each other.

pub mod access;
pub mod aborts;
pub mod calls;
pub mod emulation;
pub mod policy;
pub mod power;
pub mod registers;
pub mod text;
