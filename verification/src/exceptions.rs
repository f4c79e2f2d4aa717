//! The register state of a guest that took an exception to the hypervisor.

use vstd::prelude::*;

verus! {

/// Volatile guest registers saved on exception entry.
#[derive(Clone, Debug, Eq, PartialEq)]
pub struct RegisterState {
    /// General-purpose registers x0-x18.
    pub registers: [u64; 19],
    /// The frame pointer, x29.
    pub fp: u64,
    /// The link register, x30.
    pub sp: u64,
    /// The exception return address.
    pub elr: usize,
    /// The exception return status.
    pub spsr: u64,
}

/// Non-volatile registers saved by the synchronous lower-EL handler.
///
/// The exception vector saves x0-x18, x29, x30, ELR and SPSR before calling the exception handler.
/// Stage-2 MMIO emulation may also need to read or update x19-x28, so the handler saves these
/// registers in this separate frame.
#[derive(Debug, Eq, PartialEq)]
pub struct NonVolatileRegisters {
    /// General-purpose registers x19-x28.
    pub registers: [u64; 10],
}

/// Error returned when a register that the guest does not have is written.
#[derive(Clone, Copy, Debug, Eq, PartialEq, Structural)]
pub struct GuestRegisterWriteError;

impl GuestRegisterWriteError {
    /// Returns a description of the error.
    pub fn message(&self) -> (message: &'static str)
        ensures
            message@ == "invalid guest register index"@,
    {
        "invalid guest register index"
    }
}

/// The registers of a guest, as the guest sees them.
#[verifier::ext_equal]
pub struct GuestRegisters {
    /// General-purpose registers x0-x30, in order.
    pub gprs: Seq<u64>,
    /// The exception return address.
    pub elr: usize,
    /// The exception return status.
    pub spsr: u64,
}

/// The guest registers that the two saved frames hold.
pub open spec fn guest_registers(
    volatile: RegisterState,
    nonvolatile: NonVolatileRegisters,
) -> GuestRegisters {
    GuestRegisters {
        gprs: volatile.registers@ + nonvolatile.registers@ + seq![volatile.fp, volatile.sp],
        elr: volatile.elr,
        spsr: volatile.spsr,
    }
}

impl GuestRegisters {
    /// What an instruction reads from register `index`: index 31 is the zero register, and there
    /// are no registers beyond it.
    pub open spec fn gpr(self, index: int) -> Option<u64> {
        if 0 <= index < 31 {
            Some(self.gprs[index])
        } else if index == 31 {
            Some(0)
        } else {
            None
        }
    }

    /// The registers after an instruction wrote `value` to register `index`: what is written to the
    /// zero register is lost.
    pub open spec fn with_gpr(self, index: int, value: u64) -> GuestRegisters {
        if 0 <= index < 31 {
            GuestRegisters { gprs: self.gprs.update(index, value), ..self }
        } else {
            self
        }
    }

    /// The registers once execution went on by `byte_count` bytes.
    pub open spec fn advanced(self, byte_count: int) -> GuestRegisters {
        GuestRegisters { elr: (self.elr + byte_count) as usize, ..self }
    }
}

/// Guest register view for synchronous lower-EL exceptions.
///
/// This combines the volatile registers saved by the exception vector with the x19-x28 frame saved
/// by the synchronous lower-EL handler.
#[derive(Debug)]
pub struct GuestRegisterStateRef<'a> {
    /// The frame saved by the exception vector.
    pub volatile: &'a mut RegisterState,
    /// The frame saved by the handler.
    pub nonvolatile: &'a mut NonVolatileRegisters,
}

impl<'a> View for GuestRegisterStateRef<'a> {
    type V = GuestRegisters;

    open spec fn view(&self) -> GuestRegisters {
        guest_registers(*self.volatile, *self.nonvolatile)
    }
}

impl<'a> GuestRegisterStateRef<'a> {
    /// Combines the two saved frames.
    pub fn new(
        volatile: &'a mut RegisterState,
        nonvolatile: &'a mut NonVolatileRegisters,
    ) -> (registers: Self)
        ensures
            registers@ == guest_registers(*old(volatile), *old(nonvolatile)),
            *final(registers.volatile) == *final(volatile),
            *final(registers.nonvolatile) == *final(nonvolatile),
    {
        GuestRegisterStateRef { volatile, nonvolatile }
    }

    /// Returns the volatile GPR frame, x0-x18.
    pub fn volatile_gprs(&self) -> (gprs: &[u64; 19])
        ensures
            gprs@ == self@.gprs.take(19),
    {
        assert(self.volatile.registers@ == self@.gprs.take(19));
        &self.volatile.registers
    }

    /// Returns the value of guest GPR `index`.
    pub fn read_gpr(&self, index: usize) -> (value: Option<u64>)
        ensures
            value == self@.gpr(index as int),
            index <= 30 ==> value == Some(self@.gprs[index as int]),
            index == 31 ==> value == Some(0u64),
            index > 31 ==> value is None,
    {
        if index <= 18 {
            Some(self.volatile.registers[index])
        } else if index <= 28 {
            Some(self.nonvolatile.registers[index - 19])
        } else if index == 29 {
            Some(self.volatile.fp)
        } else if index == 30 {
            Some(self.volatile.sp)
        } else if index == 31 {
            Some(0)
        } else {
            None
        }
    }

    /// Updates guest GPR `index`.
    ///
    /// The caller must ensure that `value` is safe to write into guest GPR `index` for the trapped
    /// instruction or exception being handled.
    ///
    /// # Errors
    ///
    /// Returns [`GuestRegisterWriteError`] if `index` is not a guest GPR.
    pub fn write_gpr(&mut self, index: usize, value: u64) -> (result: Result<
        (),
        GuestRegisterWriteError,
    >)
        ensures
            result is Ok <==> index <= 31,
            final(self)@ == old(self)@.with_gpr(index as int, value),
            *final(final(self).volatile) == *final(old(self).volatile),
            *final(final(self).nonvolatile) == *final(old(self).nonvolatile),
    {
        if index <= 18 {
            self.volatile.registers[index] = value;
        } else if index <= 28 {
            self.nonvolatile.registers[index - 19] = value;
        } else if index == 29 {
            self.volatile.fp = value;
        } else if index == 30 {
            self.volatile.sp = value;
        } else if index != 31 {
            return Err(GuestRegisterWriteError);
        }
        assert(self@.gprs == old(self)@.with_gpr(index as int, value).gprs);
        Ok(())
    }

    /// Returns the saved exception return address.
    pub fn exception_return_address(&self) -> (elr: usize)
        ensures
            elr == self@.elr,
    {
        self.volatile.elr
    }

    /// Returns the saved exception return status.
    pub fn exception_return_status(&self) -> (spsr: u64)
        ensures
            spsr == self@.spsr,
    {
        self.volatile.spsr
    }

    /// Advances the saved exception return address by `byte_count`.
    ///
    /// The caller must ensure that advancing the return address leaves it pointing to a valid guest
    /// exception return location.
    pub fn advance_pc(&mut self, byte_count: usize)
        requires
            old(self)@.elr + byte_count <= usize::MAX,
        ensures
            final(self)@ == old(self)@.advanced(byte_count as int),
            *final(final(self).volatile) == *final(old(self).volatile),
            *final(final(self).nonvolatile) == *final(old(self).nonvolatile),
    {
        self.volatile.elr = self.volatile.elr + byte_count;
    }

    /// Sets the saved exception return address and status.
    ///
    /// The caller must ensure that `elr` and `spsr` describe a valid guest exception return state.
    pub fn set_exception_return(&mut self, elr: usize, spsr: u64)
        ensures
            final(self)@ == (GuestRegisters { elr, spsr, ..old(self)@ }),
            *final(final(self).volatile) == *final(old(self).volatile),
            *final(final(self).nonvolatile) == *final(old(self).nonvolatile),
    {
        self.volatile.elr = elr;
        self.volatile.spsr = spsr;
    }
}

/// Reading a register gives back what was last written to it. The zero register keeps reading as
/// zero, and no other register changes.
pub proof fn lemma_read_after_write(registers: GuestRegisters, index: int, value: u64, other: int)
    requires
        registers.gprs.len() == 31,
        0 <= index <= 31,
    ensures
        registers.with_gpr(index, value).gpr(index) == Some(
            if index == 31 {
                0
            } else {
                value
            },
        ),
        other != index ==> registers.with_gpr(index, value).gpr(other) == registers.gpr(other),
        registers.with_gpr(index, value).elr == registers.elr,
        registers.with_gpr(index, value).spsr == registers.spsr,
{
}

/// A guest has 31 general-purpose registers, whatever the saved frames hold.
pub proof fn lemma_register_count(volatile: RegisterState, nonvolatile: NonVolatileRegisters)
    ensures
        guest_registers(volatile, nonvolatile).gprs.len() == 31,
{
}

} // verus!
