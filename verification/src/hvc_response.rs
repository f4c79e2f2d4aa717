//! Answers to hypervisor calls, and how the guest sees them.

use vstd::prelude::*;
use vstd::std_specs::convert::{FromSpec, FromSpecImpl};

use crate::exceptions::{GuestRegisterStateRef, GuestRegisters};

verus! {

/// Error that an SMCCC call can be answered with.
#[derive(Clone, Copy, Debug, Eq, PartialEq, Structural)]
pub enum SmcccError {
    /// The call is not supported by the implementation.
    NotSupported,
    /// The call is deemed not required by the implementation.
    NotRequired,
    /// One of the call parameters has a non-supported value.
    InvalidParameter,
    /// Any other error code.
    Unknown(i32),
}

impl SmcccError {
    /// The code of the error in the SMC calling convention.
    pub open spec fn code(self) -> int {
        match self {
            SmcccError::NotSupported => -1,
            SmcccError::NotRequired => -2,
            SmcccError::InvalidParameter => -3,
            SmcccError::Unknown(code) => code as int,
        }
    }

    /// The error that `code` stands for.
    pub open spec fn of_code(code: i32) -> SmcccError {
        if code == -1 {
            SmcccError::NotSupported
        } else if code == -2 {
            SmcccError::NotRequired
        } else if code == -3 {
            SmcccError::InvalidParameter
        } else {
            SmcccError::Unknown(code)
        }
    }

    /// The value of x0 that tells the guest of the error: its code in two's complement.
    pub open spec fn register_value(self) -> u64 {
        (self.code() % 0x1_0000_0000_0000_0000) as u64
    }
}

/// Calls the conversion of `smccc::arch::Error` to `i32`: -1, -2 and -3 for the three errors that
/// have a name, and the code itself for an unknown one.
#[verifier::external_body]
fn smccc_error_to_code(error: SmcccError) -> (code: i32)
    ensures
        code == error.code(),
{
    i32::from(
        match error {
            SmcccError::NotSupported => smccc::arch::Error::NotSupported,
            SmcccError::NotRequired => smccc::arch::Error::NotRequired,
            SmcccError::InvalidParameter => smccc::arch::Error::InvalidParameter,
            SmcccError::Unknown(code) => smccc::arch::Error::Unknown(code),
        },
    )
}

/// Calls the conversion of `i32` to `smccc::arch::Error`: the error named by -1, -2 or -3, and an
/// unknown error that keeps the code for every other value.
#[verifier::external_body]
pub(crate) fn smccc_error_from_code(code: i32) -> (error: SmcccError)
    ensures
        error == SmcccError::of_code(code),
{
    match smccc::arch::Error::from(code) {
        smccc::arch::Error::NotSupported => SmcccError::NotSupported,
        smccc::arch::Error::NotRequired => SmcccError::NotRequired,
        smccc::arch::Error::InvalidParameter => SmcccError::InvalidParameter,
        smccc::arch::Error::Unknown(code) => SmcccError::Unknown(code),
    }
}

/// The result of an HVC call handled by the platform.
#[derive(Clone, Copy, Eq, PartialEq)]
pub enum HvcResponse {
    /// The HVC call was handled, and returns the provided values in x0-x3.
    /// x4-x17 are preserved.
    Success([u64; 4]),
    /// The HVC call was handled, and returns the provided values in x0-x17.
    SuccessLarge([u64; 18]),
}

/// The result of an HVC call.
#[derive(Clone, Copy, Debug, Eq, PartialEq)]
pub enum HvcResult {
    /// The HVC call was not handled.
    Unhandled,
    /// The HVC call was handled, and either succeeded or failed with an error code.
    Handled(Result<HvcResponse, SmcccError>),
}

impl HvcResponse {
    /// The values returned to the guest, from x0 on.
    pub open spec fn values(self) -> Seq<u64> {
        match self {
            HvcResponse::Success(values) => values@,
            HvcResponse::SuccessLarge(values) => values@,
        }
    }
}

/// The digit that stands for `digit`, which is below 16.
pub open spec fn hex_digit(digit: int) -> char {
    if digit < 10 {
        ('0' as int + digit) as char
    } else {
        ('a' as int + digit - 10) as char
    }
}

/// `value` in hexadecimal, in lower case and without leading zeros.
pub open spec fn hex_digits(value: nat) -> Seq<char>
    decreases value,
{
    if value < 16 {
        seq![hex_digit(value as int)]
    } else {
        hex_digits(value / 16).push(hex_digit(value as int % 16))
    }
}

/// `values` in hexadecimal, each with its prefix, separated by commas.
pub open spec fn hex_list(values: Seq<u64>) -> Seq<char>
    decreases values.len(),
{
    if values.len() == 0 {
        Seq::empty()
    } else if values.len() == 1 {
        "0x"@ + hex_digits(values[0] as nat)
    } else {
        hex_list(values.drop_last()) + ", "@ + ("0x"@ + hex_digits(values.last() as nat))
    }
}

/// `values` in hexadecimal, each with its prefix, and each on a line of its own.
pub open spec fn hex_lines(values: Seq<u64>) -> Seq<char>
    decreases values.len(),
{
    if values.len() == 0 {
        Seq::empty()
    } else {
        hex_lines(values.drop_last()) + "    0x"@ + hex_digits(values.last() as nat) + ",\n"@
    }
}

/// Formats a number with the `LowerHex` formatting of `std`: in hexadecimal, in lower case and
/// without leading zeros.
#[verifier::external_body]
fn lower_hex(value: u64) -> (text: String)
    ensures
        text@ == hex_digits(value as nat),
{
    format!("{value:x}")
}

impl HvcResponse {
    /// Returns the response as text for logs, with the returned values in hexadecimal.
    pub fn to_text(&self) -> (text: String)
        ensures
            text@ == "HvcResponse("@ + hex_list(self.values()) + ")"@,
    {
        let values: &[u64] = match self {
            HvcResponse::Success(values) => values.as_slice(),
            HvcResponse::SuccessLarge(values) => values.as_slice(),
        };
        let mut text = String::from_str("HvcResponse(");
        let mut index: usize = 0;
        assert(text@ == "HvcResponse("@ + hex_list(values@.take(0)));
        while index < values.len()
            invariant
                index <= values@.len(),
                text@ == "HvcResponse("@ + hex_list(values@.take(index as int)),
            decreases values@.len() - index,
        {
            assert(values@.take(index + 1).drop_last() == values@.take(index as int));
            if index != 0 {
                text.append(", ");
            }
            text.append("0x");
            text.append(lower_hex(values[index]).as_str());
            index = index + 1;
            assert(text@ == "HvcResponse("@ + hex_list(values@.take(index as int)));
        }
        assert(values@.take(index as int) == values@);
        text.append(")");
        text
    }

    /// Returns the response as text over several lines, with the returned values in hexadecimal.
    pub fn to_pretty_text(&self) -> (text: String)
        ensures
            text@ == "HvcResponse(\n"@ + hex_lines(self.values()) + ")"@,
    {
        let values: &[u64] = match self {
            HvcResponse::Success(values) => values.as_slice(),
            HvcResponse::SuccessLarge(values) => values.as_slice(),
        };
        let mut text = String::from_str("HvcResponse(\n");
        let mut index: usize = 0;
        assert(text@ == "HvcResponse(\n"@ + hex_lines(values@.take(0)));
        while index < values.len()
            invariant
                index <= values@.len(),
                text@ == "HvcResponse(\n"@ + hex_lines(values@.take(index as int)),
            decreases values@.len() - index,
        {
            assert(values@.take(index + 1).drop_last() == values@.take(index as int));
            text.append("    0x");
            text.append(lower_hex(values[index]).as_str());
            text.append(",\n");
            index = index + 1;
            assert(text@ == "HvcResponse(\n"@ + hex_lines(values@.take(index as int)));
        }
        assert(values@.take(index as int) == values@);
        text.append(")");
        text
    }
}

/// The formatter of `std`, which passes text on to where it is written.
#[verifier::external_type_specification]
#[verifier::external_body]
pub struct ExFormatter<'a>(core::fmt::Formatter<'a>);

/// The error of `std` for text that could not be written.
#[verifier::external_type_specification]
#[verifier::external_body]
pub struct ExFormatError(core::fmt::Error);

/// Calls `Formatter::write_str`, which writes `text` to where the formatter writes. Whether that
/// succeeds is up to the writer behind the formatter, so nothing is claimed of the result.
#[verifier::external_body]
fn write_text(f: &mut core::fmt::Formatter<'_>, text: &str) -> (result: Result<
    (),
    core::fmt::Error,
>) {
    f.write_str(text)
}

/// Calls `Formatter::alternate`, which tells whether the pretty form was asked for. Nothing is
/// claimed of the result: it depends on how the value is being formatted.
#[verifier::external_body]
fn is_alternate(f: &core::fmt::Formatter<'_>) -> (alternate: bool) {
    f.alternate()
}

impl core::fmt::Debug for HvcResponse {
    fn fmt(&self, f: &mut core::fmt::Formatter<'_>) -> (result: Result<(), core::fmt::Error>) {
        let text: String = if is_alternate(f) {
            self.to_pretty_text()
        } else {
            self.to_text()
        };
        write_text(f, text.as_str())
    }
}

impl From<u64> for HvcResponse {
    fn from(value: u64) -> (response: Self) {
        HvcResponse::Success([value, 0, 0, 0])
    }
}

impl FromSpecImpl<u64> for HvcResponse {
    open spec fn obeys_from_spec() -> bool {
        true
    }

    open spec fn from_spec(value: u64) -> Self {
        HvcResponse::Success([value, 0, 0, 0])
    }
}

impl From<[u64; 4]> for HvcResponse {
    fn from(value: [u64; 4]) -> (response: Self) {
        HvcResponse::Success(value)
    }
}

impl FromSpecImpl<[u64; 4]> for HvcResponse {
    open spec fn obeys_from_spec() -> bool {
        true
    }

    open spec fn from_spec(value: [u64; 4]) -> Self {
        HvcResponse::Success(value)
    }
}

impl From<[u64; 18]> for HvcResponse {
    fn from(value: [u64; 18]) -> (response: Self) {
        HvcResponse::SuccessLarge(value)
    }
}

impl FromSpecImpl<[u64; 18]> for HvcResponse {
    open spec fn obeys_from_spec() -> bool {
        true
    }

    open spec fn from_spec(value: [u64; 18]) -> Self {
        HvcResponse::SuccessLarge(value)
    }
}

/// The registers once `values` were returned in x0 and the registers after it.
pub open spec fn with_response(registers: GuestRegisters, values: Seq<u64>) -> GuestRegisters {
    GuestRegisters {
        gprs: values + registers.gprs.skip(values.len() as int),
        ..registers
    }
}

impl HvcResult {
    /// The registers once the guest was given this result.
    pub open spec fn applied_to(self, registers: GuestRegisters) -> GuestRegisters {
        match self {
            HvcResult::Handled(Ok(response)) => with_response(registers, response.values()),
            HvcResult::Handled(Err(error)) => registers.with_gpr(0, error.register_value()),
            HvcResult::Unhandled => registers.with_gpr(
                0,
                SmcccError::NotSupported.register_value(),
            ),
        }
    }

    /// Applies the HVC result to the saved guest register state following the SMCCC convention.
    pub fn modify_register_state(self, register_state: &mut GuestRegisterStateRef<'_>)
        ensures
            final(register_state)@ == self.applied_to(old(register_state)@),
            *final(final(register_state).volatile) == *final(old(register_state).volatile),
            *final(final(register_state).nonvolatile) == *final(old(register_state).nonvolatile),
    {
        match self {
            HvcResult::Handled(Ok(HvcResponse::Success(results))) => {
                write_response_registers(register_state, results.as_slice());
            },
            HvcResult::Handled(Ok(HvcResponse::SuccessLarge(results))) => {
                write_response_registers(register_state, results.as_slice());
            },
            HvcResult::Handled(Err(error)) => {
                let _ = register_state.write_gpr(0, error_to_u64(error));
            },
            HvcResult::Unhandled => {
                let _ = register_state.write_gpr(0, error_to_u64(SmcccError::NotSupported));
            },
        }
    }
}

fn write_response_registers(register_state: &mut GuestRegisterStateRef<'_>, results: &[u64])
    requires
        results@.len() <= 18,
    ensures
        final(register_state)@ == with_response(old(register_state)@, results@),
        *final(final(register_state).volatile) == *final(old(register_state).volatile),
        *final(final(register_state).nonvolatile) == *final(old(register_state).nonvolatile),
{
    let mut index: usize = 0;
    while index < results.len()
        invariant
            index <= results@.len() <= 18,
            register_state@ == with_response(old(register_state)@, results@.take(index as int)),
            *final(register_state.volatile) == *final(old(register_state).volatile),
            *final(register_state.nonvolatile) == *final(old(register_state).nonvolatile),
        decreases results@.len() - index,
    {
        let _ = register_state.write_gpr(index, results[index]);
        index = index + 1;
    }
    assert(results@.take(index as int) == results@);
}

/// Returns the value of x0 that tells the guest of `error`.
#[must_use]
fn error_to_u64(error: SmcccError) -> (value: u64)
    ensures
        value == error.register_value(),
{
    let code: i32 = smccc_error_to_code(error);
    assert((code as i64) as u64 == code as int % 0x1_0000_0000_0000_0000) by (bit_vector);
    (code as i64) as u64
}

/// A call that succeeds with four values returns them in x0-x3 and keeps x4-x30, and the guest goes
/// on where it was.
pub proof fn lemma_success_keeps_other_registers(
    registers: GuestRegisters,
    values: [u64; 4],
    index: int,
)
    requires
        registers.gprs.len() == 31,
    ensures
        ({
            let after = HvcResult::Handled(Ok(HvcResponse::Success(values))).applied_to(registers);
            &&& 0 <= index < 4 ==> after.gpr(index) == Some(values[index])
            &&& 4 <= index ==> after.gpr(index) == registers.gpr(index)
            &&& after.gprs.len() == 31
            &&& after.elr == registers.elr
            &&& after.spsr == registers.spsr
        }),
{
}

/// A call that succeeds with eighteen values returns them in x0-x17 and keeps x18-x30, and the guest
/// goes on where it was.
pub proof fn lemma_large_success_keeps_other_registers(
    registers: GuestRegisters,
    values: [u64; 18],
    index: int,
)
    requires
        registers.gprs.len() == 31,
    ensures
        ({
            let after = HvcResult::Handled(Ok(HvcResponse::SuccessLarge(values))).applied_to(
                registers,
            );
            &&& 0 <= index < 18 ==> after.gpr(index) == Some(values[index])
            &&& 18 <= index ==> after.gpr(index) == registers.gpr(index)
            &&& after.gprs.len() == 31
            &&& after.elr == registers.elr
            &&& after.spsr == registers.spsr
        }),
{
}

/// A call that nobody handled is answered like one that failed as not supported: x0 is -1 and
/// everything else is kept.
pub proof fn lemma_unhandled_is_not_supported(registers: GuestRegisters, index: int)
    requires
        registers.gprs.len() == 31,
    ensures
        HvcResult::Unhandled.applied_to(registers) == HvcResult::Handled(
            Err(SmcccError::NotSupported),
        ).applied_to(registers),
        HvcResult::Unhandled.applied_to(registers).gpr(0) == Some(0xffff_ffff_ffff_ffffu64),
        index != 0 ==> HvcResult::Unhandled.applied_to(registers).gpr(index) == registers.gpr(
            index,
        ),
{
}

/// A call that failed changes x0 alone, to the code of the error in two's complement.
pub proof fn lemma_failure_changes_x0_alone(
    registers: GuestRegisters,
    error: SmcccError,
    index: int,
)
    requires
        registers.gprs.len() == 31,
    ensures
        ({
            let after = HvcResult::Handled(Err(error)).applied_to(registers);
            &&& after.gpr(0) == Some(error.register_value())
            &&& index != 0 ==> after.gpr(index) == registers.gpr(index)
            &&& after.elr == registers.elr
            &&& after.spsr == registers.spsr
        }),
        error.code() < 0 ==> error.register_value() == 0x1_0000_0000_0000_0000 + error.code(),
        error.code() >= 0 ==> error.register_value() == error.code(),
{
}

/// The error that a code stands for has that code.
pub proof fn lemma_code_of_error_of_code(code: i32)
    ensures
        SmcccError::of_code(code).code() == code,
{
}

/// A single returned value goes to x0, and x1-x3 are cleared.
pub proof fn lemma_response_from_single_value(value: u64)
    ensures
        <HvcResponse as FromSpec<u64>>::from_spec(value).values() == seq![value, 0, 0, 0],
{
}

} // verus!
