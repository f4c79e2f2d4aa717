//! Fields and flags of the system registers, by the layouts that `arm_sysregs` defines.
//!
//! A register is held as its bits; reading and writing the registers is left to the caller.

use arm_sysregs::{
    CnthctlEl2, ElrEl2, EsrEl1, EsrEl2, FarEl2, HcrEl2, HpfarEl2, IccSreEl2, SctlrEl1, SpsrEl1,
    SpsrEl2, VtcrEl2,
};
use vstd::arithmetic::power2::pow2;
use vstd::prelude::*;

use crate::bits::{field, flag, with_field};

verus! {

/// Calls `EsrEl2::ec`: the exception class, bits 26 to 31.
#[verifier::external_body]
pub(crate) fn esr_el2_ec(esr_el2: u64) -> (ec: u8)
    ensures
        ec == field(esr_el2 as int, 26, 6),
{
    EsrEl2::from_bits_retain(esr_el2).ec()
}

/// Calls `EsrEl2::iss`: the instruction specific syndrome, bits 0 to 24.
#[verifier::external_body]
pub(crate) fn esr_el2_iss(esr_el2: u64) -> (iss: u32)
    ensures
        iss == field(esr_el2 as int, 0, 25),
{
    EsrEl2::from_bits_retain(esr_el2).iss()
}

/// Calls `HpfarEl2::fipa`: the faulting IPA above the page offset, bits 4 to 47.
#[verifier::external_body]
pub(crate) fn hpfar_el2_fipa(hpfar_el2: u64) -> (fipa: u64)
    ensures
        fipa == field(hpfar_el2 as int, 4, 44),
{
    HpfarEl2::from_bits_retain(hpfar_el2).fipa()
}

/// Calls `FarEl2::va`: the faulting virtual address, which is the whole register.
#[verifier::external_body]
pub(crate) fn far_el2_va(far_el2: u64) -> (va: u64)
    ensures
        va == far_el2,
{
    FarEl2::from_bits_retain(far_el2).va()
}

/// Calls `EsrEl1::ec`: the exception class, bits 26 to 31.
#[verifier::external_body]
pub(crate) fn esr_el1_ec(esr_el1: u64) -> (ec: u8)
    ensures
        ec == field(esr_el1 as int, 26, 6),
{
    EsrEl1::from_bits_retain(esr_el1).ec()
}

/// Calls `EsrEl1::set_ec`: sets the exception class and keeps the other bits. A class of more than
/// six bits would panic.
#[verifier::external_body]
pub(crate) fn esr_el1_with_ec(esr_el1: u64, ec: u8) -> (updated: u64)
    requires
        ec < 64,
    ensures
        updated == with_field(esr_el1 as int, 26, 6, ec as int),
{
    let mut register = EsrEl1::from_bits_retain(esr_el1);
    register.set_ec(ec);
    register.bits()
}

/// Calls `SpsrEl1::set_m_3_0`: sets the mode, bits 0 to 3, and keeps the other bits. A mode of more
/// than four bits would panic.
#[verifier::external_body]
pub(crate) fn spsr_el1_with_mode(spsr_el1: u64, mode: u8) -> (updated: u64)
    requires
        mode < 16,
    ensures
        updated == with_field(spsr_el1 as int, 0, 4, mode as int),
{
    let mut register = SpsrEl1::from_bits_retain(spsr_el1);
    register.set_m_3_0(mode);
    register.bits()
}

/// The interrupt masks of `SpsrEl1`: D is bit 9, A bit 8, I bit 7 and F bit 6.
#[verifier::external_body]
pub(crate) fn spsr_el1_masks(d: bool, a: bool, i: bool, f: bool) -> (bits: u64)
    ensures
        bits == flag(d, 9) + flag(a, 8) + flag(i, 7) + flag(f, 6),
{
    let mut register = SpsrEl1::empty();
    register.set(SpsrEl1::D, d);
    register.set(SpsrEl1::A, a);
    register.set(SpsrEl1::I, i);
    register.set(SpsrEl1::F, f);
    register.bits()
}

/// Calls `SpsrEl2::set_m_3_0`: sets the mode, bits 0 to 3, and keeps the other bits. A mode of more
/// than four bits would panic.
#[verifier::external_body]
pub(crate) fn spsr_el2_with_mode(spsr_el2: u64, mode: u8) -> (updated: u64)
    requires
        mode < 16,
    ensures
        updated == with_field(spsr_el2 as int, 0, 4, mode as int),
{
    let mut register = SpsrEl2::from_bits_retain(spsr_el2);
    register.set_m_3_0(mode);
    register.bits()
}

/// The interrupt masks of `SpsrEl2`: D is bit 9, A bit 8, I bit 7 and F bit 6.
#[verifier::external_body]
pub(crate) fn spsr_el2_masks(d: bool, a: bool, i: bool, f: bool) -> (bits: u64)
    ensures
        bits == flag(d, 9) + flag(a, 8) + flag(i, 7) + flag(f, 6),
{
    let mut register = SpsrEl2::empty();
    register.set(SpsrEl2::D, d);
    register.set(SpsrEl2::A, a);
    register.set(SpsrEl2::I, i);
    register.set(SpsrEl2::F, f);
    register.bits()
}

/// Flags of `HcrEl2`: RW is bit 31, TSC bit 19, VM bit 0 and IMO bit 4.
#[verifier::external_body]
pub(crate) fn hcr_el2_flags(rw: bool, tsc: bool, vm: bool, imo: bool) -> (bits: u64)
    ensures
        bits == flag(rw, 31) + flag(tsc, 19) + flag(vm, 0) + flag(imo, 4),
{
    let mut register = HcrEl2::empty();
    register.set(HcrEl2::RW, rw);
    register.set(HcrEl2::TSC, tsc);
    register.set(HcrEl2::VM, vm);
    register.set(HcrEl2::IMO, imo);
    register.bits()
}

/// Flags of `CnthctlEl2`: EL0PCTEN is bit 0 and EL1PCEN bit 1.
#[verifier::external_body]
pub(crate) fn cnthctl_el2_flags(el0pcten: bool, el1pcen: bool) -> (bits: u64)
    ensures
        bits == flag(el0pcten, 0) + flag(el1pcen, 1),
{
    let mut register = CnthctlEl2::empty();
    register.set(CnthctlEl2::EL0PCTEN, el0pcten);
    register.set(CnthctlEl2::EL1PCEN, el1pcen);
    register.bits()
}

/// Flags of `IccSreEl2`: SRE is bit 0, DFB bit 1, DIB bit 2 and ENABLE bit 3.
#[verifier::external_body]
pub(crate) fn icc_sre_el2_flags(sre: bool, dfb: bool, dib: bool, enable: bool) -> (bits: u64)
    ensures
        bits == flag(sre, 0) + flag(dfb, 1) + flag(dib, 2) + flag(enable, 3),
{
    let mut register = IccSreEl2::empty();
    register.set(IccSreEl2::SRE, sre);
    register.set(IccSreEl2::DFB, dfb);
    register.set(IccSreEl2::DIB, dib);
    register.set(IccSreEl2::ENABLE, enable);
    register.bits()
}

/// Flags of `SctlrEl1`: EOS is bit 11, TSCXT bit 20, EIS bit 22, SPAN bit 23, NTLSMD bit 28 and
/// LSMAOE bit 29.
#[verifier::external_body]
pub(crate) fn sctlr_el1_flags(
    eos: bool,
    tscxt: bool,
    eis: bool,
    span: bool,
    ntlsmd: bool,
    lsmaoe: bool,
) -> (bits: u64)
    ensures
        bits == flag(eos, 11) + flag(tscxt, 20) + flag(eis, 22) + flag(span, 23) + flag(ntlsmd, 28)
            + flag(lsmaoe, 29),
{
    let mut register = SctlrEl1::empty();
    register.set(SctlrEl1::EOS, eos);
    register.set(SctlrEl1::TSCXT, tscxt);
    register.set(SctlrEl1::EIS, eis);
    register.set(SctlrEl1::SPAN, span);
    register.set(SctlrEl1::NTLSMD, ntlsmd);
    register.set(SctlrEl1::LSMAOE, lsmaoe);
    register.bits()
}

/// Calls `ElrEl2::set_addr`: the return address is the whole register.
#[verifier::external_body]
pub(crate) fn elr_el2_with_addr(address: u64) -> (elr_el2: u64)
    ensures
        elr_el2 == address,
{
    let mut register = ElrEl2::default();
    register.set_addr(address);
    register.bits()
}

/// Calls the setters of `VtcrEl2` on an empty register: T0SZ has its lowest bit at bit 0, SL0 at bit
/// 6, IRGN0 at bit 8, ORGN0 at bit 10, SH0 at bit 12, TG0 at bit 14 and PS at bit 16. A value that is
/// too wide for its field would panic.
#[verifier::external_body]
pub(crate) fn vtcr_el2_fields(
    ps: u8,
    tg0: u8,
    sh0: u8,
    orgn0: u8,
    irgn0: u8,
    sl0: u8,
    t0sz: u8,
) -> (bits: u64)
    requires
        ps < 8,
        tg0 < 4,
        sh0 < 4,
        orgn0 < 4,
        irgn0 < 4,
        sl0 < 4,
        t0sz < 64,
    ensures
        bits == ps * pow2(16) + tg0 * pow2(14) + sh0 * pow2(12) + orgn0 * pow2(10) + irgn0 * pow2(8)
            + sl0 * pow2(6) + t0sz,
{
    let mut register = VtcrEl2::default();
    register.set_ps(ps);
    register.set_tg0(tg0);
    register.set_sh0(sh0);
    register.set_orgn0(orgn0);
    register.set_irgn0(irgn0);
    register.set_sl0(sl0);
    register.set_t0sz(t0sz);
    register.bits()
}

} // verus!
