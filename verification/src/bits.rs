//! Bit fields of register values, described arithmetically.

use vstd::arithmetic::div_mod::{
    lemma_div_denominator, lemma_fundamental_div_mod, lemma_fundamental_div_mod_converse,
};
use vstd::arithmetic::power2::{lemma2_to64, lemma_pow2_pos, pow2};
use vstd::prelude::*;

verus! {

/// The field of `width` bits of `value` whose lowest bit is bit `low`.
pub open spec fn field(value: int, low: nat, width: nat) -> int {
    value / (pow2(low) as int) % (pow2(width) as int)
}

/// Whether bit `index` of `value` is set.
pub open spec fn bit(value: int, index: nat) -> bool {
    field(value, index, 1) == 1
}

/// `value` with the field of `width` bits whose lowest bit is bit `low` set to `new`.
pub open spec fn with_field(value: int, low: nat, width: nat, new: int) -> int {
    value + (new - field(value, low, width)) * pow2(low)
}

/// The value of a register of which bit `index` may be set, and no other bit is.
pub open spec fn flag(set: bool, index: nat) -> int {
    if set {
        pow2(index) as int
    } else {
        0
    }
}

/// A value consists of what is below a field, the field, and what is above it.
pub proof fn lemma_field_is_part(value: int, low: nat, width: nat)
    requires
        0 <= value,
    ensures
        0 <= field(value, low, width) < pow2(width),
        ({
            let below = pow2(low) as int;
            let above = below * pow2(width);
            value == value / above * above + field(value, low, width) * below + value % below
        }),
{
    lemma_pow2_pos(low);
    lemma_pow2_pos(width);
    let p = pow2(low) as int;
    let q = pow2(width) as int;
    lemma_fundamental_div_mod(value, p);
    lemma_fundamental_div_mod(value / p, q);
    lemma_div_denominator(value, p, q);
    let high = value / p / q;
    assert(value == p * (q * high + field(value, low, width)) + value % p);
    assert(p * (q * high + field(value, low, width)) == high * (p * q) + field(value, low, width)
        * p) by (nonlinear_arith);
}

/// A field that was set holds what it was set to, and all bits below and above it are as they were.
pub proof fn lemma_set_field(value: int, low: nat, width: nat, new: int)
    requires
        0 <= value,
        0 <= new < pow2(width),
    ensures
        field(with_field(value, low, width, new), low, width) == new,
        with_field(value, low, width, new) % pow2(low) as int == value % pow2(low) as int,
        with_field(value, low, width, new) / (pow2(low) as int * pow2(width)) == value / (pow2(
            low,
        ) as int * pow2(width)),
        with_field(value, low, width, new) >= 0,
{
    lemma_pow2_pos(low);
    lemma_pow2_pos(width);
    lemma_field_is_part(value, low, width);
    let p = pow2(low) as int;
    let q = pow2(width) as int;
    let high = value / (p * q);
    let rest = value % p;
    let set = with_field(value, low, width, new);
    assert(p * q > 0) by (nonlinear_arith)
        requires
            p > 0,
            q > 0,
    ;
    assert(high >= 0) by (nonlinear_arith)
        requires
            high == value / (p * q),
            value >= 0,
            p * q > 0,
    ;
    assert(set == high * (p * q) + new * p + rest) by (nonlinear_arith)
        requires
            set == value + (new - field(value, low, width)) * p,
            value == high * (p * q) + field(value, low, width) * p + rest,
    ;
    assert(set == (high * q + new) * p + rest) by (nonlinear_arith)
        requires
            set == high * (p * q) + new * p + rest,
    ;
    lemma_fundamental_div_mod_converse(set, p, high * q + new, rest);
    lemma_fundamental_div_mod_converse(high * q + new, q, high, new);
    lemma_div_denominator(set, p, q);
    assert(set >= 0) by (nonlinear_arith)
        requires
            set == (high * q + new) * p + rest,
            high >= 0,
            q > 0,
            p > 0,
            new >= 0,
            rest >= 0,
    ;
}

/// A flag that is set is its one bit, and one that is not is nothing.
pub proof fn lemma_flag(index: nat)
    ensures
        flag(true, index) == pow2(index),
        flag(false, index) == 0,
        bit(flag(true, index), index),
        !bit(flag(false, index), index),
{
    lemma_pow2_pos(index);
    lemma2_to64();
    let p = pow2(index) as int;
    assert(p / p == 1) by (nonlinear_arith)
        requires
            p > 0,
    ;
    assert(0int / p == 0) by (nonlinear_arith)
        requires
            p > 0,
    ;
}

} // verus!
