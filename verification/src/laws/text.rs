//! Laws of responses as text.

use vstd::prelude::*;

use crate::hvc_response::{hex_digit, hex_digits, hex_lines, hex_list};

verus! {

/// What a hexadecimal digit in lower case is worth, and -1 for any other character.
pub open spec fn digit_worth(digit: char) -> int {
    if '0' <= digit && digit <= '9' {
        digit as int - '0' as int
    } else if 'a' <= digit && digit <= 'f' {
        10 + digit as int - 'a' as int
    } else {
        -1
    }
}

/// The number that a text reads as in hexadecimal.
pub open spec fn hexadecimal(text: Seq<char>) -> int
    decreases text.len(),
{
    if text.len() == 0 {
        0
    } else {
        hexadecimal(text.drop_last()) * 16 + digit_worth(text.last())
    }
}

/// A number is written with hexadecimal digits in lower case, without leading zeros, and reads as that
/// number.
pub proof fn lemma_number_reads_back(value: nat)
    ensures
        hexadecimal(hex_digits(value)) == value,
        hex_digits(value).len() > 0,
        forall|i: int|
            0 <= i < hex_digits(value).len() ==> digit_worth(#[trigger] hex_digits(value)[i]) >= 0,
        value > 0 ==> hex_digits(value)[0] != '0',
        value == 0 ==> hex_digits(value).len() == 1,
    decreases value,
{
    let text = hex_digits(value);
    if value < 16 {
        assert(text.drop_last() =~= Seq::<char>::empty());
        assert(hexadecimal(text.drop_last()) == 0);
    } else {
        lemma_number_reads_back(value / 16);
        assert(text.drop_last() =~= hex_digits(value / 16));
        assert(text.last() == hex_digit(value as int % 16));
        assert(text[0] == hex_digits(value / 16)[0]);
        assert forall|i: int| 0 <= i < text.len() implies digit_worth(#[trigger] text[i]) >= 0 by {
            if i < text.len() - 1 {
                assert(text[i] == hex_digits(value / 16)[i]);
            }
        }
    }
}

/// Different numbers are written differently.
pub proof fn lemma_numbers_are_told_apart(first: nat, second: nat)
    requires
        hex_digits(first) == hex_digits(second),
    ensures
        first == second,
{
    lemma_number_reads_back(first);
    lemma_number_reads_back(second);
}

/// A list of one value is that value with its prefix, and two lists behind each other are separated by
/// a comma and a space. Nothing is written for no values.
pub proof fn lemma_lists_are_joined(first: Seq<u64>, second: Seq<u64>, value: u64)
    ensures
        hex_list(Seq::<u64>::empty()) == Seq::<char>::empty(),
        hex_list(seq![value]) == "0x"@ + hex_digits(value as nat),
        first.len() > 0 && second.len() > 0 ==> hex_list(first + second) == hex_list(first) + ", "@
            + hex_list(second),
    decreases second.len(),
{
    if first.len() > 0 && second.len() > 0 {
        let all = first + second;
        assert(all.last() == second.last());
        if second.len() == 1 {
            assert(all.drop_last() =~= first);
            assert(hex_list(all) =~= hex_list(first) + ", "@ + hex_list(second));
        } else {
            assert(all.drop_last() =~= first + second.drop_last());
            lemma_lists_are_joined(first, second.drop_last(), value);
            assert(hex_list(all) =~= hex_list(first) + ", "@ + hex_list(second));
        }
    }
}

/// Each value is on a line of its own, behind four spaces and before a comma, in order.
pub proof fn lemma_lines_are_joined(first: Seq<u64>, second: Seq<u64>, value: u64)
    ensures
        hex_lines(Seq::<u64>::empty()) == Seq::<char>::empty(),
        hex_lines(seq![value]) == "    0x"@ + hex_digits(value as nat) + ",\n"@,
        hex_lines(first + second) == hex_lines(first) + hex_lines(second),
    decreases second.len(),
{
    assert(seq![value].drop_last() =~= Seq::<u64>::empty());
    assert(hex_lines(seq![value].drop_last()) =~= Seq::<char>::empty());
    assert(seq![value].last() == value);
    assert(hex_lines(seq![value]) =~= "    0x"@ + hex_digits(value as nat) + ",\n"@);
    if second.len() == 0 {
        assert(first + second =~= first);
        assert(hex_lines(first) + hex_lines(second) =~= hex_lines(first));
    } else {
        let all = first + second;
        assert(all.last() == second.last());
        assert(all.drop_last() =~= first + second.drop_last());
        lemma_lines_are_joined(first, second.drop_last(), value);
        assert(hex_lines(all) =~= hex_lines(first) + hex_lines(second));
    }
}

} // verus!
