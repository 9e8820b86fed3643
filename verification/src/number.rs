//! Reading the text of a numeric literal.
//!
//! Only plain decimal integers are read here: a run of decimal digits without
//! a leading zero (a lone `0` is allowed). Every other numeric literal — one
//! with a fraction, an exponent, a radix prefix or a leading zero — is left
//! to the consumer of the bytecode, which receives its text.

use vstd::prelude::*;
use vstd::string::StrSliceExecFns;

verus! {

/// Whether `c` is one of `0` to `9`.
pub open spec fn is_digit(c: char) -> bool {
    '0' <= c <= '9'
}

/// The number that the digit `c` stands for.
pub open spec fn digit_value(c: char) -> nat {
    (c as u32 - '0' as u32) as nat
}

/// Whether `text` is a plain decimal integer.
pub open spec fn is_plain_decimal(text: Seq<char>) -> bool {
    &&& text.len() > 0
    &&& forall|i: int| 0 <= i < text.len() ==> is_digit(#[trigger] text[i])
    &&& text.len() > 1 ==> text[0] != '0'
}

/// The number that a run of digits stands for, read in base ten.
pub open spec fn decimal_value(text: Seq<char>) -> nat
    decreases text.len(),
{
    if text.len() == 0 {
        0
    } else {
        10 * decimal_value(text.drop_last()) + digit_value(text.last())
    }
}

/// The value of `text`, where it is a plain decimal integer that a signed
/// 64-bit integer can hold.
pub open spec fn plain_decimal(text: Seq<char>) -> Option<i64> {
    if is_plain_decimal(text) && decimal_value(text) <= i64::MAX {
        Some(decimal_value(text) as i64)
    } else {
        None
    }
}

/// A run of digits is worth at least as much as each of its prefixes.
pub proof fn lemma_decimal_value_grows(text: Seq<char>, shorter: int)
    requires
        0 <= shorter <= text.len(),
    ensures
        decimal_value(text.take(shorter)) <= decimal_value(text),
    decreases text.len(),
{
    if shorter == text.len() {
        assert(text.take(shorter) =~= text);
    } else {
        lemma_decimal_value_grows(text.drop_last(), shorter);
        assert(text.drop_last().take(shorter) =~= text.take(shorter));
    }
}

/// Reads `text` as a plain decimal integer.
pub fn parse_plain_decimal(text: &str) -> (value: Option<i64>)
    ensures
        value == plain_decimal(text@),
{
    let length = text.unicode_len();
    if length == 0 {
        return None;
    }
    if length > 1 && text.get_char(0) == '0' {
        return None;
    }
    let mut value: i64 = 0;
    let mut i: usize = 0;
    while i < length
        invariant
            i <= length,
            length == text@.len(),
            forall|k: int| 0 <= k < i ==> is_digit(#[trigger] text@[k]),
            0 <= value,
            value == decimal_value(text@.take(i as int)),
        decreases length - i,
    {
        let c = text.get_char(i);
        if !(c >= '0' && c <= '9') {
            return None;
        }
        let digit: i64 = ((c as u32) - ('0' as u32)) as i64;
        assert(text@.take(i + 1).drop_last() =~= text@.take(i as int));
        assert(text@.take(i + 1).last() == c);
        if value > (i64::MAX - digit) / 10 {
            proof {
                lemma_decimal_value_grows(text@, i + 1);
            }
            return None;
        }
        value = 10 * value + digit;
        i += 1;
    }
    assert(text@.take(i as int) =~= text@);
    Some(value)
}

} // verus!
