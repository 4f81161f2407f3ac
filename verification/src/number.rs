//! Reading an unsigned integer from decimal text.
//!
//! The text is an optional `+` followed by one or more of the digits `0` to
//! `9` and nothing else; a number that does not fit the integer type is no
//! number.

use vstd::prelude::*;
use vstd::string::*;

verus! {

/// The digit that a character writes, if it writes one.
pub open spec fn digit_value(c: char) -> Option<nat> {
    if c == '0' {
        Some(0)
    } else if c == '1' {
        Some(1)
    } else if c == '2' {
        Some(2)
    } else if c == '3' {
        Some(3)
    } else if c == '4' {
        Some(4)
    } else if c == '5' {
        Some(5)
    } else if c == '6' {
        Some(6)
    } else if c == '7' {
        Some(7)
    } else if c == '8' {
        Some(8)
    } else if c == '9' {
        Some(9)
    } else {
        None
    }
}

/// Whether every character of `s` is a decimal digit.
pub open spec fn all_digits(s: Seq<char>) -> bool {
    forall|i: int| 0 <= i < s.len() ==> (#[trigger] digit_value(s[i])) is Some
}

/// The number that a sequence of digits writes, the most significant first.
pub open spec fn digits_value(s: Seq<char>) -> nat
    decreases s.len(),
{
    if s.len() == 0 {
        0
    } else {
        digits_value(s.drop_last()) * 10 + match digit_value(s.last()) {
            Some(d) => d,
            None => 0,
        }
    }
}

/// The digits of a numeral: what follows its `+`, or all of it.
pub open spec fn digits_of(s: Seq<char>) -> Seq<char> {
    if s.len() > 0 && s[0] == '+' {
        s.subrange(1, s.len() as int)
    } else {
        s
    }
}

/// The number that `s` writes, if it writes one.
pub open spec fn unsigned_value(s: Seq<char>) -> Option<nat> {
    if digits_of(s).len() > 0 && all_digits(digits_of(s)) {
        Some(digits_value(digits_of(s)))
    } else {
        None
    }
}

/// The number that `s` writes, if it writes one that fits 64 bits.
pub open spec fn unsigned_64(s: Seq<char>) -> Option<u64> {
    match unsigned_value(s) {
        Some(v) => if v <= u64::MAX {
            Some(v as u64)
        } else {
            None
        },
        None => None,
    }
}

/// The start of a numeral writes no more than the whole.
proof fn lemma_digits_value_grows(s: Seq<char>, k: int)
    requires
        0 <= k <= s.len(),
    ensures
        digits_value(s.take(k)) <= digits_value(s),
    decreases s.len(),
{
    if k == s.len() {
        assert(s.take(k) =~= s);
    } else {
        assert(s.drop_last().take(k) =~= s.take(k));
        lemma_digits_value_grows(s.drop_last(), k);
    }
}

/// The digit that a character writes, if it writes one.
fn digit_of(c: char) -> (r: Option<u64>)
    ensures
        (match r {
            Some(d) => digit_value(c) == Some(d as nat),
            None => digit_value(c) is None,
        }),
{
    if c == '0' {
        Some(0)
    } else if c == '1' {
        Some(1)
    } else if c == '2' {
        Some(2)
    } else if c == '3' {
        Some(3)
    } else if c == '4' {
        Some(4)
    } else if c == '5' {
        Some(5)
    } else if c == '6' {
        Some(6)
    } else if c == '7' {
        Some(7)
    } else if c == '8' {
        Some(8)
    } else if c == '9' {
        Some(9)
    } else {
        None
    }
}

/// Reads an unsigned integer from decimal text.
pub fn parse_u64(text: &str) -> (r: Option<u64>)
    ensures
        r == unsigned_64(text@),
{
    let len = text.unicode_len();
    let ghost digits = digits_of(text@);
    let ghost start = text@.len() - digits.len();
    let mut n: usize = 0;
    let mut value: u64 = 0;
    let mut any_digit = false;
    for c in it: text.chars()
        invariant
            n == it.index(),
            it.seq() == text@,
            text@.len() == len,
            digits == digits_of(text@),
            start == text@.len() - digits.len(),
            n < start ==> value == 0,
            any_digit == (n > start),
            n >= start ==> value == digits_value(digits.take(n - start)) && all_digits(
                digits.take(n - start),
            ),
    {
        if n == 0 && c == '+' {
            assert(digits.take(0) =~= Seq::<char>::empty());
        } else {
            let ghost k = n - start;
            assert(digits[k] == c);
            assert(digits.take(k + 1).drop_last() =~= digits.take(k));
            let digit = match digit_of(c) {
                Some(d) => d,
                None => {
                    return None;
                },
            };
            let next = match value.checked_mul(10) {
                Some(tens) => tens.checked_add(digit),
                None => None,
            };
            value = match next {
                Some(v) => v,
                None => {
                    proof {
                        assert(digits_value(digits.take(k + 1)) > u64::MAX);
                        lemma_digits_value_grows(digits, k + 1);
                    }
                    return None;
                },
            };
            assert forall|i: int| 0 <= i < digits.take(k + 1).len() implies (#[trigger] digit_value(
                digits.take(k + 1)[i],
            )) is Some by {
                if i < k {
                    assert(digits.take(k)[i] == digits.take(k + 1)[i]);
                }
            }
            any_digit = true;
        }
        n = n + 1;
    }
    assert(digits.take(n - start) =~= digits);
    if any_digit {
        Some(value)
    } else {
        None
    }
}

} // verus!
