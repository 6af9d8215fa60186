//! Decimal integers in text: an optional sign and ASCII digits, nothing else.

use crate::text::chars_of;
use vstd::prelude::*;

verus! {

/// Why a text is no 64-bit signed integer.
#[derive(Clone, Copy, Debug, PartialEq, Eq, Structural)]
pub enum IntErrorKind {
    /// The text is empty.
    Empty,
    /// The text holds a character that is no digit where one is needed, or
    /// only a sign.
    InvalidDigit,
    /// The number is above `i64::MAX`.
    PosOverflow,
    /// The number is below `i64::MIN`.
    NegOverflow,
}

/// Whether `c` is one of the ASCII digits `0` to `9`.
pub open spec fn is_digit(c: char) -> bool {
    '0' <= c <= '9'
}

/// The number that the ASCII digit `c` stands for.
pub open spec fn digit_value(c: char) -> int {
    c as u32 - 0x30
}

/// Index of the first character at or after `from` that is no digit, or the
/// length of `s` when there is none.
pub open spec fn skip_digits(s: Seq<char>, from: int) -> int
    decreases s.len() - from,
{
    if 0 <= from < s.len() && is_digit(s[from]) {
        skip_digits(s, from + 1)
    } else {
        from
    }
}

/// The number that a run of digits spells in base ten; zero for no digits.
pub open spec fn decimal_value(s: Seq<char>) -> int
    decreases s.len(),
{
    if s.len() == 0 {
        0
    } else {
        10 * decimal_value(s.drop_last()) + digit_value(s.last())
    }
}

/// Whether `s` begins with a sign.
pub open spec fn has_sign(s: Seq<char>) -> bool {
    s.len() > 0 && (s[0] == '-' || s[0] == '+')
}

/// What follows the sign of `s`, or all of `s` when it has none.
pub open spec fn unsigned_part(s: Seq<char>) -> Seq<char> {
    if has_sign(s) {
        s.skip(1)
    } else {
        s
    }
}

/// The digits that the unsigned part of `s` begins with.
pub open spec fn digit_run(s: Seq<char>) -> Seq<char> {
    unsigned_part(s).take(skip_digits(unsigned_part(s), 0))
}

/// The number that `s` begins with: its leading digits under its sign.
pub open spec fn signed_value(s: Seq<char>) -> int {
    if s.len() > 0 && s[0] == '-' {
        -decimal_value(digit_run(s))
    } else {
        decimal_value(digit_run(s))
    }
}

/// The 64-bit signed integer that `s` spells.
///
/// The text is an optional `+` or `-` followed by at least one digit and
/// nothing else. Reading from the left, the first thing that goes wrong
/// decides the error: a number that leaves the range before a stray
/// character is met is an overflow.
pub open spec fn parse_i64(s: Seq<char>) -> Result<i64, IntErrorKind> {
    if s.len() == 0 {
        Err(IntErrorKind::Empty)
    } else if unsigned_part(s).len() == 0 {
        Err(IntErrorKind::InvalidDigit)
    } else if signed_value(s) > i64::MAX {
        Err(IntErrorKind::PosOverflow)
    } else if signed_value(s) < i64::MIN {
        Err(IntErrorKind::NegOverflow)
    } else if digit_run(s).len() < unsigned_part(s).len() {
        Err(IntErrorKind::InvalidDigit)
    } else {
        Ok(signed_value(s) as i64)
    }
}

/// `skip_digits` stays inside the text and passes only digits.
pub proof fn lemma_skip_digits(s: Seq<char>, from: int)
    requires
        0 <= from <= s.len(),
    ensures
        from <= skip_digits(s, from) <= s.len(),
        forall|i: int| from <= i < skip_digits(s, from) ==> is_digit(#[trigger] s[i]),
        skip_digits(s, from) < s.len() ==> !is_digit(s[skip_digits(s, from)]),
    decreases s.len() - from,
{
    if from < s.len() && is_digit(s[from]) {
        lemma_skip_digits(s, from + 1);
    }
}

/// A run of digits spells no less than any of its beginnings, and never a
/// negative number.
pub proof fn lemma_decimal_value_grows(s: Seq<char>, k: int)
    requires
        0 <= k <= s.len(),
        forall|i: int| 0 <= i < s.len() ==> is_digit(#[trigger] s[i]),
    ensures
        0 <= decimal_value(s.take(k)) <= decimal_value(s),
    decreases s.len(),
{
    if s.len() == 0 {
        assert(s.take(k) =~= s);
    } else if k == s.len() {
        assert(s.take(k) =~= s);
        lemma_decimal_value_grows(s.drop_last(), k - 1);
    } else {
        assert(s.drop_last().take(k) =~= s.take(k));
        lemma_decimal_value_grows(s.drop_last(), k);
    }
}

/// Whether `c` is an ASCII digit.
pub fn char_is_digit(c: char) -> (r: bool)
    ensures
        r == is_digit(c),
{
    '0' <= c && c <= '9'
}

/// Reads `text` as a 64-bit signed integer.
pub fn parse_i64_str(text: &str) -> (r: Result<i64, IntErrorKind>)
    ensures
        r == parse_i64(text@),
{
    let v = chars_of(text);
    assert(v@.subrange(0, v.len() as int) =~= text@);
    parse_i64_chars(&v, 0, v.len())
}

/// Reads the characters of `v` from `from` up to `to` as a 64-bit signed
/// integer.
pub(crate) fn parse_i64_chars(v: &Vec<char>, from: usize, to: usize) -> (r: Result<i64, IntErrorKind>)
    requires
        from <= to <= v.len(),
    ensures
        r == parse_i64(v@.subrange(from as int, to as int)),
{
    let ghost s = v@.subrange(from as int, to as int);
    if from == to {
        return Err(IntErrorKind::Empty);
    }
    let negative = v[from] == '-';
    let signed = negative || v[from] == '+';
    let start: usize = if signed {
        from + 1
    } else {
        from
    };
    let ghost digits = unsigned_part(s);
    assert(s[0] == v@[from as int]);
    assert(digits =~= v@.subrange(start as int, to as int));
    if start == to {
        return Err(IntErrorKind::InvalidDigit);
    }
    let limit: u64 = if negative {
        0x8000_0000_0000_0000
    } else {
        0x7fff_ffff_ffff_ffff
    };
    let mut acc: u64 = 0;
    let mut i: usize = start;
    proof {
        lemma_skip_digits(digits, 0);
        assert(digits.take(0) =~= Seq::<char>::empty());
    }
    while i < to
        invariant
            from <= start <= i <= to <= v.len(),
            s == v@.subrange(from as int, to as int),
            digits == unsigned_part(s),
            digits == v@.subrange(start as int, to as int),
            negative == (s.len() > 0 && s[0] == '-'),
            forall|j: int| 0 <= j < i - start ==> is_digit(#[trigger] digits[j]),
            acc == decimal_value(digits.take(i - start)),
            acc <= limit,
            limit == if negative {
                0x8000_0000_0000_0000u64
            } else {
                0x7fff_ffff_ffff_ffffu64
            },
        decreases to - i,
    {
        let c = v[i];
        let ghost run = digit_run(s);
        proof {
            lemma_skip_digits(digits, 0);
        }
        if !char_is_digit(c) {
            proof {
                assert(digits[i - start] == c);
                assert(skip_digits(digits, 0) == i - start);
                assert(run =~= digits.take(i - start));
            }
            return Err(IntErrorKind::InvalidDigit);
        }
        let d: u64 = (c as u32 - 0x30) as u64;
        let next: u128 = acc as u128 * 10 + d as u128;
        proof {
            assert(digits[i - start] == c);
            let upto = digits.take(i - start + 1);
            assert(upto.drop_last() =~= digits.take(i - start));
            assert(upto.last() == c);
            assert(decimal_value(upto) == next);
            assert(skip_digits(digits, 0) >= i - start + 1);
            assert(run.take(i - start + 1) =~= upto);
            lemma_decimal_value_grows(run, i - start + 1);
        }
        if next > limit as u128 {
            if negative {
                return Err(IntErrorKind::NegOverflow);
            } else {
                return Err(IntErrorKind::PosOverflow);
            }
        }
        acc = next as u64;
        i += 1;
    }
    proof {
        lemma_skip_digits(digits, 0);
        assert(skip_digits(digits, 0) == digits.len());
        assert(digit_run(s) =~= digits);
        assert(digits.take(i - start) =~= digits);
    }
    if negative {
        if acc == 0x8000_0000_0000_0000 {
            Ok(i64::MIN)
        } else {
            Ok(-(acc as i64))
        }
    } else {
        Ok(acc as i64)
    }
}

} // verus!
