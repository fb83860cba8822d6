//! A verified decimal reader for signed 32-bit integers.
//!
//! Parsing is the one failable conversion the lessons lean on: it either
//! yields the number a byte string denotes or says exactly why it cannot.

use vstd::prelude::*;
use vstd::string::StringSliceAdditionalSpecFns;

verus! {

/// Why a byte string does not denote an `i32`.
#[derive(Clone, Copy, PartialEq, Eq, Structural, Debug)]
pub enum ParseError {
    /// The input was empty.
    Empty,
    /// A byte outside `'0'..='9'` stood where a digit was needed, or a sign
    /// stood alone.
    InvalidDigit,
    /// The digits denote a number outside the `i32` range.
    Overflow,
}

/// Whether `b` is an ASCII decimal digit.
pub open spec fn is_digit_byte(b: u8) -> bool {
    48 <= b <= 57
}

/// Whether every byte of `s` is an ASCII decimal digit.
pub open spec fn all_digits(s: Seq<u8>) -> bool {
    forall|i: int| 0 <= i < s.len() ==> is_digit_byte(#[trigger] s[i])
}

/// The number a string of decimal digits denotes, most significant first.
pub open spec fn digits_value(s: Seq<u8>) -> int
    decreases s.len(),
{
    if s.len() == 0 {
        0
    } else {
        digits_value(s.drop_last()) * 10 + (s.last() - 48)
    }
}

/// A digit string denotes a number no smaller than any of its prefixes'.
proof fn lemma_digits_value_nonneg(s: Seq<u8>)
    requires
        all_digits(s),
    ensures
        digits_value(s) >= 0,
    decreases s.len(),
{
    if s.len() > 0 {
        assert(all_digits(s.drop_last()));
        lemma_digits_value_nonneg(s.drop_last());
    }
}

/// What parsing a byte string as an `i32` yields: the denoted number, or the
/// first applicable error. An optional leading `-` negates and an optional
/// leading `+` does nothing; at least one digit must follow; every
/// remaining byte must be a digit; the number must fit.
pub open spec fn parse_i32_spec(s: Seq<u8>) -> Result<i32, ParseError> {
    if s.len() == 0 {
        Err(ParseError::Empty)
    } else {
        let negative = s[0] == 45;
        let signed = s[0] == 45 || s[0] == 43;
        let digits = if signed {
            s.subrange(1, s.len() as int)
        } else {
            s
        };
        if digits.len() == 0 {
            Err(ParseError::InvalidDigit)
        } else if !all_digits(digits) {
            Err(ParseError::InvalidDigit)
        } else {
            let magnitude = digits_value(digits);
            if negative {
                if magnitude <= 2147483648 {
                    Ok((0 - magnitude) as i32)
                } else {
                    Err(ParseError::Overflow)
                }
            } else {
                if magnitude <= 2147483647 {
                    Ok(magnitude as i32)
                } else {
                    Err(ParseError::Overflow)
                }
            }
        }
    }
}

/// Reads a signed decimal number from a byte string.
#[verifier::loop_isolation(false)]
pub fn parse_i32_bytes(s: &[u8]) -> (r: Result<i32, ParseError>)
    ensures
        r == parse_i32_spec(s@),
{
    if s.len() == 0 {
        return Err(ParseError::Empty);
    }
    let negative = s[0] == 45;
    let signed = negative || s[0] == 43;
    let start: usize = if signed {
        1
    } else {
        0
    };
    let ghost digits = s@.subrange(start as int, s@.len() as int);
    if s.len() == start {
        return Err(ParseError::InvalidDigit);
    }
    let mut acc: u64 = 0;
    let mut i: usize = start;
    while i < s.len()
        invariant
            start <= i <= s@.len(),
            all_digits(s@.subrange(start as int, i as int)),
            acc <= 42949672979,
            digits_value(s@.subrange(start as int, i as int)) <= 4294967296 ==> acc
                == digits_value(s@.subrange(start as int, i as int)),
            digits_value(s@.subrange(start as int, i as int)) > 4294967296 ==> acc > 4294967296,
        decreases s@.len() - i,
    {
        let ghost prefix = s@.subrange(start as int, i as int);
        let b = s[i];
        if b < 48 || b > 57 {
            assert(!all_digits(digits)) by {
                assert(digits[i - start] == s@[i as int]);
            }
            return Err(ParseError::InvalidDigit);
        }
        if acc > 4294967296 {
            acc = 4294967297;
        }
        acc = acc * 10 + ((b - 48) as u64);
        i = i + 1;
        proof {
            let grown = s@.subrange(start as int, i as int);
            assert(grown =~= prefix.push(b));
            assert(grown.drop_last() =~= prefix);
            lemma_digits_value_nonneg(prefix);
        }
    }
    assert(digits =~= s@.subrange(start as int, i as int));
    proof {
        if !signed {
            assert(digits =~= s@);
        }
        lemma_digits_value_nonneg(digits);
    }
    if negative {
        if acc <= 2147483648 {
            Ok((0 - (acc as i64)) as i32)
        } else {
            Err(ParseError::Overflow)
        }
    } else {
        if acc <= 2147483647 {
            Ok(acc as i32)
        } else {
            Err(ParseError::Overflow)
        }
    }
}

/// Reads a signed decimal number from a string slice.
pub fn parse_i32(s: &str) -> (r: Result<i32, ParseError>)
    ensures
        r == parse_i32_spec(s.spec_bytes()),
{
    parse_i32_bytes(s.as_bytes())
}

} // verus!
