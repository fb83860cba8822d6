//! Conversions involving custom types: infallible conversion through
//! `From`/`Into`, failable conversion through `TryFrom`, and the two string
//! directions — rendering a value as text and reading a number back from
//! text (see [`crate::parsing`]).

use crate::parsing::ParseError;
use crate::parsing::parse_i32;
use crate::parsing::parse_i32_spec;
use vstd::prelude::*;
use vstd::string::StringExecFns;
use vstd::string::StringSliceAdditionalSpecFns;

verus! {

/// A wrapped integer, built from a plain `i32` through `From`.
#[derive(Clone, Copy, PartialEq, Eq, Structural, Debug)]
pub struct Number {
    /// The wrapped value.
    pub value: i32,
}

impl From<i32> for Number {
    /// Wraps the integer unchanged.
    fn from(item: i32) -> (r: Self) {
        Number { value: item }
    }
}

impl vstd::std_specs::convert::FromSpecImpl<i32> for Number {
    open spec fn obeys_from_spec() -> bool {
        true
    }

    open spec fn from_spec(item: i32) -> Number {
        Number { value: item }
    }
}

/// An integer that is provably even, built through a failable conversion.
#[derive(Clone, Copy, PartialEq, Eq, Structural, Debug)]
pub struct EvenNumber(pub i32);

impl TryFrom<i32> for EvenNumber {
    type Error = ();

    /// Accepts exactly the even integers.
    fn try_from(value: i32) -> (r: Result<Self, Self::Error>) {
        if value % 2 == 0 {
            Ok(EvenNumber(value))
        } else {
            Err(())
        }
    }
}

impl vstd::std_specs::convert::TryFromSpecImpl<i32> for EvenNumber {
    open spec fn obeys_try_from_spec() -> bool {
        true
    }

    open spec fn try_from_spec(value: i32) -> Result<Self, Self::Error> {
        if value % 2 == 0 {
            Ok(EvenNumber(value))
        } else {
            Err(())
        }
    }
}

/// The decimal digits of `n`, most significant first, as characters.
pub open spec fn decimal_chars(n: int) -> Seq<char>
    recommends
        n >= 0,
    decreases n,
{
    if n < 10 {
        seq![((48 + n) as u8) as char]
    } else {
        decimal_chars(n / 10).push(((48 + n % 10) as u8) as char)
    }
}

/// The decimal rendering of `n`, with a leading minus sign when negative.
pub open spec fn signed_decimal_chars(n: int) -> Seq<char> {
    if n < 0 {
        seq!['-'] + decimal_chars(-n)
    } else {
        decimal_chars(n)
    }
}

/// Relies on `String::push`: appends exactly the given character.
#[verifier::external_body]
pub(crate) fn push_char(s: &mut String, c: char)
    ensures
        final(s)@ == old(s)@.push(c),
{
    s.push(c);
}

/// Renders an unsigned number in decimal.
pub fn format_u64(n: u64) -> (r: String)
    ensures
        r@ == decimal_chars(n as int),
    decreases n,
{
    if n < 10 {
        let mut s = String::new();
        push_char(&mut s, (48 + n as u8) as char);
        proof {
            assert(s@ =~= decimal_chars(n as int));
        }
        s
    } else {
        let mut s = format_u64(n / 10);
        push_char(&mut s, (48 + (n % 10) as u8) as char);
        s
    }
}

/// Renders a signed number in decimal.
pub fn format_i64(n: i64) -> (r: String)
    ensures
        r@ == signed_decimal_chars(n as int),
{
    if n < 0 {
        let mut s = String::new();
        push_char(&mut s, '-');
        let magnitude = format_u64((0 - (n as i128)) as u64);
        s.append(magnitude.as_str());
        proof {
            assert(s@ =~= signed_decimal_chars(n as int));
        }
        s
    } else {
        format_u64(n as u64)
    }
}

/// Renders an unsigned 32-bit number in decimal.
pub fn format_u32(n: u32) -> (r: String)
    ensures
        r@ == decimal_chars(n as int),
{
    format_u64(n as u64)
}

/// Renders a signed 32-bit number in decimal.
pub fn format_i32(n: i32) -> (r: String)
    ensures
        r@ == signed_decimal_chars(n as int),
{
    format_i64(n as i64)
}

/// A circle, rendered as text by [`Circle::describe`].
#[derive(Clone, Copy, PartialEq, Eq, Structural, Debug)]
pub struct Circle {
    /// The radius.
    pub radius: i32,
}

impl Circle {
    /// The textual rendering: the words `Circle of radius` followed by the
    /// radius in decimal.
    pub fn describe(&self) -> (r: String)
        ensures
            r@ == "Circle of radius "@ + signed_decimal_chars(self.radius as int),
    {
        let mut s = String::from_str("Circle of radius ");
        let digits = format_i32(self.radius);
        s.append(digits.as_str());
        s
    }
}

/// Reads a number back from text, the failable direction of the string
/// lessons: exactly the strings that denote an `i32` are accepted.
pub fn number_from_text(s: &str) -> (r: Result<Number, ParseError>)
    ensures
        match r {
            Ok(num) => parse_i32_spec(s.spec_bytes()) == Ok::<i32, ParseError>(num.value),
            Err(e) => parse_i32_spec(s.spec_bytes()) == Err::<i32, ParseError>(e),
        },
{
    match parse_i32(s) {
        Ok(v) => Ok(Number { value: v }),
        Err(e) => Err(e),
    }
}

} // verus!
