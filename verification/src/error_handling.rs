//! Error handling idioms: absence of a value as `Option`, failure with a
//! reason as `Result`, propagation with `?`, wrapping a more specific error
//! in a coarser one, and iterating over failable computations.

use crate::parsing::ParseError;
use crate::parsing::parse_i32_bytes;
use crate::parsing::parse_i32_spec;
use vstd::prelude::*;
use vstd::string::StringExecFns;

verus! {

/// The unit error of the doubling lessons.
#[derive(Clone, Copy, PartialEq, Eq, Structural, Debug)]
pub struct DoubleError;

impl DoubleError {
    /// The reason, as text.
    pub fn message(&self) -> (r: String)
        ensures
            r@ == "invalid first item to double"@,
    {
        String::from_str("invalid first item to double")
    }
}

/// Adds one under an optional value, by explicit pattern matching: absence
/// stays absence.
pub fn increase_matched(x: Option<i32>) -> (r: Option<i32>)
    requires
        x matches Some(v) ==> v < i32::MAX,
    ensures
        r == match x {
            Some(v) => Some((v + 1) as i32),
            None => None::<i32>,
        },
{
    match x {
        Some(value) => Some(value + 1),
        None => None,
    }
}

/// Adds one under an optional value, propagating absence with `?`.
pub fn increase_propagated(x: Option<i32>) -> (r: Option<i32>)
    requires
        x matches Some(v) ==> v < i32::MAX,
    ensures
        r == match x {
            Some(v) => Some((v + 1) as i32),
            None => None::<i32>,
        },
{
    let value = x?;
    Some(value + 1)
}

/// Adds one under a successful result, by explicit pattern matching: an
/// error is passed along unchanged.
pub fn increase_ok_matched(x: Result<u32, DoubleError>) -> (r: Result<u32, DoubleError>)
    requires
        x matches Ok(v) ==> v < u32::MAX,
    ensures
        r == match x {
            Ok(v) => Ok((v + 1) as u32),
            Err(e) => Err::<u32, DoubleError>(e),
        },
{
    match x {
        Ok(value) => Ok(value + 1),
        Err(err) => Err(err),
    }
}

/// Adds one under a successful result, propagating the error with `?`.
pub fn increase_ok_propagated(x: Result<u32, DoubleError>) -> (r: Result<u32, DoubleError>)
    requires
        x matches Ok(v) ==> v < u32::MAX,
    ensures
        r == match x {
            Ok(v) => Ok((v + 1) as u32),
            Err(e) => Err::<u32, DoubleError>(e),
        },
{
    let value = x?;
    Ok(value + 1)
}

/// Turns an absent value into a unit error: the `ok_or` idiom.
pub fn to_result(opt: Option<i32>) -> (r: Result<i32, DoubleError>)
    ensures
        r == match opt {
            Some(v) => Ok::<i32, DoubleError>(v),
            None => Err::<i32, DoubleError>(DoubleError),
        },
{
    match opt {
        Some(v) => Ok(v),
        None => Err(DoubleError),
    }
}

/// Replaces whatever reason a parse failed with the one coarse unit error:
/// the `map_err` idiom.
pub fn parse_with_unit_error(s: &[u8]) -> (r: Result<i32, DoubleError>)
    ensures
        r == match parse_i32_spec(s@) {
            Ok(v) => Ok::<i32, DoubleError>(v),
            Err(_) => Err::<i32, DoubleError>(DoubleError),
        },
{
    match parse_i32_bytes(s) {
        Ok(v) => Ok(v),
        Err(_) => Err(DoubleError),
    }
}

/// A coarser error that wraps the specific parse error, keeping its reason.
#[derive(Clone, Copy, PartialEq, Eq, Structural, Debug)]
pub enum WrappingError {
    /// The wrapped reason why parsing failed.
    Parse(ParseError),
}

impl From<ParseError> for WrappingError {
    /// Wraps the parse error unchanged.
    fn from(err: ParseError) -> (r: WrappingError) {
        WrappingError::Parse(err)
    }
}

impl vstd::std_specs::convert::FromSpecImpl<ParseError> for WrappingError {
    open spec fn obeys_from_spec() -> bool {
        true
    }

    open spec fn from_spec(err: ParseError) -> WrappingError {
        WrappingError::Parse(err)
    }
}

/// Parses a number and doubles it, wrapping a parse failure in the coarser
/// error: the wrapping idiom behind `?` with an error conversion.
pub fn double_parsed(s: &[u8]) -> (r: Result<i32, WrappingError>)
    requires
        parse_i32_spec(s@) matches Ok(v) ==> -1073741824 <= v <= 1073741823,
    ensures
        r == match parse_i32_spec(s@) {
            Ok(v) => Ok((2 * v) as i32),
            Err(e) => Err::<i32, WrappingError>(WrappingError::Parse(e)),
        },
{
    match parse_i32_bytes(s) {
        Ok(parsed) => Ok(2 * parsed),
        Err(e) => Err(WrappingError::from(e)),
    }
}

/// The entries of `items` that parse, in order.
pub open spec fn parsed_values(items: Seq<Seq<u8>>) -> Seq<i32>
    decreases items.len(),
{
    if items.len() == 0 {
        Seq::empty()
    } else {
        parsed_values(items.drop_last()) + match parse_i32_spec(items.last()) {
            Ok(v) => seq![v],
            Err(_) => Seq::empty(),
        }
    }
}

/// The reasons the entries of `items` fail to parse, in order.
pub open spec fn parse_failures(items: Seq<Seq<u8>>) -> Seq<ParseError>
    decreases items.len(),
{
    if items.len() == 0 {
        Seq::empty()
    } else {
        parse_failures(items.drop_last()) + match parse_i32_spec(items.last()) {
            Ok(_) => Seq::empty(),
            Err(e) => seq![e],
        }
    }
}

/// Parses every entry, failing the entire operation on the first entry that
/// does not parse.
#[verifier::loop_isolation(false)]
pub fn parse_all(items: &Vec<Vec<u8>>) -> (r: Result<Vec<i32>, ParseError>)
    ensures
        match r {
            Ok(ns) => {
                &&& ns@.len() == items@.len()
                &&& forall|i: int|
                    0 <= i < items@.len() ==> parse_i32_spec(#[trigger] items@[i]@) == Ok::<
                        i32,
                        ParseError,
                    >(ns@[i])
            },
            Err(e) => exists|i: int|
                {
                    &&& 0 <= i < items@.len()
                    &&& parse_i32_spec(#[trigger] items@[i]@) == Err::<i32, ParseError>(e)
                    &&& forall|j: int| 0 <= j < i ==> parse_i32_spec(#[trigger] items@[j]@) is Ok
                },
        },
{
    let mut ns: Vec<i32> = Vec::new();
    let mut i: usize = 0;
    while i < items.len()
        invariant
            0 <= i <= items@.len(),
            ns@.len() == i,
            forall|j: int|
                0 <= j < i ==> parse_i32_spec(#[trigger] items@[j]@) == Ok::<i32, ParseError>(
                    ns@[j],
                ),
        decreases items@.len() - i,
    {
        match parse_i32_bytes(items[i].as_slice()) {
            Ok(v) => {
                ns.push(v);
            },
            Err(e) => {
                return Err(e);
            },
        }
        i = i + 1;
    }
    Ok(ns)
}

/// Parses every entry, keeping the values that parse and dropping the
/// failures.
#[verifier::loop_isolation(false)]
pub fn parse_keep_ok(items: &Vec<Vec<u8>>) -> (r: Vec<i32>)
    ensures
        r@ == parsed_values(items@.map_values(|it: Vec<u8>| it@)),
{
    let mut ns: Vec<i32> = Vec::new();
    let mut i: usize = 0;
    while i < items.len()
        invariant
            0 <= i <= items@.len(),
            ns@ == parsed_values(items@.subrange(0, i as int).map_values(|it: Vec<u8>| it@)),
        decreases items@.len() - i,
    {
        let ghost before = items@.subrange(0, i as int).map_values(|it: Vec<u8>| it@);
        match parse_i32_bytes(items[i].as_slice()) {
            Ok(v) => {
                ns.push(v);
            },
            Err(_) => {},
        }
        i = i + 1;
        proof {
            let after = items@.subrange(0, i as int).map_values(|it: Vec<u8>| it@);
            assert(after.drop_last() =~= before);
            assert(after.last() == items@[i - 1]@);
        }
    }
    proof {
        assert(items@.subrange(0, items@.len() as int) =~= items@);
    }
    ns
}

/// Parses every entry, grouping the values that parse and the reasons the
/// others fail.
#[verifier::loop_isolation(false)]
pub fn parse_partition(items: &Vec<Vec<u8>>) -> (r: (Vec<i32>, Vec<ParseError>))
    ensures
        r.0@ == parsed_values(items@.map_values(|it: Vec<u8>| it@)),
        r.1@ == parse_failures(items@.map_values(|it: Vec<u8>| it@)),
    {
    let mut ns: Vec<i32> = Vec::new();
    let mut es: Vec<ParseError> = Vec::new();
    let mut i: usize = 0;
    while i < items.len()
        invariant
            0 <= i <= items@.len(),
            ns@ == parsed_values(items@.subrange(0, i as int).map_values(|it: Vec<u8>| it@)),
            es@ == parse_failures(items@.subrange(0, i as int).map_values(|it: Vec<u8>| it@)),
        decreases items@.len() - i,
    {
        let ghost before = items@.subrange(0, i as int).map_values(|it: Vec<u8>| it@);
        match parse_i32_bytes(items[i].as_slice()) {
            Ok(v) => {
                ns.push(v);
            },
            Err(e) => {
                es.push(e);
            },
        }
        i = i + 1;
        proof {
            let after = items@.subrange(0, i as int).map_values(|it: Vec<u8>| it@);
            assert(after.drop_last() =~= before);
            assert(after.last() == items@[i - 1]@);
        }
    }
    proof {
        assert(items@.subrange(0, items@.len() as int) =~= items@);
    }
    (ns, es)
}

} // verus!
