//! Custom types: unit, tuple and field structs with construction,
//! destructuring and update syntax; payload-bearing enums dispatched with
//! `match`; enum aliases; named channel codes; and constants.

use crate::conversion::format_i64;
use crate::conversion::push_char;
use crate::conversion::signed_decimal_chars;
use vstd::prelude::*;
use vstd::string::StringExecFns;

verus! {

/// The threshold the constants lesson compares against.
pub const THRESHOLD: i32 = 42;

/// Whether a value lies strictly above the fixed threshold.
pub fn over_threshold(n: i32) -> (r: bool)
    ensures
        r == (n > THRESHOLD),
{
    n > THRESHOLD
}

/// A unit struct: no fields, one value.
#[derive(Clone, Copy, PartialEq, Eq, Structural, Debug)]
pub struct Unit;

/// A tuple struct: fields addressed by position.
#[derive(Clone, Copy, PartialEq, Eq, Structural, Debug)]
pub struct PairTuple(pub i32, pub i32);

/// Destructures a tuple struct with a `let` pattern.
pub fn pair_components(pair: PairTuple) -> (r: (i32, i32))
    ensures
        r.0 == pair.0,
        r.1 == pair.1,
{
    let PairTuple(car, cdr) = pair;
    (car, cdr)
}

/// A field struct: fields addressed by name.
#[derive(Clone, Copy, PartialEq, Eq, Structural, Debug)]
pub struct Point {
    /// Horizontal position.
    pub x: i64,
    /// Vertical position.
    pub y: i64,
}

/// Struct update syntax: a new point with the given `x` and everything else
/// taken from `base`.
pub fn point_with_x(base: Point, x: i64) -> (r: Point)
    ensures
        r.x == x,
        r.y == base.y,
{
    Point { x, ..base }
}

/// Destructures a field struct with a `let` pattern, renaming the fields.
pub fn point_components(p: Point) -> (r: (i64, i64))
    ensures
        r.0 == p.x,
        r.1 == p.y,
{
    let Point { x: left, y: right } = p;
    (left, right)
}

/// An event observed by a page, each variant carrying different data.
#[derive(PartialEq, Eq, Debug)]
pub enum WebEvent {
    /// The page was loaded.
    PageLoad,
    /// The page was unloaded.
    PageUnload,
    /// A key was pressed.
    KeyPress(char),
    /// Text was pasted.
    Paste(String),
    /// The pointer was clicked at a position.
    Click {
        /// Horizontal click position.
        x: i64,
        /// Vertical click position.
        y: i64,
    },
}

/// The textual report [`inspect`] renders for an event.
pub open spec fn inspection(e: WebEvent) -> Seq<char> {
    match e {
        WebEvent::PageLoad => "page loaded"@,
        WebEvent::PageUnload => "page unloaded"@,
        WebEvent::KeyPress(c) => "key "@ + seq![c] + " pressed"@,
        WebEvent::Paste(s) => "pasted string "@ + s@,
        WebEvent::Click { x, y } => "Clicked at ("@ + signed_decimal_chars(x as int) + ", "@
            + signed_decimal_chars(y as int) + ")"@,
    }
}

/// Dispatches an event with one exhaustive `match`, destructuring each
/// variant's payload into a textual report.
pub fn inspect(event: &WebEvent) -> (r: String)
    ensures
        r@ == inspection(*event),
{
    match event {
        WebEvent::PageLoad => String::from_str("page loaded"),
        WebEvent::PageUnload => String::from_str("page unloaded"),
        WebEvent::KeyPress(c) => {
            let mut s = String::from_str("key ");
            push_char(&mut s, *c);
            s.append(" pressed");
            proof {
                assert(s@ =~= inspection(*event));
            }
            s
        },
        WebEvent::Paste(paste) => {
            let mut s = String::from_str("pasted string ");
            s.append(paste.as_str());
            s
        },
        WebEvent::Click { x, y } => {
            let mut s = String::from_str("Clicked at (");
            let xs = format_i64(*x);
            s.append(xs.as_str());
            s.append(", ");
            let ys = format_i64(*y);
            s.append(ys.as_str());
            s.append(")");
            proof {
                assert(s@ =~= inspection(*event));
            }
            s
        },
    }
}

/// An enum whose unwieldy name the alias lesson shortens.
#[derive(Clone, Copy, PartialEq, Eq, Structural, Debug)]
pub enum VeryLongAndVerboseFactoryBuilderName {
    /// The single operation on offer.
    Add,
}

/// The short alias the lesson actually uses.
pub type FactoryBuilder = VeryLongAndVerboseFactoryBuilderName;

/// Builds the one available operation through the alias.
pub fn build_add() -> (r: FactoryBuilder)
    ensures
        r == VeryLongAndVerboseFactoryBuilderName::Add,
{
    FactoryBuilder::Add
}

/// A named colour, each name standing for a fixed channel code.
#[derive(Clone, Copy, PartialEq, Eq, Structural, Debug)]
pub enum ColourName {
    /// Full red.
    Red,
    /// Full green.
    Green,
    /// Full blue.
    Blue,
}

impl ColourName {
    /// The packed channel code the name stands for.
    pub fn code(&self) -> (r: u32)
        ensures
            r == match *self {
                ColourName::Red => 0xff0000u32,
                ColourName::Green => 0x00ff00u32,
                ColourName::Blue => 0x0000ffu32,
            },
    {
        match self {
            ColourName::Red => 0xff0000,
            ColourName::Green => 0x00ff00,
            ColourName::Blue => 0x0000ff,
        }
    }
}

} // verus!
