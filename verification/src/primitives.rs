//! Primitive types: integer, character, boolean, unit, array and tuple
//! literals; literal suffixes, separators and encodings; numeric casts and
//! their wrap-around; tuples and their destructuring; arrays, slices, and
//! type aliases.

use vstd::prelude::*;
use vstd::slice::slice_index_get;

verus! {

/// Literals of every width and kind, each checked against its value.
pub fn literals() {
    let n1: i8 = 1;
    let n2: i16 = 2;
    let n3: i32 = 3;
    let n4: i64 = 4;
    let n5: i128 = 5;
    let p: isize = 10;
    assert(n1 == 1 && n2 == 2 && n3 == 3 && n4 == 4 && n5 == 5 && p == 10);

    let un1: u8 = 1;
    let un2: u16 = 2;
    let un3: u32 = 3;
    let un4: u64 = 4;
    let un5: u128 = 5;
    let up: usize = 10;
    assert(un1 == 1 && un2 == 2 && un3 == 3 && un4 == 4 && un5 == 5 && up == 10);

    let c: char = 'A';
    assert(c == 'A');

    let b: bool = false;
    assert(!b);

    let unit: () = ();
    let x = [1u32];
    assert(x[0] == 1);

    let y = (42u64, true);
    assert(y.0 == 42 && y.1);
}

/// Literal suffixes pin the type; underscores separate digits; prefixes
/// choose the encoding.
pub fn literal_specifiers() {
    let a = 42u32;
    assert(a == 42);

    let b = 1_000_000_i32;
    assert(b == 1000000);

    let d = 0b001010010_i64;
    assert(d == 0b001010010);
    assert(d == 82);
}

/// Casting to an unsigned type wraps modulo its size; casting to a signed
/// type keeps the same bits, so a high top bit reads back negative.
pub fn casting() {
    let x: i16 = 1000;
    #[verifier::truncate]
    let a = x as u8;
    assert(1000i16 as u8 == 232) by (bit_vector);
    assert(a == 232);

    let minus_one: i16 = -1;
    #[verifier::truncate]
    let b = minus_one as u8;
    assert(-1i16 as u8 == 255) by (bit_vector);
    assert(b == 255);

    let big: i32 = 1000;
    #[verifier::truncate]
    let c = big as i8;
    assert(1000i32 as i8 == -24) by (bit_vector);
    assert(c == -24);

    #[verifier::truncate]
    let d = big as u8;
    assert(1000i32 as u8 == 232) by (bit_vector);
    assert(d == 232);
}

/// A pair `(number, flag)` swapped by destructuring: the classic tuple
/// lesson.
pub fn reverse(pair: (i32, bool)) -> (r: (bool, i32))
    ensures
        r.0 == pair.1,
        r.1 == pair.0,
{
    let (integer, boolean) = pair;
    (boolean, integer)
}

/// Arrays listed element by element or filled with one value, read by index
/// and by length; an array borrowed as a slice.
pub fn arrays_and_slices() {
    let a: [i32; 3] = [0, 1, 2];
    let b: [i32; 20] = [0; 20];
    assert(a[0] == 0 && a[1] == 1 && a[2] == 2);
    assert(b[7] == 0);

    let len = a.as_slice().len();
    assert(len == 3);

    let slice: &[i32] = a.as_slice();
    let first = slice_index_get(slice, 0);
    assert(*first == 0);
}

/// A domain-speaking alias for a plain unsigned integer.
pub type NanoSecond = u64;

/// The alias and its underlying type are the same type: a value passes
/// through unchanged.
pub fn alias_round_trip(ns: NanoSecond) -> (r: u64)
    ensures
        r == ns,
{
    ns
}

} // verus!
