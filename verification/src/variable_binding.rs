//! Variable bindings: annotation, mutability, scope, shadowing, deferred
//! initialisation, and freezing a mutable binding behind an immutable
//! shadow.

use vstd::prelude::*;

verus! {

/// Bindings with and without an explicit annotation, and one whose name
/// hushes the unused-variable warning.
pub fn intro() {
    let x: i32 = 4;
    assert(x == 4);

    let y: i64 = 5;
    assert(y == 5);

    let _a: i32 = 4;
}

/// Only a `mut` binding can be assigned again.
pub fn mutability() {
    let _x: i32 = 1;

    let mut y: i32 = 1;
    y = y + 1;
    assert(y == 2);
}

/// A binding lives to the end of its block; an inner binding shadows the
/// outer one only inside the block.
pub fn scope_and_shadowing() {
    let x: i32 = 1;
    {
        let x: i32 = 2;
        let _y: i32 = 3;
        assert(x == 2);
    }
    assert(x == 1);
}

/// A binding may be declared first and initialised inside a later block.
pub fn declare_first() {
    let x: i32;
    {
        x = 1;
    }
    assert(x == 1);
}

/// Blocks are expressions: the last expression without a semicolon is the
/// block's value.
pub fn block_expressions() -> (r: i32)
    ensures
        r == 25,
{
    let x: i32 = 3;
    let y: i32 = {
        let h: i32 = 5;
        h * x + 10
    };
    y
}

/// A mutable binding is frozen while an immutable shadow covers it, and
/// mutable again once the shadow's scope ends.
pub fn freezing() {
    let mut x: i32 = 1;
    {
        let x: i32 = 3;
        assert(x == 3);
    }
    x = x + 7;
    assert(x == 8);
}

} // verus!
