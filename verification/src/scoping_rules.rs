//! Ownership and borrowing: boxed values freed with their owner, moves that
//! retire the old name, borrows immutable and mutable, `ref` patterns, and
//! lifetimes coerced to the shorter of two.

use vstd::prelude::*;

verus! {

/// Boxed values are owned by their binding and freed with it; reading back
/// through the box sees the stored value.
pub fn raii() {
    let box1 = Box::new(42i32);
    {
        let box2 = Box::new(32i32);
        assert(*box2 == 32);
    }
    assert(*box1 == 42);
}

/// Consumes a boxed value: the caller's binding is retired.
pub fn destroy(_boxed: Box<i32>) {
}

/// Moving a box hands the same value to the new owner; writing through a
/// mutable owner replaces the stored value.
pub fn ownership_and_moves() {
    let a = Box::new(5i32);
    assert(*a == 5);

    let b = a;
    assert(*b == 5);
    destroy(b);

    let immutable_box = Box::new(5i32);
    assert(*immutable_box == 5);
    let mut mutable_box = immutable_box;
    assert(*mutable_box == 5);

    *mutable_box = 1;
    assert(*mutable_box == 1);
}

/// Borrows a box immutably: the owner keeps it.
pub fn borrow_box(boxed: &Box<i32>) -> (r: i32)
    ensures
        r == **boxed,
{
    **boxed
}

/// A value can be borrowed while it is not moved, and moved once every
/// borrow has ended.
pub fn moving_vs_borrowing() {
    let x = Box::new(42i32);
    let seen = borrow_box(&x);
    assert(seen == 42);
    {
        let y = &x;
        assert(**y == 42);
    }
    destroy(x);
}

/// Many immutable borrows may live side by side; a mutable borrow needs the
/// value to itself.
pub fn borrowing_vs_mutable_borrowing() {
    let x = Box::new(42i32);
    let mut y = Box::new(42i32);

    let x_immutable = &x;
    assert(**x_immutable == 42);

    let y_mutable = &mut y;
    assert(**y_mutable == 42);

    let y_immutable = &y;
    assert(**y_immutable == 42);
}

/// `ref mut` on the left takes a mutable reference where only the binding
/// side can be annotated: writing through it updates the tuple.
pub fn ref_pattern() -> (r: (i32, i32))
    ensures
        r == (34i32, 4i32),
{
    let a = Box::new(32i32);
    let a_ref = &a;
    assert(**a_ref == 32);

    let mut tuple: (i32, i32) = (34, 54);
    let (_, ref mut right) = tuple;
    *right = 4;
    assert(tuple.1 == 4);
    tuple
}

/// Two borrows with different lifetimes are coerced to the shorter one for
/// the duration of the call.
pub fn multiply(first: &i32, second: &i32) -> (r: i32)
    requires
        i32::MIN <= *first * *second <= i32::MAX,
    ensures
        r == *first * *second,
{
    *first * *second
}

/// Returns the first borrow under the second's shorter lifetime.
pub fn choose_first<'a: 'b, 'b>(first: &'a i32, _second: &'b i32) -> (r: &'b i32)
    ensures
        r == first,
{
    first
}

/// The lifetime lesson run on concrete values: a longer-lived value used
/// alongside, and outliving, a shorter-lived one.
pub fn lifetimes() {
    let first: i32 = 3;
    {
        let second: i32 = 4;
        let product = multiply(&first, &second);
        assert(product == 12);
        let chosen = choose_first(&first, &second);
        assert(*chosen == 3);
    }
    let still_here: &'static str = "read-only memory";
    assert(still_here@ == "read-only memory"@);
}

} // verus!
