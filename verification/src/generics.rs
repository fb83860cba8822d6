//! Generics: generic structs and functions, blanket trait impls, bounds
//! that grant access to trait methods, marker-trait bounds, `where`
//! clauses, the new-type idiom, associated types, and phantom type
//! parameters.

use core::marker::PhantomData;
use vstd::prelude::*;

verus! {

/// A one-slot generic container.
pub struct SingletonGen<T>(pub T);

/// Accepts only the `i32` specialisation.
pub fn gen_specialized_i32(_t: SingletonGen<i32>) {
}

/// Accepts only the `bool` specialisation.
pub fn gen_specialized_bool(_t: SingletonGen<bool>) {
}

/// Accepts every specialisation.
pub fn gen<T>(_t: SingletonGen<T>) {
}

/// A generic container with a generic accessor.
pub struct GenVal<T>(pub T);

impl<T> GenVal<T> {
    /// Borrows the held value.
    pub fn value(&self) -> (r: &T)
        ensures
            *r == self.0,
    {
        &self.0
    }
}

/// A generic trait: any implementor consumes itself together with any other
/// value.
pub trait DoubleDrop<T> {
    /// Takes ownership of both arguments and drops them.
    fn double_drop(self, other: T);
}

impl<T, U> DoubleDrop<T> for U {
    fn double_drop(self, _other: T) {
    }
}

/// A bound that grants access to a method: anything with an area.
pub trait HasArea {
    /// The area, as a mathematical integer.
    spec fn area_spec(&self) -> int;

    /// The area, computed.
    fn area(&self) -> (r: u64)
        ensures
            r == self.area_spec(),
    ;
}

/// A rectangle with integer sides.
#[derive(Clone, Copy, PartialEq, Eq, Structural, Debug)]
pub struct Rectangle {
    /// Horizontal side.
    pub length: u32,
    /// Vertical side.
    pub height: u32,
}

impl HasArea for Rectangle {
    open spec fn area_spec(&self) -> int {
        self.length * self.height
    }

    fn area(&self) -> (r: u64) {
        proof {
            assert((self.length as int) * (self.height as int) < 0x1_0000_0000_0000_0000)
                by (nonlinear_arith)
                requires
                    self.length < 0x1_0000_0000,
                    self.height < 0x1_0000_0000,
            ;
        }
        (self.length as u64) * (self.height as u64)
    }
}

/// Reaches `area` through the bound alone.
pub fn area_of<T: HasArea>(shape: &T) -> (r: u64)
    ensures
        r == shape.area_spec(),
{
    shape.area()
}

/// A marker trait: red things.
pub trait Red {
    /// Markers need no methods; this one only states a colour claim.
    fn is_marker(&self) -> (r: bool)
        ensures
            r,
    ;
}

/// A marker trait: blue things.
pub trait Blue {
    /// Markers need no methods; this one only states a colour claim.
    fn is_marker(&self) -> (r: bool)
        ensures
            r,
    ;
}

/// A red bird.
pub struct Cardinal;

/// A blue bird.
pub struct BlueJay;

/// A bird neither marker covers.
pub struct Turkey;

impl Red for Cardinal {
    fn is_marker(&self) -> (r: bool) {
        true
    }
}

impl Blue for BlueJay {
    fn is_marker(&self) -> (r: bool) {
        true
    }
}

/// Accepts only red things.
pub fn red<T: Red>(_bird: &T) -> (r: &'static str)
    ensures
        r@ == "red"@,
{
    "red"
}

/// Accepts only blue things.
pub fn blue<T: Blue>(_bird: &T) -> (r: &'static str)
    ensures
        r@ == "blue"@,
{
    "blue"
}

/// A `where` clause states the bound after the signature.
pub fn wrap_in_option<T>(value: T) -> (r: Option<T>) where T: Sized
    ensures
        r == Some(value),
{
    Some(value)
}

/// The new-type idiom: years and days are distinct types over the same
/// integer.
#[derive(Clone, Copy, PartialEq, Eq, Structural, Debug)]
pub struct Years(pub i64);

/// See [`Years`]: the other side of the new-type fence.
#[derive(Clone, Copy, PartialEq, Eq, Structural, Debug)]
pub struct Days(pub i64);

/// Only a value already wrapped as years is accepted.
pub fn old_enough(age: &Years) -> (r: bool)
    ensures
        r == (age.0 >= 18),
{
    age.0 >= 18
}

/// A container whose trait fixes its item types as associated types.
#[derive(Clone, Copy, PartialEq, Eq, Structural, Debug)]
pub struct Container(pub i32, pub i32);

/// A trait with associated types: what the container holds is named inside
/// the trait, not by extra type parameters.
pub trait Contains {
    /// The first item type.
    type A;

    /// The second item type.
    type B;

    /// The first stored value.
    spec fn first_spec(&self) -> i32;

    /// The last stored value.
    spec fn last_spec(&self) -> i32;

    /// Whether exactly the given items are stored.
    fn contains(&self, a: &Self::A, b: &Self::B) -> bool;

    /// The first stored value, computed.
    fn first(&self) -> (r: i32)
        ensures
            r == self.first_spec(),
    ;

    /// The last stored value, computed.
    fn last(&self) -> (r: i32)
        ensures
            r == self.last_spec(),
    ;
}

impl Contains for Container {
    type A = i32;

    type B = i32;

    open spec fn first_spec(&self) -> i32 {
        self.0
    }

    open spec fn last_spec(&self) -> i32 {
        self.1
    }

    fn contains(&self, a: &i32, b: &i32) -> (r: bool)
        ensures
            r == (self.0 == *a && self.1 == *b),
    {
        self.0 == *a && self.1 == *b
    }

    fn first(&self) -> (r: i32) {
        self.0
    }

    fn last(&self) -> (r: i32) {
        self.1
    }
}

/// Works on any container through the trait alone.
pub fn difference<C: Contains>(container: &C) -> (r: i32)
    requires
        i32::MIN <= container.last_spec() - container.first_spec() <= i32::MAX,
    ensures
        r == container.last_spec() - container.first_spec(),
{
    container.last() - container.first()
}

/// A tuple with a phantom second parameter: no runtime slot, full
/// compile-time distinction.
pub struct PhantomTuple<A, B>(pub A, pub PhantomData<B>);

/// A struct with a phantom parameter field.
pub struct PhantomStruct<A, B> {
    /// The one real field.
    pub first: A,
    /// The phantom marker.
    pub phantom: PhantomData<B>,
}

/// Phantom parameters distinguish otherwise identical shapes without
/// storing anything.
pub fn phantom_type_parameters() {
    let t1: PhantomTuple<char, i32> = PhantomTuple('Q', PhantomData);
    let t2: PhantomTuple<char, u64> = PhantomTuple('T', PhantomData);
    assert(t1.0 == 'Q');
    assert(t2.0 == 'T');

    let s1: PhantomStruct<char, i32> = PhantomStruct { first: 'Q', phantom: PhantomData };
    assert(s1.first == 'Q');
}

} // verus!
