//! Functions and methods: borrowing, mutating and consuming receivers,
//! closures that capture their surroundings, named functions passed as
//! callables, and constructors that hand closures back as runner values.

use crate::closures::AppendRunner;
use crate::closures::MutRunner;
use crate::closures::OnceRunner;
use crate::closures::SharedRunner;
use crate::closures::apply_shared;
use crate::closures::once_available;
use vstd::prelude::*;
use vstd::string::StringExecFns;

verus! {

/// A pair of integers with one method per kind of receiver.
#[derive(Clone, Copy, PartialEq, Eq, Structural, Debug)]
pub struct Pair(pub i32, pub i32);

impl Pair {
    /// Borrows the pair immutably and adds its halves.
    pub fn sum(&self) -> (r: i32)
        requires
            i32::MIN <= self.0 + self.1 <= i32::MAX,
        ensures
            r == self.0 + self.1,
    {
        self.0 + self.1
    }

    /// Borrows the pair mutably and advances both halves.
    pub fn inc(&mut self)
        requires
            old(self).0 < i32::MAX,
            old(self).1 < i32::MAX,
        ensures
            final(self).0 == old(self).0 + 1,
            final(self).1 == old(self).1 + 1,
    {
        self.0 = self.0 + 1;
        self.1 = self.1 + 1;
    }

    /// Consumes the pair: the caller gives it up for good.
    pub fn destroy(self) {
    }
}

/// Closures capture their surroundings: both the annotated and the inferred
/// closure add the same captured offset.
pub fn closure_capture_lesson() -> (r: (i32, i32))
    ensures
        r == (15i32, 16i32),
{
    let x: i32 = 10;
    let annotated = |i: i32| -> (res: i32)
        requires
            -1000 <= i <= 1000,
        ensures
            res == i + x,
        { i + x };
    let inferred = |i: i32| -> (res: i32)
        requires
            -1000 <= i <= 1000,
        ensures
            res == i + x,
        { i + x };
    let a = annotated(5);
    let b = inferred(6);
    (a, b)
}

/// `move` takes the captured text into the closure: the closure owns it,
/// and hands it out when invoked.
pub fn forced_capture_with_move() -> (r: u64)
    ensures
        r == 7,
{
    let value: u64 = 7;
    let take = move || -> (res: u64)
        ensures
            res == value,
        { value };
    take()
}

/// A named function with a contract, passed below as a callable.
pub fn answer() -> (r: u64)
    ensures
        r == 42,
{
    42
}

/// Named functions are callables too: the generic applier accepts `answer`
/// just as it accepts a closure.
pub fn functions_as_closures() -> (r: u64)
    ensures
        r == 42,
{
    apply_shared(&answer)
}

/// Builds a read-only closure over its own local text and returns it: the
/// captured text moves out with the runner.
pub fn create_reader() -> (r: SharedRunner)
    ensures
        r.text() == "cake1"@,
{
    let text = String::from_str("cake1");
    SharedRunner::new(text)
}

/// Builds a mutating closure over a fresh counter and returns it.
pub fn create_counter() -> (r: MutRunner)
    ensures
        r.count() == 0,
{
    MutRunner::new()
}

/// Builds a mutating closure over its own local text and returns it: each
/// later invocation grows the captured text, so the first yields the text
/// with one more character.
pub fn create_appender() -> (r: AppendRunner)
    ensures
        r.text() == "cake"@,
{
    let text = String::from_str("cake");
    AppendRunner::new(text)
}

/// Builds a consuming closure over its own local text and returns it: one
/// invocation is still available.
pub fn create_consumer() -> (r: OnceRunner)
    ensures
        once_available(r),
        r.payload() == Some("cake3"@),
{
    let text = String::from_str("cake3");
    OnceRunner::new(text)
}

} // verus!
