//! The visibility lesson: a module tree whose items carry every flavour of
//! `pub`, and boxes whose contents are public or classified.

use vstd::prelude::*;

pub mod public_nested;
mod private_nested;

verus! {

fn _private_function() {
}

/// The public face of the module: reachable from anywhere, it exercises
/// every nested item that is visible from here.
pub fn public_function() {
    public_nested::pub_super_self_function();
    public_nested::pub_in_crate_my_mod_function();
    public_nested::pub_crate_function();
    private_nested::public_function();
    private_nested::pub_super_self_function();
    private_nested::pub_in_crate_my_mod_function();
    private_nested::pub_crate_function();
}

/// A box whose contents are public: anyone may construct it with a field
/// literal and read the field.
pub struct OpenBox<T> {
    /// The visible contents.
    pub contents: T,
}

/// A box whose contents are private: it can only be built through its
/// constructor and read through its accessor.
pub struct ClosedBox<T> {
    contents: T,
}

impl<T> ClosedBox<T> {
    /// What the box holds.
    pub closed spec fn spec_contents(self) -> T {
        self.contents
    }

    /// Seals the given contents in a box.
    pub fn new(contents: T) -> (r: ClosedBox<T>)
        ensures
            r.spec_contents() == contents,
    {
        ClosedBox { contents }
    }

    /// Hands the sealed contents back out, by reference.
    pub fn unclassify_contents(&self) -> (r: &T)
        ensures
            *r == self.spec_contents(),
    {
        &self.contents
    }
}

} // verus!
