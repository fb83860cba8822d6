//! The `super` and `self` lesson: a module tree whose leaf reaches its own
//! items, its parent's, and a sibling's.

use vstd::prelude::*;

mod cool;
pub mod my;

verus! {

/// The parent's function, reached from the leaf as `super::function`.
pub fn function() -> (r: &'static str)
    ensures
        r@ == "super's function"@,
{
    "super's function"
}

} // verus!
