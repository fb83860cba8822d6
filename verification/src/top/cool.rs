//! The sibling module, reached from the leaf as `super::cool::function`.

use vstd::prelude::*;

verus! {

/// The sibling's function.
pub fn function() -> (r: &'static str)
    ensures
        r@ == "cool's function"@,
{
    "cool's function"
}

} // verus!
