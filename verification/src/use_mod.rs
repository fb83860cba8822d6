//! A small module whose one function is reached through `use` paths,
//! plain and renamed.

use vstd::prelude::*;

verus! {

/// The treat the `use` lesson fetches along three different paths.
pub fn public_function() -> (r: &'static str)
    ensures
        r@ == "cake"@,
{
    "cake"
}

} // verus!
