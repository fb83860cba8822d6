//! The leaf module: its own private item, plus `super` paths upward and
//! sideways.

use vstd::prelude::*;

verus! {

fn function() -> (r: &'static str)
    ensures
        r@ == "my function"@,
{
    "my function"
}

/// Calls by bare name, through `super`, and through `super` into a sibling,
/// checking each answer.
pub fn calling() {
    let own = function();
    assert(own@ == "my function"@);
    let parent = super::function();
    assert(parent@ == "super's function"@);
    let sibling = super::cool::function();
    assert(sibling@ == "cool's function"@);
}

} // verus!
