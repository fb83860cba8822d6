//! The module lessons exercised: access along visibility fences, `use`
//! declarations plain and renamed, `super`/`self` paths, and structs whose
//! fields are public or private.

use crate::use_mod::public_function as pf;
use vstd::prelude::*;
use vstd::string::StringExecFns;

verus! {

/// Reaches every function the visibility fences leave reachable from here.
pub fn mod_access() {
    crate::my_mod::public_function();
    crate::my_mod::public_nested::public_function();
    crate::my_mod::public_nested::pub_crate_function();
}

/// Fetches the same function by full path and through a renamed `use`,
/// checking that both paths name the same treat.
pub fn use_declaration() {
    let by_path = crate::use_mod::public_function();
    assert(by_path@ == "cake"@);
    let by_rename = pf();
    assert(by_rename@ == "cake"@);
}

/// Runs the leaf of the `super`/`self` lesson.
pub fn super_and_self() {
    crate::top::my::calling();
}

/// Builds an open box by field literal and a closed box through its
/// constructor, reading both back.
pub fn structures() {
    let open_box = crate::my_mod::OpenBox { contents: String::from_str("public") };
    assert(open_box.contents@ == "public"@);
    let closed_box = crate::my_mod::ClosedBox::new(String::from_str("classified"));
    let contents = closed_box.unclassify_contents();
    assert(contents@ == "classified"@);
}

} // verus!
