//! The public nested module: visible itself, with items of every
//! visibility.

use vstd::prelude::*;

verus! {

fn _call_from_module() {
    _private_function();
    _pub_self_function();
    pub_super_self_function();
    pub_in_crate_my_mod_function();
    pub_crate_function();
}

fn _private_function() {
}

/// Visible wherever the module is.
pub fn public_function() {
}

pub(self) fn _pub_self_function() {
}

/// Visible in the parent module and its children.
pub(super) fn pub_super_self_function() {
}

/// Visible in the named ancestor module and its children.
pub(in crate::my_mod) fn pub_in_crate_my_mod_function() {
}

/// Visible in the whole crate.
pub(crate) fn pub_crate_function() {
}

} // verus!
