//! Conditions.

use vstd::prelude::*;

verus! {

/// A condition that alters what a creature can do.
pub struct Condition {
    pub index: String,
    pub name: String,
    pub desc: Option<Vec<String>>,
    pub url: String,
}

} // verus!
