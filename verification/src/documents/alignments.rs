//! Alignments.

use vstd::prelude::*;

verus! {

/// A moral and ethical alignment.
pub struct Alignment {
    pub index: String,
    pub name: String,
    pub abbreviation: Option<String>,
    pub desc: Option<String>,
    pub url: String,
}

} // verus!
