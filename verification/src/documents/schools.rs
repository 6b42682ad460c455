//! Schools of magic.

use vstd::prelude::*;

verus! {

/// A school of magic.
pub struct School {
    pub index: String,
    pub name: String,
    pub desc: Option<String>,
    pub url: String,
}

} // verus!
