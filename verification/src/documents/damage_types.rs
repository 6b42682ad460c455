//! Damage types.

use vstd::prelude::*;

verus! {

/// A type of damage.
pub struct DamageType {
    pub index: String,
    pub name: String,
    pub desc: Option<Vec<String>>,
    pub url: String,
}

} // verus!
