//! Weapon properties.

use vstd::prelude::*;

verus! {

/// A property of a weapon.
pub struct WeaponProperty {
    pub index: String,
    pub name: String,
    pub desc: Option<Vec<String>>,
    pub url: String,
}

} // verus!
