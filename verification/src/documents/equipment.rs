//! Parts of equipment records.

use vstd::prelude::*;

verus! {

/// The range of a weapon, in feet.
pub struct Range {
    pub normal: i32,
    pub long: Option<i32>,
}

/// The armor class that a piece of armor grants.
pub struct ArmorClass {
    pub base: i32,
    pub dex_bonus: bool,
    pub max_bonus: Option<i32>,
}

} // verus!
