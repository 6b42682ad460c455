//! Parts of character classes.

use vstd::prelude::*;
use crate::documents::ability_scores::AbilityScore;
use crate::documents::common::Info;

verus! {

/// How a class casts spells.
pub struct Spellcasting {
    pub level: i32,
    pub spellcasting_ability: AbilityScore,
    pub info: Vec<Info>,
}

} // verus!
