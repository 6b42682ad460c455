//! Ability scores.

use vstd::prelude::*;
use crate::documents::skills::Skill;

verus! {

/// One of the six abilities of a character.
pub struct AbilityScore {
    pub index: String,
    pub name: String,
    pub full_name: Option<String>,
    pub desc: Option<Vec<String>>,
    pub skills: Option<Vec<Skill>>,
    pub url: String,
}

} // verus!
