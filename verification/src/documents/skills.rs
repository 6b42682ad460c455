//! Skills.

use vstd::prelude::*;
use crate::documents::ability_scores::AbilityScore;

verus! {

/// A skill, with the ability it rests on.
pub struct Skill {
    pub index: String,
    pub name: String,
    pub desc: Option<Vec<String>>,
    pub ability_score: Option<AbilityScore>,
    pub url: String,
}

} // verus!
