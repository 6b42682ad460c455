//! Rules.

use vstd::prelude::*;
use crate::documents::rule_sections::RuleSection;

verus! {

/// A rule of the game, with its sections.
pub struct Rule {
    pub name: String,
    pub index: String,
    pub desc: String,
    pub subsections: Vec<RuleSection>,
    pub url: String,
}

} // verus!
