//! Rule sections.

use vstd::prelude::*;

verus! {

/// A section of a rule.
pub struct RuleSection {
    pub name: String,
    pub index: String,
    pub desc: Option<String>,
    pub url: String,
}

} // verus!
