//! Parts of monster records.

use vstd::prelude::*;
use crate::documents::common::{Damage, Dc};

verus! {

/// An action that a monster can take.
pub struct Action {
    pub name: String,
    pub desc: String,
    pub attack_bonus: Option<i32>,
    pub dc: Option<Dc>,
    pub damage: Option<Vec<Damage>>,
}

/// A special ability of a monster.
pub struct SpecialAbility {
    pub name: String,
    pub desc: String,
    pub dc: Option<Dc>,
}

/// The speeds of a monster, by way of moving.
pub struct Speed {
    pub walk: Option<String>,
    pub swim: Option<String>,
    pub fly: Option<String>,
    pub burrow: Option<String>,
    pub climb: Option<String>,
    pub hover: Option<bool>,
}

/// The senses of a monster.
pub struct Senses {
    pub passive_perception: i32,
}

} // verus!
