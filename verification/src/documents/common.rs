//! Records that several kinds of document share.

use vstd::prelude::*;
use crate::documents::ability_scores::AbilityScore;
use crate::documents::damage_types::DamageType;

verus! {

/// A difficulty class: the saving throw that an effect asks for.
pub struct Dc {
    pub dc_type: AbilityScore,
    pub dc_success: Option<String>,
    pub dc_value: Option<i32>,
    pub success_type: Option<String>,
}

/// A choice of some of the listed options.
pub struct Choice<T> {
    pub choose: i32,
    pub choice_type: String,
    pub from: Vec<T>,
}

/// The damage of a spell or an attack.
pub struct Damage {
    pub damage_dice: Option<String>,
    pub damage_type: Option<DamageType>,
    pub damage_at_slot_level: Option<DamageAtSlotLevel>,
    pub damage_at_character_level: Option<DamageAtCharacterLevel>,
}

/// Damage dice by the level of the spell slot spent.
pub struct DamageAtSlotLevel {
    pub two: Option<String>,
    pub three: Option<String>,
    pub four: Option<String>,
    pub five: Option<String>,
    pub six: Option<String>,
    pub seven: Option<String>,
    pub eight: Option<String>,
    pub nine: Option<String>,
}

/// Damage dice by the level of the caster.
pub struct DamageAtCharacterLevel {
    pub one: String,
    pub five: String,
    pub eleven: String,
    pub seventeen: String,
}

/// A titled piece of descriptive text.
pub struct Info {
    pub name: String,
    pub desc: Vec<String>,
}

/// A bonus to one ability score.
pub struct AbilityBonus {
    pub ability_score: AbilityScore,
    pub bonus: i32,
}

} // verus!
