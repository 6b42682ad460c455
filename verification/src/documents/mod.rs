//! The records of the reference dataset, as the document store holds them.

pub mod ability_scores;
pub mod alignments;
pub mod backgrounds;
pub mod classes;
pub mod common;
pub mod conditions;
pub mod damage_types;
pub mod equipment;
pub mod features;
pub mod languages;
pub mod levels;
pub mod monsters;
pub mod rule_sections;
pub mod rules;
pub mod schools;
pub mod skills;
pub mod weapon_properties;

pub use crate::documents::ability_scores::AbilityScore;
pub use crate::documents::alignments::Alignment;
pub use crate::documents::common::{
    AbilityBonus, Choice, Damage, DamageAtCharacterLevel, DamageAtSlotLevel, Dc, Info,
};
pub use crate::documents::conditions::Condition;
pub use crate::documents::damage_types::DamageType;
pub use crate::documents::languages::Language;
pub use crate::documents::rule_sections::RuleSection;
pub use crate::documents::rules::Rule;
pub use crate::documents::schools::School;
pub use crate::documents::skills::Skill;
pub use crate::documents::weapon_properties::WeaponProperty;
