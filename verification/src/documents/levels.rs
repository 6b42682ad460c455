//! Parts of class levels.

use vstd::prelude::*;

verus! {

/// The spell slots of a class at one level.
pub struct Spellcasting {
    pub cantrips_known: Option<i32>,
    pub spell_slots_level_1: Option<i32>,
    pub spell_slots_level_2: Option<i32>,
    pub spell_slots_level_3: Option<i32>,
    pub spell_slots_level_4: Option<i32>,
    pub spell_slots_level_5: Option<i32>,
    pub spell_slots_level_6: Option<i32>,
    pub spell_slots_level_7: Option<i32>,
    pub spell_slots_level_8: Option<i32>,
    pub spell_slots_level_9: Option<i32>,
}

} // verus!
