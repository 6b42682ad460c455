//! Closed vocabularies of the dataset: damage types, schools of magic and
//! character classes, each recognised by its lower-case name.

use vstd::prelude::*;
use vstd::std_specs::convert::TryFromSpecImpl;
use crate::text::{join, same_text};

verus! {

/// A type of damage.
#[derive(Clone, Copy, Debug, PartialEq, Eq, Structural)]
pub enum Damage {
    Acid,
    Bludgeoning,
    Cold,
    Fire,
    Force,
    Lightning,
    Necrotic,
    Piercing,
    Poison,
    Psychic,
    Radiant,
    Slashing,
    Thunder,
}

/// A school of magic.
#[derive(Clone, Copy, Debug, PartialEq, Eq, Structural)]
pub enum School {
    Abjuration,
    Conjuration,
    Divination,
    Enchantment,
    Evocation,
    Illusion,
    Necromancy,
    Transmutation,
}

/// A character class.
#[derive(Clone, Copy, Debug, PartialEq, Eq, Structural)]
pub enum Class {
    Barbarian,
    Bard,
    Cleric,
    Druid,
    Fighter,
    Monk,
    Paladin,
    Ranger,
    Rogue,
    Sorcerer,
    Warlock,
    Wizard,
}

impl Damage {
    /// The damage type of a name, where the name is one.
    pub open spec fn named(name: Seq<char>) -> Option<Damage> {
        if name == "acid"@ {
            Some(Damage::Acid)
        } else if name == "bludgeoning"@ {
            Some(Damage::Bludgeoning)
        } else if name == "cold"@ {
            Some(Damage::Cold)
        } else if name == "fire"@ {
            Some(Damage::Fire)
        } else if name == "force"@ {
            Some(Damage::Force)
        } else if name == "lightning"@ {
            Some(Damage::Lightning)
        } else if name == "necrotic"@ {
            Some(Damage::Necrotic)
        } else if name == "piercing"@ {
            Some(Damage::Piercing)
        } else if name == "poison"@ {
            Some(Damage::Poison)
        } else if name == "psychic"@ {
            Some(Damage::Psychic)
        } else if name == "radiant"@ {
            Some(Damage::Radiant)
        } else if name == "slashing"@ {
            Some(Damage::Slashing)
        } else if name == "thunder"@ {
            Some(Damage::Thunder)
        } else {
            None
        }
    }
}

impl School {
    /// The school of a name, where the name is one.
    pub open spec fn named(name: Seq<char>) -> Option<School> {
        if name == "abjuration"@ {
            Some(School::Abjuration)
        } else if name == "conjuration"@ {
            Some(School::Conjuration)
        } else if name == "divination"@ {
            Some(School::Divination)
        } else if name == "enchantment"@ {
            Some(School::Enchantment)
        } else if name == "evocation"@ {
            Some(School::Evocation)
        } else if name == "illusion"@ {
            Some(School::Illusion)
        } else if name == "necromancy"@ {
            Some(School::Necromancy)
        } else if name == "transmutation"@ {
            Some(School::Transmutation)
        } else {
            None
        }
    }
}

impl Class {
    /// The class of a name, where the name is one.
    pub open spec fn named(name: Seq<char>) -> Option<Class> {
        if name == "barbarian"@ {
            Some(Class::Barbarian)
        } else if name == "bard"@ {
            Some(Class::Bard)
        } else if name == "cleric"@ {
            Some(Class::Cleric)
        } else if name == "druid"@ {
            Some(Class::Druid)
        } else if name == "fighter"@ {
            Some(Class::Fighter)
        } else if name == "monk"@ {
            Some(Class::Monk)
        } else if name == "paladin"@ {
            Some(Class::Paladin)
        } else if name == "ranger"@ {
            Some(Class::Ranger)
        } else if name == "rogue"@ {
            Some(Class::Rogue)
        } else if name == "sorcerer"@ {
            Some(Class::Sorcerer)
        } else if name == "warlock"@ {
            Some(Class::Warlock)
        } else if name == "wizard"@ {
            Some(Class::Wizard)
        } else {
            None
        }
    }
}

impl TryFrom<String> for Damage {
    type Error = &'static str;

    /// The damage type of a lower-case name; any other text is refused
    /// with the message "Invalid damage type".
    fn try_from(damage_type: String) -> (result: Result<Damage, &'static str>)
        ensures
            match result {
                Ok(damage) => Damage::named(damage_type@) == Some(damage),
                Err(message) => Damage::named(damage_type@) is None && message@
                    == "Invalid damage type"@,
            },
    {
        let name = damage_type.as_str();
        if same_text(name, "acid") {
            Ok(Damage::Acid)
        } else if same_text(name, "bludgeoning") {
            Ok(Damage::Bludgeoning)
        } else if same_text(name, "cold") {
            Ok(Damage::Cold)
        } else if same_text(name, "fire") {
            Ok(Damage::Fire)
        } else if same_text(name, "force") {
            Ok(Damage::Force)
        } else if same_text(name, "lightning") {
            Ok(Damage::Lightning)
        } else if same_text(name, "necrotic") {
            Ok(Damage::Necrotic)
        } else if same_text(name, "piercing") {
            Ok(Damage::Piercing)
        } else if same_text(name, "poison") {
            Ok(Damage::Poison)
        } else if same_text(name, "psychic") {
            Ok(Damage::Psychic)
        } else if same_text(name, "radiant") {
            Ok(Damage::Radiant)
        } else if same_text(name, "slashing") {
            Ok(Damage::Slashing)
        } else if same_text(name, "thunder") {
            Ok(Damage::Thunder)
        } else {
            Err("Invalid damage type")
        }
    }
}

impl TryFromSpecImpl<String> for Damage {
    open spec fn obeys_try_from_spec() -> bool {
        true
    }

    open spec fn try_from_spec(damage_type: String) -> Result<Damage, &'static str> {
        match Damage::named(damage_type@) {
            Some(damage) => Ok(damage),
            None => Err("Invalid damage type"),
        }
    }
}

impl TryFrom<String> for School {
    type Error = &'static str;

    /// The school of a lower-case name; any other text is refused with the
    /// message "Invalid school".
    fn try_from(school: String) -> (result: Result<School, &'static str>)
        ensures
            match result {
                Ok(found) => School::named(school@) == Some(found),
                Err(message) => School::named(school@) is None && message@ == "Invalid school"@,
            },
    {
        let name = school.as_str();
        if same_text(name, "abjuration") {
            Ok(School::Abjuration)
        } else if same_text(name, "conjuration") {
            Ok(School::Conjuration)
        } else if same_text(name, "divination") {
            Ok(School::Divination)
        } else if same_text(name, "enchantment") {
            Ok(School::Enchantment)
        } else if same_text(name, "evocation") {
            Ok(School::Evocation)
        } else if same_text(name, "illusion") {
            Ok(School::Illusion)
        } else if same_text(name, "necromancy") {
            Ok(School::Necromancy)
        } else if same_text(name, "transmutation") {
            Ok(School::Transmutation)
        } else {
            Err("Invalid school")
        }
    }
}

impl TryFromSpecImpl<String> for School {
    open spec fn obeys_try_from_spec() -> bool {
        true
    }

    open spec fn try_from_spec(school: String) -> Result<School, &'static str> {
        match School::named(school@) {
            Some(found) => Ok(found),
            None => Err("Invalid school"),
        }
    }
}

impl TryFrom<String> for Class {
    type Error = String;

    /// The class of a lower-case name; any other text is refused with the
    /// message "Invalid class " followed by the text.
    fn try_from(class: String) -> (result: Result<Class, String>)
        ensures
            match result {
                Ok(found) => Class::named(class@) == Some(found),
                Err(message) => Class::named(class@) is None && message@ == "Invalid class "@
                    + class@,
            },
    {
        let name = class.as_str();
        if same_text(name, "barbarian") {
            Ok(Class::Barbarian)
        } else if same_text(name, "bard") {
            Ok(Class::Bard)
        } else if same_text(name, "cleric") {
            Ok(Class::Cleric)
        } else if same_text(name, "druid") {
            Ok(Class::Druid)
        } else if same_text(name, "fighter") {
            Ok(Class::Fighter)
        } else if same_text(name, "monk") {
            Ok(Class::Monk)
        } else if same_text(name, "paladin") {
            Ok(Class::Paladin)
        } else if same_text(name, "ranger") {
            Ok(Class::Ranger)
        } else if same_text(name, "rogue") {
            Ok(Class::Rogue)
        } else if same_text(name, "sorcerer") {
            Ok(Class::Sorcerer)
        } else if same_text(name, "warlock") {
            Ok(Class::Warlock)
        } else if same_text(name, "wizard") {
            Ok(Class::Wizard)
        } else {
            Err(join("Invalid class ", name))
        }
    }
}

impl TryFromSpecImpl<String> for Class {
    open spec fn obeys_try_from_spec() -> bool {
        false
    }

    open spec fn try_from_spec(class: String) -> Result<Class, String> {
        arbitrary()
    }
}

} // verus!
