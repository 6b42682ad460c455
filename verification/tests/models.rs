use dnd_tui::models::{Class, Damage, School};

#[test]
fn every_damage_type_is_recognised() {
    let all = [
        ("acid", Damage::Acid),
        ("bludgeoning", Damage::Bludgeoning),
        ("cold", Damage::Cold),
        ("fire", Damage::Fire),
        ("force", Damage::Force),
        ("lightning", Damage::Lightning),
        ("necrotic", Damage::Necrotic),
        ("piercing", Damage::Piercing),
        ("poison", Damage::Poison),
        ("psychic", Damage::Psychic),
        ("radiant", Damage::Radiant),
        ("slashing", Damage::Slashing),
        ("thunder", Damage::Thunder),
    ];
    for (name, damage) in all {
        assert_eq!(Damage::try_from(name.to_string()), Ok(damage));
    }
}

#[test]
fn unknown_damage_type_is_refused() {
    assert_eq!(Damage::try_from("sonic".to_string()), Err("Invalid damage type"));
    assert_eq!(Damage::try_from("Acid".to_string()), Err("Invalid damage type"));
    assert_eq!(Damage::try_from(String::new()), Err("Invalid damage type"));
}

#[test]
fn every_school_is_recognised() {
    let all = [
        ("abjuration", School::Abjuration),
        ("conjuration", School::Conjuration),
        ("divination", School::Divination),
        ("enchantment", School::Enchantment),
        ("evocation", School::Evocation),
        ("illusion", School::Illusion),
        ("necromancy", School::Necromancy),
        ("transmutation", School::Transmutation),
    ];
    for (name, school) in all {
        assert_eq!(School::try_from(name.to_string()), Ok(school));
    }
}

#[test]
fn unknown_school_is_refused() {
    assert_eq!(School::try_from("alchemy".to_string()), Err("Invalid school"));
    assert_eq!(School::try_from("EVOCATION".to_string()), Err("Invalid school"));
}

#[test]
fn every_class_is_recognised() {
    let all = [
        ("barbarian", Class::Barbarian),
        ("bard", Class::Bard),
        ("cleric", Class::Cleric),
        ("druid", Class::Druid),
        ("fighter", Class::Fighter),
        ("monk", Class::Monk),
        ("paladin", Class::Paladin),
        ("ranger", Class::Ranger),
        ("rogue", Class::Rogue),
        ("sorcerer", Class::Sorcerer),
        ("warlock", Class::Warlock),
        ("wizard", Class::Wizard),
    ];
    for (name, class) in all {
        assert_eq!(Class::try_from(name.to_string()), Ok(class));
    }
}

#[test]
fn unknown_class_is_refused_with_its_name() {
    assert_eq!(Class::try_from("artificer".to_string()), Err("Invalid class artificer".to_string()));
    assert_eq!(Class::try_from(String::new()), Err("Invalid class ".to_string()));
    assert_eq!(Class::try_from("Wizard".to_string()), Err("Invalid class Wizard".to_string()));
}
