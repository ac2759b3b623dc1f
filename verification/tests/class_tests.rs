use chargen::ability::Abilities;
use chargen::class::Class;
use chargen::equipment::{ArmorType, WeaponType};
use chargen::skill::Skill;

#[test]
fn hit_dice_follow_the_class_table() {
    let expected = [
        (Class::Barbarian, 12u8),
        (Class::Bard, 8),
        (Class::Cleric, 8),
        (Class::Druid, 8),
        (Class::Fighter, 10),
        (Class::Monk, 8),
        (Class::Paladin, 10),
        (Class::Ranger, 10),
        (Class::Rogue, 8),
        (Class::Sorcerer, 6),
        (Class::Warlock, 8),
        (Class::Wizard, 6),
    ];
    for (class, sides) in expected {
        let die = class.get_class_hit_dice();
        assert_eq!(die.dice_count, 1, "{:?}", class);
        assert_eq!(die.dice_sides, sides, "{:?}", class);
        assert_eq!(die.modifier, 0, "{:?}", class);
    }
}

#[test]
fn armor_proficiencies_follow_the_class_table() {
    assert_eq!(
        Class::Fighter.get_class_armor_proficiency(),
        vec![ArmorType::Light, ArmorType::Medium, ArmorType::Heavy]
    );
    assert_eq!(
        Class::Barbarian.get_class_armor_proficiency(),
        vec![ArmorType::Light, ArmorType::Medium]
    );
    assert_eq!(Class::Bard.get_class_armor_proficiency(), vec![ArmorType::Light]);
    assert_eq!(Class::Wizard.get_class_armor_proficiency(), vec![]);
    assert_eq!(Class::Monk.get_class_armor_proficiency(), vec![]);
}

#[test]
fn weapon_proficiencies_follow_the_class_table() {
    assert_eq!(
        Class::Ranger.get_weapon_proficieny(),
        vec![WeaponType::Simple, WeaponType::Martial]
    );
    assert_eq!(Class::Wizard.get_weapon_proficieny(), vec![WeaponType::Simple]);
}

#[test]
fn class_skills_follow_the_class_table() {
    assert_eq!(
        Class::Bard.get_class_skills(),
        vec![Skill::Acrobatics, Skill::Performance, Skill::History]
    );
    assert_eq!(Class::Rogue.get_class_skills(), vec![Skill::Stealth, Skill::Deception]);
    assert_eq!(Class::Wizard.get_class_skills(), vec![Skill::Arcana, Skill::Religion]);
}

#[test]
fn each_skill_names_its_governing_ability() {
    assert_eq!(Skill::Athletics.ability_type(), "STR");
    assert_eq!(Skill::Stealth.ability_type(), "DEX");
    assert_eq!(Skill::SleightOfHand.ability_type(), "DEX");
    assert_eq!(Skill::Arcana.ability_type(), "INT");
    assert_eq!(Skill::Religion.ability_type(), "INT");
    assert_eq!(Skill::Perception.ability_type(), "WIS");
    assert_eq!(Skill::Persuasion.ability_type(), "CHA");
}

#[test]
fn governing_ability_matches_the_abbreviation() {
    assert_eq!(Skill::Athletics.governing_ability(), Abilities::Strength);
    assert_eq!(Skill::Insight.governing_ability(), Abilities::Wisdom);
    assert_eq!(Skill::Deception.governing_ability(), Abilities::Charisma);
}
