use chargen::ability::{Abilities, AbilityScores};
use chargen::character::{Character, Encumberance};
use chargen::class::Class;
use chargen::equipment::{Armor, ArmorType, EquipmentCatalog};
use chargen::money::MoneyType;
use chargen::race::Race;
use chargen::skill::Skill;

fn fixed_character(race: Race, class: Class, scores: (u8, u8, u8, u8, u8, u8)) -> Character {
    let stats = AbilityScores::with_scores(
        scores.0, scores.1, scores.2, scores.3, scores.4, scores.5,
    );
    let catalog = EquipmentCatalog::new();
    Character::new_with_scores(String::from("Testee"), race, class, stats, &catalog)
}

#[test]
fn human_fighter_end_to_end() {
    // raw scores (14,12,13,10,11,9); a Human gets +1 to all six
    let hero = fixed_character(Race::Human, Class::Fighter, (14, 12, 13, 10, 11, 9));
    assert_eq!(hero.stats.get(Abilities::Strength), 15);
    assert_eq!(hero.stats.get(Abilities::Dexterity), 13);
    assert_eq!(hero.stats.get(Abilities::Constitution), 14);
    assert_eq!(hero.stats.get(Abilities::Intelligence), 11);
    assert_eq!(hero.stats.get(Abilities::Wisdom), 12);
    assert_eq!(hero.stats.get(Abilities::Charisma), 10);
    assert_eq!(hero.stats.get_ability_modifier(Abilities::Constitution), 2);
    assert_eq!(hero.max_hp, 12);
    assert_eq!(hero.current_hp, 12);
    assert_eq!(hero.calculate_armor_class(), 11);
    assert_eq!(hero.level, 1);
    assert_eq!(hero.current_xp, 0);
    assert_eq!(hero.skills, vec![Skill::Athletics, Skill::Intimidation]);
}

#[test]
fn racial_bonuses_follow_the_tables() {
    let dragonborn = fixed_character(Race::Dragonborn, Class::Bard, (10, 10, 10, 10, 10, 10));
    assert_eq!(dragonborn.stats.get(Abilities::Strength), 12);
    assert_eq!(dragonborn.stats.get(Abilities::Charisma), 11);
    assert_eq!(dragonborn.stats.get(Abilities::Dexterity), 10);

    let half_elf = fixed_character(Race::HalfElf, Class::Bard, (10, 10, 10, 10, 10, 10));
    assert_eq!(half_elf.stats.get(Abilities::Charisma), 12);
    assert_eq!(half_elf.stats.get(Abilities::Dexterity), 11);
    assert_eq!(half_elf.stats.get(Abilities::Intelligence), 12);

    let tiefling = fixed_character(Race::Tiefling, Class::Bard, (10, 11, 12, 13, 14, 15));
    assert_eq!(tiefling.stats.get(Abilities::Strength), 10);
    assert_eq!(tiefling.stats.get(Abilities::Charisma), 15);

    let dwarf = fixed_character(Race::Dwarf, Class::Bard, (10, 10, 10, 10, 10, 10));
    assert_eq!(dwarf.stats.get(Abilities::Constitution), 12);
}

#[test]
fn max_hp_never_below_one() {
    let classes = [
        Class::Barbarian,
        Class::Bard,
        Class::Cleric,
        Class::Druid,
        Class::Fighter,
        Class::Monk,
        Class::Paladin,
        Class::Ranger,
        Class::Rogue,
        Class::Sorcerer,
        Class::Warlock,
        Class::Wizard,
    ];
    for class in classes {
        for con in 1..=30u8 {
            let c = fixed_character(Race::Tiefling, class, (10, 10, con, 10, 10, 10));
            assert!(c.max_hp >= 1, "class {:?}, constitution {}", class, con);
        }
    }
    // Constitution 3 gives modifier -4: a Wizard's base 6 leaves 2
    let frail = fixed_character(Race::Tiefling, Class::Wizard, (10, 10, 3, 10, 10, 10));
    assert_eq!(frail.max_hp, 2);
}

#[test]
fn armor_class_never_below_one() {
    for dex in 1..=30u8 {
        let c = fixed_character(Race::Tiefling, Class::Monk, (10, dex, 10, 10, 10, 10));
        let ac = c.calculate_armor_class();
        assert!(ac >= 1, "dexterity {}", dex);
        let expected = std::cmp::max(1, 10 + (dex as i32 - 10).div_euclid(2)) as i16;
        assert_eq!(ac, expected);
    }
    // Dexterity 1 gives modifier -5: the armor class bottoms out at 5
    let clumsy = fixed_character(Race::Tiefling, Class::Monk, (10, 1, 10, 10, 10, 10));
    assert_eq!(clumsy.calculate_armor_class(), 5);
}

#[test]
fn initiative_and_proficiency() {
    let c = fixed_character(Race::Tiefling, Class::Rogue, (10, 16, 10, 10, 10, 10));
    assert_eq!(c.calculate_initiative(), 3);
    assert_eq!(c.proficiency_bonus(), 2);
}

#[test]
fn skill_bonus_adds_proficiency_only_when_trained() {
    // a Fighter is proficient in Athletics and Intimidation
    let c = fixed_character(Race::Tiefling, Class::Fighter, (16, 10, 10, 13, 10, 8));
    assert_eq!(c.skill_bonus(Skill::Athletics), 3 + 2);
    assert_eq!(c.skill_bonus(Skill::Intimidation), -1 + 2);
    assert_eq!(c.skill_bonus(Skill::Arcana), 1);
    assert_eq!(c.skill_bonus(Skill::Acrobatics), 0);
}

#[test]
fn skill_bonus_is_pure() {
    let c = fixed_character(Race::Human, Class::Rogue, (12, 15, 9, 14, 11, 13));
    let first = c.skill_bonus(Skill::Stealth);
    let second = c.skill_bonus(Skill::Stealth);
    assert_eq!(first, second);
    let third = c.skill_bonus(Skill::Stealth);
    assert_eq!(second, third);
}

#[test]
fn starter_money_is_ten_copper_five_silver() {
    let c = fixed_character(Race::Human, Class::Monk, (10, 10, 10, 10, 10, 10));
    assert_eq!(c.current_money.len(), 3);
    assert_eq!(c.current_money[0].coin_type, MoneyType::Copper);
    assert_eq!(c.current_money[0].amount, 10);
    assert_eq!(c.current_money[1].coin_type, MoneyType::Silver);
    assert_eq!(c.current_money[1].amount, 5);
    assert_eq!(c.current_money[2].coin_type, MoneyType::Gold);
    assert_eq!(c.current_money[2].amount, 0);
}

fn plain_armor(name: &str, weight_centi: u32, price_centi: u32) -> Armor {
    Armor {
        name: String::from(name),
        armor_type: ArmorType::Light,
        base_ac: 11,
        dex_bonus_max: None,
        weight: weight_centi,
        price: price_centi,
        stealth_disadvantage: false,
    }
}

#[test]
fn weight_and_look_cost_sum_equipment() {
    let mut c = fixed_character(Race::Tiefling, Class::Monk, (10, 10, 10, 10, 10, 10));
    assert_eq!(c.calculate_weight(), 0);
    assert_eq!(c.calculate_look_cost(), 0);
    c.armor.push(plain_armor("Padded", 800, 500));
    c.armor.push(plain_armor("Leather", 1000, 1000));
    assert_eq!(c.calculate_weight(), 1800);
    assert_eq!(c.calculate_look_cost(), 1500);
}

#[test]
fn carrying_capacity_is_fifteen_times_strength() {
    let c = fixed_character(Race::Tiefling, Class::Monk, (12, 10, 10, 10, 10, 10));
    assert_eq!(c.calculate_carying_capacity(), 180);
}

#[test]
fn encumbrance_boundaries_are_strict() {
    // Strength 10: the boundaries sit at 50, 100 and 150 pounds, carried in
    // hundredths of a pound
    let mut c = fixed_character(Race::Tiefling, Class::Monk, (10, 10, 10, 10, 10, 10));

    c.armor = vec![plain_armor("Exact five", 5000, 0)];
    assert_eq!(c.calculate_encumberance().0, Encumberance::Normal);

    c.armor = vec![plain_armor("A hundredth over", 5001, 0)];
    assert_eq!(c.calculate_encumberance().0, Encumberance::Encumbered);

    c.armor = vec![plain_armor("Exact ten", 10000, 0)];
    assert_eq!(c.calculate_encumberance().0, Encumberance::Normal);

    c.armor = vec![plain_armor("Over ten", 10001, 0)];
    assert_eq!(c.calculate_encumberance().0, Encumberance::HeavilyEncumbered);

    c.armor = vec![plain_armor("Exact fifteen", 15000, 0)];
    assert_eq!(c.calculate_encumberance().0, Encumberance::Normal);

    c.armor = vec![plain_armor("Over fifteen", 15001, 0)];
    assert_eq!(c.calculate_encumberance().0, Encumberance::OverCapacity);

    c.armor = vec![];
    let (tier, load) = c.calculate_encumberance();
    assert_eq!(tier, Encumberance::Normal);
    assert_eq!(load, 0);
}

#[test]
fn experience_progression() {
    let mut c = fixed_character(Race::Human, Class::Fighter, (10, 10, 10, 10, 10, 10));

    c.current_xp = 299;
    assert_eq!(c.calculate_current_level(), 1);
    assert_eq!(c.show_needed_xp(), 300);
    assert_eq!(c.xp_needed_for_level_up(), 1);

    c.current_xp = 0;
    assert_eq!(c.calculate_current_level(), 1);
    assert_eq!(c.show_needed_xp(), 300);

    c.current_xp = 300;
    assert_eq!(c.calculate_current_level(), 2);
    assert_eq!(c.show_needed_xp(), 900);

    c.current_xp = 6499;
    assert_eq!(c.calculate_current_level(), 4);
    assert_eq!(c.xp_needed_for_level_up(), 1);

    c.current_xp = 355_000;
    assert_eq!(c.calculate_current_level(), 20);
    assert_eq!(c.show_needed_xp(), 355_000);
    assert_eq!(c.xp_needed_for_level_up(), 0);

    c.current_xp = 1_000_000;
    assert_eq!(c.calculate_current_level(), 20);
    assert_eq!(c.xp_needed_for_level_up(), 0);
}

#[test]
fn rolled_construction_stays_in_rolled_range() {
    let catalog = EquipmentCatalog::new();
    for _ in 0..20 {
        let c = Character::new(String::from("Rolled"), Race::Tiefling, Class::Fighter, &catalog);
        for ability in [
            Abilities::Strength,
            Abilities::Dexterity,
            Abilities::Constitution,
            Abilities::Intelligence,
            Abilities::Wisdom,
            Abilities::Charisma,
        ] {
            let score = c.stats.get(ability);
            assert!((3..=18).contains(&score));
        }
        assert!(c.max_hp >= 1);
        assert_eq!(c.current_hp, c.max_hp);
        assert_eq!(c.level, 1);
    }
}
