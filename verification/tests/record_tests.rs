use chargen::ability::AbilityScores;
use chargen::character::Character;
use chargen::class::Class;
use chargen::equipment::{
    Armor, ArmorType, DamageType, EquipmentCatalog, Weapon, WeaponRange, WeaponType,
};
use chargen::race::Race;
use chargen::record::{decode_character, encode_character};

fn full_character() -> Character {
    let mut catalog = EquipmentCatalog::new();
    catalog.add_armor(Armor {
        name: String::from("Studded Leather"),
        armor_type: ArmorType::Light,
        base_ac: 12,
        dex_bonus_max: Some(2),
        weight: 1300,
        price: 4500,
        stealth_disadvantage: false,
    });
    catalog.add_weapon(Weapon {
        name: String::from("Great Club"),
        weapon_type: WeaponType::Simple,
        weapon_range: WeaponRange::Melee,
        damage: String::from("1d8"),
        damage_type: DamageType::Bludgeoning,
        weight: 1000,
        price: 20,
        properties: vec![String::from("Two-Handed"), String::from("Heavy")],
    });
    let stats = AbilityScores::with_scores(16, 12, 14, 8, 10, 9);
    let mut c = Character::new_with_scores(
        String::from("Zo\u{eb} \u{2694} the Bold"),
        Race::HalfOrc,
        Class::Barbarian,
        stats,
        &catalog,
    );
    c.current_xp = 923;
    c
}

#[test]
fn record_round_trip_reproduces_every_field() {
    let original = full_character();
    let tokens = encode_character(&original);
    let decoded = decode_character(&tokens).expect("a freshly encoded record decodes");
    assert_eq!(decoded, original);
}

#[test]
fn record_round_trip_of_a_bare_character() {
    let catalog = EquipmentCatalog::new();
    let stats = AbilityScores::with_scores(3, 18, 10, 11, 7, 15);
    let original = Character::new_with_scores(
        String::from(""),
        Race::Elf,
        Class::Wizard,
        stats,
        &catalog,
    );
    let tokens = encode_character(&original);
    assert_eq!(decode_character(&tokens), Some(original));
}

#[test]
fn encoding_is_deterministic() {
    let c = full_character();
    assert_eq!(encode_character(&c), encode_character(&c));
}

#[test]
fn decode_rejects_an_empty_stream() {
    assert_eq!(decode_character(&Vec::new()), None);
}

#[test]
fn decode_rejects_trailing_tokens() {
    let mut tokens = encode_character(&full_character());
    tokens.push(0);
    assert_eq!(decode_character(&tokens), None);
}

#[test]
fn decode_rejects_a_truncated_stream() {
    let mut tokens = encode_character(&full_character());
    tokens.pop();
    assert_eq!(decode_character(&tokens), None);
}

#[test]
fn decode_rejects_a_corrupted_tag() {
    let original = full_character();
    let mut tokens = encode_character(&original);
    // the race tag follows the name's length token and characters
    let race_index = 1 + original.name.chars().count();
    tokens[race_index] = 99;
    assert_eq!(decode_character(&tokens), None);
}
