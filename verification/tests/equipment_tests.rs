use chargen::ability::AbilityScores;
use chargen::character::Character;
use chargen::class::Class;
use chargen::equipment::{
    Armor, ArmorType, DamageType, EquipmentCatalog, Weapon, WeaponRange, WeaponType,
};
use chargen::race::Race;

fn studded_leather() -> Armor {
    Armor {
        name: String::from("Studded Leather"),
        armor_type: ArmorType::Light,
        base_ac: 12,
        dex_bonus_max: None,
        weight: 1300,
        price: 4500,
        stealth_disadvantage: false,
    }
}

fn great_club() -> Weapon {
    Weapon {
        name: String::from("Great Club"),
        weapon_type: WeaponType::Simple,
        weapon_range: WeaponRange::Melee,
        damage: String::from("1d8"),
        damage_type: DamageType::Bludgeoning,
        weight: 1000,
        price: 20,
        properties: vec![String::from("Two-Handed")],
    }
}

#[test]
fn lookup_finds_entries_by_name() {
    let mut catalog = EquipmentCatalog::new();
    catalog.add_armor(studded_leather());
    catalog.add_weapon(great_club());

    let armor = catalog.get_armor("Studded Leather").expect("armor is in the catalog");
    assert_eq!(armor, studded_leather());

    let weapon = catalog.get_weapon("Great Club").expect("weapon is in the catalog");
    assert_eq!(weapon, great_club());
}

#[test]
fn lookup_miss_yields_no_item() {
    let mut catalog = EquipmentCatalog::new();
    catalog.add_armor(studded_leather());
    assert_eq!(catalog.get_armor("Plate"), None);
    assert_eq!(catalog.get_armor("studded leather"), None);
    assert_eq!(catalog.get_weapon("Great Club"), None);
}

#[test]
fn lookup_returns_the_first_match() {
    let mut catalog = EquipmentCatalog::new();
    let mut first = studded_leather();
    first.base_ac = 12;
    let mut second = studded_leather();
    second.base_ac = 13;
    catalog.add_armor(first.clone());
    catalog.add_armor(second);
    assert_eq!(catalog.get_armor("Studded Leather"), Some(first));
}

#[test]
fn barbarian_gets_default_equipment_from_the_catalog() {
    let mut catalog = EquipmentCatalog::new();
    catalog.add_armor(studded_leather());
    catalog.add_weapon(great_club());
    let stats = AbilityScores::with_scores(16, 12, 14, 8, 10, 9);
    let conan = Character::new_with_scores(
        String::from("Conan"),
        Race::HalfOrc,
        Class::Barbarian,
        stats,
        &catalog,
    );
    assert_eq!(conan.armor, vec![studded_leather()]);
    assert_eq!(conan.weapons, vec![great_club()]);
}

#[test]
fn missing_catalog_entries_leave_equipment_empty() {
    let catalog = EquipmentCatalog::new();
    let stats = AbilityScores::with_scores(16, 12, 14, 8, 10, 9);
    let conan = Character::new_with_scores(
        String::from("Conan"),
        Race::HalfOrc,
        Class::Barbarian,
        stats,
        &catalog,
    );
    assert!(conan.armor.is_empty());
    assert!(conan.weapons.is_empty());
}

#[test]
fn non_barbarians_start_without_equipment() {
    let mut catalog = EquipmentCatalog::new();
    catalog.add_armor(studded_leather());
    catalog.add_weapon(great_club());
    let stats = AbilityScores::with_scores(10, 10, 10, 10, 10, 10);
    let sage = Character::new_with_scores(
        String::from("Sage"),
        Race::Gnome,
        Class::Wizard,
        stats,
        &catalog,
    );
    assert!(sage.armor.is_empty());
    assert!(sage.weapons.is_empty());
}
