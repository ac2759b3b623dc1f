//! The character classes and their static rules: hit dice, proficiencies,
//! starting skills.

use crate::dice::Dice;
use crate::equipment::{ArmorType, WeaponType};
use crate::skill::Skill;
use vstd::prelude::*;

verus! {

/// The character classes.
#[derive(Clone, Copy, Debug, PartialEq, Eq, Structural)]
pub enum Class {
    Barbarian,
    Bard,
    Cleric,
    Druid,
    Fighter,
    Monk,
    Paladin,
    Ranger,
    Rogue,
    Sorcerer,
    Warlock,
    Wizard,
}

/// A vector holding exactly one element.
fn list1<T>(a: T) -> (r: Vec<T>)
    ensures
        r@ == seq![a],
{
    let mut r: Vec<T> = Vec::new();
    r.push(a);
    proof {
        assert(r@ =~= seq![a]);
    }
    r
}

/// A vector holding exactly two elements.
fn list2<T>(a: T, b: T) -> (r: Vec<T>)
    ensures
        r@ == seq![a, b],
{
    let mut r: Vec<T> = Vec::new();
    r.push(a);
    r.push(b);
    proof {
        assert(r@ =~= seq![a, b]);
    }
    r
}

/// A vector holding exactly three elements.
fn list3<T>(a: T, b: T, c: T) -> (r: Vec<T>)
    ensures
        r@ == seq![a, b, c],
{
    let mut r: Vec<T> = Vec::new();
    r.push(a);
    r.push(b);
    r.push(c);
    proof {
        assert(r@ =~= seq![a, b, c]);
    }
    r
}

/// The armor classes a class is proficient with.
pub open spec fn spec_armor_proficiency(class: Class) -> Seq<ArmorType> {
    match class {
        Class::Barbarian => seq![ArmorType::Light, ArmorType::Medium],
        Class::Bard => seq![ArmorType::Light],
        Class::Cleric => seq![ArmorType::Light, ArmorType::Medium],
        Class::Druid => seq![ArmorType::Light, ArmorType::Medium],
        Class::Fighter => seq![ArmorType::Light, ArmorType::Medium, ArmorType::Heavy],
        Class::Monk => Seq::empty(),
        Class::Paladin => seq![ArmorType::Light, ArmorType::Medium, ArmorType::Heavy],
        Class::Ranger => seq![ArmorType::Light, ArmorType::Medium],
        Class::Rogue => seq![ArmorType::Light],
        Class::Sorcerer => Seq::empty(),
        Class::Warlock => seq![ArmorType::Light],
        Class::Wizard => Seq::empty(),
    }
}

/// The weapon classes a class is proficient with.
pub open spec fn spec_weapon_proficiency(class: Class) -> Seq<WeaponType> {
    match class {
        Class::Barbarian => seq![WeaponType::Simple, WeaponType::Martial],
        Class::Bard => seq![WeaponType::Simple],
        Class::Cleric => seq![WeaponType::Simple],
        Class::Druid => seq![WeaponType::Simple],
        Class::Fighter => seq![WeaponType::Simple, WeaponType::Martial],
        Class::Monk => seq![WeaponType::Simple],
        Class::Paladin => seq![WeaponType::Simple, WeaponType::Martial],
        Class::Ranger => seq![WeaponType::Simple, WeaponType::Martial],
        Class::Rogue => seq![WeaponType::Simple],
        Class::Sorcerer => seq![WeaponType::Simple],
        Class::Warlock => seq![WeaponType::Simple],
        Class::Wizard => seq![WeaponType::Simple],
    }
}

/// The skills a new character of a class starts proficient in.
pub open spec fn spec_class_skills(class: Class) -> Seq<Skill> {
    match class {
        Class::Barbarian => seq![Skill::Athletics, Skill::Survival],
        Class::Bard => seq![Skill::Acrobatics, Skill::Performance, Skill::History],
        Class::Cleric => seq![Skill::Medicine, Skill::Religion],
        Class::Druid => seq![Skill::AnimalHandling, Skill::Nature],
        Class::Fighter => seq![Skill::Athletics, Skill::Intimidation],
        Class::Monk => seq![Skill::Religion, Skill::History],
        Class::Paladin => seq![Skill::Intimidation, Skill::Religion],
        Class::Ranger => seq![Skill::Survival, Skill::Perception],
        Class::Rogue => seq![Skill::Stealth, Skill::Deception],
        Class::Sorcerer => seq![Skill::Persuasion, Skill::Intimidation],
        Class::Warlock => seq![Skill::Nature, Skill::Arcana],
        Class::Wizard => seq![Skill::Arcana, Skill::Religion],
    }
}

/// The number of sides of a class's hit die; also the class's base hit
/// points at level 1.
pub open spec fn spec_hit_die_sides(class: Class) -> u8 {
    match class {
        Class::Barbarian => 12u8,
        Class::Bard | Class::Cleric | Class::Druid | Class::Monk | Class::Rogue
        | Class::Warlock => 8u8,
        Class::Fighter | Class::Paladin | Class::Ranger => 10u8,
        Class::Sorcerer | Class::Wizard => 6u8,
    }
}

impl Class {
    /// The armor classes this class is proficient with.
    pub fn get_class_armor_proficiency(&self) -> (r: Vec<ArmorType>)
        ensures
            r@ == spec_armor_proficiency(*self),
    {
        match self {
            Class::Barbarian => list2(ArmorType::Light, ArmorType::Medium),
            Class::Bard => list1(ArmorType::Light),
            Class::Cleric => list2(ArmorType::Light, ArmorType::Medium),
            Class::Druid => list2(ArmorType::Light, ArmorType::Medium),
            Class::Fighter => list3(ArmorType::Light, ArmorType::Medium, ArmorType::Heavy),
            Class::Monk => Vec::new(),
            Class::Paladin => list3(ArmorType::Light, ArmorType::Medium, ArmorType::Heavy),
            Class::Ranger => list2(ArmorType::Light, ArmorType::Medium),
            Class::Rogue => list1(ArmorType::Light),
            Class::Sorcerer => Vec::new(),
            Class::Warlock => list1(ArmorType::Light),
            Class::Wizard => Vec::new(),
        }
    }

    /// The weapon classes this class is proficient with.
    pub fn get_weapon_proficieny(&self) -> (r: Vec<WeaponType>)
        ensures
            r@ == spec_weapon_proficiency(*self),
    {
        match self {
            Class::Barbarian => list2(WeaponType::Simple, WeaponType::Martial),
            Class::Bard => list1(WeaponType::Simple),
            Class::Cleric => list1(WeaponType::Simple),
            Class::Druid => list1(WeaponType::Simple),
            Class::Fighter => list2(WeaponType::Simple, WeaponType::Martial),
            Class::Monk => list1(WeaponType::Simple),
            Class::Paladin => list2(WeaponType::Simple, WeaponType::Martial),
            Class::Ranger => list2(WeaponType::Simple, WeaponType::Martial),
            Class::Rogue => list1(WeaponType::Simple),
            Class::Sorcerer => list1(WeaponType::Simple),
            Class::Warlock => list1(WeaponType::Simple),
            Class::Wizard => list1(WeaponType::Simple),
        }
    }

    /// The skills a new character of this class starts proficient in.
    pub fn get_class_skills(&self) -> (r: Vec<Skill>)
        ensures
            r@ == spec_class_skills(*self),
    {
        match self {
            Class::Barbarian => list2(Skill::Athletics, Skill::Survival),
            Class::Bard => list3(Skill::Acrobatics, Skill::Performance, Skill::History),
            Class::Cleric => list2(Skill::Medicine, Skill::Religion),
            Class::Druid => list2(Skill::AnimalHandling, Skill::Nature),
            Class::Fighter => list2(Skill::Athletics, Skill::Intimidation),
            Class::Monk => list2(Skill::Religion, Skill::History),
            Class::Paladin => list2(Skill::Intimidation, Skill::Religion),
            Class::Ranger => list2(Skill::Survival, Skill::Perception),
            Class::Rogue => list2(Skill::Stealth, Skill::Deception),
            Class::Sorcerer => list2(Skill::Persuasion, Skill::Intimidation),
            Class::Warlock => list2(Skill::Nature, Skill::Arcana),
            Class::Wizard => list2(Skill::Arcana, Skill::Religion),
        }
    }

    /// The hit die of this class: one die whose number of sides is the
    /// class's base hit points.
    pub fn get_class_hit_dice(&self) -> (r: Dice)
        ensures
            r.dice_count == 1,
            r.dice_sides == spec_hit_die_sides(*self),
            r.modifier == 0,
    {
        Dice::new(1, self.hit_die_sides(), 0)
    }

    /// The number of sides of this class's hit die; also the class's base
    /// hit points at level 1.
    pub fn hit_die_sides(&self) -> (r: u8)
        ensures
            r == spec_hit_die_sides(*self),
    {
        match self {
            Class::Barbarian => 12,
            Class::Bard | Class::Cleric | Class::Druid | Class::Monk | Class::Rogue
            | Class::Warlock => 8,
            Class::Fighter | Class::Paladin | Class::Ranger => 10,
            Class::Sorcerer | Class::Wizard => 6,
        }
    }

    /// The class's name, as it is spelt in a saved character's filename.
    pub fn class_name(&self) -> (r: &'static str)
        ensures
            r@ == spec_class_name(*self),
    {
        match self {
            Class::Barbarian => "Barbarian",
            Class::Bard => "Bard",
            Class::Cleric => "Cleric",
            Class::Druid => "Druid",
            Class::Fighter => "Fighter",
            Class::Monk => "Monk",
            Class::Paladin => "Paladin",
            Class::Ranger => "Ranger",
            Class::Rogue => "Rogue",
            Class::Sorcerer => "Sorcerer",
            Class::Warlock => "Warlock",
            Class::Wizard => "Wizard",
        }
    }
}

/// The class's name, as it is spelt in a saved character's filename.
pub open spec fn spec_class_name(class: Class) -> Seq<char> {
    match class {
        Class::Barbarian => "Barbarian"@,
        Class::Bard => "Bard"@,
        Class::Cleric => "Cleric"@,
        Class::Druid => "Druid"@,
        Class::Fighter => "Fighter"@,
        Class::Monk => "Monk"@,
        Class::Paladin => "Paladin"@,
        Class::Ranger => "Ranger"@,
        Class::Rogue => "Rogue"@,
        Class::Sorcerer => "Sorcerer"@,
        Class::Warlock => "Warlock"@,
        Class::Wizard => "Wizard"@,
    }
}

} // verus!
