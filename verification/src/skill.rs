//! The skills a character can be proficient in, each governed by one ability.

use crate::ability::{spec_modifier, Abilities};
use crate::character::Character;
use vstd::prelude::*;

verus! {

/// The skills a character can be proficient in.
#[derive(Clone, Copy, Debug, PartialEq, Eq, Hash, Structural)]
pub enum Skill {
    Athletics,
    Acrobatics,
    SleightOfHand,
    Stealth,
    Arcana,
    History,
    Investigation,
    Nature,
    Religion,
    AnimalHandling,
    Insight,
    Medicine,
    Perception,
    Survival,
    Deception,
    Intimidation,
    Performance,
    Persuasion,
}

/// The ability that governs a skill.
pub open spec fn spec_governing_ability(skill: Skill) -> Abilities {
    match skill {
        Skill::Athletics => Abilities::Strength,
        Skill::Acrobatics | Skill::SleightOfHand | Skill::Stealth => Abilities::Dexterity,
        Skill::Arcana | Skill::History | Skill::Investigation | Skill::Nature
        | Skill::Religion => Abilities::Intelligence,
        Skill::AnimalHandling | Skill::Insight | Skill::Medicine | Skill::Perception
        | Skill::Survival => Abilities::Wisdom,
        Skill::Deception | Skill::Intimidation | Skill::Performance
        | Skill::Persuasion => Abilities::Charisma,
    }
}

/// The abbreviation of an ability, as shown on a character sheet.
pub open spec fn spec_ability_abbr(ability: Abilities) -> Seq<char> {
    match ability {
        Abilities::Strength => "STR"@,
        Abilities::Dexterity => "DEX"@,
        Abilities::Constitution => "CON"@,
        Abilities::Intelligence => "INT"@,
        Abilities::Wisdom => "WIS"@,
        Abilities::Charisma => "CHA"@,
    }
}

impl Skill {
    /// The ability that governs a skill.
    pub fn governing_ability(&self) -> (r: Abilities)
        ensures
            r == spec_governing_ability(*self),
    {
        match self {
            Skill::Athletics => Abilities::Strength,
            Skill::Acrobatics | Skill::SleightOfHand | Skill::Stealth => Abilities::Dexterity,
            Skill::Arcana | Skill::History | Skill::Investigation | Skill::Nature
            | Skill::Religion => Abilities::Intelligence,
            Skill::AnimalHandling | Skill::Insight | Skill::Medicine | Skill::Perception
            | Skill::Survival => Abilities::Wisdom,
            Skill::Deception | Skill::Intimidation | Skill::Performance
            | Skill::Persuasion => Abilities::Charisma,
        }
    }

    /// The abbreviation of the skill's governing ability.
    pub fn ability_type(&self) -> (r: &'static str)
        ensures
            r@ == spec_ability_abbr(spec_governing_ability(*self)),
    {
        match self.governing_ability() {
            Abilities::Strength => "STR",
            Abilities::Dexterity => "DEX",
            Abilities::Constitution => "CON",
            Abilities::Intelligence => "INT",
            Abilities::Wisdom => "WIS",
            Abilities::Charisma => "CHA",
        }
    }

    /// The modifier of the skill's governing ability for a given character.
    pub fn get_ability_modifier(&self, character: &Character) -> (r: i8)
        ensures
            r == spec_modifier(character.stats@.get(spec_governing_ability(*self))),
    {
        let ability = self.governing_ability();
        character.stats.get_ability_modifier(ability)
    }
}

} // verus!
