//! The playable races and their fixed ability-score bonuses.

use crate::ability::{spec_bump, Abilities, AbilityScoresV};
use vstd::prelude::*;

verus! {

/// The playable races.
#[derive(Clone, Copy, Debug, PartialEq, Eq, Structural)]
pub enum Race {
    Human,
    Elf,
    HalfOrc,
    HalfElf,
    Halfling,
    Gnome,
    Dwarf,
    Dragonborn,
    Tiefling,
}

/// One racial bonus applied to a score vector: the ability's score changed by
/// the delta, clamped rather than wrapped.
pub open spec fn bonus(v: AbilityScoresV, ability: Abilities, delta: i8) -> AbilityScoresV {
    v.with_score(ability, spec_bump(v.get(ability), delta))
}

/// A score vector after a race's additive bonuses, applied one at a time in
/// the race's declaration order.
pub open spec fn spec_apply_racial(v: AbilityScoresV, race: Race) -> AbilityScoresV {
    match race {
        Race::Dragonborn => bonus(bonus(v, Abilities::Strength, 2), Abilities::Charisma, 1),
        Race::Dwarf => bonus(v, Abilities::Constitution, 2),
        Race::Elf => bonus(v, Abilities::Dexterity, 2),
        Race::Gnome => bonus(v, Abilities::Intelligence, 2),
        Race::HalfElf => bonus(
            bonus(bonus(v, Abilities::Charisma, 2), Abilities::Dexterity, 1),
            Abilities::Intelligence,
            2,
        ),
        Race::HalfOrc => bonus(bonus(v, Abilities::Strength, 2), Abilities::Constitution, 1),
        Race::Halfling => bonus(v, Abilities::Dexterity, 2),
        Race::Human => bonus(
            bonus(
                bonus(
                    bonus(
                        bonus(bonus(v, Abilities::Strength, 1), Abilities::Dexterity, 1),
                        Abilities::Constitution,
                        1,
                    ),
                    Abilities::Intelligence,
                    1,
                ),
                Abilities::Wisdom,
                1,
            ),
            Abilities::Charisma,
            1,
        ),
        Race::Tiefling => v,
    }
}

/// The race's name, as it is spelt in a saved character's filename.
pub open spec fn spec_race_name(race: Race) -> Seq<char> {
    match race {
        Race::Human => "Human"@,
        Race::Elf => "Elf"@,
        Race::HalfOrc => "HalfOrc"@,
        Race::HalfElf => "HalfElf"@,
        Race::Halfling => "Halfling"@,
        Race::Gnome => "Gnome"@,
        Race::Dwarf => "Dwarf"@,
        Race::Dragonborn => "Dragonborn"@,
        Race::Tiefling => "Tiefling"@,
    }
}

/// The race's name, as it is spelt in a saved character's filename.
pub fn race_name(race: Race) -> (r: &'static str)
    ensures
        r@ == spec_race_name(race),
{
    match race {
        Race::Human => "Human",
        Race::Elf => "Elf",
        Race::HalfOrc => "HalfOrc",
        Race::HalfElf => "HalfElf",
        Race::Halfling => "Halfling",
        Race::Gnome => "Gnome",
        Race::Dwarf => "Dwarf",
        Race::Dragonborn => "Dragonborn",
        Race::Tiefling => "Tiefling",
    }
}

} // verus!
