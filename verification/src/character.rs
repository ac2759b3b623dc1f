//! The character aggregate: identity, rolled scores, derived combat and
//! progression statistics, proficient skills, equipment and money.

use crate::ability::{spec_modifier, Abilities, AbilityScores, AbilityScoresV};
use crate::class::{spec_class_skills, spec_hit_die_sides, Class};
use crate::dice::floor_one;
use crate::equipment::{
    spec_find_armor, spec_find_weapon, Armor, ArmorV, EquipmentCatalog, EquipmentCatalogV, Weapon,
    WeaponV,
};
use crate::experience::{spec_current_level, spec_needed_xp, xp_threshold};
use crate::money::{Money, MoneyType};
use crate::race::{spec_apply_racial, Race};
use crate::skill::{spec_governing_ability, Skill};
use vstd::prelude::*;

verus! {

/// How heavily loaded a character is, relative to Strength. A weight at
/// exactly five, ten or fifteen times Strength falls through every strict
/// inequality and is classified Normal; that boundary behavior is kept as
/// the rules state it.
#[derive(Clone, Copy, Debug, PartialEq, Eq, Structural)]
pub enum Encumberance {
    Normal,
    Encumbered,
    HeavilyEncumbered,
    OverCapacity,
}

/// The mathematical value of a character.
#[verifier::ext_equal]
pub ghost struct CharacterV {
    pub name: Seq<char>,
    pub race: Race,
    pub class: Class,
    pub level: u8,
    pub current_xp: u32,
    pub stats: AbilityScoresV,
    pub max_hp: u16,
    pub current_hp: u16,
    pub skills: Seq<Skill>,
    pub armor: Seq<ArmorV>,
    pub weapons: Seq<WeaponV>,
    pub current_load: u32,
    pub current_money: Seq<Money>,
}

/// A character: built once from a name, a race, a class, rolled scores and
/// an equipment catalog, and mutated only by explicit operations afterwards.
///
/// `current_load` is in hundredths of a pound, like equipment weights.
#[derive(Clone, Debug, PartialEq)]
pub struct Character {
    pub name: String,
    pub race: Race,
    pub class: Class,
    pub level: u8,
    pub current_xp: u32,
    pub stats: AbilityScores,
    pub max_hp: u16,
    pub current_hp: u16,
    pub skills: Vec<Skill>,
    pub armor: Vec<Armor>,
    pub weapons: Vec<Weapon>,
    pub current_load: u32,
    pub current_money: Vec<Money>,
}

impl View for Character {
    type V = CharacterV;

    open spec fn view(&self) -> CharacterV {
        CharacterV {
            name: self.name@,
            race: self.race,
            class: self.class,
            level: self.level,
            current_xp: self.current_xp,
            stats: self.stats@,
            max_hp: self.max_hp,
            current_hp: self.current_hp,
            skills: self.skills@,
            armor: self.armor@.map_values(|a: Armor| a@),
            weapons: self.weapons@.map_values(|w: Weapon| w@),
            current_load: self.current_load,
            current_money: self.current_money@,
        }
    }
}

/// A character's maximum hit points: the class's base hit points plus the
/// Constitution modifier, and never less than 1.
pub open spec fn spec_max_hp(class: Class, stats: AbilityScoresV) -> int {
    floor_one(spec_hit_die_sides(class) + spec_modifier(stats.get(Abilities::Constitution)))
}

/// A character's armor class: 10 plus the Dexterity modifier, and never less
/// than 1.
pub open spec fn spec_armor_class(stats: AbilityScoresV) -> int {
    floor_one(10 + spec_modifier(stats.get(Abilities::Dexterity)))
}

/// Maximum hit points never fall below 1, whatever the class and however low
/// the Constitution score: the floor applies after the class base and the
/// (possibly negative) modifier are summed.
pub proof fn lemma_max_hp_at_least_one(class: Class, stats: AbilityScoresV)
    ensures
        spec_max_hp(class, stats) >= 1,
{
}

/// The armor class never falls below 1 for any Dexterity score; in fact it
/// never falls below 5, since the lowest representable score gives a
/// modifier of -5, so the floor at 1 binds only theoretically.
pub proof fn lemma_armor_class_at_least_one(stats: AbilityScoresV)
    ensures
        spec_armor_class(stats) >= 5,
        spec_armor_class(stats) >= 1,
{
}

/// A skill's bonus: the modifier of its governing ability, plus the
/// proficiency bonus of 2 when the skill is among the proficient ones. A
/// pure function of the score vector and the proficient-skill list.
pub open spec fn spec_skill_bonus(stats: AbilityScoresV, skills: Seq<Skill>, skill: Skill) -> int {
    spec_modifier(stats.get(spec_governing_ability(skill))) + if skills.contains(skill) {
        2int
    } else {
        0int
    }
}

/// The sum of the weights of a list of armor entries.
pub open spec fn spec_armor_weight(entries: Seq<ArmorV>) -> int
    decreases entries.len(),
{
    if entries.len() == 0 {
        0
    } else {
        entries[0].weight + spec_armor_weight(entries.drop_first())
    }
}

/// The sum of the weights of a list of weapon entries.
pub open spec fn spec_weapon_weight(entries: Seq<WeaponV>) -> int
    decreases entries.len(),
{
    if entries.len() == 0 {
        0
    } else {
        entries[0].weight + spec_weapon_weight(entries.drop_first())
    }
}

/// The sum of the prices of a list of armor entries.
pub open spec fn spec_armor_price(entries: Seq<ArmorV>) -> int
    decreases entries.len(),
{
    if entries.len() == 0 {
        0
    } else {
        entries[0].price + spec_armor_price(entries.drop_first())
    }
}

/// The sum of the prices of a list of weapon entries.
pub open spec fn spec_weapon_price(entries: Seq<WeaponV>) -> int
    decreases entries.len(),
{
    if entries.len() == 0 {
        0
    } else {
        entries[0].price + spec_weapon_price(entries.drop_first())
    }
}

/// The weight a character carries: every equipped armor and weapon entry
/// summed.
pub open spec fn spec_total_weight(c: CharacterV) -> int {
    spec_armor_weight(c.armor) + spec_weapon_weight(c.weapons)
}

/// What a character's equipped look cost: every armor and weapon price
/// summed.
pub open spec fn spec_total_price(c: CharacterV) -> int {
    spec_armor_price(c.armor) + spec_weapon_price(c.weapons)
}

/// A value clamped from above at the largest `u64`.
pub open spec fn sat_u64(v: int) -> int {
    if v > u64::MAX {
        u64::MAX as int
    } else {
        v
    }
}

/// The encumbrance tier of a carried weight (in hundredths of a pound)
/// against a Strength score, under strict inequalities on every boundary.
pub open spec fn spec_encumberance(weight: int, strength: u8) -> Encumberance {
    if weight > 500 * strength && weight < 1000 * strength {
        Encumberance::Encumbered
    } else if weight > 1000 * strength && weight < 1500 * strength {
        Encumberance::HeavilyEncumbered
    } else if weight > 1500 * strength {
        Encumberance::OverCapacity
    } else {
        Encumberance::Normal
    }
}

/// The default armor a new character of a class is equipped with: a
/// Barbarian gets the catalog's "Studded Leather" when the catalog has it;
/// every other class, and a missed lookup, yields none.
pub open spec fn spec_default_armor(class: Class, cat: EquipmentCatalogV) -> Seq<ArmorV> {
    match class {
        Class::Barbarian => match spec_find_armor(cat.armors, "Studded Leather"@) {
            Some(a) => seq![a],
            None => Seq::empty(),
        },
        _ => Seq::empty(),
    }
}

/// The default weapons of a new character of a class: a Barbarian gets the
/// catalog's "Great Club" when the catalog has it; every other class, and a
/// missed lookup, yields none.
pub open spec fn spec_default_weapons(class: Class, cat: EquipmentCatalogV) -> Seq<WeaponV> {
    match class {
        Class::Barbarian => match spec_find_weapon(cat.weapons, "Great Club"@) {
            Some(w) => seq![w],
            None => Seq::empty(),
        },
        _ => Seq::empty(),
    }
}

/// The coins a new character starts with: 10 copper, 5 silver, no gold.
pub open spec fn spec_starter_money() -> Seq<Money> {
    seq![
        Money { coin_type: MoneyType::Copper, amount: 10u32 },
        Money { coin_type: MoneyType::Silver, amount: 5u32 },
        Money { coin_type: MoneyType::Gold, amount: 0u32 },
    ]
}

/// A new character built from rolled raw scores: racial bonuses applied to
/// the raw scores, hit points from the class base and the Constitution
/// modifier, current hit points full, and the class's skills, default
/// equipment and starter money assigned.
pub open spec fn spec_new_character(
    name: Seq<char>,
    race: Race,
    class: Class,
    base: AbilityScoresV,
    cat: EquipmentCatalogV,
) -> CharacterV {
    let stats = spec_apply_racial(base, race);
    let hp = spec_max_hp(class, stats) as u16;
    CharacterV {
        name,
        race,
        class,
        level: 1u8,
        current_xp: 0u32,
        stats,
        max_hp: hp,
        current_hp: hp,
        skills: spec_class_skills(class),
        armor: spec_default_armor(class, cat),
        weapons: spec_default_weapons(class, cat),
        current_load: 0u32,
        current_money: spec_starter_money(),
    }
}

/// A raw score vector as the dice engine rolls it: every ability in
/// `[3, 18]`.
pub open spec fn is_rolled_scores(v: AbilityScoresV) -> bool {
    &&& 3 <= v.strength <= 18
    &&& 3 <= v.dexterity <= 18
    &&& 3 <= v.constitution <= 18
    &&& 3 <= v.intelligence <= 18
    &&& 3 <= v.wisdom <= 18
    &&& 3 <= v.charisma <= 18
}

/// Whether a list of skills holds a given skill.
fn contains_skill(skills: &Vec<Skill>, skill: Skill) -> (r: bool)
    ensures
        r == skills@.contains(skill),
{
    let mut i: usize = 0;
    while i < skills.len()
        invariant
            i <= skills.len(),
            forall|j: int| 0 <= j < i ==> skills@[j] != skill,
        decreases skills.len() - i,
    {
        if skills[i] == skill {
            return true;
        }
        i = i + 1;
    }
    false
}

impl Character {
    /// Apply the character's racial ability-score bonuses, one at a time in
    /// the race's declaration order. Every other field is unchanged.
    pub fn apply_racial_bonuses(&mut self)
        ensures
            final(self)@ == (CharacterV {
                stats: spec_apply_racial(old(self).stats@, old(self).race),
                ..old(self)@
            }),
    {
        match self.race {
            Race::Dragonborn => {
                self.stats.change_ability_value(Abilities::Strength, 2);
                self.stats.change_ability_value(Abilities::Charisma, 1);
            },
            Race::Dwarf => {
                self.stats.change_ability_value(Abilities::Constitution, 2);
            },
            Race::Elf => {
                self.stats.change_ability_value(Abilities::Dexterity, 2);
            },
            Race::Gnome => {
                self.stats.change_ability_value(Abilities::Intelligence, 2);
            },
            Race::HalfElf => {
                self.stats.change_ability_value(Abilities::Charisma, 2);
                self.stats.change_ability_value(Abilities::Dexterity, 1);
                self.stats.change_ability_value(Abilities::Intelligence, 2);
            },
            Race::HalfOrc => {
                self.stats.change_ability_value(Abilities::Strength, 2);
                self.stats.change_ability_value(Abilities::Constitution, 1);
            },
            Race::Halfling => {
                self.stats.change_ability_value(Abilities::Dexterity, 2);
            },
            Race::Human => {
                self.stats.change_ability_value(Abilities::Strength, 1);
                self.stats.change_ability_value(Abilities::Dexterity, 1);
                self.stats.change_ability_value(Abilities::Constitution, 1);
                self.stats.change_ability_value(Abilities::Intelligence, 1);
                self.stats.change_ability_value(Abilities::Wisdom, 1);
                self.stats.change_ability_value(Abilities::Charisma, 1);
            },
            Race::Tiefling => {},
        }
        proof {
            assert(final(self)@ =~= (CharacterV {
                stats: spec_apply_racial(old(self).stats@, old(self).race),
                ..old(self)@
            }));
        }
    }

    /// Recompute the character's maximum hit points from the class base and
    /// the Constitution modifier; the result is never below 1. Every other
    /// field is unchanged.
    pub fn calculate_max_hp(&mut self)
        ensures
            final(self)@ == (CharacterV {
                max_hp: spec_max_hp(old(self).class, old(self).stats@) as u16,
                ..old(self)@
            }),
            final(self).max_hp >= 1,
    {
        let base_hp = self.class.hit_die_sides();
        let modifier = self.stats.get_ability_modifier(Abilities::Constitution);
        let hp: i16 = base_hp as i16 + modifier as i16;
        self.max_hp = if hp < 1 {
            1
        } else {
            hp as u16
        };
        proof {
            assert(final(self)@ =~= (CharacterV {
                max_hp: spec_max_hp(old(self).class, old(self).stats@) as u16,
                ..old(self)@
            }));
        }
    }

    /// The character's carrying capacity in pounds: fifteen times Strength.
    pub fn calculate_carying_capacity(&self) -> (r: u16)
        ensures
            r == 15 * self.stats@.get(Abilities::Strength),
    {
        self.stats.get(Abilities::Strength) as u16 * 15
    }

    /// The character's armor class: 10 plus the Dexterity modifier, and
    /// never less than 1.
    pub fn calculate_armor_class(&self) -> (r: i16)
        ensures
            r == spec_armor_class(self.stats@),
            r >= 1,
    {
        let base_ac: i16 = 10;
        let modifier = self.stats.get_ability_modifier(Abilities::Dexterity) as i16;
        let ac = base_ac + modifier;
        if ac < 1 {
            1
        } else {
            ac
        }
    }

    /// The character's initiative: the Dexterity modifier, signed.
    pub fn calculate_initiative(&self) -> (r: i8)
        ensures
            r == spec_modifier(self.stats@.get(Abilities::Dexterity)),
    {
        self.stats.get_ability_modifier(Abilities::Dexterity)
    }

    /// The character's proficiency bonus: a constant 2 at level 1, the only
    /// level characters are created at.
    pub fn proficiency_bonus(&self) -> (r: i8)
        ensures
            r == 2,
    {
        2
    }

    /// The bonus of one skill: the modifier of its governing ability, plus
    /// the proficiency bonus when the character is proficient in the skill.
    /// A pure function of the character's current state: two calls with the
    /// state unmodified return the same value.
    pub fn skill_bonus(&self, skill: Skill) -> (r: i8)
        ensures
            r == spec_skill_bonus(self.stats@, self.skills@, skill),
    {
        let ability_mod = skill.get_ability_modifier(self);
        if contains_skill(&self.skills, skill) {
            ability_mod + self.proficiency_bonus()
        } else {
            ability_mod
        }
    }

    /// The cumulative experience at which the character's next level starts,
    /// or the top threshold once past the table's last entry.
    pub fn show_needed_xp(&self) -> (r: u32)
        ensures
            r == spec_needed_xp(self.current_xp),
    {
        let level = self.calculate_current_level();
        if level >= 20 {
            355000
        } else {
            xp_threshold(level + 1)
        }
    }

    /// The character's level for its current experience: the last level
    /// whose threshold is reached, clamped at 20.
    pub fn calculate_current_level(&self) -> (r: u8)
        ensures
            r == spec_current_level(self.current_xp),
            1 <= r <= 20,
    {
        let mut level: u8 = 1;
        while level < 20
            invariant
                1 <= level <= 20,
                spec_current_level(self.current_xp) == crate::experience::level_from(
                    self.current_xp,
                    level as int,
                ),
            decreases 20 - level,
        {
            if self.current_xp < xp_threshold(level + 1) {
                return level;
            }
            level = level + 1;
        }
        level
    }

    /// The experience still missing until the next level; 0 once past the
    /// table's last entry.
    pub fn xp_needed_for_level_up(&self) -> (r: u32)
        ensures
            r == if spec_needed_xp(self.current_xp) >= self.current_xp {
                spec_needed_xp(self.current_xp) - self.current_xp
            } else {
                0
            },
    {
        let needed = self.show_needed_xp();
        if needed >= self.current_xp {
            needed - self.current_xp
        } else {
            0
        }
    }

    /// The weight the character carries: every equipped armor and weapon
    /// entry summed, clamped at the largest `u64`.
    pub fn calculate_weight(&self) -> (r: u64)
        ensures
            r == sat_u64(spec_total_weight(self@)),
    {
        let ghost aseq = self@.armor;
        let ghost wseq = self@.weapons;
        let mut total: u64 = 0;
        let ghost mut gsum: int = 0;
        proof {
            assert(aseq.skip(0) =~= aseq);
            assert(wseq.skip(0) =~= wseq);
        }
        let mut i: usize = 0;
        while i < self.armor.len()
            invariant
                i <= self.armor.len(),
                aseq == self@.armor,
                aseq.len() == self.armor.len(),
                forall|j: int| 0 <= j < aseq.len() ==> aseq[j] == #[trigger] self.armor@[j]@,
                gsum + spec_armor_weight(aseq.skip(i as int)) == spec_armor_weight(aseq),
                total == sat_u64(gsum),
                gsum >= 0,
            decreases self.armor.len() - i,
        {
            proof {
                assert(aseq.skip(i as int).drop_first() =~= aseq.skip(i as int + 1));
                assert(aseq.skip(i as int)[0] == aseq[i as int]);
            }
            total = total.saturating_add(self.armor[i].weight as u64);
            proof {
                gsum = gsum + aseq[i as int].weight;
            }
            i = i + 1;
        }
        proof {
            assert(aseq.skip(aseq.len() as int) =~= Seq::<ArmorV>::empty());
        }
        let mut k: usize = 0;
        while k < self.weapons.len()
            invariant
                k <= self.weapons.len(),
                wseq == self@.weapons,
                wseq.len() == self.weapons.len(),
                forall|j: int| 0 <= j < wseq.len() ==> wseq[j] == #[trigger] self.weapons@[j]@,
                gsum + spec_weapon_weight(wseq.skip(k as int)) == spec_armor_weight(self@.armor)
                    + spec_weapon_weight(wseq),
                total == sat_u64(gsum),
                gsum >= 0,
            decreases self.weapons.len() - k,
        {
            proof {
                assert(wseq.skip(k as int).drop_first() =~= wseq.skip(k as int + 1));
                assert(wseq.skip(k as int)[0] == wseq[k as int]);
            }
            total = total.saturating_add(self.weapons[k].weight as u64);
            proof {
                gsum = gsum + wseq[k as int].weight;
            }
            k = k + 1;
        }
        proof {
            assert(wseq.skip(wseq.len() as int) =~= Seq::<WeaponV>::empty());
        }
        total
    }

    /// What the character's equipped look cost: every armor and weapon price
    /// summed, clamped at the largest `u64`.
    pub fn calculate_look_cost(&self) -> (r: u64)
        ensures
            r == sat_u64(spec_total_price(self@)),
    {
        let ghost aseq = self@.armor;
        let ghost wseq = self@.weapons;
        let mut total: u64 = 0;
        let ghost mut gsum: int = 0;
        proof {
            assert(aseq.skip(0) =~= aseq);
            assert(wseq.skip(0) =~= wseq);
        }
        let mut i: usize = 0;
        while i < self.armor.len()
            invariant
                i <= self.armor.len(),
                aseq == self@.armor,
                aseq.len() == self.armor.len(),
                forall|j: int| 0 <= j < aseq.len() ==> aseq[j] == #[trigger] self.armor@[j]@,
                gsum + spec_armor_price(aseq.skip(i as int)) == spec_armor_price(aseq),
                total == sat_u64(gsum),
                gsum >= 0,
            decreases self.armor.len() - i,
        {
            proof {
                assert(aseq.skip(i as int).drop_first() =~= aseq.skip(i as int + 1));
                assert(aseq.skip(i as int)[0] == aseq[i as int]);
            }
            total = total.saturating_add(self.armor[i].price as u64);
            proof {
                gsum = gsum + aseq[i as int].price;
            }
            i = i + 1;
        }
        proof {
            assert(aseq.skip(aseq.len() as int) =~= Seq::<ArmorV>::empty());
        }
        let mut k: usize = 0;
        while k < self.weapons.len()
            invariant
                k <= self.weapons.len(),
                wseq == self@.weapons,
                wseq.len() == self.weapons.len(),
                forall|j: int| 0 <= j < wseq.len() ==> wseq[j] == #[trigger] self.weapons@[j]@,
                gsum + spec_weapon_price(wseq.skip(k as int)) == spec_armor_price(self@.armor)
                    + spec_weapon_price(wseq),
                total == sat_u64(gsum),
                gsum >= 0,
            decreases self.weapons.len() - k,
        {
            proof {
                assert(wseq.skip(k as int).drop_first() =~= wseq.skip(k as int + 1));
                assert(wseq.skip(k as int)[0] == wseq[k as int]);
            }
            total = total.saturating_add(self.weapons[k].price as u64);
            proof {
                gsum = gsum + wseq[k as int].price;
            }
            k = k + 1;
        }
        proof {
            assert(wseq.skip(wseq.len() as int) =~= Seq::<WeaponV>::empty());
        }
        total
    }

    /// The character's encumbrance tier and the carried weight it was
    /// computed from.
    pub fn calculate_encumberance(&self) -> (r: (Encumberance, u64))
        ensures
            r.1 == sat_u64(spec_total_weight(self@)),
            r.0 == spec_encumberance(r.1 as int, self.stats@.get(Abilities::Strength)),
    {
        let current_load = self.calculate_weight();
        let strength = self.stats.get(Abilities::Strength) as u64;
        let tier = if current_load > 500 * strength && current_load < 1000 * strength {
            Encumberance::Encumbered
        } else if current_load > 1000 * strength && current_load < 1500 * strength {
            Encumberance::HeavilyEncumbered
        } else if current_load > 1500 * strength {
            Encumberance::OverCapacity
        } else {
            Encumberance::Normal
        };
        (tier, current_load)
    }

    /// Equip the class's default armor, looked up in the catalog by name; a
    /// missed lookup leaves the character without armor. Every other field
    /// is unchanged.
    fn set_class_default_armor(&mut self, catalog: &EquipmentCatalog)
        ensures
            final(self)@ == (CharacterV {
                armor: spec_default_armor(old(self).class, catalog@),
                ..old(self)@
            }),
    {
        let armor: Vec<Armor> = match self.class {
            Class::Barbarian => {
                if let Some(armor) = catalog.get_armor("Studded Leather") {
                    let mut v: Vec<Armor> = Vec::new();
                    v.push(armor);
                    v
                } else {
                    Vec::new()
                }
            },
            _ => Vec::new(),
        };
        self.armor = armor;
        proof {
            assert(final(self)@.armor =~= spec_default_armor(old(self).class, catalog@));
            assert(final(self)@ =~= (CharacterV {
                armor: spec_default_armor(old(self).class, catalog@),
                ..old(self)@
            }));
        }
    }

    /// Equip the class's default weapons, looked up in the catalog by name;
    /// a missed lookup leaves the character without weapons. Every other
    /// field is unchanged.
    fn set_class_default_weapon(&mut self, catalog: &EquipmentCatalog)
        ensures
            final(self)@ == (CharacterV {
                weapons: spec_default_weapons(old(self).class, catalog@),
                ..old(self)@
            }),
    {
        let weapons: Vec<Weapon> = match self.class {
            Class::Barbarian => {
                if let Some(weapon) = catalog.get_weapon("Great Club") {
                    let mut v: Vec<Weapon> = Vec::new();
                    v.push(weapon);
                    v
                } else {
                    Vec::new()
                }
            },
            _ => Vec::new(),
        };
        self.weapons = weapons;
        proof {
            assert(final(self)@.weapons =~= spec_default_weapons(old(self).class, catalog@));
            assert(final(self)@ =~= (CharacterV {
                weapons: spec_default_weapons(old(self).class, catalog@),
                ..old(self)@
            }));
        }
    }

    /// Hand the character its starter coins: 10 copper, 5 silver, no gold.
    /// Every other field is unchanged.
    fn set_starter_money(&mut self)
        ensures
            final(self)@ == (CharacterV { current_money: spec_starter_money(), ..old(self)@ }),
    {
        let mut money: Vec<Money> = Vec::new();
        money.push(Money { coin_type: MoneyType::Copper, amount: 10 });
        money.push(Money { coin_type: MoneyType::Silver, amount: 5 });
        money.push(Money { coin_type: MoneyType::Gold, amount: 0 });
        self.current_money = money;
        proof {
            assert(final(self)@.current_money =~= spec_starter_money());
            assert(final(self)@ =~= (CharacterV {
                current_money: spec_starter_money(),
                ..old(self)@
            }));
        }
    }

    /// A new character built from given raw scores: racial bonuses applied,
    /// hit points computed, current hit points full, and the class's skills,
    /// default equipment and starter money assigned.
    pub fn new_with_scores(
        name: String,
        race: Race,
        class: Class,
        stats: AbilityScores,
        catalog: &EquipmentCatalog,
    ) -> (r: Character)
        ensures
            r@ == spec_new_character(name@, race, class, stats@, catalog@),
    {
        let mut character = Character {
            name,
            race,
            class,
            level: 1,
            current_xp: 0,
            stats,
            max_hp: 0,
            current_hp: 0,
            skills: Vec::new(),
            armor: Vec::new(),
            weapons: Vec::new(),
            current_load: 0,
            current_money: Vec::new(),
        };
        character.apply_racial_bonuses();
        character.calculate_max_hp();
        character.current_hp = character.max_hp;
        character.skills = character.class.get_class_skills();
        character.set_class_default_armor(catalog);
        character.set_class_default_weapon(catalog);
        character.set_starter_money();
        proof {
            assert(character@ =~= spec_new_character(name@, race, class, stats@, catalog@));
        }
        character
    }

    /// A new character with freshly rolled ability scores: some raw score
    /// vector with every ability in `[3, 18]`, run through the same
    /// construction as `new_with_scores`.
    pub fn new(name: String, race: Race, class: Class, catalog: &EquipmentCatalog) -> (r:
        Character)
        ensures
            exists|base: AbilityScoresV|
                #[trigger] is_rolled_scores(base) && r@ == spec_new_character(
                    name@,
                    race,
                    class,
                    base,
                    catalog@,
                ),
    {
        let stats = AbilityScores::new();
        proof {
            assert(3 <= stats@.get(Abilities::Strength) <= 18);
            assert(3 <= stats@.get(Abilities::Dexterity) <= 18);
            assert(3 <= stats@.get(Abilities::Constitution) <= 18);
            assert(3 <= stats@.get(Abilities::Intelligence) <= 18);
            assert(3 <= stats@.get(Abilities::Wisdom) <= 18);
            assert(3 <= stats@.get(Abilities::Charisma) <= 18);
            assert(is_rolled_scores(stats@));
        }
        let r = Character::new_with_scores(name, race, class, stats, catalog);
        r
    }
}

} // verus!
