//! The persisted character record: a character encoded as a stream of 64-bit
//! tokens and decoded back, with decoding proved to invert encoding on every
//! field.
//!
//! Each number, flag, enumeration tag and character occupies one token;
//! strings and lists are length-prefixed.

use crate::ability::{Abilities, AbilityScores, AbilityScoresV};
use crate::character::{Character, CharacterV};
use crate::class::Class;
use crate::equipment::{Armor, ArmorType, ArmorV, DamageType, Weapon, WeaponRange, WeaponType, WeaponV};
use crate::money::{Money, MoneyType};
use crate::race::Race;
use crate::skill::Skill;
use vstd::prelude::*;

verus! {

/// Whether a token holds a Unicode scalar value: below the surrogate range,
/// or between it and the last code point.
pub open spec fn is_char_token(v: u64) -> bool {
    v < 0xD800 || (0xE000 <= v <= 0x10FFFF)
}

/// Whether the tokens of `part` stand in `t` starting at position `i`.
pub open spec fn begins_at(t: Seq<u64>, i: int, part: Seq<u64>) -> bool {
    &&& 0 <= i
    &&& i + part.len() <= t.len()
    &&& forall|j: int| 0 <= j < part.len() ==> t[i + j] == #[trigger] part[j]
}

/// A part standing at `i` splits: its first half stands at `i` and its
/// second at `i` plus the first's length.
proof fn lemma_begins_split(t: Seq<u64>, i: int, p1: Seq<u64>, p2: Seq<u64>)
    requires
        begins_at(t, i, p1 + p2),
    ensures
        begins_at(t, i, p1),
        begins_at(t, i + p1.len(), p2),
{
    assert forall|j: int| 0 <= j < p1.len() implies t[i + j] == #[trigger] p1[j] by {
        assert((p1 + p2)[j] == p1[j]);
    }
    assert forall|j: int| 0 <= j < p2.len() implies t[i + p1.len() + j] == #[trigger] p2[j] by {
        assert((p1 + p2)[p1.len() + j] == p2[j]);
    }
}

// ---------------------------------------------------------------------------
// One-token primitives.
// ---------------------------------------------------------------------------

/// The next token, when one is left.
pub open spec fn spec_parse_token(t: Seq<u64>, i: int) -> Option<(u64, int)> {
    if 0 <= i < t.len() {
        Some((t[i], i + 1))
    } else {
        None
    }
}

/// A `u8` as one token.
pub open spec fn enc_u8(x: u8) -> Seq<u64> {
    seq![x as u64]
}

/// A token as a `u8`, when it fits.
pub open spec fn spec_parse_u8(t: Seq<u64>, i: int) -> Option<(u8, int)> {
    match spec_parse_token(t, i) {
        Some((v, j)) => if v <= 255 {
            Some((v as u8, j))
        } else {
            None
        },
        None => None,
    }
}

/// A `u16` as one token.
pub open spec fn enc_u16(x: u16) -> Seq<u64> {
    seq![x as u64]
}

/// A token as a `u16`, when it fits.
pub open spec fn spec_parse_u16(t: Seq<u64>, i: int) -> Option<(u16, int)> {
    match spec_parse_token(t, i) {
        Some((v, j)) => if v <= 0xFFFF {
            Some((v as u16, j))
        } else {
            None
        },
        None => None,
    }
}

/// A `u32` as one token.
pub open spec fn enc_u32(x: u32) -> Seq<u64> {
    seq![x as u64]
}

/// A token as a `u32`, when it fits.
pub open spec fn spec_parse_u32(t: Seq<u64>, i: int) -> Option<(u32, int)> {
    match spec_parse_token(t, i) {
        Some((v, j)) => if v <= 0xFFFFFFFF {
            Some((v as u32, j))
        } else {
            None
        },
        None => None,
    }
}

/// An `i8` as one token, shifted up by 128 so the token is never negative.
pub open spec fn enc_i8(x: i8) -> Seq<u64> {
    seq![(x + 128) as u64]
}

/// A token as an `i8`, shifted back down by 128.
pub open spec fn spec_parse_i8(t: Seq<u64>, i: int) -> Option<(i8, int)> {
    match spec_parse_token(t, i) {
        Some((v, j)) => if v <= 255 {
            Some(((v - 128) as i8, j))
        } else {
            None
        },
        None => None,
    }
}

/// A flag as one token: 1 for true, 0 for false.
pub open spec fn enc_bool(x: bool) -> Seq<u64> {
    seq![if x {
            1u64
        } else {
            0u64
        }]
}

/// A token as a flag: only 0 and 1 decode.
pub open spec fn spec_parse_bool(t: Seq<u64>, i: int) -> Option<(bool, int)> {
    match spec_parse_token(t, i) {
        Some((v, j)) => if v == 0 {
            Some((false, j))
        } else if v == 1 {
            Some((true, j))
        } else {
            None
        },
        None => None,
    }
}

/// A character as one token: its code point.
pub open spec fn enc_char(c: char) -> Seq<u64> {
    seq![c as u64]
}

/// A token as a character: a Unicode scalar value decodes to the character
/// with that code point.
pub open spec fn spec_parse_char(t: Seq<u64>, i: int) -> Option<(char, int)> {
    match spec_parse_token(t, i) {
        Some((v, j)) => if is_char_token(v) {
            Some(((v as u32) as char, j))
        } else {
            None
        },
        None => None,
    }
}

// ---------------------------------------------------------------------------
// Strings: a length token, then one token per character.
// ---------------------------------------------------------------------------

/// The characters of a string, one token each.
pub open spec fn enc_chars(s: Seq<char>) -> Seq<u64> {
    s.map_values(|c: char| c as u64)
}

/// A string: its length, then its characters.
pub open spec fn enc_str(s: Seq<char>) -> Seq<u64> {
    seq![s.len() as u64] + enc_chars(s)
}

/// `n` tokens as `n` characters.
pub open spec fn spec_parse_chars(t: Seq<u64>, i: int, n: nat) -> Option<(Seq<char>, int)>
    decreases n,
{
    if n == 0 {
        Some((Seq::empty(), i))
    } else {
        match spec_parse_char(t, i) {
            Some((c, j)) => match spec_parse_chars(t, j, (n - 1) as nat) {
                Some((s, k)) => Some((seq![c] + s, k)),
                None => None,
            },
            None => None,
        }
    }
}

/// A length token, then that many characters.
pub open spec fn spec_parse_str(t: Seq<u64>, i: int) -> Option<(Seq<char>, int)> {
    match spec_parse_token(t, i) {
        Some((n, j)) => spec_parse_chars(t, j, n as nat),
        None => None,
    }
}

// ---------------------------------------------------------------------------
// Round-trip lemmas for the primitives.
// ---------------------------------------------------------------------------

/// A `u8`'s token parses back to it.
proof fn lemma_parse_u8(t: Seq<u64>, i: int, x: u8)
    requires
        begins_at(t, i, enc_u8(x)),
    ensures
        spec_parse_u8(t, i) == Some((x, i + 1)),
{
    assert(t[i + 0] == enc_u8(x)[0]);
}

/// A `u16`'s token parses back to it.
proof fn lemma_parse_u16(t: Seq<u64>, i: int, x: u16)
    requires
        begins_at(t, i, enc_u16(x)),
    ensures
        spec_parse_u16(t, i) == Some((x, i + 1)),
{
    assert(t[i + 0] == enc_u16(x)[0]);
}

/// A `u32`'s token parses back to it.
proof fn lemma_parse_u32(t: Seq<u64>, i: int, x: u32)
    requires
        begins_at(t, i, enc_u32(x)),
    ensures
        spec_parse_u32(t, i) == Some((x, i + 1)),
{
    assert(t[i + 0] == enc_u32(x)[0]);
}

/// An `i8`'s token parses back to it.
proof fn lemma_parse_i8(t: Seq<u64>, i: int, x: i8)
    requires
        begins_at(t, i, enc_i8(x)),
    ensures
        spec_parse_i8(t, i) == Some((x, i + 1)),
{
    assert(t[i + 0] == enc_i8(x)[0]);
}

/// A flag's token parses back to it.
proof fn lemma_parse_bool(t: Seq<u64>, i: int, x: bool)
    requires
        begins_at(t, i, enc_bool(x)),
    ensures
        spec_parse_bool(t, i) == Some((x, i + 1)),
{
    assert(t[i + 0] == enc_bool(x)[0]);
}

/// A character's token parses back to it.
proof fn lemma_parse_char(t: Seq<u64>, i: int, c: char)
    requires
        begins_at(t, i, enc_char(c)),
    ensures
        spec_parse_char(t, i) == Some((c, i + 1)),
{
    assert(t[i + 0] == enc_char(c)[0]);
    assert(is_char_token(c as u64));
    assert(((c as u64) as u32) as char == c);
}

/// A string's characters parse back to it.
proof fn lemma_parse_chars(t: Seq<u64>, i: int, s: Seq<char>)
    requires
        begins_at(t, i, enc_chars(s)),
    ensures
        spec_parse_chars(t, i, s.len()) == Some((s, i + s.len())),
    decreases s.len(),
{
    if s.len() == 0 {
        assert(spec_parse_chars(t, i, 0) == Some((Seq::<char>::empty(), i)));
        assert(s =~= Seq::<char>::empty());
    } else {
        assert(enc_chars(s) =~= enc_char(s[0]) + enc_chars(s.drop_first()));
        lemma_begins_split(t, i, enc_char(s[0]), enc_chars(s.drop_first()));
        lemma_parse_char(t, i, s[0]);
        lemma_parse_chars(t, i + 1, s.drop_first());
        assert(s =~= seq![s[0]] + s.drop_first());
    }
}

/// An encoded string parses back to it, provided its length fits the length
/// token.
proof fn lemma_parse_str(t: Seq<u64>, i: int, s: Seq<char>)
    requires
        begins_at(t, i, enc_str(s)),
        s.len() <= u64::MAX,
    ensures
        spec_parse_str(t, i) == Some((s, i + enc_str(s).len())),
{
    lemma_begins_split(t, i, seq![s.len() as u64], enc_chars(s));
    assert(t[i + 0] == seq![s.len() as u64][0]);
    lemma_parse_chars(t, i + 1, s);
}

// ---------------------------------------------------------------------------
// Enumerations: one tag token each, in declaration order.
// ---------------------------------------------------------------------------

/// A race's tag token.
pub open spec fn race_tag(x: Race) -> u64 {
    match x {
        Race::Human => 0u64,
        Race::Elf => 1u64,
        Race::HalfOrc => 2u64,
        Race::HalfElf => 3u64,
        Race::Halfling => 4u64,
        Race::Gnome => 5u64,
        Race::Dwarf => 6u64,
        Race::Dragonborn => 7u64,
        Race::Tiefling => 8u64,
    }
}

/// The race of a tag token, when the tag names one.
pub open spec fn race_of_tag(v: u64) -> Option<Race> {
    if v == 0 {
        Some(Race::Human)
    } else if v == 1 {
        Some(Race::Elf)
    } else if v == 2 {
        Some(Race::HalfOrc)
    } else if v == 3 {
        Some(Race::HalfElf)
    } else if v == 4 {
        Some(Race::Halfling)
    } else if v == 5 {
        Some(Race::Gnome)
    } else if v == 6 {
        Some(Race::Dwarf)
    } else if v == 7 {
        Some(Race::Dragonborn)
    } else if v == 8 {
        Some(Race::Tiefling)
    } else {
        None
    }
}

/// A class's tag token.
pub open spec fn class_tag(x: Class) -> u64 {
    match x {
        Class::Barbarian => 0u64,
        Class::Bard => 1u64,
        Class::Cleric => 2u64,
        Class::Druid => 3u64,
        Class::Fighter => 4u64,
        Class::Monk => 5u64,
        Class::Paladin => 6u64,
        Class::Ranger => 7u64,
        Class::Rogue => 8u64,
        Class::Sorcerer => 9u64,
        Class::Warlock => 10u64,
        Class::Wizard => 11u64,
    }
}

/// The class of a tag token, when the tag names one.
pub open spec fn class_of_tag(v: u64) -> Option<Class> {
    if v == 0 {
        Some(Class::Barbarian)
    } else if v == 1 {
        Some(Class::Bard)
    } else if v == 2 {
        Some(Class::Cleric)
    } else if v == 3 {
        Some(Class::Druid)
    } else if v == 4 {
        Some(Class::Fighter)
    } else if v == 5 {
        Some(Class::Monk)
    } else if v == 6 {
        Some(Class::Paladin)
    } else if v == 7 {
        Some(Class::Ranger)
    } else if v == 8 {
        Some(Class::Rogue)
    } else if v == 9 {
        Some(Class::Sorcerer)
    } else if v == 10 {
        Some(Class::Warlock)
    } else if v == 11 {
        Some(Class::Wizard)
    } else {
        None
    }
}

/// A skill's tag token.
pub open spec fn skill_tag(x: Skill) -> u64 {
    match x {
        Skill::Athletics => 0u64,
        Skill::Acrobatics => 1u64,
        Skill::SleightOfHand => 2u64,
        Skill::Stealth => 3u64,
        Skill::Arcana => 4u64,
        Skill::History => 5u64,
        Skill::Investigation => 6u64,
        Skill::Nature => 7u64,
        Skill::Religion => 8u64,
        Skill::AnimalHandling => 9u64,
        Skill::Insight => 10u64,
        Skill::Medicine => 11u64,
        Skill::Perception => 12u64,
        Skill::Survival => 13u64,
        Skill::Deception => 14u64,
        Skill::Intimidation => 15u64,
        Skill::Performance => 16u64,
        Skill::Persuasion => 17u64,
    }
}

/// The skill of a tag token, when the tag names one.
pub open spec fn skill_of_tag(v: u64) -> Option<Skill> {
    if v == 0 {
        Some(Skill::Athletics)
    } else if v == 1 {
        Some(Skill::Acrobatics)
    } else if v == 2 {
        Some(Skill::SleightOfHand)
    } else if v == 3 {
        Some(Skill::Stealth)
    } else if v == 4 {
        Some(Skill::Arcana)
    } else if v == 5 {
        Some(Skill::History)
    } else if v == 6 {
        Some(Skill::Investigation)
    } else if v == 7 {
        Some(Skill::Nature)
    } else if v == 8 {
        Some(Skill::Religion)
    } else if v == 9 {
        Some(Skill::AnimalHandling)
    } else if v == 10 {
        Some(Skill::Insight)
    } else if v == 11 {
        Some(Skill::Medicine)
    } else if v == 12 {
        Some(Skill::Perception)
    } else if v == 13 {
        Some(Skill::Survival)
    } else if v == 14 {
        Some(Skill::Deception)
    } else if v == 15 {
        Some(Skill::Intimidation)
    } else if v == 16 {
        Some(Skill::Performance)
    } else if v == 17 {
        Some(Skill::Persuasion)
    } else {
        None
    }
}

/// A weapon-type tag token.
pub open spec fn weapon_type_tag(x: WeaponType) -> u64 {
    match x {
        WeaponType::Simple => 0u64,
        WeaponType::Martial => 1u64,
    }
}

/// The weapon type of a tag token, when the tag names one.
pub open spec fn weapon_type_of_tag(v: u64) -> Option<WeaponType> {
    if v == 0 {
        Some(WeaponType::Simple)
    } else if v == 1 {
        Some(WeaponType::Martial)
    } else {
        None
    }
}

/// A weapon-range tag token.
pub open spec fn weapon_range_tag(x: WeaponRange) -> u64 {
    match x {
        WeaponRange::Melee => 0u64,
        WeaponRange::Ranged => 1u64,
    }
}

/// The weapon range of a tag token, when the tag names one.
pub open spec fn weapon_range_of_tag(v: u64) -> Option<WeaponRange> {
    if v == 0 {
        Some(WeaponRange::Melee)
    } else if v == 1 {
        Some(WeaponRange::Ranged)
    } else {
        None
    }
}

/// A damage-type tag token.
pub open spec fn damage_type_tag(x: DamageType) -> u64 {
    match x {
        DamageType::Piercing => 0u64,
        DamageType::Slashing => 1u64,
        DamageType::Bludgeoning => 2u64,
    }
}

/// The damage type of a tag token, when the tag names one.
pub open spec fn damage_type_of_tag(v: u64) -> Option<DamageType> {
    if v == 0 {
        Some(DamageType::Piercing)
    } else if v == 1 {
        Some(DamageType::Slashing)
    } else if v == 2 {
        Some(DamageType::Bludgeoning)
    } else {
        None
    }
}

/// An armor-type tag token.
pub open spec fn armor_type_tag(x: ArmorType) -> u64 {
    match x {
        ArmorType::Light => 0u64,
        ArmorType::Medium => 1u64,
        ArmorType::Heavy => 2u64,
    }
}

/// The armor type of a tag token, when the tag names one.
pub open spec fn armor_type_of_tag(v: u64) -> Option<ArmorType> {
    if v == 0 {
        Some(ArmorType::Light)
    } else if v == 1 {
        Some(ArmorType::Medium)
    } else if v == 2 {
        Some(ArmorType::Heavy)
    } else {
        None
    }
}

/// A coin-type tag token.
pub open spec fn money_type_tag(x: MoneyType) -> u64 {
    match x {
        MoneyType::Copper => 0u64,
        MoneyType::Silver => 1u64,
        MoneyType::Gold => 2u64,
    }
}

/// The coin type of a tag token, when the tag names one.
pub open spec fn money_type_of_tag(v: u64) -> Option<MoneyType> {
    if v == 0 {
        Some(MoneyType::Copper)
    } else if v == 1 {
        Some(MoneyType::Silver)
    } else if v == 2 {
        Some(MoneyType::Gold)
    } else {
        None
    }
}

/// A tag token as the enumeration value it names.
pub open spec fn spec_parse_race(t: Seq<u64>, i: int) -> Option<(Race, int)> {
    match spec_parse_token(t, i) {
        Some((v, j)) => match race_of_tag(v) {
            Some(x) => Some((x, j)),
            None => None,
        },
        None => None,
    }
}

/// A tag token as the enumeration value it names.
pub open spec fn spec_parse_class(t: Seq<u64>, i: int) -> Option<(Class, int)> {
    match spec_parse_token(t, i) {
        Some((v, j)) => match class_of_tag(v) {
            Some(x) => Some((x, j)),
            None => None,
        },
        None => None,
    }
}

/// A tag token as the enumeration value it names.
pub open spec fn spec_parse_skill(t: Seq<u64>, i: int) -> Option<(Skill, int)> {
    match spec_parse_token(t, i) {
        Some((v, j)) => match skill_of_tag(v) {
            Some(x) => Some((x, j)),
            None => None,
        },
        None => None,
    }
}

/// A tag token as the enumeration value it names.
pub open spec fn spec_parse_weapon_type(t: Seq<u64>, i: int) -> Option<(WeaponType, int)> {
    match spec_parse_token(t, i) {
        Some((v, j)) => match weapon_type_of_tag(v) {
            Some(x) => Some((x, j)),
            None => None,
        },
        None => None,
    }
}

/// A tag token as the enumeration value it names.
pub open spec fn spec_parse_weapon_range(t: Seq<u64>, i: int) -> Option<(WeaponRange, int)> {
    match spec_parse_token(t, i) {
        Some((v, j)) => match weapon_range_of_tag(v) {
            Some(x) => Some((x, j)),
            None => None,
        },
        None => None,
    }
}

/// A tag token as the enumeration value it names.
pub open spec fn spec_parse_damage_type(t: Seq<u64>, i: int) -> Option<(DamageType, int)> {
    match spec_parse_token(t, i) {
        Some((v, j)) => match damage_type_of_tag(v) {
            Some(x) => Some((x, j)),
            None => None,
        },
        None => None,
    }
}

/// A tag token as the enumeration value it names.
pub open spec fn spec_parse_armor_type(t: Seq<u64>, i: int) -> Option<(ArmorType, int)> {
    match spec_parse_token(t, i) {
        Some((v, j)) => match armor_type_of_tag(v) {
            Some(x) => Some((x, j)),
            None => None,
        },
        None => None,
    }
}

/// A tag token as the enumeration value it names.
pub open spec fn spec_parse_money_type(t: Seq<u64>, i: int) -> Option<(MoneyType, int)> {
    match spec_parse_token(t, i) {
        Some((v, j)) => match money_type_of_tag(v) {
            Some(x) => Some((x, j)),
            None => None,
        },
        None => None,
    }
}

// ---------------------------------------------------------------------------
// An optional `i8`: a presence token, then the value when present.
// ---------------------------------------------------------------------------

/// An optional `i8`: a lone 0 token for nothing, or a 1 token and the value.
pub open spec fn enc_opt_i8(o: Option<i8>) -> Seq<u64> {
    match o {
        None => seq![0u64],
        Some(v) => seq![1u64] + enc_i8(v),
    }
}

/// A presence token, then the value when present.
pub open spec fn spec_parse_opt_i8(t: Seq<u64>, i: int) -> Option<(Option<i8>, int)> {
    match spec_parse_token(t, i) {
        Some((v, j)) => if v == 0 {
            Some((None, j))
        } else if v == 1 {
            match spec_parse_i8(t, j) {
                Some((x, k)) => Some((Some(x), k)),
                None => None,
            }
        } else {
            None
        },
        None => None,
    }
}

/// An optional `i8`'s tokens parse back to it.
proof fn lemma_parse_opt_i8(t: Seq<u64>, i: int, o: Option<i8>)
    requires
        begins_at(t, i, enc_opt_i8(o)),
    ensures
        spec_parse_opt_i8(t, i) == Some((o, i + enc_opt_i8(o).len())),
{
    match o {
        None => {
            assert(t[i + 0] == enc_opt_i8(o)[0]);
        },
        Some(v) => {
            lemma_begins_split(t, i, seq![1u64], enc_i8(v));
            assert(t[i + 0] == seq![1u64][0]);
            lemma_parse_i8(t, i + 1, v);
        },
    }
}

// ---------------------------------------------------------------------------
// The six ability scores, one token each.
// ---------------------------------------------------------------------------

/// The six ability scores, one token each, in declaration order.
pub open spec fn enc_scores(v: AbilityScoresV) -> Seq<u64> {
    enc_u8(v.strength) + enc_u8(v.dexterity) + enc_u8(v.constitution) + enc_u8(v.intelligence)
        + enc_u8(v.wisdom) + enc_u8(v.charisma)
}

/// Six tokens as the six ability scores.
pub open spec fn spec_parse_scores(t: Seq<u64>, i: int) -> Option<(AbilityScoresV, int)> {
    match spec_parse_u8(t, i) {
        Some((strength, i1)) => match spec_parse_u8(t, i1) {
            Some((dexterity, i2)) => match spec_parse_u8(t, i2) {
                Some((constitution, i3)) => match spec_parse_u8(t, i3) {
                    Some((intelligence, i4)) => match spec_parse_u8(t, i4) {
                        Some((wisdom, i5)) => match spec_parse_u8(t, i5) {
                            Some((charisma, i6)) => Some(
                                (
                                    AbilityScoresV {
                                        strength,
                                        dexterity,
                                        constitution,
                                        intelligence,
                                        wisdom,
                                        charisma,
                                    },
                                    i6,
                                ),
                            ),
                            None => None,
                        },
                        None => None,
                    },
                    None => None,
                },
                None => None,
            },
            None => None,
        },
        None => None,
    }
}

/// The six encoded scores parse back to the score vector.
proof fn lemma_parse_scores(t: Seq<u64>, i: int, v: AbilityScoresV)
    requires
        begins_at(t, i, enc_scores(v)),
    ensures
        spec_parse_scores(t, i) == Some((v, i + 6)),
{
    let p1 = enc_u8(v.strength);
    let p2 = enc_u8(v.dexterity);
    let p3 = enc_u8(v.constitution);
    let p4 = enc_u8(v.intelligence);
    let p5 = enc_u8(v.wisdom);
    let p6 = enc_u8(v.charisma);
    lemma_begins_split(t, i, p1 + p2 + p3 + p4 + p5, p6);
    lemma_begins_split(t, i, p1 + p2 + p3 + p4, p5);
    lemma_begins_split(t, i, p1 + p2 + p3, p4);
    lemma_begins_split(t, i, p1 + p2, p3);
    lemma_begins_split(t, i, p1, p2);
    lemma_parse_u8(t, i, v.strength);
    lemma_parse_u8(t, i + 1, v.dexterity);
    lemma_parse_u8(t, i + 2, v.constitution);
    lemma_parse_u8(t, i + 3, v.intelligence);
    lemma_parse_u8(t, i + 4, v.wisdom);
    lemma_parse_u8(t, i + 5, v.charisma);
}

// ---------------------------------------------------------------------------
// Enumeration round-trip lemmas.
// ---------------------------------------------------------------------------

/// A race's tag parses back to it.
proof fn lemma_parse_race(t: Seq<u64>, i: int, x: Race)
    requires
        begins_at(t, i, seq![race_tag(x)]),
    ensures
        spec_parse_race(t, i) == Some((x, i + 1)),
{
    assert(t[i + 0] == seq![race_tag(x)][0]);
}

/// A class's tag parses back to it.
proof fn lemma_parse_class(t: Seq<u64>, i: int, x: Class)
    requires
        begins_at(t, i, seq![class_tag(x)]),
    ensures
        spec_parse_class(t, i) == Some((x, i + 1)),
{
    assert(t[i + 0] == seq![class_tag(x)][0]);
}

/// A skill's tag parses back to it.
proof fn lemma_parse_skill(t: Seq<u64>, i: int, x: Skill)
    requires
        begins_at(t, i, seq![skill_tag(x)]),
    ensures
        spec_parse_skill(t, i) == Some((x, i + 1)),
{
    assert(t[i + 0] == seq![skill_tag(x)][0]);
}

/// A weapon type's tag parses back to it.
proof fn lemma_parse_weapon_type(t: Seq<u64>, i: int, x: WeaponType)
    requires
        begins_at(t, i, seq![weapon_type_tag(x)]),
    ensures
        spec_parse_weapon_type(t, i) == Some((x, i + 1)),
{
    assert(t[i + 0] == seq![weapon_type_tag(x)][0]);
}

/// A weapon range's tag parses back to it.
proof fn lemma_parse_weapon_range(t: Seq<u64>, i: int, x: WeaponRange)
    requires
        begins_at(t, i, seq![weapon_range_tag(x)]),
    ensures
        spec_parse_weapon_range(t, i) == Some((x, i + 1)),
{
    assert(t[i + 0] == seq![weapon_range_tag(x)][0]);
}

/// A damage type's tag parses back to it.
proof fn lemma_parse_damage_type(t: Seq<u64>, i: int, x: DamageType)
    requires
        begins_at(t, i, seq![damage_type_tag(x)]),
    ensures
        spec_parse_damage_type(t, i) == Some((x, i + 1)),
{
    assert(t[i + 0] == seq![damage_type_tag(x)][0]);
}

/// An armor type's tag parses back to it.
proof fn lemma_parse_armor_type(t: Seq<u64>, i: int, x: ArmorType)
    requires
        begins_at(t, i, seq![armor_type_tag(x)]),
    ensures
        spec_parse_armor_type(t, i) == Some((x, i + 1)),
{
    assert(t[i + 0] == seq![armor_type_tag(x)][0]);
}

/// A coin type's tag parses back to it.
proof fn lemma_parse_money_type(t: Seq<u64>, i: int, x: MoneyType)
    requires
        begins_at(t, i, seq![money_type_tag(x)]),
    ensures
        spec_parse_money_type(t, i) == Some((x, i + 1)),
{
    assert(t[i + 0] == seq![money_type_tag(x)][0]);
}

// ---------------------------------------------------------------------------
// The skill list: a length token, then one tag per skill.
// ---------------------------------------------------------------------------

/// The skills of a list, one tag each.
pub open spec fn enc_skill_items(s: Seq<Skill>) -> Seq<u64>
    decreases s.len(),
{
    if s.len() == 0 {
        Seq::empty()
    } else {
        seq![skill_tag(s[0])] + enc_skill_items(s.drop_first())
    }
}

/// A skill list: its length, then one tag per skill.
pub open spec fn enc_skills(s: Seq<Skill>) -> Seq<u64> {
    seq![s.len() as u64] + enc_skill_items(s)
}

/// `n` tags as `n` skills.
pub open spec fn spec_parse_skill_items(t: Seq<u64>, i: int, n: nat) -> Option<(Seq<Skill>, int)>
    decreases n,
{
    if n == 0 {
        Some((Seq::empty(), i))
    } else {
        match spec_parse_skill(t, i) {
            Some((x, j)) => match spec_parse_skill_items(t, j, (n - 1) as nat) {
                Some((s, k)) => Some((seq![x] + s, k)),
                None => None,
            },
            None => None,
        }
    }
}

/// A length token, then that many skill tags.
pub open spec fn spec_parse_skills(t: Seq<u64>, i: int) -> Option<(Seq<Skill>, int)> {
    match spec_parse_token(t, i) {
        Some((n, j)) => spec_parse_skill_items(t, j, n as nat),
        None => None,
    }
}

/// A skill list's tags parse back to it.
proof fn lemma_parse_skill_items(t: Seq<u64>, i: int, s: Seq<Skill>)
    requires
        begins_at(t, i, enc_skill_items(s)),
    ensures
        spec_parse_skill_items(t, i, s.len()) == Some((s, i + enc_skill_items(s).len())),
        enc_skill_items(s).len() == s.len(),
    decreases s.len(),
{
    if s.len() == 0 {
        assert(s =~= Seq::<Skill>::empty());
    } else {
        lemma_begins_split(t, i, seq![skill_tag(s[0])], enc_skill_items(s.drop_first()));
        lemma_parse_skill(t, i, s[0]);
        lemma_parse_skill_items(t, i + 1, s.drop_first());
        assert(s =~= seq![s[0]] + s.drop_first());
    }
}

/// An encoded skill list parses back to it.
proof fn lemma_parse_skills(t: Seq<u64>, i: int, s: Seq<Skill>)
    requires
        begins_at(t, i, enc_skills(s)),
        s.len() <= u64::MAX,
    ensures
        spec_parse_skills(t, i) == Some((s, i + enc_skills(s).len())),
{
    lemma_begins_split(t, i, seq![s.len() as u64], enc_skill_items(s));
    assert(t[i + 0] == seq![s.len() as u64][0]);
    lemma_parse_skill_items(t, i + 1, s);
}

// ---------------------------------------------------------------------------
// Money: a tag and an amount per entry, under a length token.
// ---------------------------------------------------------------------------

/// One money entry: its coin's tag, then the amount.
pub open spec fn enc_money(m: Money) -> Seq<u64> {
    seq![money_type_tag(m.coin_type)] + enc_u32(m.amount)
}

/// A coin tag, then an amount.
pub open spec fn spec_parse_money(t: Seq<u64>, i: int) -> Option<(Money, int)> {
    match spec_parse_money_type(t, i) {
        Some((coin_type, j)) => match spec_parse_u32(t, j) {
            Some((amount, k)) => Some((Money { coin_type, amount }, k)),
            None => None,
        },
        None => None,
    }
}

/// A money entry's tokens parse back to it.
proof fn lemma_parse_money(t: Seq<u64>, i: int, m: Money)
    requires
        begins_at(t, i, enc_money(m)),
    ensures
        spec_parse_money(t, i) == Some((m, i + 2)),
{
    lemma_begins_split(t, i, seq![money_type_tag(m.coin_type)], enc_u32(m.amount));
    lemma_parse_money_type(t, i, m.coin_type);
    lemma_parse_u32(t, i + 1, m.amount);
}

/// The entries of a money list.
pub open spec fn enc_money_items(s: Seq<Money>) -> Seq<u64>
    decreases s.len(),
{
    if s.len() == 0 {
        Seq::empty()
    } else {
        enc_money(s[0]) + enc_money_items(s.drop_first())
    }
}

/// A money list: its length, then its entries.
pub open spec fn enc_moneys(s: Seq<Money>) -> Seq<u64> {
    seq![s.len() as u64] + enc_money_items(s)
}

/// `n` encoded entries as `n` money values.
pub open spec fn spec_parse_money_items(t: Seq<u64>, i: int, n: nat) -> Option<(Seq<Money>, int)>
    decreases n,
{
    if n == 0 {
        Some((Seq::empty(), i))
    } else {
        match spec_parse_money(t, i) {
            Some((x, j)) => match spec_parse_money_items(t, j, (n - 1) as nat) {
                Some((s, k)) => Some((seq![x] + s, k)),
                None => None,
            },
            None => None,
        }
    }
}

/// A length token, then that many money entries.
pub open spec fn spec_parse_moneys(t: Seq<u64>, i: int) -> Option<(Seq<Money>, int)> {
    match spec_parse_token(t, i) {
        Some((n, j)) => spec_parse_money_items(t, j, n as nat),
        None => None,
    }
}

/// A money list's entries parse back to it.
proof fn lemma_parse_money_items(t: Seq<u64>, i: int, s: Seq<Money>)
    requires
        begins_at(t, i, enc_money_items(s)),
    ensures
        spec_parse_money_items(t, i, s.len()) == Some((s, i + enc_money_items(s).len())),
    decreases s.len(),
{
    if s.len() == 0 {
        assert(s =~= Seq::<Money>::empty());
    } else {
        lemma_begins_split(t, i, enc_money(s[0]), enc_money_items(s.drop_first()));
        lemma_parse_money(t, i, s[0]);
        lemma_parse_money_items(t, i + 2, s.drop_first());
        assert(s =~= seq![s[0]] + s.drop_first());
    }
}

/// An encoded money list parses back to it.
proof fn lemma_parse_moneys(t: Seq<u64>, i: int, s: Seq<Money>)
    requires
        begins_at(t, i, enc_moneys(s)),
        s.len() <= u64::MAX,
    ensures
        spec_parse_moneys(t, i) == Some((s, i + enc_moneys(s).len())),
{
    lemma_begins_split(t, i, seq![s.len() as u64], enc_money_items(s));
    assert(t[i + 0] == seq![s.len() as u64][0]);
    lemma_parse_money_items(t, i + 1, s);
}

// ---------------------------------------------------------------------------
// Armor entries and the armor list.
// ---------------------------------------------------------------------------

/// Whether an armor entry's strings fit their length tokens.
pub open spec fn wf_armor(a: ArmorV) -> bool {
    a.name.len() <= u64::MAX
}

/// One armor entry: name, type, base armor class, Dexterity cap, weight,
/// price, stealth flag.
pub open spec fn enc_armor(a: ArmorV) -> Seq<u64> {
    enc_str(a.name) + seq![armor_type_tag(a.armor_type)] + enc_u8(a.base_ac) + enc_opt_i8(
        a.dex_bonus_max,
    ) + enc_u32(a.weight) + enc_u32(a.price) + enc_bool(a.stealth_disadvantage)
}

/// An armor entry's fields, in encoding order.
pub open spec fn spec_parse_armor(t: Seq<u64>, i: int) -> Option<(ArmorV, int)> {
    match spec_parse_str(t, i) {
        Some((name, i1)) => match spec_parse_armor_type(t, i1) {
            Some((armor_type, i2)) => match spec_parse_u8(t, i2) {
                Some((base_ac, i3)) => match spec_parse_opt_i8(t, i3) {
                    Some((dex_bonus_max, i4)) => match spec_parse_u32(t, i4) {
                        Some((weight, i5)) => match spec_parse_u32(t, i5) {
                            Some((price, i6)) => match spec_parse_bool(t, i6) {
                                Some((stealth_disadvantage, i7)) => Some(
                                    (
                                        ArmorV {
                                            name,
                                            armor_type,
                                            base_ac,
                                            dex_bonus_max,
                                            weight,
                                            price,
                                            stealth_disadvantage,
                                        },
                                        i7,
                                    ),
                                ),
                                None => None,
                            },
                            None => None,
                        },
                        None => None,
                    },
                    None => None,
                },
                None => None,
            },
            None => None,
        },
        None => None,
    }
}

/// An armor entry's tokens parse back to it.
proof fn lemma_parse_armor(t: Seq<u64>, i: int, a: ArmorV)
    requires
        begins_at(t, i, enc_armor(a)),
        wf_armor(a),
    ensures
        spec_parse_armor(t, i) == Some((a, i + enc_armor(a).len())),
{
    let p1 = enc_str(a.name);
    let p2 = seq![armor_type_tag(a.armor_type)];
    let p3 = enc_u8(a.base_ac);
    let p4 = enc_opt_i8(a.dex_bonus_max);
    let p5 = enc_u32(a.weight);
    let p6 = enc_u32(a.price);
    let p7 = enc_bool(a.stealth_disadvantage);
    lemma_begins_split(t, i, p1 + p2 + p3 + p4 + p5 + p6, p7);
    lemma_begins_split(t, i, p1 + p2 + p3 + p4 + p5, p6);
    lemma_begins_split(t, i, p1 + p2 + p3 + p4, p5);
    lemma_begins_split(t, i, p1 + p2 + p3, p4);
    lemma_begins_split(t, i, p1 + p2, p3);
    lemma_begins_split(t, i, p1, p2);
    let i1 = i + p1.len();
    lemma_parse_str(t, i, a.name);
    lemma_parse_armor_type(t, i1, a.armor_type);
    lemma_parse_u8(t, i1 + 1, a.base_ac);
    lemma_parse_opt_i8(t, i1 + 2, a.dex_bonus_max);
    let i4 = i1 + 2 + p4.len();
    lemma_parse_u32(t, i4, a.weight);
    lemma_parse_u32(t, i4 + 1, a.price);
    lemma_parse_bool(t, i4 + 2, a.stealth_disadvantage);
}

/// The entries of an armor list.
pub open spec fn enc_armor_items(s: Seq<ArmorV>) -> Seq<u64>
    decreases s.len(),
{
    if s.len() == 0 {
        Seq::empty()
    } else {
        enc_armor(s[0]) + enc_armor_items(s.drop_first())
    }
}

/// An armor list: its length, then its entries.
pub open spec fn enc_armors(s: Seq<ArmorV>) -> Seq<u64> {
    seq![s.len() as u64] + enc_armor_items(s)
}

/// `n` encoded entries as `n` armor values.
pub open spec fn spec_parse_armor_items(t: Seq<u64>, i: int, n: nat) -> Option<(Seq<ArmorV>, int)>
    decreases n,
{
    if n == 0 {
        Some((Seq::empty(), i))
    } else {
        match spec_parse_armor(t, i) {
            Some((x, j)) => match spec_parse_armor_items(t, j, (n - 1) as nat) {
                Some((s, k)) => Some((seq![x] + s, k)),
                None => None,
            },
            None => None,
        }
    }
}

/// A length token, then that many armor entries.
pub open spec fn spec_parse_armors(t: Seq<u64>, i: int) -> Option<(Seq<ArmorV>, int)> {
    match spec_parse_token(t, i) {
        Some((n, j)) => spec_parse_armor_items(t, j, n as nat),
        None => None,
    }
}

/// An armor list's entries parse back to it.
proof fn lemma_parse_armor_items(t: Seq<u64>, i: int, s: Seq<ArmorV>)
    requires
        begins_at(t, i, enc_armor_items(s)),
        forall|j: int| 0 <= j < s.len() ==> wf_armor(#[trigger] s[j]),
    ensures
        spec_parse_armor_items(t, i, s.len()) == Some((s, i + enc_armor_items(s).len())),
    decreases s.len(),
{
    if s.len() == 0 {
        assert(s =~= Seq::<ArmorV>::empty());
    } else {
        lemma_begins_split(t, i, enc_armor(s[0]), enc_armor_items(s.drop_first()));
        lemma_parse_armor(t, i, s[0]);
        assert(forall|j: int|
            0 <= j < s.drop_first().len() ==> wf_armor(#[trigger] s.drop_first()[j]));
        lemma_parse_armor_items(t, i + enc_armor(s[0]).len(), s.drop_first());
        assert(s =~= seq![s[0]] + s.drop_first());
    }
}

/// An encoded armor list parses back to it.
proof fn lemma_parse_armors(t: Seq<u64>, i: int, s: Seq<ArmorV>)
    requires
        begins_at(t, i, enc_armors(s)),
        s.len() <= u64::MAX,
        forall|j: int| 0 <= j < s.len() ==> wf_armor(#[trigger] s[j]),
    ensures
        spec_parse_armors(t, i) == Some((s, i + enc_armors(s).len())),
{
    lemma_begins_split(t, i, seq![s.len() as u64], enc_armor_items(s));
    assert(t[i + 0] == seq![s.len() as u64][0]);
    lemma_parse_armor_items(t, i + 1, s);
}

// ---------------------------------------------------------------------------
// Weapon entries (with their property strings) and the weapon list.
// ---------------------------------------------------------------------------

/// The entries of a list of strings.
pub open spec fn enc_str_items(s: Seq<Seq<char>>) -> Seq<u64>
    decreases s.len(),
{
    if s.len() == 0 {
        Seq::empty()
    } else {
        enc_str(s[0]) + enc_str_items(s.drop_first())
    }
}

/// A list of strings: its length, then its entries.
pub open spec fn enc_strs(s: Seq<Seq<char>>) -> Seq<u64> {
    seq![s.len() as u64] + enc_str_items(s)
}

/// `n` encoded strings as `n` strings.
pub open spec fn spec_parse_str_items(t: Seq<u64>, i: int, n: nat) -> Option<
    (Seq<Seq<char>>, int),
>
    decreases n,
{
    if n == 0 {
        Some((Seq::empty(), i))
    } else {
        match spec_parse_str(t, i) {
            Some((x, j)) => match spec_parse_str_items(t, j, (n - 1) as nat) {
                Some((s, k)) => Some((seq![x] + s, k)),
                None => None,
            },
            None => None,
        }
    }
}

/// A length token, then that many strings.
pub open spec fn spec_parse_strs(t: Seq<u64>, i: int) -> Option<(Seq<Seq<char>>, int)> {
    match spec_parse_token(t, i) {
        Some((n, j)) => spec_parse_str_items(t, j, n as nat),
        None => None,
    }
}

/// A string list's entries parse back to it.
proof fn lemma_parse_str_items(t: Seq<u64>, i: int, s: Seq<Seq<char>>)
    requires
        begins_at(t, i, enc_str_items(s)),
        forall|j: int| 0 <= j < s.len() ==> (#[trigger] s[j]).len() <= u64::MAX,
    ensures
        spec_parse_str_items(t, i, s.len()) == Some((s, i + enc_str_items(s).len())),
    decreases s.len(),
{
    if s.len() == 0 {
        assert(s =~= Seq::<Seq<char>>::empty());
    } else {
        lemma_begins_split(t, i, enc_str(s[0]), enc_str_items(s.drop_first()));
        lemma_parse_str(t, i, s[0]);
        assert(forall|j: int|
            0 <= j < s.drop_first().len() ==> (#[trigger] s.drop_first()[j]).len() <= u64::MAX);
        lemma_parse_str_items(t, i + enc_str(s[0]).len(), s.drop_first());
        assert(s =~= seq![s[0]] + s.drop_first());
    }
}

/// An encoded string list parses back to it.
proof fn lemma_parse_strs(t: Seq<u64>, i: int, s: Seq<Seq<char>>)
    requires
        begins_at(t, i, enc_strs(s)),
        s.len() <= u64::MAX,
        forall|j: int| 0 <= j < s.len() ==> (#[trigger] s[j]).len() <= u64::MAX,
    ensures
        spec_parse_strs(t, i) == Some((s, i + enc_strs(s).len())),
{
    lemma_begins_split(t, i, seq![s.len() as u64], enc_str_items(s));
    assert(t[i + 0] == seq![s.len() as u64][0]);
    lemma_parse_str_items(t, i + 1, s);
}

/// Whether a weapon entry's strings and lists fit their length tokens.
pub open spec fn wf_weapon(w: WeaponV) -> bool {
    &&& w.name.len() <= u64::MAX
    &&& w.damage.len() <= u64::MAX
    &&& w.properties.len() <= u64::MAX
    &&& forall|j: int| 0 <= j < w.properties.len() ==> (#[trigger] w.properties[j]).len()
        <= u64::MAX
}

/// One weapon entry: name, type, range, damage expression, damage type,
/// weight, price, property strings.
pub open spec fn enc_weapon(w: WeaponV) -> Seq<u64> {
    enc_str(w.name) + seq![weapon_type_tag(w.weapon_type)] + seq![
        weapon_range_tag(w.weapon_range),
    ] + enc_str(w.damage) + seq![damage_type_tag(w.damage_type)] + enc_u32(w.weight) + enc_u32(
        w.price,
    ) + enc_strs(w.properties)
}

/// A weapon entry's fields, in encoding order.
pub open spec fn spec_parse_weapon(t: Seq<u64>, i: int) -> Option<(WeaponV, int)> {
    match spec_parse_str(t, i) {
        Some((name, i1)) => match spec_parse_weapon_type(t, i1) {
            Some((weapon_type, i2)) => match spec_parse_weapon_range(t, i2) {
                Some((weapon_range, i3)) => match spec_parse_str(t, i3) {
                    Some((damage, i4)) => match spec_parse_damage_type(t, i4) {
                        Some((damage_type, i5)) => match spec_parse_u32(t, i5) {
                            Some((weight, i6)) => match spec_parse_u32(t, i6) {
                                Some((price, i7)) => match spec_parse_strs(t, i7) {
                                    Some((properties, i8)) => Some(
                                        (
                                            WeaponV {
                                                name,
                                                weapon_type,
                                                weapon_range,
                                                damage,
                                                damage_type,
                                                weight,
                                                price,
                                                properties,
                                            },
                                            i8,
                                        ),
                                    ),
                                    None => None,
                                },
                                None => None,
                            },
                            None => None,
                        },
                        None => None,
                    },
                    None => None,
                },
                None => None,
            },
            None => None,
        },
        None => None,
    }
}

/// A weapon entry's tokens parse back to it.
proof fn lemma_parse_weapon(t: Seq<u64>, i: int, w: WeaponV)
    requires
        begins_at(t, i, enc_weapon(w)),
        wf_weapon(w),
    ensures
        spec_parse_weapon(t, i) == Some((w, i + enc_weapon(w).len())),
{
    let p1 = enc_str(w.name);
    let p2 = seq![weapon_type_tag(w.weapon_type)];
    let p3 = seq![weapon_range_tag(w.weapon_range)];
    let p4 = enc_str(w.damage);
    let p5 = seq![damage_type_tag(w.damage_type)];
    let p6 = enc_u32(w.weight);
    let p7 = enc_u32(w.price);
    let p8 = enc_strs(w.properties);
    lemma_begins_split(t, i, p1 + p2 + p3 + p4 + p5 + p6 + p7, p8);
    lemma_begins_split(t, i, p1 + p2 + p3 + p4 + p5 + p6, p7);
    lemma_begins_split(t, i, p1 + p2 + p3 + p4 + p5, p6);
    lemma_begins_split(t, i, p1 + p2 + p3 + p4, p5);
    lemma_begins_split(t, i, p1 + p2 + p3, p4);
    lemma_begins_split(t, i, p1 + p2, p3);
    lemma_begins_split(t, i, p1, p2);
    let i1 = i + p1.len();
    lemma_parse_str(t, i, w.name);
    lemma_parse_weapon_type(t, i1, w.weapon_type);
    lemma_parse_weapon_range(t, i1 + 1, w.weapon_range);
    lemma_parse_str(t, i1 + 2, w.damage);
    let i4 = i1 + 2 + p4.len();
    lemma_parse_damage_type(t, i4, w.damage_type);
    lemma_parse_u32(t, i4 + 1, w.weight);
    lemma_parse_u32(t, i4 + 2, w.price);
    lemma_parse_strs(t, i4 + 3, w.properties);
}

/// The entries of a weapon list.
pub open spec fn enc_weapon_items(s: Seq<WeaponV>) -> Seq<u64>
    decreases s.len(),
{
    if s.len() == 0 {
        Seq::empty()
    } else {
        enc_weapon(s[0]) + enc_weapon_items(s.drop_first())
    }
}

/// A weapon list: its length, then its entries.
pub open spec fn enc_weapons(s: Seq<WeaponV>) -> Seq<u64> {
    seq![s.len() as u64] + enc_weapon_items(s)
}

/// `n` encoded entries as `n` weapon values.
pub open spec fn spec_parse_weapon_items(t: Seq<u64>, i: int, n: nat) -> Option<
    (Seq<WeaponV>, int),
>
    decreases n,
{
    if n == 0 {
        Some((Seq::empty(), i))
    } else {
        match spec_parse_weapon(t, i) {
            Some((x, j)) => match spec_parse_weapon_items(t, j, (n - 1) as nat) {
                Some((s, k)) => Some((seq![x] + s, k)),
                None => None,
            },
            None => None,
        }
    }
}

/// A length token, then that many weapon entries.
pub open spec fn spec_parse_weapons(t: Seq<u64>, i: int) -> Option<(Seq<WeaponV>, int)> {
    match spec_parse_token(t, i) {
        Some((n, j)) => spec_parse_weapon_items(t, j, n as nat),
        None => None,
    }
}

/// A weapon list's entries parse back to it.
proof fn lemma_parse_weapon_items(t: Seq<u64>, i: int, s: Seq<WeaponV>)
    requires
        begins_at(t, i, enc_weapon_items(s)),
        forall|j: int| 0 <= j < s.len() ==> wf_weapon(#[trigger] s[j]),
    ensures
        spec_parse_weapon_items(t, i, s.len()) == Some((s, i + enc_weapon_items(s).len())),
    decreases s.len(),
{
    if s.len() == 0 {
        assert(s =~= Seq::<WeaponV>::empty());
    } else {
        lemma_begins_split(t, i, enc_weapon(s[0]), enc_weapon_items(s.drop_first()));
        lemma_parse_weapon(t, i, s[0]);
        assert(forall|j: int|
            0 <= j < s.drop_first().len() ==> wf_weapon(#[trigger] s.drop_first()[j]));
        lemma_parse_weapon_items(t, i + enc_weapon(s[0]).len(), s.drop_first());
        assert(s =~= seq![s[0]] + s.drop_first());
    }
}

/// An encoded weapon list parses back to it.
proof fn lemma_parse_weapons(t: Seq<u64>, i: int, s: Seq<WeaponV>)
    requires
        begins_at(t, i, enc_weapons(s)),
        s.len() <= u64::MAX,
        forall|j: int| 0 <= j < s.len() ==> wf_weapon(#[trigger] s[j]),
    ensures
        spec_parse_weapons(t, i) == Some((s, i + enc_weapons(s).len())),
{
    lemma_begins_split(t, i, seq![s.len() as u64], enc_weapon_items(s));
    assert(t[i + 0] == seq![s.len() as u64][0]);
    lemma_parse_weapon_items(t, i + 1, s);
}

// ---------------------------------------------------------------------------
// The whole character record.
// ---------------------------------------------------------------------------

/// Whether a character's strings and lists fit their length tokens. Values
/// held in real vectors and strings always do.
pub open spec fn wf_record(c: CharacterV) -> bool {
    &&& c.name.len() <= u64::MAX
    &&& c.skills.len() <= u64::MAX
    &&& c.armor.len() <= u64::MAX
    &&& forall|j: int| 0 <= j < c.armor.len() ==> wf_armor(#[trigger] c.armor[j])
    &&& c.weapons.len() <= u64::MAX
    &&& forall|j: int| 0 <= j < c.weapons.len() ==> wf_weapon(#[trigger] c.weapons[j])
    &&& c.current_money.len() <= u64::MAX
}

/// A character as a token stream: every field in declaration order.
pub open spec fn spec_enc_character(c: CharacterV) -> Seq<u64> {
    enc_str(c.name) + seq![race_tag(c.race)] + seq![class_tag(c.class)] + enc_u8(c.level)
        + enc_u32(c.current_xp) + enc_scores(c.stats) + enc_u16(c.max_hp) + enc_u16(c.current_hp)
        + enc_skills(c.skills) + enc_armors(c.armor) + enc_weapons(c.weapons) + enc_u32(
        c.current_load,
    ) + enc_moneys(c.current_money)
}

/// A character's fields from a token stream, in encoding order.
pub open spec fn spec_parse_character(t: Seq<u64>, i: int) -> Option<(CharacterV, int)> {
    match spec_parse_str(t, i) {
        Some((name, i1)) => match spec_parse_race(t, i1) {
            Some((race, i2)) => match spec_parse_class(t, i2) {
                Some((class, i3)) => match spec_parse_u8(t, i3) {
                    Some((level, i4)) => match spec_parse_u32(t, i4) {
                        Some((current_xp, i5)) => match spec_parse_scores(t, i5) {
                            Some((stats, i6)) => match spec_parse_u16(t, i6) {
                                Some((max_hp, i7)) => match spec_parse_u16(t, i7) {
                                    Some((current_hp, i8)) => match spec_parse_skills(t, i8) {
                                        Some((skills, i9)) => match spec_parse_armors(t, i9) {
                                            Some((armor, i10)) => match spec_parse_weapons(
                                                t,
                                                i10,
                                            ) {
                                                Some((weapons, i11)) => match spec_parse_u32(
                                                    t,
                                                    i11,
                                                ) {
                                                    Some((current_load, i12)) => match
                                                        spec_parse_moneys(t, i12) {
                                                        Some((current_money, i13)) => Some(
                                                            (
                                                                CharacterV {
                                                                    name,
                                                                    race,
                                                                    class,
                                                                    level,
                                                                    current_xp,
                                                                    stats,
                                                                    max_hp,
                                                                    current_hp,
                                                                    skills,
                                                                    armor,
                                                                    weapons,
                                                                    current_load,
                                                                    current_money,
                                                                },
                                                                i13,
                                                            ),
                                                        ),
                                                        None => None,
                                                    },
                                                    None => None,
                                                },
                                                None => None,
                                            },
                                            None => None,
                                        },
                                        None => None,
                                    },
                                    None => None,
                                },
                                None => None,
                            },
                            None => None,
                        },
                        None => None,
                    },
                    None => None,
                },
                None => None,
            },
            None => None,
        },
        None => None,
    }
}

/// An encoded character parses back to it, field for field.
#[verifier::rlimit(100)]
proof fn lemma_parse_character(t: Seq<u64>, i: int, c: CharacterV)
    requires
        begins_at(t, i, spec_enc_character(c)),
        wf_record(c),
    ensures
        spec_parse_character(t, i) == Some((c, i + spec_enc_character(c).len())),
{
    let p1 = enc_str(c.name);
    let p2 = seq![race_tag(c.race)];
    let p3 = seq![class_tag(c.class)];
    let p4 = enc_u8(c.level);
    let p5 = enc_u32(c.current_xp);
    let p6 = enc_scores(c.stats);
    let p7 = enc_u16(c.max_hp);
    let p8 = enc_u16(c.current_hp);
    let p9 = enc_skills(c.skills);
    let p10 = enc_armors(c.armor);
    let p11 = enc_weapons(c.weapons);
    let p12 = enc_u32(c.current_load);
    let p13 = enc_moneys(c.current_money);
    lemma_begins_split(t, i, p1 + p2 + p3 + p4 + p5 + p6 + p7 + p8 + p9 + p10 + p11 + p12, p13);
    lemma_begins_split(t, i, p1 + p2 + p3 + p4 + p5 + p6 + p7 + p8 + p9 + p10 + p11, p12);
    lemma_begins_split(t, i, p1 + p2 + p3 + p4 + p5 + p6 + p7 + p8 + p9 + p10, p11);
    lemma_begins_split(t, i, p1 + p2 + p3 + p4 + p5 + p6 + p7 + p8 + p9, p10);
    lemma_begins_split(t, i, p1 + p2 + p3 + p4 + p5 + p6 + p7 + p8, p9);
    lemma_begins_split(t, i, p1 + p2 + p3 + p4 + p5 + p6 + p7, p8);
    lemma_begins_split(t, i, p1 + p2 + p3 + p4 + p5 + p6, p7);
    lemma_begins_split(t, i, p1 + p2 + p3 + p4 + p5, p6);
    lemma_begins_split(t, i, p1 + p2 + p3 + p4, p5);
    lemma_begins_split(t, i, p1 + p2 + p3, p4);
    lemma_begins_split(t, i, p1 + p2, p3);
    lemma_begins_split(t, i, p1, p2);
    let i1 = i + p1.len();
    lemma_parse_str(t, i, c.name);
    lemma_parse_race(t, i1, c.race);
    lemma_parse_class(t, i1 + 1, c.class);
    lemma_parse_u8(t, i1 + 2, c.level);
    lemma_parse_u32(t, i1 + 3, c.current_xp);
    lemma_parse_scores(t, i1 + 4, c.stats);
    lemma_parse_u16(t, i1 + 10, c.max_hp);
    lemma_parse_u16(t, i1 + 11, c.current_hp);
    let i9 = i1 + 12;
    lemma_parse_skills(t, i9, c.skills);
    let i10 = i9 + p9.len();
    lemma_parse_armors(t, i10, c.armor);
    let i11 = i10 + p10.len();
    lemma_parse_weapons(t, i11, c.weapons);
    let i12 = i11 + p11.len();
    lemma_parse_u32(t, i12, c.current_load);
    lemma_parse_moneys(t, i12 + 1, c.current_money);
}

/// The round trip of the persisted record format: every well-formed
/// character value, encoded and parsed back, is reproduced identically in
/// every field, enumeration variants and weights included, with the whole
/// stream consumed. Values held in real strings and vectors are always
/// well-formed: their lengths fit the record's length tokens.
pub proof fn lemma_record_round_trip(c: CharacterV)
    requires
        wf_record(c),
    ensures
        spec_parse_character(spec_enc_character(c), 0) == Some(
            (c, spec_enc_character(c).len() as int),
        ),
{
    let t = spec_enc_character(c);
    assert(begins_at(t, 0, t));
    lemma_parse_character(t, 0, c);
}

// ---------------------------------------------------------------------------
// Executable tag conversions.
// ---------------------------------------------------------------------------

/// The tag token of a race.
fn race_tag_of(x: Race) -> (r: u64)
    ensures
        r == race_tag(x),
{
    match x {
        Race::Human => 0,
        Race::Elf => 1,
        Race::HalfOrc => 2,
        Race::HalfElf => 3,
        Race::Halfling => 4,
        Race::Gnome => 5,
        Race::Dwarf => 6,
        Race::Dragonborn => 7,
        Race::Tiefling => 8,
    }
}

/// The race a tag token names.
fn race_from_tag(v: u64) -> (r: Option<Race>)
    ensures
        r == race_of_tag(v),
{
    match v {
        0 => Some(Race::Human),
        1 => Some(Race::Elf),
        2 => Some(Race::HalfOrc),
        3 => Some(Race::HalfElf),
        4 => Some(Race::Halfling),
        5 => Some(Race::Gnome),
        6 => Some(Race::Dwarf),
        7 => Some(Race::Dragonborn),
        8 => Some(Race::Tiefling),
        _ => None,
    }
}

/// The tag token of a class.
fn class_tag_of(x: Class) -> (r: u64)
    ensures
        r == class_tag(x),
{
    match x {
        Class::Barbarian => 0,
        Class::Bard => 1,
        Class::Cleric => 2,
        Class::Druid => 3,
        Class::Fighter => 4,
        Class::Monk => 5,
        Class::Paladin => 6,
        Class::Ranger => 7,
        Class::Rogue => 8,
        Class::Sorcerer => 9,
        Class::Warlock => 10,
        Class::Wizard => 11,
    }
}

/// The class a tag token names.
fn class_from_tag(v: u64) -> (r: Option<Class>)
    ensures
        r == class_of_tag(v),
{
    match v {
        0 => Some(Class::Barbarian),
        1 => Some(Class::Bard),
        2 => Some(Class::Cleric),
        3 => Some(Class::Druid),
        4 => Some(Class::Fighter),
        5 => Some(Class::Monk),
        6 => Some(Class::Paladin),
        7 => Some(Class::Ranger),
        8 => Some(Class::Rogue),
        9 => Some(Class::Sorcerer),
        10 => Some(Class::Warlock),
        11 => Some(Class::Wizard),
        _ => None,
    }
}

/// The tag token of a skill.
fn skill_tag_of(x: Skill) -> (r: u64)
    ensures
        r == skill_tag(x),
{
    match x {
        Skill::Athletics => 0,
        Skill::Acrobatics => 1,
        Skill::SleightOfHand => 2,
        Skill::Stealth => 3,
        Skill::Arcana => 4,
        Skill::History => 5,
        Skill::Investigation => 6,
        Skill::Nature => 7,
        Skill::Religion => 8,
        Skill::AnimalHandling => 9,
        Skill::Insight => 10,
        Skill::Medicine => 11,
        Skill::Perception => 12,
        Skill::Survival => 13,
        Skill::Deception => 14,
        Skill::Intimidation => 15,
        Skill::Performance => 16,
        Skill::Persuasion => 17,
    }
}

/// The skill a tag token names.
fn skill_from_tag(v: u64) -> (r: Option<Skill>)
    ensures
        r == skill_of_tag(v),
{
    match v {
        0 => Some(Skill::Athletics),
        1 => Some(Skill::Acrobatics),
        2 => Some(Skill::SleightOfHand),
        3 => Some(Skill::Stealth),
        4 => Some(Skill::Arcana),
        5 => Some(Skill::History),
        6 => Some(Skill::Investigation),
        7 => Some(Skill::Nature),
        8 => Some(Skill::Religion),
        9 => Some(Skill::AnimalHandling),
        10 => Some(Skill::Insight),
        11 => Some(Skill::Medicine),
        12 => Some(Skill::Perception),
        13 => Some(Skill::Survival),
        14 => Some(Skill::Deception),
        15 => Some(Skill::Intimidation),
        16 => Some(Skill::Performance),
        17 => Some(Skill::Persuasion),
        _ => None,
    }
}

/// The tag token of a weapon type.
fn weapon_type_tag_of(x: WeaponType) -> (r: u64)
    ensures
        r == weapon_type_tag(x),
{
    match x {
        WeaponType::Simple => 0,
        WeaponType::Martial => 1,
    }
}

/// The weapon type a tag token names.
fn weapon_type_from_tag(v: u64) -> (r: Option<WeaponType>)
    ensures
        r == weapon_type_of_tag(v),
{
    match v {
        0 => Some(WeaponType::Simple),
        1 => Some(WeaponType::Martial),
        _ => None,
    }
}

/// The tag token of a weapon range.
fn weapon_range_tag_of(x: WeaponRange) -> (r: u64)
    ensures
        r == weapon_range_tag(x),
{
    match x {
        WeaponRange::Melee => 0,
        WeaponRange::Ranged => 1,
    }
}

/// The weapon range a tag token names.
fn weapon_range_from_tag(v: u64) -> (r: Option<WeaponRange>)
    ensures
        r == weapon_range_of_tag(v),
{
    match v {
        0 => Some(WeaponRange::Melee),
        1 => Some(WeaponRange::Ranged),
        _ => None,
    }
}

/// The tag token of a damage type.
fn damage_type_tag_of(x: DamageType) -> (r: u64)
    ensures
        r == damage_type_tag(x),
{
    match x {
        DamageType::Piercing => 0,
        DamageType::Slashing => 1,
        DamageType::Bludgeoning => 2,
    }
}

/// The damage type a tag token names.
fn damage_type_from_tag(v: u64) -> (r: Option<DamageType>)
    ensures
        r == damage_type_of_tag(v),
{
    match v {
        0 => Some(DamageType::Piercing),
        1 => Some(DamageType::Slashing),
        2 => Some(DamageType::Bludgeoning),
        _ => None,
    }
}

/// The tag token of an armor type.
fn armor_type_tag_of(x: ArmorType) -> (r: u64)
    ensures
        r == armor_type_tag(x),
{
    match x {
        ArmorType::Light => 0,
        ArmorType::Medium => 1,
        ArmorType::Heavy => 2,
    }
}

/// The armor type a tag token names.
fn armor_type_from_tag(v: u64) -> (r: Option<ArmorType>)
    ensures
        r == armor_type_of_tag(v),
{
    match v {
        0 => Some(ArmorType::Light),
        1 => Some(ArmorType::Medium),
        2 => Some(ArmorType::Heavy),
        _ => None,
    }
}

/// The tag token of a coin type.
fn money_type_tag_of(x: MoneyType) -> (r: u64)
    ensures
        r == money_type_tag(x),
{
    match x {
        MoneyType::Copper => 0,
        MoneyType::Silver => 1,
        MoneyType::Gold => 2,
    }
}

/// The coin type a tag token names.
fn money_type_from_tag(v: u64) -> (r: Option<MoneyType>)
    ensures
        r == money_type_of_tag(v),
{
    match v {
        0 => Some(MoneyType::Copper),
        1 => Some(MoneyType::Silver),
        2 => Some(MoneyType::Gold),
        _ => None,
    }
}

// ---------------------------------------------------------------------------
// Snoc forms of the list encoders, for loop invariants.
// ---------------------------------------------------------------------------

/// Appending a skill appends its tag to the encoding.
proof fn lemma_skill_items_snoc(s: Seq<Skill>, x: Skill)
    ensures
        enc_skill_items(s.push(x)) == enc_skill_items(s) + seq![skill_tag(x)],
    decreases s.len(),
{
    if s.len() == 0 {
        assert(s.push(x)[0] == x);
        assert(s.push(x).drop_first() =~= Seq::<Skill>::empty());
        assert(enc_skill_items(s) =~= Seq::<u64>::empty());
        assert(enc_skill_items(s.push(x).drop_first()) =~= Seq::<u64>::empty());
        assert(enc_skill_items(s.push(x)) =~= enc_skill_items(s) + seq![skill_tag(x)]);
    } else {
        assert(s.push(x)[0] == s[0]);
        assert(s.push(x).drop_first() =~= s.drop_first().push(x));
        lemma_skill_items_snoc(s.drop_first(), x);
        assert(enc_skill_items(s.push(x)) =~= enc_skill_items(s) + seq![skill_tag(x)]);
    }
}

/// Appending a money entry appends its tokens to the encoding.
proof fn lemma_money_items_snoc(s: Seq<Money>, x: Money)
    ensures
        enc_money_items(s.push(x)) == enc_money_items(s) + enc_money(x),
    decreases s.len(),
{
    if s.len() == 0 {
        assert(s.push(x)[0] == x);
        assert(s.push(x).drop_first() =~= Seq::<Money>::empty());
        assert(enc_money_items(s) =~= Seq::<u64>::empty());
        assert(enc_money_items(s.push(x).drop_first()) =~= Seq::<u64>::empty());
        assert(enc_money_items(s.push(x)) =~= enc_money_items(s) + enc_money(x));
    } else {
        assert(s.push(x)[0] == s[0]);
        assert(s.push(x).drop_first() =~= s.drop_first().push(x));
        lemma_money_items_snoc(s.drop_first(), x);
        assert(enc_money_items(s.push(x)) =~= enc_money_items(s) + enc_money(x));
    }
}

/// Appending an armor entry appends its tokens to the encoding.
proof fn lemma_armor_items_snoc(s: Seq<ArmorV>, x: ArmorV)
    ensures
        enc_armor_items(s.push(x)) == enc_armor_items(s) + enc_armor(x),
    decreases s.len(),
{
    if s.len() == 0 {
        assert(s.push(x)[0] == x);
        assert(s.push(x).drop_first() =~= Seq::<ArmorV>::empty());
        assert(enc_armor_items(s) =~= Seq::<u64>::empty());
        assert(enc_armor_items(s.push(x).drop_first()) =~= Seq::<u64>::empty());
        assert(enc_armor_items(s.push(x)) =~= enc_armor_items(s) + enc_armor(x));
    } else {
        assert(s.push(x)[0] == s[0]);
        assert(s.push(x).drop_first() =~= s.drop_first().push(x));
        lemma_armor_items_snoc(s.drop_first(), x);
        assert(enc_armor_items(s.push(x)) =~= enc_armor_items(s) + enc_armor(x));
    }
}

/// Appending a weapon entry appends its tokens to the encoding.
proof fn lemma_weapon_items_snoc(s: Seq<WeaponV>, x: WeaponV)
    ensures
        enc_weapon_items(s.push(x)) == enc_weapon_items(s) + enc_weapon(x),
    decreases s.len(),
{
    if s.len() == 0 {
        assert(s.push(x)[0] == x);
        assert(s.push(x).drop_first() =~= Seq::<WeaponV>::empty());
        assert(enc_weapon_items(s) =~= Seq::<u64>::empty());
        assert(enc_weapon_items(s.push(x).drop_first()) =~= Seq::<u64>::empty());
        assert(enc_weapon_items(s.push(x)) =~= enc_weapon_items(s) + enc_weapon(x));
    } else {
        assert(s.push(x)[0] == s[0]);
        assert(s.push(x).drop_first() =~= s.drop_first().push(x));
        lemma_weapon_items_snoc(s.drop_first(), x);
        assert(enc_weapon_items(s.push(x)) =~= enc_weapon_items(s) + enc_weapon(x));
    }
}

/// Appending a string appends its tokens to the encoding.
proof fn lemma_str_items_snoc(s: Seq<Seq<char>>, x: Seq<char>)
    ensures
        enc_str_items(s.push(x)) == enc_str_items(s) + enc_str(x),
    decreases s.len(),
{
    if s.len() == 0 {
        assert(s.push(x)[0] == x);
        assert(s.push(x).drop_first() =~= Seq::<Seq<char>>::empty());
        assert(enc_str_items(s) =~= Seq::<u64>::empty());
        assert(enc_str_items(s.push(x).drop_first()) =~= Seq::<u64>::empty());
        assert(enc_str_items(s.push(x)) =~= enc_str_items(s) + enc_str(x));
    } else {
        assert(s.push(x)[0] == s[0]);
        assert(s.push(x).drop_first() =~= s.drop_first().push(x));
        lemma_str_items_snoc(s.drop_first(), x);
        assert(enc_str_items(s.push(x)) =~= enc_str_items(s) + enc_str(x));
    }
}

// ---------------------------------------------------------------------------
// Encoding: append each field's tokens to the stream.
// ---------------------------------------------------------------------------

/// Append a string's tokens: its length, then its characters.
fn push_str_tokens(out: &mut Vec<u64>, s: &str)
    ensures
        final(out)@ == old(out)@ + enc_str(s@),
{
    let n = s.unicode_len();
    out.push(n as u64);
    let mut i: usize = 0;
    while i < n
        invariant
            n == s@.len(),
            i <= n,
            out@ == old(out)@ + seq![s@.len() as u64] + enc_chars(s@).subrange(0, i as int),
        decreases n - i,
    {
        let c = s.get_char(i);
        out.push(c as u64);
        proof {
            assert(enc_chars(s@).subrange(0, i as int).push(c as u64) =~= enc_chars(
                s@,
            ).subrange(0, i as int + 1));
        }
        i = i + 1;
    }
    proof {
        assert(enc_chars(s@).subrange(0, s@.len() as int) =~= enc_chars(s@));
        assert(final(out)@ =~= old(out)@ + enc_str(s@));
    }
}

/// Append the six ability-score tokens.
fn push_scores(out: &mut Vec<u64>, stats: &AbilityScores)
    ensures
        final(out)@ == old(out)@ + enc_scores(stats@),
{
    out.push(stats.get(Abilities::Strength) as u64);
    out.push(stats.get(Abilities::Dexterity) as u64);
    out.push(stats.get(Abilities::Constitution) as u64);
    out.push(stats.get(Abilities::Intelligence) as u64);
    out.push(stats.get(Abilities::Wisdom) as u64);
    out.push(stats.get(Abilities::Charisma) as u64);
    proof {
        assert(final(out)@ =~= old(out)@ + enc_scores(stats@));
    }
}

/// Append the skill list's tokens: its length, then one tag per skill.
fn push_skills(out: &mut Vec<u64>, skills: &Vec<Skill>)
    ensures
        final(out)@ == old(out)@ + enc_skills(skills@),
{
    out.push(skills.len() as u64);
    let mut i: usize = 0;
    while i < skills.len()
        invariant
            i <= skills.len(),
            out@ == old(out)@ + seq![skills@.len() as u64] + enc_skill_items(
                skills@.subrange(0, i as int),
            ),
        decreases skills.len() - i,
    {
        out.push(skill_tag_of(skills[i]));
        proof {
            lemma_skill_items_snoc(skills@.subrange(0, i as int), skills@[i as int]);
            assert(skills@.subrange(0, i as int).push(skills@[i as int]) =~= skills@.subrange(
                0,
                i as int + 1,
            ));
        }
        i = i + 1;
    }
    proof {
        assert(skills@.subrange(0, skills@.len() as int) =~= skills@);
        assert(final(out)@ =~= old(out)@ + enc_skills(skills@));
    }
}

/// Append one money entry's tokens.
fn push_money(out: &mut Vec<u64>, m: &Money)
    ensures
        final(out)@ == old(out)@ + enc_money(*m),
{
    out.push(money_type_tag_of(m.coin_type));
    out.push(m.amount as u64);
    proof {
        assert(final(out)@ =~= old(out)@ + enc_money(*m));
    }
}

/// Append the money list's tokens: its length, then its entries.
fn push_moneys(out: &mut Vec<u64>, money: &Vec<Money>)
    ensures
        final(out)@ == old(out)@ + enc_moneys(money@),
{
    out.push(money.len() as u64);
    let mut i: usize = 0;
    while i < money.len()
        invariant
            i <= money.len(),
            out@ == old(out)@ + seq![money@.len() as u64] + enc_money_items(
                money@.subrange(0, i as int),
            ),
        decreases money.len() - i,
    {
        push_money(out, &money[i]);
        proof {
            lemma_money_items_snoc(money@.subrange(0, i as int), money@[i as int]);
            assert(money@.subrange(0, i as int).push(money@[i as int]) =~= money@.subrange(
                0,
                i as int + 1,
            ));
        }
        i = i + 1;
    }
    proof {
        assert(money@.subrange(0, money@.len() as int) =~= money@);
        assert(final(out)@ =~= old(out)@ + enc_moneys(money@));
    }
}

/// Append one armor entry's tokens.
fn push_armor_tokens(out: &mut Vec<u64>, a: &Armor)
    ensures
        final(out)@ == old(out)@ + enc_armor(a@),
{
    push_str_tokens(out, a.name.as_str());
    out.push(armor_type_tag_of(a.armor_type));
    out.push(a.base_ac as u64);
    match a.dex_bonus_max {
        None => out.push(0),
        Some(v) => {
            out.push(1);
            out.push((v as i16 + 128) as u64);
        },
    }
    out.push(a.weight as u64);
    out.push(a.price as u64);
    out.push(
        if a.stealth_disadvantage {
            1
        } else {
            0
        },
    );
    proof {
        assert(final(out)@ =~= old(out)@ + enc_armor(a@));
    }
}

/// Append the armor list's tokens: its length, then its entries.
fn push_armors(out: &mut Vec<u64>, armor: &Vec<Armor>)
    ensures
        final(out)@ == old(out)@ + enc_armors(armor@.map_values(|a: Armor| a@)),
{
    let ghost entries = armor@.map_values(|a: Armor| a@);
    out.push(armor.len() as u64);
    let mut i: usize = 0;
    while i < armor.len()
        invariant
            i <= armor.len(),
            entries == armor@.map_values(|a: Armor| a@),
            entries.len() == armor.len(),
            out@ == old(out)@ + seq![entries.len() as u64] + enc_armor_items(
                entries.subrange(0, i as int),
            ),
        decreases armor.len() - i,
    {
        push_armor_tokens(out, &armor[i]);
        proof {
            lemma_armor_items_snoc(entries.subrange(0, i as int), entries[i as int]);
            assert(entries.subrange(0, i as int).push(entries[i as int]) =~= entries.subrange(
                0,
                i as int + 1,
            ));
        }
        i = i + 1;
    }
    proof {
        assert(entries.subrange(0, entries.len() as int) =~= entries);
        assert(final(out)@ =~= old(out)@ + enc_armors(entries));
    }
}

/// Append a string list's tokens: its length, then its entries.
fn push_strs(out: &mut Vec<u64>, strs: &Vec<String>)
    ensures
        final(out)@ == old(out)@ + enc_strs(strs@.map_values(|p: String| p@)),
{
    let ghost entries = strs@.map_values(|p: String| p@);
    out.push(strs.len() as u64);
    let mut i: usize = 0;
    while i < strs.len()
        invariant
            i <= strs.len(),
            entries == strs@.map_values(|p: String| p@),
            entries.len() == strs.len(),
            out@ == old(out)@ + seq![entries.len() as u64] + enc_str_items(
                entries.subrange(0, i as int),
            ),
        decreases strs.len() - i,
    {
        push_str_tokens(out, strs[i].as_str());
        proof {
            lemma_str_items_snoc(entries.subrange(0, i as int), entries[i as int]);
            assert(entries.subrange(0, i as int).push(entries[i as int]) =~= entries.subrange(
                0,
                i as int + 1,
            ));
        }
        i = i + 1;
    }
    proof {
        assert(entries.subrange(0, entries.len() as int) =~= entries);
        assert(final(out)@ =~= old(out)@ + enc_strs(entries));
    }
}

/// Append one weapon entry's tokens.
fn push_weapon_tokens(out: &mut Vec<u64>, w: &Weapon)
    ensures
        final(out)@ == old(out)@ + enc_weapon(w@),
{
    push_str_tokens(out, w.name.as_str());
    out.push(weapon_type_tag_of(w.weapon_type));
    out.push(weapon_range_tag_of(w.weapon_range));
    push_str_tokens(out, w.damage.as_str());
    out.push(damage_type_tag_of(w.damage_type));
    out.push(w.weight as u64);
    out.push(w.price as u64);
    push_strs(out, &w.properties);
    proof {
        assert(final(out)@ =~= old(out)@ + enc_weapon(w@));
    }
}

/// Append the weapon list's tokens: its length, then its entries.
fn push_weapons(out: &mut Vec<u64>, weapons: &Vec<Weapon>)
    ensures
        final(out)@ == old(out)@ + enc_weapons(weapons@.map_values(|w: Weapon| w@)),
{
    let ghost entries = weapons@.map_values(|w: Weapon| w@);
    out.push(weapons.len() as u64);
    let mut i: usize = 0;
    while i < weapons.len()
        invariant
            i <= weapons.len(),
            entries == weapons@.map_values(|w: Weapon| w@),
            entries.len() == weapons.len(),
            out@ == old(out)@ + seq![entries.len() as u64] + enc_weapon_items(
                entries.subrange(0, i as int),
            ),
        decreases weapons.len() - i,
    {
        push_weapon_tokens(out, &weapons[i]);
        proof {
            lemma_weapon_items_snoc(entries.subrange(0, i as int), entries[i as int]);
            assert(entries.subrange(0, i as int).push(entries[i as int]) =~= entries.subrange(
                0,
                i as int + 1,
            ));
        }
        i = i + 1;
    }
    proof {
        assert(entries.subrange(0, entries.len() as int) =~= entries);
        assert(final(out)@ =~= old(out)@ + enc_weapons(entries));
    }
}

/// A character as a token stream: its persisted record.
pub fn encode_character(c: &Character) -> (out: Vec<u64>)
    ensures
        out@ == spec_enc_character(c@),
{
    let mut out: Vec<u64> = Vec::new();
    push_str_tokens(&mut out, c.name.as_str());
    out.push(race_tag_of(c.race));
    out.push(class_tag_of(c.class));
    out.push(c.level as u64);
    out.push(c.current_xp as u64);
    push_scores(&mut out, &c.stats);
    out.push(c.max_hp as u64);
    out.push(c.current_hp as u64);
    push_skills(&mut out, &c.skills);
    push_armors(&mut out, &c.armor);
    push_weapons(&mut out, &c.weapons);
    out.push(c.current_load as u64);
    push_moneys(&mut out, &c.current_money);
    proof {
        assert(out@ =~= spec_enc_character(c@));
    }
    out
}

// ---------------------------------------------------------------------------
// Decoding: read each field back off the stream.
// ---------------------------------------------------------------------------

/// Relies on `char::from_u32`: a character for every Unicode scalar value
/// (below the surrogate range at 0xD800, or from 0xE000 up to the last code
/// point 0x10FFFF) with exactly that code point, and nothing for any other
/// value.
#[verifier::external_body]
fn char_from_u32(v: u32) -> (r: Option<char>)
    ensures
        match r {
            Some(c) => c as u32 == v,
            None => !(v < 0xD800 || (0xE000 <= v <= 0x10FFFF)),
        },
{
    char::from_u32(v)
}

/// Relies on `String::from_iter` over characters (through `collect`): the
/// collected string holds exactly the characters of the vector, in order.
#[verifier::external_body]
fn chars_to_string(chars: &Vec<char>) -> (r: String)
    ensures
        r@ == chars@,
{
    chars.iter().collect()
}

/// The next token, when one is left.
fn read_token(t: &Vec<u64>, i: usize) -> (r: Option<(u64, usize)>)
    ensures
        match r {
            Some((v, j)) => spec_parse_token(t@, i as int) == Some((v, j as int)) && j <= t.len(),
            None => spec_parse_token(t@, i as int) is None,
        },
{
    if i < t.len() {
        Some((t[i], i + 1))
    } else {
        None
    }
}

/// Read one token as a `u8`.
fn read_u8(t: &Vec<u64>, i: usize) -> (r: Option<(u8, usize)>)
    ensures
        match r {
            Some((v, j)) => spec_parse_u8(t@, i as int) == Some((v, j as int)) && j <= t.len(),
            None => spec_parse_u8(t@, i as int) is None,
        },
{
    match read_token(t, i) {
        Some((v, j)) => if v <= 255 {
            Some((v as u8, j))
        } else {
            None
        },
        None => None,
    }
}

/// Read one token as a `u16`.
fn read_u16(t: &Vec<u64>, i: usize) -> (r: Option<(u16, usize)>)
    ensures
        match r {
            Some((v, j)) => spec_parse_u16(t@, i as int) == Some((v, j as int)) && j <= t.len(),
            None => spec_parse_u16(t@, i as int) is None,
        },
{
    match read_token(t, i) {
        Some((v, j)) => if v <= 0xFFFF {
            Some((v as u16, j))
        } else {
            None
        },
        None => None,
    }
}

/// Read one token as a `u32`.
fn read_u32(t: &Vec<u64>, i: usize) -> (r: Option<(u32, usize)>)
    ensures
        match r {
            Some((v, j)) => spec_parse_u32(t@, i as int) == Some((v, j as int)) && j <= t.len(),
            None => spec_parse_u32(t@, i as int) is None,
        },
{
    match read_token(t, i) {
        Some((v, j)) => if v <= 0xFFFFFFFF {
            Some((v as u32, j))
        } else {
            None
        },
        None => None,
    }
}

/// Read one token as an `i8`, shifted back down by 128.
fn read_i8(t: &Vec<u64>, i: usize) -> (r: Option<(i8, usize)>)
    ensures
        match r {
            Some((v, j)) => spec_parse_i8(t@, i as int) == Some((v, j as int)) && j <= t.len(),
            None => spec_parse_i8(t@, i as int) is None,
        },
{
    match read_token(t, i) {
        Some((v, j)) => if v <= 255 {
            Some(((v as i16 - 128) as i8, j))
        } else {
            None
        },
        None => None,
    }
}

/// Read one token as a flag.
fn read_bool(t: &Vec<u64>, i: usize) -> (r: Option<(bool, usize)>)
    ensures
        match r {
            Some((v, j)) => spec_parse_bool(t@, i as int) == Some((v, j as int)) && j <= t.len(),
            None => spec_parse_bool(t@, i as int) is None,
        },
{
    match read_token(t, i) {
        Some((v, j)) => if v == 0 {
            Some((false, j))
        } else if v == 1 {
            Some((true, j))
        } else {
            None
        },
        None => None,
    }
}

/// Read one token as a character.
fn read_char(t: &Vec<u64>, i: usize) -> (r: Option<(char, usize)>)
    ensures
        match r {
            Some((c, j)) => spec_parse_char(t@, i as int) == Some((c, j as int)) && j <= t.len(),
            None => spec_parse_char(t@, i as int) is None,
        },
{
    match read_token(t, i) {
        Some((v, j)) => {
            if v < 0xD800 || (0xE000 <= v && v <= 0x10FFFF) {
                match char_from_u32(v as u32) {
                    Some(c) => {
                        proof {
                            assert(v as u32 == v);
                            vstd::utf8::char_u32_cast(c, v as u32);
                        }
                        Some((c, j))
                    },
                    None => None,
                }
            } else {
                None
            }
        },
        None => None,
    }
}

/// Read a length token and that many characters as a string.
#[verifier::loop_isolation(false)]
fn read_str(t: &Vec<u64>, i: usize) -> (r: Option<(String, usize)>)
    ensures
        match r {
            Some((s, j)) => spec_parse_str(t@, i as int) == Some((s@, j as int)) && j <= t.len(),
            None => spec_parse_str(t@, i as int) is None,
        },
{
    let (n, start) = match read_token(t, i) {
        Some(p) => p,
        None => {
            return None;
        },
    };
    let mut chars: Vec<char> = Vec::new();
    let mut cur = start;
    let mut k: u64 = 0;
    while k < n
        invariant
            k <= n,
            cur <= t.len(),
            spec_parse_chars(t@, start as int, n as nat) == (match spec_parse_chars(
                t@,
                cur as int,
                (n - k) as nat,
            ) {
                Some((s2, e)) => Some((chars@ + s2, e)),
                None => None,
            }),
        decreases n - k,
    {
        match read_char(t, cur) {
            Some((c, j)) => {
                proof {
                    match spec_parse_chars(t@, j as int, (n - k - 1) as nat) {
                        Some(p) => {
                            assert(chars@ + (seq![c] + p.0) =~= chars@.push(c) + p.0);
                        },
                        None => {},
                    }
                }
                chars.push(c);
                cur = j;
                k = k + 1;
            },
            None => {
                proof {
                    assert(spec_parse_chars(t@, cur as int, (n - k) as nat) is None);
                }
                return None;
            },
        }
    }
    proof {
        assert(chars@ + Seq::<char>::empty() =~= chars@);
    }
    Some((chars_to_string(&chars), cur))
}

/// Read one token as a race.
fn read_race(t: &Vec<u64>, i: usize) -> (r: Option<(Race, usize)>)
    ensures
        match r {
            Some((x, j)) => spec_parse_race(t@, i as int) == Some((x, j as int)) && j <= t.len(),
            None => spec_parse_race(t@, i as int) is None,
        },
{
    match read_token(t, i) {
        Some((v, j)) => match race_from_tag(v) {
            Some(x) => Some((x, j)),
            None => None,
        },
        None => None,
    }
}

/// Read one token as a class.
fn read_class(t: &Vec<u64>, i: usize) -> (r: Option<(Class, usize)>)
    ensures
        match r {
            Some((x, j)) => spec_parse_class(t@, i as int) == Some((x, j as int)) && j <= t.len(),
            None => spec_parse_class(t@, i as int) is None,
        },
{
    match read_token(t, i) {
        Some((v, j)) => match class_from_tag(v) {
            Some(x) => Some((x, j)),
            None => None,
        },
        None => None,
    }
}

/// Read one token as a skill.
fn read_skill(t: &Vec<u64>, i: usize) -> (r: Option<(Skill, usize)>)
    ensures
        match r {
            Some((x, j)) => spec_parse_skill(t@, i as int) == Some((x, j as int)) && j <= t.len(),
            None => spec_parse_skill(t@, i as int) is None,
        },
{
    match read_token(t, i) {
        Some((v, j)) => match skill_from_tag(v) {
            Some(x) => Some((x, j)),
            None => None,
        },
        None => None,
    }
}

/// Read a presence token, then an `i8` when present.
fn read_opt_i8(t: &Vec<u64>, i: usize) -> (r: Option<(Option<i8>, usize)>)
    ensures
        match r {
            Some((x, j)) => spec_parse_opt_i8(t@, i as int) == Some((x, j as int)) && j <= t.len(),
            None => spec_parse_opt_i8(t@, i as int) is None,
        },
{
    match read_token(t, i) {
        Some((v, j)) => {
            if v == 0 {
                Some((None, j))
            } else if v == 1 {
                match read_i8(t, j) {
                    Some((x, k)) => Some((Some(x), k)),
                    None => None,
                }
            } else {
                None
            }
        },
        None => None,
    }
}

/// Read six tokens as the six ability scores.
fn read_scores(t: &Vec<u64>, i: usize) -> (r: Option<(AbilityScores, usize)>)
    ensures
        match r {
            Some((v, j)) => spec_parse_scores(t@, i as int) == Some((v@, j as int)) && j
                <= t.len(),
            None => spec_parse_scores(t@, i as int) is None,
        },
{
    let (strength, i1) = match read_u8(t, i) {
        Some(p) => p,
        None => {
            return None;
        },
    };
    let (dexterity, i2) = match read_u8(t, i1) {
        Some(p) => p,
        None => {
            return None;
        },
    };
    let (constitution, i3) = match read_u8(t, i2) {
        Some(p) => p,
        None => {
            return None;
        },
    };
    let (intelligence, i4) = match read_u8(t, i3) {
        Some(p) => p,
        None => {
            return None;
        },
    };
    let (wisdom, i5) = match read_u8(t, i4) {
        Some(p) => p,
        None => {
            return None;
        },
    };
    let (charisma, i6) = match read_u8(t, i5) {
        Some(p) => p,
        None => {
            return None;
        },
    };
    Some(
        (
            AbilityScores::with_scores(
                strength,
                dexterity,
                constitution,
                intelligence,
                wisdom,
                charisma,
            ),
            i6,
        ),
    )
}

/// Read a length token and that many skill tags.
#[verifier::loop_isolation(false)]
fn read_skills(t: &Vec<u64>, i: usize) -> (r: Option<(Vec<Skill>, usize)>)
    ensures
        match r {
            Some((v, j)) => spec_parse_skills(t@, i as int) == Some((v@, j as int)) && j
                <= t.len(),
            None => spec_parse_skills(t@, i as int) is None,
        },
{
    let (n, start) = match read_token(t, i) {
        Some(p) => p,
        None => {
            return None;
        },
    };
    let mut items: Vec<Skill> = Vec::new();
    let mut cur = start;
    let mut k: u64 = 0;
    while k < n
        invariant
            k <= n,
            cur <= t.len(),
            spec_parse_skill_items(t@, start as int, n as nat) == (match spec_parse_skill_items(
                t@,
                cur as int,
                (n - k) as nat,
            ) {
                Some((s2, e)) => Some((items@ + s2, e)),
                None => None,
            }),
        decreases n - k,
    {
        match read_skill(t, cur) {
            Some((x, j)) => {
                proof {
                    match spec_parse_skill_items(t@, j as int, (n - k - 1) as nat) {
                        Some(p) => {
                            assert(items@ + (seq![x] + p.0) =~= items@.push(x) + p.0);
                        },
                        None => {},
                    }
                }
                items.push(x);
                cur = j;
                k = k + 1;
            },
            None => {
                proof {
                    assert(spec_parse_skill_items(t@, cur as int, (n - k) as nat) is None);
                }
                return None;
            },
        }
    }
    proof {
        assert(items@ + Seq::<Skill>::empty() =~= items@);
    }
    Some((items, cur))
}

/// Read one money entry.
fn read_money(t: &Vec<u64>, i: usize) -> (r: Option<(Money, usize)>)
    ensures
        match r {
            Some((m, j)) => spec_parse_money(t@, i as int) == Some((m, j as int)) && j <= t.len(),
            None => spec_parse_money(t@, i as int) is None,
        },
{
    let (v, j) = match read_token(t, i) {
        Some(p) => p,
        None => {
            return None;
        },
    };
    let coin_type = match money_type_from_tag(v) {
        Some(x) => x,
        None => {
            return None;
        },
    };
    match read_u32(t, j) {
        Some((amount, k)) => Some((Money { coin_type, amount }, k)),
        None => None,
    }
}

/// Read a length token and that many money entries.
#[verifier::loop_isolation(false)]
fn read_moneys(t: &Vec<u64>, i: usize) -> (r: Option<(Vec<Money>, usize)>)
    ensures
        match r {
            Some((v, j)) => spec_parse_moneys(t@, i as int) == Some((v@, j as int)) && j
                <= t.len(),
            None => spec_parse_moneys(t@, i as int) is None,
        },
{
    let (n, start) = match read_token(t, i) {
        Some(p) => p,
        None => {
            return None;
        },
    };
    let mut items: Vec<Money> = Vec::new();
    let mut cur = start;
    let mut k: u64 = 0;
    while k < n
        invariant
            k <= n,
            cur <= t.len(),
            spec_parse_money_items(t@, start as int, n as nat) == (match spec_parse_money_items(
                t@,
                cur as int,
                (n - k) as nat,
            ) {
                Some((s2, e)) => Some((items@ + s2, e)),
                None => None,
            }),
        decreases n - k,
    {
        match read_money(t, cur) {
            Some((x, j)) => {
                proof {
                    match spec_parse_money_items(t@, j as int, (n - k - 1) as nat) {
                        Some(p) => {
                            assert(items@ + (seq![x] + p.0) =~= items@.push(x) + p.0);
                        },
                        None => {},
                    }
                }
                items.push(x);
                cur = j;
                k = k + 1;
            },
            None => {
                proof {
                    assert(spec_parse_money_items(t@, cur as int, (n - k) as nat) is None);
                }
                return None;
            },
        }
    }
    proof {
        assert(items@ + Seq::<Money>::empty() =~= items@);
    }
    Some((items, cur))
}

/// Read one armor entry.
fn read_armor(t: &Vec<u64>, i: usize) -> (r: Option<(Armor, usize)>)
    ensures
        match r {
            Some((a, j)) => spec_parse_armor(t@, i as int) == Some((a@, j as int)) && j
                <= t.len(),
            None => spec_parse_armor(t@, i as int) is None,
        },
{
    let (name, i1) = match read_str(t, i) {
        Some(p) => p,
        None => {
            return None;
        },
    };
    let (tag, i2) = match read_token(t, i1) {
        Some(p) => p,
        None => {
            return None;
        },
    };
    let armor_type = match armor_type_from_tag(tag) {
        Some(x) => x,
        None => {
            return None;
        },
    };
    let (base_ac, i3) = match read_u8(t, i2) {
        Some(p) => p,
        None => {
            return None;
        },
    };
    let (dex_bonus_max, i4) = match read_opt_i8(t, i3) {
        Some(p) => p,
        None => {
            return None;
        },
    };
    let (weight, i5) = match read_u32(t, i4) {
        Some(p) => p,
        None => {
            return None;
        },
    };
    let (price, i6) = match read_u32(t, i5) {
        Some(p) => p,
        None => {
            return None;
        },
    };
    let (stealth_disadvantage, i7) = match read_bool(t, i6) {
        Some(p) => p,
        None => {
            return None;
        },
    };
    Some(
        (
            Armor { name, armor_type, base_ac, dex_bonus_max, weight, price, stealth_disadvantage },
            i7,
        ),
    )
}

/// Read a length token and that many armor entries.
#[verifier::loop_isolation(false)]
fn read_armors(t: &Vec<u64>, i: usize) -> (r: Option<(Vec<Armor>, usize)>)
    ensures
        match r {
            Some((v, j)) => spec_parse_armors(t@, i as int) == Some(
                (v@.map_values(|a: Armor| a@), j as int),
            ) && j <= t.len(),
            None => spec_parse_armors(t@, i as int) is None,
        },
{
    let (n, start) = match read_token(t, i) {
        Some(p) => p,
        None => {
            return None;
        },
    };
    let mut items: Vec<Armor> = Vec::new();
    let mut cur = start;
    let mut k: u64 = 0;
    while k < n
        invariant
            k <= n,
            cur <= t.len(),
            spec_parse_armor_items(t@, start as int, n as nat) == (match spec_parse_armor_items(
                t@,
                cur as int,
                (n - k) as nat,
            ) {
                Some((s2, e)) => Some((items@.map_values(|a: Armor| a@) + s2, e)),
                None => None,
            }),
        decreases n - k,
    {
        match read_armor(t, cur) {
            Some((x, j)) => {
                proof {
                    let mapped = items@.map_values(|a: Armor| a@);
                    match spec_parse_armor_items(t@, j as int, (n - k - 1) as nat) {
                        Some(p) => {
                            assert(mapped + (seq![x@] + p.0) =~= mapped.push(x@) + p.0);
                        },
                        None => {},
                    }
                    assert(items@.push(x).map_values(|a: Armor| a@) =~= mapped.push(x@));
                }
                items.push(x);
                cur = j;
                k = k + 1;
            },
            None => {
                proof {
                    assert(spec_parse_armor_items(t@, cur as int, (n - k) as nat) is None);
                }
                return None;
            },
        }
    }
    proof {
        assert(items@.map_values(|a: Armor| a@) + Seq::<ArmorV>::empty() =~= items@.map_values(
            |a: Armor| a@,
        ));
    }
    Some((items, cur))
}

/// Read a length token and that many strings.
#[verifier::loop_isolation(false)]
fn read_strs(t: &Vec<u64>, i: usize) -> (r: Option<(Vec<String>, usize)>)
    ensures
        match r {
            Some((v, j)) => spec_parse_strs(t@, i as int) == Some(
                (v@.map_values(|p: String| p@), j as int),
            ) && j <= t.len(),
            None => spec_parse_strs(t@, i as int) is None,
        },
{
    let (n, start) = match read_token(t, i) {
        Some(p) => p,
        None => {
            return None;
        },
    };
    let mut items: Vec<String> = Vec::new();
    let mut cur = start;
    let mut k: u64 = 0;
    while k < n
        invariant
            k <= n,
            cur <= t.len(),
            spec_parse_str_items(t@, start as int, n as nat) == (match spec_parse_str_items(
                t@,
                cur as int,
                (n - k) as nat,
            ) {
                Some((s2, e)) => Some((items@.map_values(|p: String| p@) + s2, e)),
                None => None,
            }),
        decreases n - k,
    {
        match read_str(t, cur) {
            Some((x, j)) => {
                proof {
                    let mapped = items@.map_values(|p: String| p@);
                    match spec_parse_str_items(t@, j as int, (n - k - 1) as nat) {
                        Some(p) => {
                            assert(mapped + (seq![x@] + p.0) =~= mapped.push(x@) + p.0);
                        },
                        None => {},
                    }
                    assert(items@.push(x).map_values(|p: String| p@) =~= mapped.push(x@));
                }
                items.push(x);
                cur = j;
                k = k + 1;
            },
            None => {
                proof {
                    assert(spec_parse_str_items(t@, cur as int, (n - k) as nat) is None);
                }
                return None;
            },
        }
    }
    proof {
        assert(items@.map_values(|p: String| p@) + Seq::<Seq<char>>::empty() =~= items@.map_values(
            |p: String| p@,
        ));
    }
    Some((items, cur))
}

/// Read one weapon entry.
fn read_weapon(t: &Vec<u64>, i: usize) -> (r: Option<(Weapon, usize)>)
    ensures
        match r {
            Some((w, j)) => spec_parse_weapon(t@, i as int) == Some((w@, j as int)) && j
                <= t.len(),
            None => spec_parse_weapon(t@, i as int) is None,
        },
{
    let (name, i1) = match read_str(t, i) {
        Some(p) => p,
        None => {
            return None;
        },
    };
    let (tag1, i2) = match read_token(t, i1) {
        Some(p) => p,
        None => {
            return None;
        },
    };
    let weapon_type = match weapon_type_from_tag(tag1) {
        Some(x) => x,
        None => {
            return None;
        },
    };
    let (tag2, i3) = match read_token(t, i2) {
        Some(p) => p,
        None => {
            return None;
        },
    };
    let weapon_range = match weapon_range_from_tag(tag2) {
        Some(x) => x,
        None => {
            return None;
        },
    };
    let (damage, i4) = match read_str(t, i3) {
        Some(p) => p,
        None => {
            return None;
        },
    };
    let (tag3, i5) = match read_token(t, i4) {
        Some(p) => p,
        None => {
            return None;
        },
    };
    let damage_type = match damage_type_from_tag(tag3) {
        Some(x) => x,
        None => {
            return None;
        },
    };
    let (weight, i6) = match read_u32(t, i5) {
        Some(p) => p,
        None => {
            return None;
        },
    };
    let (price, i7) = match read_u32(t, i6) {
        Some(p) => p,
        None => {
            return None;
        },
    };
    let (properties, i8) = match read_strs(t, i7) {
        Some(p) => p,
        None => {
            return None;
        },
    };
    Some(
        (
            Weapon {
                name,
                weapon_type,
                weapon_range,
                damage,
                damage_type,
                weight,
                price,
                properties,
            },
            i8,
        ),
    )
}

/// Read a length token and that many weapon entries.
#[verifier::loop_isolation(false)]
fn read_weapons(t: &Vec<u64>, i: usize) -> (r: Option<(Vec<Weapon>, usize)>)
    ensures
        match r {
            Some((v, j)) => spec_parse_weapons(t@, i as int) == Some(
                (v@.map_values(|w: Weapon| w@), j as int),
            ) && j <= t.len(),
            None => spec_parse_weapons(t@, i as int) is None,
        },
{
    let (n, start) = match read_token(t, i) {
        Some(p) => p,
        None => {
            return None;
        },
    };
    let mut items: Vec<Weapon> = Vec::new();
    let mut cur = start;
    let mut k: u64 = 0;
    while k < n
        invariant
            k <= n,
            cur <= t.len(),
            spec_parse_weapon_items(t@, start as int, n as nat) == (match spec_parse_weapon_items(
                t@,
                cur as int,
                (n - k) as nat,
            ) {
                Some((s2, e)) => Some((items@.map_values(|w: Weapon| w@) + s2, e)),
                None => None,
            }),
        decreases n - k,
    {
        match read_weapon(t, cur) {
            Some((x, j)) => {
                proof {
                    let mapped = items@.map_values(|w: Weapon| w@);
                    match spec_parse_weapon_items(t@, j as int, (n - k - 1) as nat) {
                        Some(p) => {
                            assert(mapped + (seq![x@] + p.0) =~= mapped.push(x@) + p.0);
                        },
                        None => {},
                    }
                    assert(items@.push(x).map_values(|w: Weapon| w@) =~= mapped.push(x@));
                }
                items.push(x);
                cur = j;
                k = k + 1;
            },
            None => {
                proof {
                    assert(spec_parse_weapon_items(t@, cur as int, (n - k) as nat) is None);
                }
                return None;
            },
        }
    }
    proof {
        assert(items@.map_values(|w: Weapon| w@) + Seq::<WeaponV>::empty() =~= items@.map_values(
            |w: Weapon| w@,
        ));
    }
    Some((items, cur))
}

/// A character from its persisted record, when the tokens spell one and the
/// whole stream is consumed.
pub fn decode_character(tokens: &Vec<u64>) -> (r: Option<Character>)
    ensures
        match r {
            Some(c) => spec_parse_character(tokens@, 0) == Some((c@, tokens@.len() as int)),
            None => match spec_parse_character(tokens@, 0) {
                Some((v, j)) => j != tokens@.len(),
                None => true,
            },
        },
{
    let (name, i1) = match read_str(tokens, 0) {
        Some(p) => p,
        None => {
            return None;
        },
    };
    let (race, i2) = match read_race(tokens, i1) {
        Some(p) => p,
        None => {
            return None;
        },
    };
    let (class, i3) = match read_class(tokens, i2) {
        Some(p) => p,
        None => {
            return None;
        },
    };
    let (level, i4) = match read_u8(tokens, i3) {
        Some(p) => p,
        None => {
            return None;
        },
    };
    let (current_xp, i5) = match read_u32(tokens, i4) {
        Some(p) => p,
        None => {
            return None;
        },
    };
    let (stats, i6) = match read_scores(tokens, i5) {
        Some(p) => p,
        None => {
            return None;
        },
    };
    let (max_hp, i7) = match read_u16(tokens, i6) {
        Some(p) => p,
        None => {
            return None;
        },
    };
    let (current_hp, i8) = match read_u16(tokens, i7) {
        Some(p) => p,
        None => {
            return None;
        },
    };
    let (skills, i9) = match read_skills(tokens, i8) {
        Some(p) => p,
        None => {
            return None;
        },
    };
    let (armor, i10) = match read_armors(tokens, i9) {
        Some(p) => p,
        None => {
            return None;
        },
    };
    let (weapons, i11) = match read_weapons(tokens, i10) {
        Some(p) => p,
        None => {
            return None;
        },
    };
    let (current_load, i12) = match read_u32(tokens, i11) {
        Some(p) => p,
        None => {
            return None;
        },
    };
    let (current_money, i13) = match read_moneys(tokens, i12) {
        Some(p) => p,
        None => {
            return None;
        },
    };
    if i13 != tokens.len() {
        return None;
    }
    Some(
        Character {
            name,
            race,
            class,
            level,
            current_xp,
            stats,
            max_hp,
            current_hp,
            skills,
            armor,
            weapons,
            current_load,
            current_money,
        },
    )
}

} // verus!
