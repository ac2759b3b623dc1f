//! The six ability scores of a character and the derived modifier formula.

use vstd::prelude::*;

verus! {

/// The six abilities every character has.
#[derive(Clone, Copy, Debug, PartialEq, Eq, Hash, Structural)]
pub enum Abilities {
    Strength,
    Dexterity,
    Constitution,
    Intelligence,
    Wisdom,
    Charisma,
}

/// The modifier of an ability score: `(score - 10) / 2`, rounding toward
/// negative infinity, so a score of 7 gives -2 and a score of 8 gives -1.
pub open spec fn spec_modifier(score: u8) -> int {
    (score - 10) / 2
}

/// Case-insensitive equality of one character against its upper-case form:
/// `c` matches `up` when they are equal, when `c` is the ASCII lower-case
/// letter whose upper-case form is `up`, or when `c` is one of the two
/// non-ASCII letters whose single-character upper-case form is an ASCII
/// letter - the long s (U+017F, upper-case S) and the dotless i (U+0131,
/// upper-case I).
pub open spec fn char_eq_upper(c: char, up: char) -> bool {
    ||| c == up
    ||| (97 <= c as u32 <= 122 && c as u32 - 32 == up as u32)
    ||| (c as u32 == 0x017F && up == 'S')
    ||| (c as u32 == 0x0131 && up == 'I')
}

/// Case-insensitive equality of a character sequence against an upper-case
/// pattern.
pub open spec fn seq_eq_upper(s: Seq<char>, up: Seq<char>) -> bool {
    s.len() == up.len() && forall|i: int| 0 <= i < s.len() ==> char_eq_upper(s[i], #[trigger] up[i])
}

/// Which ability a three-letter abbreviation such as "STR" or "dex" names,
/// letter case ignored.
pub open spec fn spec_abbr_to_ability(s: Seq<char>) -> Option<Abilities> {
    if seq_eq_upper(s, "STR"@) {
        Some(Abilities::Strength)
    } else if seq_eq_upper(s, "DEX"@) {
        Some(Abilities::Dexterity)
    } else if seq_eq_upper(s, "CON"@) {
        Some(Abilities::Constitution)
    } else if seq_eq_upper(s, "INT"@) {
        Some(Abilities::Intelligence)
    } else if seq_eq_upper(s, "WIS"@) {
        Some(Abilities::Wisdom)
    } else if seq_eq_upper(s, "CHA"@) {
        Some(Abilities::Charisma)
    } else {
        None
    }
}

/// Whether one character matches its upper-case counterpart, letter case
/// ignored.
fn char_matches_upper(c: char, up: char) -> (r: bool)
    requires
        65 <= up as u32 <= 90,
    ensures
        r == char_eq_upper(c, up),
{
    c == up || c as u32 == up as u32 + 32 || (c as u32 == 0x017F && up == 'S') || (c as u32
        == 0x0131 && up == 'I')
}

/// Whether each of three characters matches its upper-case counterpart,
/// letter case ignored.
fn chars_eq_upper3(c0: char, c1: char, c2: char, u0: char, u1: char, u2: char) -> (r: bool)
    requires
        65 <= u0 as u32 <= 90,
        65 <= u1 as u32 <= 90,
        65 <= u2 as u32 <= 90,
    ensures
        r == (char_eq_upper(c0, u0) && char_eq_upper(c1, u1) && char_eq_upper(c2, u2)),
{
    char_matches_upper(c0, u0) && char_matches_upper(c1, u1) && char_matches_upper(c2, u2)
}

/// `seq_eq_upper` on three-character sequences, spelt out per position.
proof fn lemma_seq_eq_upper3(s: Seq<char>, t: Seq<char>)
    requires
        s.len() == 3,
        t.len() == 3,
    ensures
        seq_eq_upper(s, t) == (char_eq_upper(s[0], t[0]) && char_eq_upper(s[1], t[1])
            && char_eq_upper(s[2], t[2])),
{
    if char_eq_upper(s[0], t[0]) && char_eq_upper(s[1], t[1]) && char_eq_upper(s[2], t[2]) {
        assert forall|i: int| 0 <= i < s.len() implies char_eq_upper(s[i], #[trigger] t[i]) by {
            if i == 0 {
            } else if i == 1 {
            } else {
                assert(i == 2);
            }
        }
    }
}

impl Abilities {
    /// Parse a three-letter ability abbreviation, letter case ignored.
    pub fn abbr_to_ability(abbr: &str) -> (r: Option<Abilities>)
        ensures
            r == spec_abbr_to_ability(abbr@),
    {
        proof {
            reveal_strlit("STR");
            reveal_strlit("DEX");
            reveal_strlit("CON");
            reveal_strlit("INT");
            reveal_strlit("WIS");
            reveal_strlit("CHA");
        }
        if abbr.unicode_len() != 3 {
            return None;
        }
        let c0 = abbr.get_char(0);
        let c1 = abbr.get_char(1);
        let c2 = abbr.get_char(2);
        proof {
            lemma_seq_eq_upper3(abbr@, "STR"@);
            lemma_seq_eq_upper3(abbr@, "DEX"@);
            lemma_seq_eq_upper3(abbr@, "CON"@);
            lemma_seq_eq_upper3(abbr@, "INT"@);
            lemma_seq_eq_upper3(abbr@, "WIS"@);
            lemma_seq_eq_upper3(abbr@, "CHA"@);
        }
        if chars_eq_upper3(c0, c1, c2, 'S', 'T', 'R') {
            Some(Abilities::Strength)
        } else if chars_eq_upper3(c0, c1, c2, 'D', 'E', 'X') {
            Some(Abilities::Dexterity)
        } else if chars_eq_upper3(c0, c1, c2, 'C', 'O', 'N') {
            Some(Abilities::Constitution)
        } else if chars_eq_upper3(c0, c1, c2, 'I', 'N', 'T') {
            Some(Abilities::Intelligence)
        } else if chars_eq_upper3(c0, c1, c2, 'W', 'I', 'S') {
            Some(Abilities::Wisdom)
        } else if chars_eq_upper3(c0, c1, c2, 'C', 'H', 'A') {
            Some(Abilities::Charisma)
        } else {
            None
        }
    }
}

/// The mathematical value of a score vector: one score per ability.
pub ghost struct AbilityScoresV {
    pub strength: u8,
    pub dexterity: u8,
    pub constitution: u8,
    pub intelligence: u8,
    pub wisdom: u8,
    pub charisma: u8,
}

impl AbilityScoresV {
    /// The score of one ability.
    pub open spec fn get(self, ability: Abilities) -> u8 {
        match ability {
            Abilities::Strength => self.strength,
            Abilities::Dexterity => self.dexterity,
            Abilities::Constitution => self.constitution,
            Abilities::Intelligence => self.intelligence,
            Abilities::Wisdom => self.wisdom,
            Abilities::Charisma => self.charisma,
        }
    }

    /// The vector with one ability's score replaced.
    pub open spec fn with_score(self, ability: Abilities, value: u8) -> AbilityScoresV {
        match ability {
            Abilities::Strength => AbilityScoresV { strength: value, ..self },
            Abilities::Dexterity => AbilityScoresV { dexterity: value, ..self },
            Abilities::Constitution => AbilityScoresV { constitution: value, ..self },
            Abilities::Intelligence => AbilityScoresV { intelligence: value, ..self },
            Abilities::Wisdom => AbilityScoresV { wisdom: value, ..self },
            Abilities::Charisma => AbilityScoresV { charisma: value, ..self },
        }
    }
}

/// A score changed by a signed delta, clamped to the range of the storage
/// type rather than wrapping.
pub open spec fn spec_bump(score: u8, delta: i8) -> u8 {
    let v = score + delta;
    if v < 0 {
        0u8
    } else if v > 255 {
        255u8
    } else {
        v as u8
    }
}

/// The six ability scores of one character.
#[derive(Clone, Copy, Debug, PartialEq, Eq, Structural)]
pub struct AbilityScores {
    strength: u8,
    dexterity: u8,
    constitution: u8,
    intelligence: u8,
    wisdom: u8,
    charisma: u8,
}

impl View for AbilityScores {
    type V = AbilityScoresV;

    closed spec fn view(&self) -> AbilityScoresV {
        AbilityScoresV {
            strength: self.strength,
            dexterity: self.dexterity,
            constitution: self.constitution,
            intelligence: self.intelligence,
            wisdom: self.wisdom,
            charisma: self.charisma,
        }
    }
}

impl AbilityScores {
    /// A freshly rolled score vector: each ability is rolled independently
    /// with four six-sided dice, the lowest discarded.
    pub fn new() -> (r: AbilityScores)
        ensures
            forall|a: Abilities| 3 <= #[trigger] r@.get(a) <= 18,
    {
        let r = AbilityScores {
            strength: crate::dice::Dice::roll_for_ability(),
            dexterity: crate::dice::Dice::roll_for_ability(),
            constitution: crate::dice::Dice::roll_for_ability(),
            intelligence: crate::dice::Dice::roll_for_ability(),
            wisdom: crate::dice::Dice::roll_for_ability(),
            charisma: crate::dice::Dice::roll_for_ability(),
        };
        assert(forall|a: Abilities| 3 <= #[trigger] r@.get(a) <= 18);
        r
    }

    /// A score vector with the six given scores.
    pub fn with_scores(
        strength: u8,
        dexterity: u8,
        constitution: u8,
        intelligence: u8,
        wisdom: u8,
        charisma: u8,
    ) -> (r: AbilityScores)
        ensures
            r@ == (AbilityScoresV {
                strength,
                dexterity,
                constitution,
                intelligence,
                wisdom,
                charisma,
            }),
    {
        AbilityScores { strength, dexterity, constitution, intelligence, wisdom, charisma }
    }

    /// The score of one ability.
    pub fn get(&self, ability: Abilities) -> (r: u8)
        ensures
            r == self@.get(ability),
    {
        match ability {
            Abilities::Strength => self.strength,
            Abilities::Dexterity => self.dexterity,
            Abilities::Constitution => self.constitution,
            Abilities::Intelligence => self.intelligence,
            Abilities::Wisdom => self.wisdom,
            Abilities::Charisma => self.charisma,
        }
    }

    /// Overwrite the score of one ability; the other five are unchanged.
    pub fn set(&mut self, ability: Abilities, value: u8)
        ensures
            final(self)@ == old(self)@.with_score(ability, value),
    {
        match ability {
            Abilities::Strength => self.strength = value,
            Abilities::Dexterity => self.dexterity = value,
            Abilities::Constitution => self.constitution = value,
            Abilities::Intelligence => self.intelligence = value,
            Abilities::Wisdom => self.wisdom = value,
            Abilities::Charisma => self.charisma = value,
        }
    }

    /// The modifier of one ability: `(score - 10) / 2`, rounding toward
    /// negative infinity.
    pub fn get_ability_modifier(&self, ability: Abilities) -> (r: i8)
        ensures
            r == spec_modifier(self@.get(ability)),
    {
        let s = self.get(ability);
        if s >= 10 {
            ((s - 10) / 2) as i8
        } else {
            let t = 10 - s;
            let q = (t + 1) / 2;
            proof {
                assert((s - 10) / 2 == -(q as int)) by {
                    let rem = (t + 1) % 2;
                    assert(t + 1 == 2 * (q as int) + rem);
                    assert(s - 10 == 2 * (-(q as int)) + (1 - rem));
                };
            }
            -(q as i8)
        }
    }

    /// Add a signed delta to one ability's score, clamping at the bounds of
    /// the storage type instead of wrapping.
    pub fn change_ability_value(&mut self, ability: Abilities, value: i8)
        ensures
            final(self)@ == old(self)@.with_score(ability, spec_bump(old(self)@.get(ability), value)),
    {
        let old_value = self.get(ability);
        let v: i16 = old_value as i16 + value as i16;
        let new_value: u8 = if v < 0 {
            0
        } else if v > 255 {
            255
        } else {
            v as u8
        };
        self.set(ability, new_value);
    }
}

} // verus!
