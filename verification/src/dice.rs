//! The dice engine: random rolls of `count` dice with `sides` sides plus a
//! signed modifier, never reporting less than 1.

use rand::Rng;
use vstd::math::min;
use vstd::prelude::*;

verus! {

/// A dice expression: `count` dice with `sides` sides each, plus `modifier`.
#[derive(Clone, Copy, Debug, PartialEq, Eq, Structural)]
pub struct Dice {
    pub dice_count: u8,
    pub dice_sides: u8,
    pub modifier: i8,
}

/// A roll total floored at 1: a roll never reports less than 1, however
/// negative its modifier.
pub open spec fn floor_one(v: int) -> int {
    if v < 1 {
        1
    } else {
        v
    }
}

/// Whether `s` is a possible sum of `count` independent draws from
/// `[1, sides]`.
pub open spec fn is_roll_sum(s: int, count: u8, sides: u8) -> bool {
    count <= s <= count * sides
}

/// One uniform draw from `[1, sides]`.
///
/// Relies on `rand::thread_rng` and `rand::Rng::gen_range` over `1..=sides`:
/// the draw lies in the (nonempty, since `sides >= 1`) range.
#[verifier::external_body]
fn roll_die(sides: u8) -> (r: u8)
    requires
        sides >= 1,
    ensures
        1 <= r <= sides,
{
    rand::thread_rng().gen_range(1..=sides)
}

impl Dice {
    /// A dice expression built from its three parts.
    pub fn new(count: u8, sides: u8, modifier: i8) -> (d: Dice)
        ensures
            d.dice_count == count,
            d.dice_sides == sides,
            d.modifier == modifier,
    {
        Dice { dice_count: count, dice_sides: sides, modifier }
    }

    /// Roll the dice: the sum of `dice_count` independent uniform draws from
    /// `[1, dice_sides]`, plus `modifier`, floored at 1.
    pub fn roll(&self) -> (r: u16)
        requires
            self.dice_sides >= 1,
        ensures
            exists|s: int|
                #[trigger] is_roll_sum(s, self.dice_count, self.dice_sides)
                    && r == floor_one(s + self.modifier),
    {
        let mut total: u32 = 0;
        let mut i: u8 = 0;
        while i < self.dice_count
            invariant
                self.dice_sides >= 1,
                i <= self.dice_count,
                i <= total <= i * self.dice_sides,
            decreases self.dice_count - i,
        {
            let d = roll_die(self.dice_sides);
            proof {
                assert((i + 1) * self.dice_sides == i * self.dice_sides + self.dice_sides)
                    by (nonlinear_arith);
                assert(i * self.dice_sides <= 255 * 255) by (nonlinear_arith)
                    requires i <= 255 && self.dice_sides <= 255;
            }
            total = total + d as u32;
            i = i + 1;
        }
        proof {
            assert(total <= 255 * 255) by (nonlinear_arith)
                requires total <= self.dice_count * self.dice_sides
                    && self.dice_count <= 255 && self.dice_sides <= 255;
        }
        let adjusted: i32 = total as i32 + self.modifier as i32;
        let floored: i32 = if adjusted < 1 {
            1
        } else {
            adjusted
        };
        assert(floored == floor_one(total + self.modifier));
        assert(is_roll_sum(total as int, self.dice_count, self.dice_sides));
        floored as u16
    }

    /// Roll a raw ability score: four uniform draws from `[1, 6]`, handed to
    /// `drop_lowest_sum`, which discards the lowest and sums the remaining
    /// three. The result is always in `[3, 18]`.
    pub fn roll_for_ability() -> (r: u8)
        ensures
            3 <= r <= 18,
    {
        let a = Dice::new(1, 6, 0).roll();
        let b = Dice::new(1, 6, 0).roll();
        let c = Dice::new(1, 6, 0).roll();
        let d = Dice::new(1, 6, 0).roll();
        drop_lowest_sum(a, b, c, d) as u8
    }
}

/// The sum of four dice draws with the lowest discarded: the rule an ability
/// is rolled by, as a function of the draws themselves. Of equal lowest
/// draws, one is discarded.
pub fn drop_lowest_sum(a: u16, b: u16, c: u16, d: u16) -> (r: u16)
    requires
        a + b + c + d <= u16::MAX,
    ensures
        r == a + b + c + d - min(min(a as int, b as int), min(c as int, d as int)),
{
    let mut lowest = a;
    if b < lowest {
        lowest = b;
    }
    if c < lowest {
        lowest = c;
    }
    if d < lowest {
        lowest = d;
    }
    (((a + b) + c) + d) - lowest
}

/// Whether a character is an ASCII decimal digit.
pub open spec fn is_digit(c: char) -> bool {
    48 <= c as u32 <= 57
}

/// The numeric value of an ASCII decimal digit.
pub open spec fn digit_val(c: char) -> int {
    c as u32 - 48
}

/// Whether every character of `s` in `[from, to)` is a decimal digit.
pub open spec fn all_digits(s: Seq<char>, from: int, to: int) -> bool {
    forall|j: int| from <= j < to ==> is_digit(#[trigger] s[j])
}

/// The number the digits of `s` in `[from, to)` spell in base ten.
pub open spec fn digits_val(s: Seq<char>, from: int, to: int) -> int
    decreases to - from,
{
    if to <= from {
        0
    } else {
        digits_val(s, from, to - 1) * 10 + digit_val(s[to - 1])
    }
}

/// A number spelt by digits is never negative.
proof fn lemma_digits_val_nonneg(s: Seq<char>, from: int, to: int)
    requires
        from <= to,
        all_digits(s, from, to),
    ensures
        digits_val(s, from, to) >= 0,
    decreases to - from,
{
    if to > from {
        lemma_digits_val_nonneg(s, from, to - 1);
    }
}

/// Appending digits never shrinks the number they spell.
proof fn lemma_digits_val_grows(s: Seq<char>, from: int, mid: int, to: int)
    requires
        from <= mid <= to,
        all_digits(s, from, to),
    ensures
        digits_val(s, from, to) >= digits_val(s, from, mid),
    decreases to - mid,
{
    if to > mid {
        lemma_digits_val_grows(s, from, mid, to - 1);
        lemma_digits_val_nonneg(s, from, to - 1);
    }
}

/// Where the digit run of a number component begins: a single leading `+` is
/// accepted and skipped, as the standard library's number parser does.
pub open spec fn run_start(s: Seq<char>, from: int, to: int) -> int {
    if from < to && s[from] == '+' {
        from + 1
    } else {
        from
    }
}

/// The number the characters of `s` in `[from, to)` spell, when they are a
/// nonempty run of digits, after an optional leading `+`, spelling a value
/// that fits in a `u8`; otherwise nothing.
pub open spec fn spec_parse_u8(s: Seq<char>, from: int, to: int) -> Option<u8> {
    let start = run_start(s, from, to);
    if start < to && all_digits(s, start, to) && digits_val(s, start, to) <= 255 {
        Some(digits_val(s, start, to) as u8)
    } else {
        None
    }
}

/// A parsed component, or its silent default when parsing failed.
pub open spec fn or_default(o: Option<u8>, dflt: u8) -> u8 {
    match o {
        Some(v) => v,
        None => dflt,
    }
}

/// A dice modifier parsed from a digit run, after an optional leading `+`:
/// the spelt value when it fits in an `i8`, and the silent default 0
/// otherwise.
pub open spec fn spec_parse_mod(s: Seq<char>, from: int, to: int) -> i8 {
    let start = run_start(s, from, to);
    if start < to && all_digits(s, start, to) && digits_val(s, start, to) <= 127 {
        digits_val(s, start, to) as i8
    } else {
        0i8
    }
}

/// The first index in `[from, to)` where `s` holds `c1` or `c2`, or `to`
/// when it holds neither.
pub open spec fn find2(s: Seq<char>, from: int, to: int, c1: char, c2: char) -> int
    decreases to - from,
{
    if from >= to {
        to
    } else if s[from] == c1 || s[from] == c2 {
        from
    } else {
        find2(s, from + 1, to, c1, c2)
    }
}

/// The dice expression a string spells, read as `NdS`, `NdS+M` or `NdS-M`:
/// the count before the first `d` (or `D`), the sides and modifier from the
/// run up to the next `d`, split at the first `+`, or else at the first `-`.
/// Unparseable components fall back silently to one die, six sides, no
/// modifier; a parsed side count of zero falls back to the default die's six
/// sides, so the expression can always be rolled.
pub open spec fn spec_parse_dice(s: Seq<char>) -> Dice {
    let n = s.len() as int;
    let d1 = find2(s, 0, n, 'd', 'D');
    let count = or_default(spec_parse_u8(s, 0, d1), 1);
    if d1 >= n {
        Dice { dice_count: count, dice_sides: 6u8, modifier: 0i8 }
    } else {
        let d2 = find2(s, d1 + 1, n, 'd', 'D');
        let p1 = find2(s, d1 + 1, d2, '+', '+');
        let m1 = find2(s, d1 + 1, d2, '-', '-');
        let sides_raw = if p1 < d2 {
            or_default(spec_parse_u8(s, d1 + 1, p1), 6)
        } else if m1 < d2 {
            or_default(spec_parse_u8(s, d1 + 1, m1), 6)
        } else {
            or_default(spec_parse_u8(s, d1 + 1, d2), 6)
        };
        let modifier: i8 = if p1 < d2 {
            spec_parse_mod(s, p1 + 1, find2(s, p1 + 1, d2, '+', '+'))
        } else if m1 < d2 {
            (-spec_parse_mod(s, m1 + 1, find2(s, m1 + 1, d2, '-', '-'))) as i8
        } else {
            0i8
        };
        let sides = if sides_raw == 0 {
            6u8
        } else {
            sides_raw
        };
        Dice { dice_count: count, dice_sides: sides, modifier }
    }
}

/// The first index in `[from, to)` where `s` holds `c1` or `c2`, or `to`
/// when it holds neither.
fn find2_exec(s: &str, from: usize, to: usize, c1: char, c2: char) -> (r: usize)
    requires
        from <= to <= s@.len(),
    ensures
        r == find2(s@, from as int, to as int, c1, c2),
        from <= r <= to,
{
    let mut i = from;
    while i < to
        invariant
            from <= i <= to <= s@.len(),
            find2(s@, from as int, to as int, c1, c2) == find2(s@, i as int, to as int, c1, c2),
        decreases to - i,
    {
        let c = s.get_char(i);
        if c == c1 || c == c2 {
            return i;
        }
        i = i + 1;
    }
    to
}

/// Parse the number component of `s` in `[from, to)` as a `u8`; anything
/// that is not a nonempty run of digits, after an optional leading `+`,
/// fitting in a `u8` yields nothing.
fn parse_u8_range(s: &str, from: usize, to: usize) -> (r: Option<u8>)
    requires
        from <= to <= s@.len(),
    ensures
        r == spec_parse_u8(s@, from as int, to as int),
{
    if from == to {
        return None;
    }
    let start = if s.get_char(from) == '+' {
        from + 1
    } else {
        from
    };
    if start == to {
        return None;
    }
    let mut acc: u32 = 0;
    let mut i = start;
    while i < to
        invariant
            start == run_start(s@, from as int, to as int),
            from <= start <= i <= to <= s@.len(),
            all_digits(s@, start as int, i as int),
            acc == digits_val(s@, start as int, i as int),
            acc <= 255,
        decreases to - i,
    {
        let c = s.get_char(i);
        let u = c as u32;
        if u < 48 || u > 57 {
            proof {
                assert(!is_digit(s@[i as int]));
            }
            return None;
        }
        acc = acc * 10 + (u - 48);
        i = i + 1;
        if acc > 255 {
            proof {
                if all_digits(s@, start as int, to as int) {
                    lemma_digits_val_grows(s@, start as int, i as int, to as int);
                }
            }
            return None;
        }
    }
    Some(acc as u8)
}

/// Parse the number component of `s` in `[from, to)` as a dice modifier,
/// falling back silently to 0 when it does not fit an `i8`.
fn parse_mod_range(s: &str, from: usize, to: usize) -> (r: i8)
    requires
        from <= to <= s@.len(),
    ensures
        r == spec_parse_mod(s@, from as int, to as int),
        0 <= r <= 127,
{
    proof {
        let start = run_start(s@, from as int, to as int);
        if start < to && all_digits(s@, start, to as int) {
            lemma_digits_val_nonneg(s@, start, to as int);
        }
    }
    match parse_u8_range(s, from, to) {
        Some(v) => {
            if v <= 127 {
                v as i8
            } else {
                0
            }
        },
        None => 0,
    }
}

impl Dice {
    /// Roll the dice expression a string spells: `NdS`, `NdS+M` or `NdS-M`,
    /// every unparseable component silently replaced by the default of one
    /// six-sided die with no modifier.
    pub fn parse_dice_roll(dice_roll: String) -> (r: u16)
        ensures
            ({
                let d = spec_parse_dice(dice_roll@);
                exists|s: int|
                    #[trigger] is_roll_sum(s, d.dice_count, d.dice_sides) && r == floor_one(
                        s + d.modifier,
                    )
            }),
    {
        let s = dice_roll.as_str();
        let n = s.unicode_len();
        let d1 = find2_exec(s, 0, n, 'd', 'D');
        let count = match parse_u8_range(s, 0, d1) {
            Some(v) => v,
            None => 1,
        };
        let dice = if d1 >= n {
            Dice::new(count, 6, 0)
        } else {
            let d2 = find2_exec(s, d1 + 1, n, 'd', 'D');
            let p1 = find2_exec(s, d1 + 1, d2, '+', '+');
            let m1 = find2_exec(s, d1 + 1, d2, '-', '-');
            let sides_raw = if p1 < d2 {
                match parse_u8_range(s, d1 + 1, p1) {
                    Some(v) => v,
                    None => 6,
                }
            } else if m1 < d2 {
                match parse_u8_range(s, d1 + 1, m1) {
                    Some(v) => v,
                    None => 6,
                }
            } else {
                match parse_u8_range(s, d1 + 1, d2) {
                    Some(v) => v,
                    None => 6,
                }
            };
            let modifier: i8 = if p1 < d2 {
                let p2 = find2_exec(s, p1 + 1, d2, '+', '+');
                parse_mod_range(s, p1 + 1, p2)
            } else if m1 < d2 {
                let m2 = find2_exec(s, m1 + 1, d2, '-', '-');
                -parse_mod_range(s, m1 + 1, m2)
            } else {
                0
            };
            let sides = if sides_raw == 0 {
                6
            } else {
                sides_raw
            };
            Dice::new(count, sides, modifier)
        };
        assert(dice == spec_parse_dice(dice_roll@));
        dice.roll()
    }
}

impl Default for Dice {
    /// The default die: a single six-sided die with no modifier.
    fn default() -> (d: Dice)
        ensures
            d.dice_count == 1,
            d.dice_sides == 6,
            d.modifier == 0,
    {
        Dice::new(1, 6, 0)
    }
}

} // verus!
