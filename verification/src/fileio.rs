//! The filename a character is saved under: its race, class and a creation
//! timestamp, joined under the characters directory.

use crate::class::{spec_class_name, Class};
use crate::race::{race_name, spec_race_name, Race};
use vstd::prelude::*;

verus! {

/// One decimal digit as text.
pub open spec fn spec_digit(d: int) -> Seq<char> {
    if d == 0 {
        "0"@
    } else if d == 1 {
        "1"@
    } else if d == 2 {
        "2"@
    } else if d == 3 {
        "3"@
    } else if d == 4 {
        "4"@
    } else if d == 5 {
        "5"@
    } else if d == 6 {
        "6"@
    } else if d == 7 {
        "7"@
    } else if d == 8 {
        "8"@
    } else {
        "9"@
    }
}

/// A number spelt in decimal, most significant digit first, with no sign and
/// no leading zeros (a lone zero for 0).
pub open spec fn spec_decimal(n: int) -> Seq<char>
    decreases n,
{
    if n < 10 {
        spec_digit(n)
    } else {
        spec_decimal(n / 10) + spec_digit(n % 10)
    }
}

/// Append one decimal digit to a string.
fn push_digit(out: &mut String, d: u64)
    requires
        d <= 9,
    ensures
        final(out)@ == old(out)@ + spec_digit(d as int),
{
    match d {
        0 => out.append("0"),
        1 => out.append("1"),
        2 => out.append("2"),
        3 => out.append("3"),
        4 => out.append("4"),
        5 => out.append("5"),
        6 => out.append("6"),
        7 => out.append("7"),
        8 => out.append("8"),
        _ => out.append("9"),
    }
}

/// Append a number in decimal, most significant digit first.
fn push_decimal(out: &mut String, n: u64)
    ensures
        final(out)@ == old(out)@ + spec_decimal(n as int),
    decreases n,
{
    if n < 10 {
        push_digit(out, n);
    } else {
        push_decimal(out, n / 10);
        push_digit(out, n % 10);
        proof {
            assert(final(out)@ =~= old(out)@ + spec_decimal(n as int));
        }
    }
}

/// The filename a character with a given race and class is saved under at a
/// given creation time: `characters/<race>_<class>_<timestamp>.json`.
pub open spec fn spec_filename(race: Race, class: Class, timestamp: u64) -> Seq<char> {
    "characters/"@ + spec_race_name(race) + "_"@ + spec_class_name(class) + "_"@ + spec_decimal(
        timestamp as int,
    ) + ".json"@
}

/// The filename a character is saved under: its race, its class and the
/// given creation timestamp, joined under the characters directory.
pub fn generate_filename(race: &Race, class: &Class, timestamp: u64) -> (r: String)
    ensures
        r@ == spec_filename(*race, *class, timestamp),
{
    let mut out = String::new();
    out.append("characters/");
    out.append(race_name(*race));
    out.append("_");
    out.append(class.class_name());
    out.append("_");
    push_decimal(&mut out, timestamp);
    out.append(".json");
    proof {
        assert(out@ =~= spec_filename(*race, *class, timestamp));
    }
    out
}

} // verus!
