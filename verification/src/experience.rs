//! The experience-point thresholds of the twenty character levels, and the
//! level a given amount of experience corresponds to.

use vstd::prelude::*;

verus! {

/// The cumulative experience required to reach a level. Levels at or below 1
/// need none; everything from level 20 up is the table's top entry, 355000.
pub open spec fn spec_xp_threshold(level: int) -> u32 {
    if level <= 1 {
        0u32
    } else if level == 2 {
        300u32
    } else if level == 3 {
        900u32
    } else if level == 4 {
        2700u32
    } else if level == 5 {
        6500u32
    } else if level == 6 {
        14000u32
    } else if level == 7 {
        23000u32
    } else if level == 8 {
        34000u32
    } else if level == 9 {
        48000u32
    } else if level == 10 {
        64000u32
    } else if level == 11 {
        85000u32
    } else if level == 12 {
        100000u32
    } else if level == 13 {
        120000u32
    } else if level == 14 {
        140000u32
    } else if level == 15 {
        165000u32
    } else if level == 16 {
        195000u32
    } else if level == 17 {
        225000u32
    } else if level == 18 {
        265000u32
    } else if level == 19 {
        305000u32
    } else {
        355000u32
    }
}

/// The cumulative experience required to reach a level.
pub fn xp_threshold(level: u8) -> (r: u32)
    ensures
        r == spec_xp_threshold(level as int),
{
    match level {
        0 | 1 => 0,
        2 => 300,
        3 => 900,
        4 => 2700,
        5 => 6500,
        6 => 14000,
        7 => 23000,
        8 => 34000,
        9 => 48000,
        10 => 64000,
        11 => 85000,
        12 => 100000,
        13 => 120000,
        14 => 140000,
        15 => 165000,
        16 => 195000,
        17 => 225000,
        18 => 265000,
        19 => 305000,
        _ => 355000,
    }
}

/// The level an amount of experience corresponds to, searched upward from
/// level `l`: the last level at or above `l` whose threshold is reached,
/// clamped at 20.
pub open spec fn level_from(xp: u32, l: int) -> int
    decreases 20 - l,
{
    if l >= 20 {
        20
    } else if xp < spec_xp_threshold(l + 1) {
        l
    } else {
        level_from(xp, l + 1)
    }
}

/// The level an amount of experience corresponds to: the last level whose
/// threshold is reached, clamped at 20.
pub open spec fn spec_current_level(xp: u32) -> int {
    level_from(xp, 1)
}

/// The cumulative experience at which the next level starts, or the top
/// threshold once the experience is past the table's last entry.
pub open spec fn spec_needed_xp(xp: u32) -> u32 {
    if spec_current_level(xp) >= 20 {
        355000u32
    } else {
        spec_xp_threshold(spec_current_level(xp) + 1)
    }
}

/// The level search finds a level in `[l, 20]` whose threshold is reached,
/// and whose successor's threshold (below level 20) is not.
proof fn lemma_level_from(xp: u32, l: int)
    requires
        1 <= l <= 20,
        spec_xp_threshold(l) <= xp,
    ensures
        l <= level_from(xp, l) <= 20,
        spec_xp_threshold(level_from(xp, l)) <= xp,
        level_from(xp, l) < 20 ==> xp < spec_xp_threshold(level_from(xp, l) + 1),
    decreases 20 - l,
{
    if l >= 20 {
    } else if xp < spec_xp_threshold(l + 1) {
    } else {
        lemma_level_from(xp, l + 1);
    }
}

/// The level of any amount of experience lies in `[1, 20]`, its threshold is
/// reached, and below level 20 the next threshold is not.
pub proof fn lemma_current_level_bounds(xp: u32)
    ensures
        1 <= spec_current_level(xp) <= 20,
        spec_xp_threshold(spec_current_level(xp)) <= xp,
        spec_current_level(xp) < 20 ==> xp < spec_xp_threshold(spec_current_level(xp) + 1),
{
    lemma_level_from(xp, 1);
}

} // verus!
