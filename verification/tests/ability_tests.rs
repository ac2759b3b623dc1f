use chargen::ability::{Abilities, AbilityScores};

fn modifier_reference(score: u8) -> i8 {
    // floor division toward negative infinity
    (score as i32 - 10).div_euclid(2) as i8
}

#[test]
fn modifier_floor_semantics_over_valid_range() {
    for score in 1..=30u8 {
        let stats = AbilityScores::with_scores(score, 10, 10, 10, 10, 10);
        assert_eq!(
            stats.get_ability_modifier(Abilities::Strength),
            modifier_reference(score),
            "score {}",
            score
        );
    }
}

#[test]
fn modifier_examples() {
    let stats = AbilityScores::with_scores(7, 8, 10, 15, 3, 1);
    assert_eq!(stats.get_ability_modifier(Abilities::Strength), -2);
    assert_eq!(stats.get_ability_modifier(Abilities::Dexterity), -1);
    assert_eq!(stats.get_ability_modifier(Abilities::Constitution), 0);
    assert_eq!(stats.get_ability_modifier(Abilities::Intelligence), 2);
    assert_eq!(stats.get_ability_modifier(Abilities::Wisdom), -4);
    assert_eq!(stats.get_ability_modifier(Abilities::Charisma), -5);
}

#[test]
fn get_and_set_each_ability() {
    let mut stats = AbilityScores::with_scores(1, 2, 3, 4, 5, 6);
    assert_eq!(stats.get(Abilities::Strength), 1);
    assert_eq!(stats.get(Abilities::Dexterity), 2);
    assert_eq!(stats.get(Abilities::Constitution), 3);
    assert_eq!(stats.get(Abilities::Intelligence), 4);
    assert_eq!(stats.get(Abilities::Wisdom), 5);
    assert_eq!(stats.get(Abilities::Charisma), 6);
    stats.set(Abilities::Wisdom, 17);
    assert_eq!(stats.get(Abilities::Wisdom), 17);
    assert_eq!(stats.get(Abilities::Charisma), 6);
}

#[test]
fn change_ability_value_adds_and_clamps() {
    let mut stats = AbilityScores::with_scores(10, 10, 10, 10, 10, 10);
    stats.change_ability_value(Abilities::Strength, 2);
    assert_eq!(stats.get(Abilities::Strength), 12);
    stats.change_ability_value(Abilities::Strength, -5);
    assert_eq!(stats.get(Abilities::Strength), 7);

    let mut low = AbilityScores::with_scores(3, 10, 10, 10, 10, 10);
    low.change_ability_value(Abilities::Strength, -10);
    assert_eq!(low.get(Abilities::Strength), 0);

    let mut high = AbilityScores::with_scores(250, 10, 10, 10, 10, 10);
    high.change_ability_value(Abilities::Strength, 10);
    assert_eq!(high.get(Abilities::Strength), 255);
}

#[test]
fn abbr_to_ability_accepts_any_case() {
    assert_eq!(Abilities::abbr_to_ability("STR"), Some(Abilities::Strength));
    assert_eq!(Abilities::abbr_to_ability("str"), Some(Abilities::Strength));
    assert_eq!(Abilities::abbr_to_ability("sTr"), Some(Abilities::Strength));
    assert_eq!(Abilities::abbr_to_ability("DEX"), Some(Abilities::Dexterity));
    assert_eq!(Abilities::abbr_to_ability("con"), Some(Abilities::Constitution));
    assert_eq!(Abilities::abbr_to_ability("Int"), Some(Abilities::Intelligence));
    assert_eq!(Abilities::abbr_to_ability("wis"), Some(Abilities::Wisdom));
    assert_eq!(Abilities::abbr_to_ability("CHA"), Some(Abilities::Charisma));
}

#[test]
fn abbr_to_ability_rejects_unknown() {
    assert_eq!(Abilities::abbr_to_ability("XYZ"), None);
    assert_eq!(Abilities::abbr_to_ability(""), None);
    assert_eq!(Abilities::abbr_to_ability("STRX"), None);
    assert_eq!(Abilities::abbr_to_ability("ST"), None);
}

#[test]
fn rolled_scores_are_in_range() {
    for _ in 0..50 {
        let stats = AbilityScores::new();
        for ability in [
            Abilities::Strength,
            Abilities::Dexterity,
            Abilities::Constitution,
            Abilities::Intelligence,
            Abilities::Wisdom,
            Abilities::Charisma,
        ] {
            let score = stats.get(ability);
            assert!((3..=18).contains(&score));
        }
    }
}

#[test]
fn abbr_to_ability_accepts_the_two_non_ascii_lowercase_letters() {
    // long s (U+017F) upper-cases to S, dotless i (U+0131) to I
    assert_eq!(Abilities::abbr_to_ability("\u{17F}tr"), Some(Abilities::Strength));
    assert_eq!(Abilities::abbr_to_ability("\u{131}nt"), Some(Abilities::Intelligence));
    assert_eq!(Abilities::abbr_to_ability("w\u{131}s"), Some(Abilities::Wisdom));
}
