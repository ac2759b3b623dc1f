use chargen::dice::{drop_lowest_sum, Dice};

#[test]
fn drop_lowest_sum_discards_exactly_the_lowest() {
    assert_eq!(drop_lowest_sum(3, 1, 6, 4), 13);
    assert_eq!(drop_lowest_sum(1, 3, 6, 4), 13);
    assert_eq!(drop_lowest_sum(6, 4, 3, 1), 13);
    assert_eq!(drop_lowest_sum(1, 6, 6, 6), 18);
    assert_eq!(drop_lowest_sum(6, 6, 6, 1), 18);
    assert_eq!(drop_lowest_sum(1, 1, 1, 1), 3);
}

#[test]
fn drop_lowest_sum_discards_one_of_equal_lowest_draws() {
    assert_eq!(drop_lowest_sum(2, 2, 5, 6), 13);
    assert_eq!(drop_lowest_sum(4, 4, 4, 4), 12);
    assert_eq!(drop_lowest_sum(5, 2, 2, 6), 13);
}

#[test]
fn new_sets_the_three_parts() {
    let d = Dice::new(2, 8, -1);
    assert_eq!(d.dice_count, 2);
    assert_eq!(d.dice_sides, 8);
    assert_eq!(d.modifier, -1);
}

#[test]
fn default_is_one_six_sided_die() {
    let d = Dice::default();
    assert_eq!(d.dice_count, 1);
    assert_eq!(d.dice_sides, 6);
    assert_eq!(d.modifier, 0);
}

#[test]
fn roll_stays_in_range() {
    for _ in 0..100 {
        let r = Dice::new(3, 6, 0).roll();
        assert!((3..=18).contains(&r));
    }
}

#[test]
fn roll_is_floored_at_one() {
    for _ in 0..50 {
        assert_eq!(Dice::new(1, 6, -10).roll(), 1);
    }
    assert_eq!(Dice::new(0, 6, 0).roll(), 1);
    assert_eq!(Dice::new(0, 6, -5).roll(), 1);
}

#[test]
fn roll_draws_vary_over_the_die() {
    // A draw is uniform over [1, sides]; two hundred rolls of one die all
    // landing on the same face is as good as impossible.
    let mut seen_low = false;
    for _ in 0..200 {
        let r = Dice::new(1, 6, 0).roll();
        assert!((1..=6).contains(&r));
        if r < 6 {
            seen_low = true;
        }
    }
    assert!(seen_low);
}

#[test]
fn roll_for_ability_is_between_three_and_eighteen() {
    for _ in 0..100 {
        let r = Dice::roll_for_ability();
        assert!((3..=18).contains(&r));
    }
}

#[test]
fn parse_dice_roll_plain_expression() {
    for _ in 0..50 {
        let r = Dice::parse_dice_roll(String::from("2d6"));
        assert!((2..=12).contains(&r));
    }
}

#[test]
fn parse_dice_roll_with_positive_modifier() {
    for _ in 0..50 {
        let r = Dice::parse_dice_roll(String::from("1d4+2"));
        assert!((3..=6).contains(&r));
    }
}

#[test]
fn parse_dice_roll_with_negative_modifier() {
    for _ in 0..50 {
        let r = Dice::parse_dice_roll(String::from("1d4-2"));
        assert!((1..=2).contains(&r));
    }
}

#[test]
fn parse_dice_roll_upper_case_d() {
    for _ in 0..50 {
        let r = Dice::parse_dice_roll(String::from("2D8"));
        assert!((2..=16).contains(&r));
    }
}

#[test]
fn parse_dice_roll_defaults_on_garbage() {
    // no 'd' at all: one six-sided die with no modifier
    for _ in 0..50 {
        let r = Dice::parse_dice_roll(String::from("garbage"));
        assert!((1..=6).contains(&r));
    }
}

#[test]
fn parse_dice_roll_defaults_each_component() {
    // unparseable count defaults to 1
    for _ in 0..50 {
        let r = Dice::parse_dice_roll(String::from("xd4"));
        assert!((1..=4).contains(&r));
    }
    // missing sides default to 6
    for _ in 0..50 {
        let r = Dice::parse_dice_roll(String::from("2d"));
        assert!((2..=12).contains(&r));
    }
    // an overflowing count defaults to 1
    for _ in 0..50 {
        let r = Dice::parse_dice_roll(String::from("300d6+5"));
        assert!((6..=11).contains(&r));
    }
    // a zero-sided die falls back to the default six sides
    for _ in 0..50 {
        let r = Dice::parse_dice_roll(String::from("2d0"));
        assert!((2..=12).contains(&r));
    }
    // an unparseable modifier defaults to 0
    for _ in 0..50 {
        let r = Dice::parse_dice_roll(String::from("1d6+x"));
        assert!((1..=6).contains(&r));
    }
}

#[test]
fn parse_dice_roll_accepts_a_leading_plus() {
    // a number component may carry a single leading '+'
    for _ in 0..50 {
        let r = Dice::parse_dice_roll(String::from("+3d6"));
        assert!((3..=18).contains(&r));
    }
    for _ in 0..50 {
        let r = Dice::parse_dice_roll(String::from("+12"));
        assert!((12..=72).contains(&r));
    }
    // a doubled sign is not a number: the component defaults
    for _ in 0..50 {
        let r = Dice::parse_dice_roll(String::from("++3d6"));
        assert!((1..=6).contains(&r));
    }
}
