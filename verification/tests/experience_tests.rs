use chargen::class::Class;
use chargen::experience::xp_threshold;
use chargen::fileio::generate_filename;
use chargen::race::Race;

#[test]
fn thresholds_follow_the_table() {
    assert_eq!(xp_threshold(0), 0);
    assert_eq!(xp_threshold(1), 0);
    assert_eq!(xp_threshold(2), 300);
    assert_eq!(xp_threshold(3), 900);
    assert_eq!(xp_threshold(5), 6_500);
    assert_eq!(xp_threshold(10), 64_000);
    assert_eq!(xp_threshold(19), 305_000);
    assert_eq!(xp_threshold(20), 355_000);
    assert_eq!(xp_threshold(25), 355_000);
}

#[test]
fn thresholds_ascend() {
    for level in 3..=20u8 {
        assert!(xp_threshold(level) > xp_threshold(level - 1));
    }
    assert!(xp_threshold(2) > xp_threshold(1));
}

#[test]
fn filenames_join_race_class_and_timestamp() {
    assert_eq!(
        generate_filename(&Race::HalfOrc, &Class::Fighter, 1234),
        "characters/HalfOrc_Fighter_1234.json"
    );
    assert_eq!(
        generate_filename(&Race::Human, &Class::Wizard, 0),
        "characters/Human_Wizard_0.json"
    );
    assert_eq!(
        generate_filename(&Race::Dragonborn, &Class::Bard, 17_000_000_009),
        "characters/Dragonborn_Bard_17000000009.json"
    );
}
