use mhw_companion::weapons::PhialType;
use mhw_companion::weapons::ShellingType;

#[test]
fn shelling_normal_level_two() {
    assert_eq!(ShellingType::parse("Normal Lv2"), Ok(ShellingType::Normal(2)));
}

#[test]
fn shelling_wide_level_one() {
    assert_eq!(ShellingType::parse("Wide Lv1"), Ok(ShellingType::Wide(1)));
}

#[test]
fn shelling_long_level_three() {
    assert_eq!(ShellingType::parse("Long Lv3"), Ok(ShellingType::Long(3)));
}

#[test]
fn shelling_unknown_label_fails() {
    let err = ShellingType::parse("Extra Lv1").unwrap_err();
    assert_eq!(err.value, "Extra Lv1");
    assert_eq!(err.expected, vec!["Normal LvN", "Long LvN", "Wide LvN"]);
}

#[test]
fn shelling_missing_level_token_fails() {
    let err = ShellingType::parse("Normal").unwrap_err();
    assert_eq!(err.value, "Normal");
}

#[test]
fn shelling_malformed_level_fails() {
    assert!(ShellingType::parse("Normal LvX").is_err());
    assert!(ShellingType::parse("Normal Lv").is_err());
    assert!(ShellingType::parse("Normal 2").is_err());
    assert!(ShellingType::parse("").is_err());
}

#[test]
fn shelling_overflowing_level_fails() {
    assert!(ShellingType::parse("Normal Lv99999999999").is_err());
}

#[test]
fn phial_impact_has_no_payload() {
    assert_eq!(PhialType::parse("impact"), Ok(PhialType::Impact));
}

#[test]
fn phial_dragon_carries_magnitude() {
    assert_eq!(PhialType::parse("dragon 300"), Ok(PhialType::Dragon(300)));
}

#[test]
fn phial_suffix_word_is_tolerated() {
    assert_eq!(PhialType::parse("power element phial"), Ok(PhialType::PowerElement));
    assert_eq!(PhialType::parse("impact phial"), Ok(PhialType::Impact));
}

#[test]
fn phial_dragon_without_magnitude_fails() {
    let err = PhialType::parse("dragon").unwrap_err();
    assert_eq!(err.value, "dragon");
    assert_eq!(
        err.expected,
        vec![
            "Impact",
            "Element",
            "Power",
            "Power Element",
            "Dragon XXX",
            "Exhaust XXX",
            "Paralysis XXX",
            "Poison XXX",
        ]
    );
}

#[test]
fn phial_matching_ignores_case() {
    assert_eq!(PhialType::parse("Impact"), Ok(PhialType::Impact));
    assert_eq!(PhialType::parse("Dragon 300"), Ok(PhialType::Dragon(300)));
}

#[test]
fn phial_status_kinds_need_their_magnitude() {
    assert_eq!(PhialType::parse("exhaust 120"), Ok(PhialType::Exhaust(120)));
    assert_eq!(PhialType::parse("paralysis 90"), Ok(PhialType::Paralysis(90)));
    assert_eq!(PhialType::parse("poison 10"), Ok(PhialType::Poison(10)));
    assert!(PhialType::parse("exhaust").is_err());
    assert!(PhialType::parse("paralysis").is_err());
    assert!(PhialType::parse("poison").is_err());
}

#[test]
fn phial_simple_kinds() {
    assert_eq!(PhialType::parse("element"), Ok(PhialType::Element));
    assert_eq!(PhialType::parse("power"), Ok(PhialType::Power));
    assert_eq!(PhialType::parse("power element"), Ok(PhialType::PowerElement));
}

#[test]
fn phial_garbage_fails() {
    assert!(PhialType::parse("").is_err());
    assert!(PhialType::parse("300").is_err());
    assert!(PhialType::parse("frost 10").is_err());
    assert!(PhialType::parse("phial").is_err());
}

#[test]
fn phial_overflowing_magnitude_fails() {
    assert!(PhialType::parse("dragon 99999999999").is_err());
}

#[test]
fn labels_render_their_payload() {
    assert_eq!(PhialType::Dragon(300).label(), "Dragon(300)");
    assert_eq!(PhialType::Impact.label(), "Impact");
    assert_eq!(ShellingType::Normal(2).label(), "Normal(2)");
    assert_eq!(ShellingType::Wide(-1).label(), "Wide(-1)");
    assert_eq!(PhialType::Exhaust(i32::MAX).label(), "Exhaust(2147483647)");
    assert_eq!(PhialType::Poison(i32::MIN).label(), "Poison(-2147483648)");
}
