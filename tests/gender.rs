use rpgassist::gender::{Bias10, Gender, GenderBias};
use std::cmp::Ordering;

#[test]
fn full_bias_toward_male_always_male() {
    let bias = GenderBias::Male(Bias10::new(10));
    for roll in 1..=20 {
        assert_eq!(Gender::from_roll(roll, bias), Gender::Male);
    }
    for _ in 0..100 {
        assert_eq!(Gender::random_biased(bias), Gender::Male);
    }
}

#[test]
fn unbiased_threshold() {
    assert_eq!(Gender::from_roll(10, GenderBias::Unbiased), Gender::Male);
    assert_eq!(Gender::from_roll(11, GenderBias::Unbiased), Gender::Female);
    assert_eq!(Gender::from_roll(13, GenderBias::Male23), Gender::Male);
    assert_eq!(Gender::from_roll(14, GenderBias::Male23), Gender::Female);
    assert_eq!(Gender::from_roll(6, GenderBias::Female23), Gender::Male);
    assert_eq!(Gender::from_roll(7, GenderBias::Female23), Gender::Female);
    assert_eq!(Gender::from_roll(1, GenderBias::Female(Bias10::new(10))), Gender::Female);
}

#[test]
fn bias_is_clamped() {
    assert_eq!(Bias10::new(25).value(), 10);
    assert_eq!(Bias10::new(10).value(), 10);
    assert_eq!(Bias10::new(7).value(), 7);
    assert_eq!(Bias10::default().value(), 0);
    assert_eq!(GenderBias::Female(Bias10::new(99)).offset(), 10);
    assert_eq!(GenderBias::Male(Bias10::new(4)).offset(), -4);
}

#[test]
fn resolution_is_idempotent() {
    for roll in 1..=20 {
        for g in [Gender::Male, Gender::Female, Gender::NeverApplicable] {
            assert_eq!(g.resolved_with(roll, GenderBias::Female23), g);
            let mut h = g;
            h.resolve_biased(GenderBias::Male(Bias10::new(10)));
            assert_eq!(h, g);
        }
        let once = Gender::Unspecified.resolved_with(roll, GenderBias::Unbiased);
        assert_eq!(once.resolved_with(21 - roll, GenderBias::Unbiased), once);
    }
    let mut g = Gender::Unspecified;
    g.resolve();
    assert!(g == Gender::Male || g == Gender::Female);
    let first = g;
    g.resolve();
    assert_eq!(g, first);
}

#[test]
fn get_or_random_keeps_set_gender() {
    assert_eq!(Gender::NeverApplicable.get_or_random(), Gender::NeverApplicable);
    assert_eq!(Gender::Female.get_or_random(), Gender::Female);
    let g = Gender::Unspecified.get_or_random();
    assert!(g == Gender::Male || g == Gender::Female);
    let r = Gender::random();
    assert!(r == Gender::Male || r == Gender::Female);
    assert_eq!(Gender::default(), Gender::Unspecified);
}

#[test]
fn parse_tokens() {
    assert_eq!(Gender::parse("MALE"), Some(Gender::Male));
    assert_eq!(Gender::parse("Mies"), Some(Gender::Male));
    assert_eq!(Gender::parse("F"), Some(Gender::Female));
    assert_eq!(Gender::parse("TYTTÖ"), Some(Gender::Female));
    assert_eq!(Gender::parse("nainen"), Some(Gender::Female));
    assert_eq!(Gender::parse(""), Some(Gender::Unspecified));
    assert_eq!(Gender::parse("robot"), None);
    assert_eq!(Gender::from_folded("Male"), None);
    assert_eq!(Gender::from_optional(None), Some(Gender::Unspecified));
    assert_eq!(Gender::from_optional(Some("t".to_string())), Some(Gender::Female));
}

#[test]
fn genders_compare_as_equal() {
    assert_eq!(Gender::Male.partial_cmp(&Gender::Female), Some(Ordering::Equal));
    assert!(!(Gender::Unspecified < Gender::NeverApplicable));
}
