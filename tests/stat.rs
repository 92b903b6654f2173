use rpgassist::stat::{ClampClass, Stat, StatBase, StatError};

#[test]
fn add_i32_to_stat() {
    let stat = Stat::Str { val: 10 };
    let stat = stat + 2;
    assert_eq!(12, stat.value());
}

#[test]
#[should_panic]
fn value_clamp_works() {
    let stat = Stat::Str { val: 10 };
    let stat = stat - 13;
    // The first assertion fails: the floor keeps the value at 1.
    assert_eq!(0, stat.value());
    assert_eq!(1, stat.value());
    panic!("I don't want to deal with quantum mechanics! XD");
}

#[test]
fn sub_i32_from_stat() {
    let stat = Stat::Str { val: 10 };
    let stat = stat - 2;
    assert_eq!(8, stat.value());
}

#[test]
fn add_stat_to_stat() {
    let stat1 = Stat::Dex { val: 10 };
    let stat2 = Stat::Dex { val: 5 };
    let sum = stat1 + stat2;
    assert_eq!(15, sum.value());
}

#[test]
fn addassign_stat_to_stat() {
    let mut stat1 = Stat::Dex { val: 10 };
    let stat2 = Stat::Dex { val: 5 };
    stat1 += stat2;
    assert_eq!(15, stat1.value());
}

#[test]
fn subassign_stat_from_stat() {
    let mut stat1 = Stat::Dex { val: 10 };
    let stat2 = Stat::Dex { val: 5 };
    stat1 -= stat2;
    assert_eq!(5, stat1.value());
}

#[test]
fn floor_at_one_clamps_after_subtraction() {
    let stat = Stat::Con { val: 10 } - 13;
    assert_eq!(stat, Stat::Con { val: 1 });
}

#[test]
fn unclamped_goes_negative() {
    let stat = Stat::App { val: 0 } - 5;
    assert_eq!(-5, stat.value());
    let mut cha = Stat::Cha { val: -5 };
    cha -= 100;
    assert_eq!(-105, cha.value());
}

#[test]
fn floor_at_zero_clamps_over_a_sequence() {
    let mut stat = Stat::Int { val: 3 };
    stat -= 10;
    assert_eq!(0, stat.value());
    stat += 4;
    assert_eq!(4, stat.value());
    stat -= Stat::Int { val: 9 };
    assert_eq!(0, stat.value());
    let mut age = Stat::Age { val: 1 };
    age += -5;
    assert_eq!(0, age.value());
}

#[test]
fn below_floor_start_is_raised_by_first_change() {
    let mut stat = Stat::Str { val: -20 };
    stat += 0;
    assert_eq!(1, stat.value());
}

#[test]
fn mismatched_kinds_are_rejected() {
    let dex = Stat::Dex { val: 10 };
    assert_eq!(dex.try_add(Stat::Int { val: 5 }), Err(StatError::KindMismatch));
    assert_eq!(dex.try_sub(Stat::Mag { val: 5 }), Err(StatError::KindMismatch));
    assert_eq!(dex.try_add(Stat::Dex { val: 5 }), Ok(Stat::Dex { val: 15 }));
    assert_eq!(dex.try_sub(Stat::Dex { val: 25 }), Ok(Stat::Dex { val: 1 }));
    assert_eq!(Stat::App { val: i32::MAX }.try_add(Stat::App { val: 1 }), Err(StatError::Overflow));
    assert_eq!(Stat::App { val: i32::MIN }.try_sub(Stat::App { val: 1 }), Err(StatError::Overflow));
}

#[test]
fn stat_defaults_and_classes() {
    assert_eq!(StatBase::Age.default(), Stat::Age { val: 18 });
    assert_eq!(StatBase::App.default(), Stat::App { val: 0 });
    assert_eq!(StatBase::Str.default(), Stat::Str { val: 10 });
    assert_eq!(StatBase::Will.default(), Stat::Will { val: 0 });
    assert_eq!(StatBase::Cha.clamp_class(), ClampClass::Unclamped);
    assert_eq!(StatBase::Mag.clamp_class(), ClampClass::FloorZero);
    assert_eq!(StatBase::Dex.clamp_class(), ClampClass::FloorOne);
    assert_eq!(Stat::Will { val: 2 }.stat_base(), StatBase::Will);
    assert_eq!(StatBase::from(&Stat::Con { val: 2 }), StatBase::Con);
    assert_eq!(Stat::of(StatBase::Mag, 4), Stat::Mag { val: 4 });
}

#[test]
fn stat_text() {
    assert_eq!(Stat::Str { val: 12 }.to_text(), "STR +12");
    assert_eq!(Stat::App { val: -1 }.to_text(), "APP -1");
    assert_eq!(Stat::Will { val: 0 }.to_text(), "Willpower +0");
    assert_eq!(Stat::Age { val: 30 }.to_text(), "age +30");
}
