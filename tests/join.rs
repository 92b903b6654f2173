use rpgassist::join::NaturalJoin;

#[test]
fn natural_join_nothing() {
    let v: Vec<String> = vec![];
    let s = v.as_slice().natural_join();
    assert_eq!("", s);
}

#[test]
fn natural_join_single() {
    let a = ["A"];
    let s = a.as_slice().natural_join();
    assert_eq!("A", s);
}

#[test]
fn natural_join_two() {
    let v = ["A", "B"];
    let s = v.as_slice().natural_join();
    assert_eq!("A and B", s);
}

#[test]
fn natural_join_three() {
    let v = ["A", "B", "C"];
    let s = v.as_slice().natural_join();
    assert_eq!("A, B and C", s);
}

#[test]
fn natural_join_four_owned_strings() {
    let v: Vec<String> = vec!["A".to_string(), "B".to_string(), "C".to_string(), "D".to_string()];
    assert_eq!("A, B, C and D", v.as_slice().natural_join());
}
