use rpgassist::details::DetailedDisplay;
use rpgassist::rank::Rank;

#[test]
fn add_i32_to_rank() {
    let r = Rank::new(0);
    let r = r + 5;
    assert_eq!(5, r);
}

#[test]
fn sub_i32_from_rank() {
    let r = Rank::new(0);
    let r = r - 5;
    assert_eq!(r, -5);
}

#[test]
fn addassign_i32_to_rank() {
    let mut r = Rank::new(0);
    r += 10;
    assert_eq!(r, 10);
}

#[test]
fn subassign_i32_to_rank() {
    let mut r = Rank::new(0);
    r -= 7;
    assert_eq!(-7, r);
}

#[test]
fn rank_explain_buckets() {
    assert_eq!(Rank::new(-4).explain(), "Rank 0");
    assert_eq!(Rank::new(0).explain(), "Rank 0");
    assert_eq!(Rank::new(1).explain(), "Rank 1");
    assert_eq!(Rank::new(7).explain(), "Rank 7");
    assert_eq!(Rank::new(10).explain(), "Rank 10");
    assert_eq!(Rank::new(11).explain(), "Rank 11+");
    assert_eq!(Rank::new(500).explain(), "Rank 11+");
    assert_eq!(Rank::new(3).detailed_display(), "Rank 3");
}

#[test]
fn rank_text_and_order() {
    assert_eq!(Rank::new(-42).to_text(), "-42");
    assert_eq!(Rank::new(0).to_text(), "0");
    assert_eq!(Rank::new(i32::MIN).to_text(), "-2147483648");
    assert!(Rank::new(2) < Rank::new(3));
    assert!(Rank::new(4) > 3);
    assert!(2 < Rank::new(3));
    assert_eq!(Rank::average(), 3);
    assert_eq!(Rank::none(), Rank::default());
    assert_eq!(Rank::from(9), Rank::new(9));
}
