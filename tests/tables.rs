use rpgassist::animal::Animal;
use rpgassist::bilateral::Bilateral;
use rpgassist::birthmark::Birthmark;
use rpgassist::color::{BaseColor, ExoticColor, COLOR_DIE};
use rpgassist::location::BodyLocation;
use rpgassist::shape::Shape;

#[test]
fn lowest_creature_roll_is_a_dog() {
    assert_eq!(Animal::from_rolls(1, 0), Animal::Dog);
    assert_eq!(Animal::from_rolls(2, 0), Animal::Dog);
}

#[test]
fn highest_creature_roll_is_alien() {
    assert_eq!(Animal::from_rolls(20, 0), Animal::SomethingAlien);
}

#[test]
fn creature_sub_rolls() {
    assert_eq!(Animal::sub_die(4), 2);
    assert_eq!(Animal::from_rolls(4, 1), Animal::Cat);
    assert_eq!(Animal::from_rolls(4, 2), Animal::Kitten);
    assert_eq!(Animal::from_rolls(9, 1), Animal::Rat);
    assert_eq!(Animal::from_rolls(9, 2), Animal::Mouse);
    assert_eq!(Animal::sub_die(15), 6);
    for sub in 1..=6 {
        assert_eq!(Animal::from_rolls(15, sub), Animal::FishOutOfWater);
    }
    assert_eq!(Animal::sub_die(1), 0);
}

#[test]
fn every_table_roll_resolves() {
    let mut animals = Vec::new();
    for primary in 1..=20 {
        let sides = Animal::sub_die(primary);
        for sub in 1..=sides.max(1) {
            animals.push(Animal::from_rolls(primary, sub));
        }
        let sides = BodyLocation::sub_die(primary);
        for sub in 1..=sides.max(1) {
            let _ = BodyLocation::from_rolls(primary, sub);
        }
    }
    assert!(animals.contains(&Animal::BabyBear));
    assert!(animals.contains(&Animal::Kitten));
    for primary in 1..=COLOR_DIE {
        let sides = BaseColor::sub_die(primary);
        for sub in 1..=sides.max(1) {
            let _ = BaseColor::from_rolls(primary, sub);
        }
    }
    for primary in 1..=10 {
        let sides = Shape::sub_die(primary);
        for sub in 1..=sides.max(1) {
            let _ = Shape::from_rolls(primary, sub);
        }
    }
}

#[test]
fn body_location_table() {
    assert_eq!(BodyLocation::from_rolls(1, 0), BodyLocation::Foot(Bilateral::Right));
    assert_eq!(BodyLocation::from_rolls(6, 0), BodyLocation::Abdomen);
    assert_eq!(BodyLocation::from_rolls(8, 1), BodyLocation::Genitals);
    assert_eq!(BodyLocation::from_rolls(8, 3), BodyLocation::Buttocks);
    assert_eq!(BodyLocation::from_rolls(12, 0), BodyLocation::Chest);
    assert_eq!(BodyLocation::from_rolls(20, 0), BodyLocation::Face);
}

#[test]
fn body_location_text() {
    assert_eq!(BodyLocation::Arm(Bilateral::Left).to_text(), "left arm");
    assert_eq!(BodyLocation::Chest.to_text(), "chest");
    let one = BodyLocation::Fingers { count: 1, side: Bilateral::Right };
    assert_eq!(one.to_text(), "1 finger from right hand");
    let many = BodyLocation::Fingers { count: 12, side: Bilateral::Left };
    assert_eq!(many.to_text(), "12 fingers from left hand");
}

#[test]
fn color_table_and_tints() {
    assert_eq!(BaseColor::from_rolls(1, 1), BaseColor::Red);
    assert_eq!(BaseColor::from_rolls(1, 4), BaseColor::BloodRed);
    assert_eq!(BaseColor::from_rolls(8, 2), BaseColor::Aquamarine);
    assert_eq!(BaseColor::from_rolls(18, 2), BaseColor::Platinum);
    assert_eq!(BaseColor::from_rolls(19, 0), BaseColor::Gold);
    assert_eq!(ExoticColor::with_modifier(BaseColor::Blue, 1, 1), ExoticColor::Dark(BaseColor::Blue));
    assert_eq!(ExoticColor::with_modifier(BaseColor::Blue, 1, 2), ExoticColor::Pastel(BaseColor::Blue));
    assert_eq!(ExoticColor::with_modifier(BaseColor::Blue, 7, 1), ExoticColor::Plain(BaseColor::Blue));
    assert_eq!(ExoticColor::Pastel(BaseColor::Pink).base(), BaseColor::Pink);
}

#[test]
fn shape_and_sides() {
    assert_eq!(Shape::from_rolls(1, 0), Shape::Dragon);
    assert_eq!(Shape::from_rolls(8, 1), Shape::Eagle);
    assert_eq!(Shape::from_rolls(8, 2), Shape::Hawk);
    assert_eq!(Shape::from_rolls(10, 0), Shape::AnimalOfChoice);
    assert_eq!(Bilateral::lr_from_roll(1), Bilateral::Left);
    assert_eq!(Bilateral::lr_from_roll(2), Bilateral::Right);
    assert_eq!(Bilateral::fb_from_roll(1), Bilateral::Front);
    assert_eq!(Bilateral::fb_from_roll(2), Bilateral::Back);
}

#[test]
fn random_generation_stays_on_the_tables() {
    let mut lefts = 0;
    for _ in 0..200 {
        let lr = Bilateral::random_lr();
        assert!(lr == Bilateral::Left || lr == Bilateral::Right);
        if lr == Bilateral::Left {
            lefts += 1;
        }
        let fb = Bilateral::random_fb();
        assert!(fb == Bilateral::Front || fb == Bilateral::Back);
        let _ = Animal::new();
        let _ = ExoticColor::new();
        let mark = Birthmark::new();
        assert!(!matches!(mark.location, BodyLocation::Eye(_) | BodyLocation::Thumb(_)));
    }
    // Both sides of a fair d2 turn up in 200 rolls.
    assert!(0 < lefts && lefts < 200);
}
