//! Unusual pets.
use crate::dice::{roll, sub_roll_fits};
use vstd::prelude::*;

verus! {

/// A few animal types.
#[derive(Debug, Clone, Copy, PartialEq, Eq, Hash, Structural)]
pub enum Animal {
    /// A baby bear which *stays* a baby bear *indefinitely*.
    BabyBear,
    /// Some "big cat" (lion, tiger, etc.).
    BigCat,
    Bunny,
    Cat,
    Kitten,
    Dog,
    Puppy,
    Ferret,
    Fish,
    /// A fish that survives out of water indefinitely.
    FishOutOfWater,
    Hawk,
    Lizard,
    /// Might be an actual dragon of sorts, or just something that resembles one.
    MiniDragon,
    Monkey,
    Mouse,
    Raccoon,
    Rat,
    /// Some rodent of the player's choice.
    RodentOfChoice,
    Snake,
    /// Something utterly alien.
    SomethingAlien,
    Songbird,
}

/// Sides of the die rolled after a primary d20 roll of `primary`, or 0 when
/// that entry of the table needs no second roll.
pub open spec fn animal_sub_die(primary: u32) -> u32 {
    if primary == 4 || primary == 9 {
        2
    } else if primary == 15 {
        6
    } else {
        0
    }
}

/// The pet table: a primary d20 roll and, where the entry asks for one, a
/// second roll `sub`.
pub open spec fn animal_for(primary: u32, sub: u32) -> Animal {
    if primary <= 2 {
        Animal::Dog
    } else if primary == 3 {
        Animal::Cat
    } else if primary == 4 {
        if sub == 1 { Animal::Cat } else { Animal::Kitten }
    } else if primary == 5 {
        Animal::Bunny
    } else if primary == 6 {
        Animal::Lizard
    } else if primary == 7 {
        Animal::Monkey
    } else if primary == 8 {
        Animal::Raccoon
    } else if primary == 9 {
        if sub == 1 { Animal::Rat } else { Animal::Mouse }
    } else if primary == 10 {
        Animal::Snake
    } else if primary == 11 {
        Animal::Hawk
    } else if primary == 12 {
        Animal::RodentOfChoice
    } else if primary == 13 {
        Animal::Ferret
    } else if primary == 14 {
        Animal::Songbird
    } else if primary == 15 {
        if sub <= 6 { Animal::FishOutOfWater } else { Animal::Fish }
    } else if primary == 16 {
        Animal::Puppy
    } else if primary == 17 {
        Animal::MiniDragon
    } else if primary == 18 {
        Animal::BigCat
    } else if primary == 19 {
        Animal::BabyBear
    } else {
        Animal::SomethingAlien
    }
}

/// True when the table gives `a` for some possible pair of rolls.
pub open spec fn rolled_animal(a: Animal) -> bool {
    exists|primary: u32, sub: u32|
        1 <= primary <= 20 && sub_roll_fits(animal_sub_die(primary), sub) && a == animal_for(
            primary,
            sub,
        )
}

impl Animal {
    /// Sides of the second die that the table entry of `primary` rolls; 0 for none.
    pub fn sub_die(primary: u32) -> (r: u32)
        ensures
            r == animal_sub_die(primary),
    {
        match primary {
            4 | 9 => 2,
            15 => 6,
            _ => 0,
        }
    }

    /// Looks up the pet table. Every pair of rolls resolves to one animal.
    pub fn from_rolls(primary: u32, sub: u32) -> (r: Animal)
        ensures
            r == animal_for(primary, sub),
    {
        match primary {
            ..=2 => Animal::Dog,
            3 => Animal::Cat,
            4 => if sub == 1 { Animal::Cat } else { Animal::Kitten },
            5 => Animal::Bunny,
            6 => Animal::Lizard,
            7 => Animal::Monkey,
            8 => Animal::Raccoon,
            9 => if sub == 1 { Animal::Rat } else { Animal::Mouse },
            10 => Animal::Snake,
            11 => Animal::Hawk,
            12 => Animal::RodentOfChoice,
            13 => Animal::Ferret,
            14 => Animal::Songbird,
            15 => if sub <= 6 { Animal::FishOutOfWater } else { Animal::Fish },
            16 => Animal::Puppy,
            17 => Animal::MiniDragon,
            18 => Animal::BigCat,
            19 => Animal::BabyBear,
            _ => Animal::SomethingAlien,
        }
    }

    /// Generates a random animal.
    pub fn new() -> (r: Animal)
        ensures
            rolled_animal(r),
    {
        let primary = roll(20);
        let sides = Animal::sub_die(primary);
        let sub = if sides > 0 { roll(sides) } else { 0 };
        let r = Animal::from_rolls(primary, sub);
        assert(sub_roll_fits(animal_sub_die(primary), sub) && r == animal_for(primary, sub));
        r
    }
}

} // verus!
