//! Shapes for various purposes.
use crate::dice::{roll, sub_roll_fits};
use vstd::prelude::*;

verus! {

#[derive(Debug, Clone, Copy, PartialEq, Eq, Hash, Structural)]
pub enum Shape {
    /// An animal of the player's choice.
    AnimalOfChoice,
    Bat,
    Claw,
    CrescentMoon,
    Dragon,
    Eagle,
    Fish,
    Hand,
    Hawk,
    Skull,
    Sword,
}

/// Sides of the die rolled after a primary d10 roll of `primary`; 0 for none.
pub open spec fn shape_sub_die(primary: u32) -> u32 {
    if primary == 8 { 2 } else { 0 }
}

/// The shape table: a primary d10 roll and, where the entry asks for one, a
/// second roll `sub`.
pub open spec fn shape_for(primary: u32, sub: u32) -> Shape {
    if primary <= 1 {
        Shape::Dragon
    } else if primary == 2 {
        Shape::Skull
    } else if primary == 3 {
        Shape::Bat
    } else if primary == 4 {
        Shape::Sword
    } else if primary == 5 {
        Shape::Hand
    } else if primary == 6 {
        Shape::CrescentMoon
    } else if primary == 7 {
        Shape::Claw
    } else if primary == 8 {
        if sub == 1 { Shape::Eagle } else { Shape::Hawk }
    } else if primary == 9 {
        Shape::Fish
    } else {
        Shape::AnimalOfChoice
    }
}

/// True when the table gives `s` for some possible pair of rolls.
pub open spec fn rolled_shape(s: Shape) -> bool {
    exists|primary: u32, sub: u32|
        1 <= primary <= 10 && sub_roll_fits(shape_sub_die(primary), sub) && s == shape_for(
            primary,
            sub,
        )
}

impl Shape {
    /// Sides of the second die that the table entry of `primary` rolls; 0 for none.
    pub fn sub_die(primary: u32) -> (r: u32)
        ensures
            r == shape_sub_die(primary),
    {
        if primary == 8 { 2 } else { 0 }
    }

    /// Looks up the shape table. Every pair of rolls resolves to one shape.
    pub fn from_rolls(primary: u32, sub: u32) -> (r: Shape)
        ensures
            r == shape_for(primary, sub),
    {
        match primary {
            ..=1 => Shape::Dragon,
            2 => Shape::Skull,
            3 => Shape::Bat,
            4 => Shape::Sword,
            5 => Shape::Hand,
            6 => Shape::CrescentMoon,
            7 => Shape::Claw,
            8 => if sub == 1 { Shape::Eagle } else { Shape::Hawk },
            9 => Shape::Fish,
            _ => Shape::AnimalOfChoice,
        }
    }

    /// Generates a random shape.
    pub fn new() -> (r: Shape)
        ensures
            rolled_shape(r),
    {
        let primary = roll(10);
        let sides = Shape::sub_die(primary);
        let sub = if sides > 0 { roll(sides) } else { 0 };
        let r = Shape::from_rolls(primary, sub);
        assert(sub_roll_fits(shape_sub_die(primary), sub) && r == shape_for(primary, sub));
        r
    }
}

} // verus!
