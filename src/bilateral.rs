//! Bilateralisms: left/right, front/back.
use crate::dice::roll;
use vstd::prelude::*;

verus! {

/// Some bilateralisms…
#[derive(Debug, Clone, Copy, PartialEq, Eq, Hash, Structural)]
pub enum Bilateral {
    Left,
    Right,
    Front,
    Back,
}

/// The label of each side.
pub open spec fn side_label(b: Bilateral) -> Seq<char> {
    match b {
        Bilateral::Left => "left"@,
        Bilateral::Right => "right"@,
        Bilateral::Front => "front"@,
        Bilateral::Back => "back"@,
    }
}

impl Bilateral {
    /// Left on a d2 roll of 1, right otherwise.
    pub fn lr_from_roll(roll: u32) -> (r: Bilateral)
        ensures
            r == (if roll == 1 { Bilateral::Left } else { Bilateral::Right }),
    {
        match roll {
            1 => Bilateral::Left,
            _ => Bilateral::Right,
        }
    }

    /// Front on a d2 roll of 1, back otherwise.
    pub fn fb_from_roll(roll: u32) -> (r: Bilateral)
        ensures
            r == (if roll == 1 { Bilateral::Front } else { Bilateral::Back }),
    {
        match roll {
            1 => Bilateral::Front,
            _ => Bilateral::Back,
        }
    }

    /// Generates left or right randomly.
    pub fn random_lr() -> (r: Bilateral)
        ensures
            r is Left || r is Right,
    {
        Bilateral::lr_from_roll(roll(2))
    }

    /// Generates front or back randomly.
    pub fn random_fb() -> (r: Bilateral)
        ensures
            r is Front || r is Back,
    {
        Bilateral::fb_from_roll(roll(2))
    }

    /// The side's label.
    pub fn label(&self) -> (r: &'static str)
        ensures
            r@ == side_label(*self),
    {
        match self {
            Bilateral::Back => "back",
            Bilateral::Front => "front",
            Bilateral::Left => "left",
            Bilateral::Right => "right",
        }
    }
}

} // verus!
