//! Birthmarks.
use crate::color::{rolled_color, ExoticColor};
use crate::dice::roll;
use crate::location::{rolled_location, BodyLocation};
use crate::shape::{rolled_shape, Shape};
use vstd::prelude::*;

verus! {

#[derive(Debug, Clone, Copy, PartialEq, Eq, Structural)]
pub struct Birthmark {
    pub location: BodyLocation,
    /// A color other than the natural one, if any.
    pub exotic_color: Option<ExoticColor>,
    pub shape: Shape,
}

impl Birthmark {
    /// Generates a random birthmark: a location, a shape and, on a d20 roll
    /// of 1, an exotic color.
    pub fn new() -> (r: Birthmark)
        ensures
            rolled_location(r.location),
            rolled_shape(r.shape),
            r.exotic_color is Some ==> rolled_color(r.exotic_color->0),
    {
        let location = BodyLocation::random();
        let exotic_color = if roll(20) == 1 {
            Some(ExoticColor::new())
        } else {
            None
        };
        let shape = Shape::new();
        Birthmark { location, exotic_color, shape }
    }
}

} // verus!
