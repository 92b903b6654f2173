//! Gender, resolved once from an unspecified state, with or without bias.
use crate::dice::roll;
use crate::text::{lower_of, lowercase, same_text};
use std::cmp::Ordering;
use vstd::prelude::*;

verus! {

/// Genders, obviously …
#[derive(Debug, Clone, Copy, PartialEq, Eq, Structural)]
pub enum Gender {
    /// Gender not (yet) resolved.
    Unspecified,
    Male,
    Female,
    /// Gender is either not applicable or just doesn't matter (at all).
    NeverApplicable,
}

impl PartialOrd for Gender {
    /// All genders (or lack of such) are treated equal.
    fn partial_cmp(&self, _other: &Gender) -> (r: Option<Ordering>)
        ensures
            r == Some(Ordering::Equal),
    {
        Some(Ordering::Equal)
    }
}

impl vstd::std_specs::cmp::PartialOrdSpecImpl for Gender {
    open spec fn obeys_partial_cmp_spec() -> bool {
        true
    }

    open spec fn partial_cmp_spec(&self, other: &Gender) -> Option<Ordering> {
        Some(Ordering::Equal)
    }
}

/// The largest magnitude a [`Bias10`] holds.
pub const MAX_BIAS: u32 = 10;

/// A bias value for dice rolls, held in `0..=10`. What it means depends on
/// where it is used.
#[derive(Debug, Clone, Copy)]
pub struct Bias10 {
    value: u32,
}

impl Bias10 {
    #[verifier::type_invariant]
    spec fn bounded(&self) -> bool {
        self.value <= MAX_BIAS
    }

    /// The magnitude held.
    pub closed spec fn magnitude(self) -> u32 {
        self.value
    }

    /// Makes a bias of `value`, lowered to 10 where it is larger.
    pub fn new(value: u32) -> (r: Bias10)
        ensures
            r.magnitude() == if value <= MAX_BIAS { value } else { MAX_BIAS },
            r.magnitude() <= MAX_BIAS,
    {
        if value <= MAX_BIAS {
            Bias10 { value }
        } else {
            Bias10 { value: MAX_BIAS }
        }
    }

    /// The magnitude held; never above 10, however the bias was made.
    pub fn value(&self) -> (r: u32)
        ensures
            r == self.magnitude(),
            r <= MAX_BIAS,
    {
        proof {
            use_type_invariant(self);
        }
        self.value
    }
}

impl Default for Bias10 {
    fn default() -> (r: Bias10)
        ensures
            r.magnitude() == 0,
    {
        Bias10 { value: 0 }
    }
}

/// Which way, and how strongly, a gender roll leans.
#[derive(Debug, Clone, Copy)]
pub enum GenderBias {
    /// The higher the bias, the more likely the result is male.
    Male(Bias10),
    /// About two thirds of rolls come out male.
    Male23,
    /// The higher the bias, the more likely the result is female.
    Female(Bias10),
    /// About two thirds of rolls come out female.
    Female23,
    /// No lean either way: about one to one.
    Unbiased,
}

impl Default for GenderBias {
    fn default() -> (r: GenderBias)
        ensures
            r is Unbiased,
    {
        GenderBias::Unbiased
    }
}

/// A trait for anything that carries a gender bias.
pub trait HasGenderBias {
    fn gender_bias(&self) -> GenderBias;
}

/// The signed amount that `bias` adds to a d20 gender roll.
pub open spec fn bias_offset(bias: GenderBias) -> int {
    match bias {
        GenderBias::Male23 => -3,
        GenderBias::Male(v) => -(v.magnitude() as int),
        GenderBias::Female23 => 4,
        GenderBias::Female(v) => v.magnitude() as int,
        GenderBias::Unbiased => 0,
    }
}

/// The gender that a d20 roll of `roll` gives under `bias`: male when the
/// adjusted total is at most 10, female above.
pub open spec fn gender_for_roll(roll: u32, bias: GenderBias) -> Gender {
    if roll + bias_offset(bias) <= 10 {
        Gender::Male
    } else {
        Gender::Female
    }
}

/// Resolution of `g` with the roll `roll`: an unspecified gender becomes the
/// rolled one; any other state stays as it is.
pub open spec fn resolved(g: Gender, roll: u32, bias: GenderBias) -> Gender {
    if g is Unspecified {
        gender_for_roll(roll, bias)
    } else {
        g
    }
}

/// What a lowercase gender token stands for: `None` for a token that names
/// no gender, `Unspecified` for an empty one.
pub open spec fn gender_of_token(t: Seq<char>) -> Option<Gender> {
    if t.len() == 0 {
        Some(Gender::Unspecified)
    } else if t == "m"@ || t == "male"@ || t == "mies"@ {
        Some(Gender::Male)
    } else if t == "f"@ || t == "n"@ || t == "female"@ || t == "nainen"@ || t == "t"@ || t
        == "tyttö"@ || t == "tytto"@ {
        Some(Gender::Female)
    } else {
        None
    }
}

impl GenderBias {
    /// The signed amount this bias adds to a d20 gender roll.
    pub fn offset(&self) -> (r: i32)
        ensures
            r == bias_offset(*self),
            -10 <= r <= 10,
    {
        match self {
            GenderBias::Male23 => -3,
            GenderBias::Male(v) => -(v.value() as i32),
            GenderBias::Female23 => 4,
            GenderBias::Female(v) => v.value() as i32,
            GenderBias::Unbiased => 0,
        }
    }
}

impl Gender {
    /// The gender that the d20 roll `roll` gives under `bias`.
    pub fn from_roll(roll: u32, bias: GenderBias) -> (r: Gender)
        ensures
            r == gender_for_roll(roll, bias),
    {
        let total = roll as i64 + bias.offset() as i64;
        if total <= 10 {
            Gender::Male
        } else {
            Gender::Female
        }
    }

    /// Generates a random gender, about one to one.
    pub fn random() -> (r: Gender)
        ensures
            exists|roll: u32| 1 <= roll <= 20 && r == gender_for_roll(roll, GenderBias::Unbiased),
    {
        Gender::random_biased(GenderBias::Unbiased)
    }

    /// Generates a random gender, with or without bias toward one or the other.
    pub fn random_biased(bias: GenderBias) -> (r: Gender)
        ensures
            exists|roll: u32| 1 <= roll <= 20 && r == gender_for_roll(roll, bias),
            r is Male || r is Female,
    {
        let roll = roll(20);
        Gender::from_roll(roll, bias)
    }

    /// The set gender, or a random one where none is set yet. Stores nothing.
    pub fn get_or_random(&self) -> (r: Gender)
        ensures
            !(*self is Unspecified) ==> r == *self,
            *self is Unspecified ==> exists|roll: u32|
                1 <= roll <= 20 && r == gender_for_roll(roll, GenderBias::Unbiased),
    {
        match self {
            Gender::Unspecified => Gender::random_biased(GenderBias::Unbiased),
            _ => *self,
        }
    }

    /// Resolution of this gender with a given roll: see [`resolved`].
    pub fn resolved_with(&self, roll: u32, bias: GenderBias) -> (r: Gender)
        ensures
            r == resolved(*self, roll, bias),
    {
        match self {
            Gender::Unspecified => Gender::from_roll(roll, bias),
            _ => *self,
        }
    }

    /// Resolves an unspecified gender in place; `bias` may sway the result.
    /// A gender already resolved, or never applicable, stays as it is.
    pub fn resolve_biased(&mut self, bias: GenderBias)
        ensures
            exists|roll: u32| 1 <= roll <= 20 && *final(self) == resolved(*old(self), roll, bias),
            !(*old(self) is Unspecified) ==> *final(self) == *old(self),
    {
        if *self == Gender::Unspecified {
            let g = Gender::random_biased(bias);
            proof {
                let roll = choose|roll: u32| 1 <= roll <= 20 && g == gender_for_roll(roll, bias);
                assert(g == resolved(*old(self), roll, bias));
            }
            *self = g;
        } else {
            assert(resolved(*old(self), 1, bias) == *old(self));
        }
    }

    /// Resolves an unspecified gender in place, about one to one.
    pub fn resolve(&mut self)
        ensures
            exists|roll: u32|
                1 <= roll <= 20 && *final(self) == resolved(*old(self), roll, GenderBias::Unbiased),
            !(*old(self) is Unspecified) ==> *final(self) == *old(self),
    {
        self.resolve_biased(GenderBias::Unbiased)
    }

    /// The gender that a lowercase token names, if any: see [`gender_of_token`].
    pub fn from_folded(token: &str) -> (r: Option<Gender>)
        ensures
            r == gender_of_token(token@),
    {
        if token.unicode_len() == 0 {
            Some(Gender::Unspecified)
        } else if same_text(token, "m") || same_text(token, "male") || same_text(token, "mies") {
            Some(Gender::Male)
        } else if same_text(token, "f") || same_text(token, "n") || same_text(token, "female")
            || same_text(token, "nainen") || same_text(token, "t") || same_text(token, "tyttö")
            || same_text(token, "tytto") {
            Some(Gender::Female)
        } else {
            None
        }
    }

    /// Reads a gender from text, in any letter case. `None` where the text
    /// names no gender; empty text leaves the gender unspecified.
    pub fn parse(value: &str) -> (r: Option<Gender>)
        ensures
            r == gender_of_token(lower_of(value@)),
            value@.len() == 0 ==> r == Some(Gender::Unspecified),
    {
        let folded = lowercase(value);
        Gender::from_folded(folded.as_str())
    }

    /// Reads an optional gender text: absent text leaves the gender
    /// unspecified, present text is read as by [`Gender::parse`].
    pub fn from_optional(value: Option<String>) -> (r: Option<Gender>)
        ensures
            value is None ==> r == Some(Gender::Unspecified),
            value is Some ==> r == gender_of_token(lower_of(value->0@)),
    {
        match value {
            Some(text) => Gender::parse(text.as_str()),
            None => Some(Gender::Unspecified),
        }
    }
}

impl Default for Gender {
    /// An unspecified gender: defaults involve no chance.
    fn default() -> (r: Gender)
        ensures
            r is Unspecified,
    {
        Gender::Unspecified
    }
}

/// A trait for anything that routes gender information.
pub trait HasGender {
    fn gender(&self) -> Gender;
}

/// Resolving is idempotent: a gender that is resolved, or never
/// applicable, stays as it is whatever the roll and the bias; and resolving
/// a second time changes nothing that the first resolution gave.
pub proof fn lemma_resolution_idempotent(
    g: Gender,
    first_roll: u32,
    first_bias: GenderBias,
    second_roll: u32,
    second_bias: GenderBias,
)
    ensures
        !(g is Unspecified) ==> resolved(g, second_roll, second_bias) == g,
        resolved(resolved(g, first_roll, first_bias), second_roll, second_bias) == resolved(
            g,
            first_roll,
            first_bias,
        ),
        !(resolved(g, first_roll, first_bias) is Unspecified),
{
}

} // verus!
