//! Random generation of descriptive attributes for tabletop role-playing
//! characters (pets, body locations, colors, shapes, gender), and the typed
//! numeric attributes (stats, ranks) that track their state.
//!
//! Every weighted table is split in two: a function from the rolls to the
//! variant, with an exact contract, and a function that rolls the dice and
//! hands the rolls to it.

pub mod animal;
pub mod bilateral;
pub mod birthmark;
pub mod color;
pub mod details;
pub mod dice;
pub mod gender;
pub mod join;
pub mod location;
pub mod named;
pub mod rank;
pub mod serial;
pub mod shape;
pub mod stat;
pub mod text;

pub use animal::Animal;
pub use bilateral::Bilateral;
pub use birthmark::Birthmark;
pub use color::{BaseColor, ExoticColor};
pub use details::{DetailedDisplay, NewsPaperCaseExt, ProperCaseExt};
pub use gender::{Bias10, Gender, GenderBias, HasGender, HasGenderBias};
pub use join::NaturalJoin;
pub use location::BodyLocation;
pub use named::IsNamed;
pub use rank::{IsRanked, Rank};
pub use shape::Shape;
pub use stat::{Stat, StatBase};
