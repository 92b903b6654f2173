//! Body locations.
use crate::bilateral::{side_label, Bilateral};
use crate::dice::{roll, sub_roll_fits};
use crate::text::{decimal, push_decimal};
use vstd::prelude::*;
use vstd::string::StringExecFns;

verus! {

#[derive(Debug, Clone, Copy, PartialEq, Eq, Hash, Structural)]
pub enum BodyLocation {
    Abdomen,
    Arm(Bilateral),
    Back,
    Buttocks,
    Chest,
    Eye(Bilateral),
    Face,
    Fingers { count: u8, side: Bilateral },
    Foot(Bilateral),
    Genitals,
    Hand(Bilateral),
    Head,
    Leg(Bilateral),
    Thumb(Bilateral),
}

/// Sides of the die rolled after a primary d20 roll of `primary`; 0 for none.
pub open spec fn location_sub_die(primary: u32) -> u32 {
    if primary == 8 { 3 } else { 0 }
}

/// The body location table: a primary d20 roll and, where the entry asks
/// for one, a second roll `sub`. Not every location is on it.
pub open spec fn location_for(primary: u32, sub: u32) -> BodyLocation {
    if primary <= 1 {
        BodyLocation::Foot(Bilateral::Right)
    } else if primary == 2 {
        BodyLocation::Foot(Bilateral::Left)
    } else if primary == 3 {
        BodyLocation::Leg(Bilateral::Right)
    } else if primary == 4 {
        BodyLocation::Leg(Bilateral::Left)
    } else if primary == 5 || primary == 6 {
        BodyLocation::Abdomen
    } else if primary == 7 {
        BodyLocation::Buttocks
    } else if primary == 8 {
        if sub == 1 { BodyLocation::Genitals } else { BodyLocation::Buttocks }
    } else if primary == 9 {
        BodyLocation::Back
    } else if 10 <= primary <= 13 {
        BodyLocation::Chest
    } else if primary == 14 {
        BodyLocation::Arm(Bilateral::Right)
    } else if primary == 15 {
        BodyLocation::Arm(Bilateral::Left)
    } else if primary == 16 {
        BodyLocation::Hand(Bilateral::Right)
    } else if primary == 17 {
        BodyLocation::Hand(Bilateral::Left)
    } else if primary == 18 {
        BodyLocation::Head
    } else {
        BodyLocation::Face
    }
}

/// True when the table gives `l` for some possible pair of rolls.
pub open spec fn rolled_location(l: BodyLocation) -> bool {
    exists|primary: u32, sub: u32|
        1 <= primary <= 20 && sub_roll_fits(location_sub_die(primary), sub) && l == location_for(
            primary,
            sub,
        )
}

/// The text of a location.
pub open spec fn location_text(l: BodyLocation) -> Seq<char> {
    match l {
        BodyLocation::Abdomen => "abdomen"@,
        BodyLocation::Arm(s) => side_label(s) + " arm"@,
        BodyLocation::Back => "back"@,
        BodyLocation::Buttocks => "buttocks"@,
        BodyLocation::Chest => "chest"@,
        BodyLocation::Eye(s) => side_label(s) + " eye"@,
        BodyLocation::Face => "face"@,
        BodyLocation::Fingers { count, side } => decimal(count as nat) + " finger"@ + (if count
            != 1 {
            "s"@
        } else {
            ""@
        }) + " from "@ + side_label(side) + " hand"@,
        BodyLocation::Foot(s) => side_label(s) + " foot"@,
        BodyLocation::Genitals => "genitals"@,
        BodyLocation::Hand(s) => side_label(s) + " hand"@,
        BodyLocation::Head => "head"@,
        BodyLocation::Leg(s) => side_label(s) + " leg"@,
        BodyLocation::Thumb(s) => side_label(s) + " thumb"@,
    }
}

/// The side's label followed by `part`.
fn sided(side: Bilateral, part: &str) -> (r: String)
    ensures
        r@ == side_label(side) + part@,
{
    let mut out = String::from_str(side.label());
    out.append(part);
    out
}

impl BodyLocation {
    /// Sides of the second die that the table entry of `primary` rolls; 0 for none.
    pub fn sub_die(primary: u32) -> (r: u32)
        ensures
            r == location_sub_die(primary),
    {
        if primary == 8 { 3 } else { 0 }
    }

    /// Looks up the body location table. Every pair of rolls resolves to one location.
    pub fn from_rolls(primary: u32, sub: u32) -> (r: BodyLocation)
        ensures
            r == location_for(primary, sub),
    {
        match primary {
            ..=1 => BodyLocation::Foot(Bilateral::Right),
            2 => BodyLocation::Foot(Bilateral::Left),
            3 => BodyLocation::Leg(Bilateral::Right),
            4 => BodyLocation::Leg(Bilateral::Left),
            5 | 6 => BodyLocation::Abdomen,
            7 => BodyLocation::Buttocks,
            8 => if sub == 1 { BodyLocation::Genitals } else { BodyLocation::Buttocks },
            9 => BodyLocation::Back,
            10..=13 => BodyLocation::Chest,
            14 => BodyLocation::Arm(Bilateral::Right),
            15 => BodyLocation::Arm(Bilateral::Left),
            16 => BodyLocation::Hand(Bilateral::Right),
            17 => BodyLocation::Hand(Bilateral::Left),
            18 => BodyLocation::Head,
            _ => BodyLocation::Face,
        }
    }

    /// Generates a random body location.
    pub fn random() -> (r: BodyLocation)
        ensures
            rolled_location(r),
    {
        let primary = roll(20);
        let sides = BodyLocation::sub_die(primary);
        let sub = if sides > 0 { roll(sides) } else { 0 };
        let r = BodyLocation::from_rolls(primary, sub);
        assert(sub_roll_fits(location_sub_die(primary), sub) && r == location_for(primary, sub));
        r
    }

    /// The location as text, e.g. "left arm" or "2 fingers from right hand".
    pub fn to_text(&self) -> (r: String)
        ensures
            r@ == location_text(*self),
    {
        match self {
            BodyLocation::Abdomen => String::from_str("abdomen"),
            BodyLocation::Arm(s) => sided(*s, " arm"),
            BodyLocation::Back => String::from_str("back"),
            BodyLocation::Buttocks => String::from_str("buttocks"),
            BodyLocation::Chest => String::from_str("chest"),
            BodyLocation::Eye(s) => sided(*s, " eye"),
            BodyLocation::Face => String::from_str("face"),
            BodyLocation::Fingers { count, side } => {
                let mut out = String::new();
                push_decimal(&mut out, *count as u64);
                out.append(" finger");
                out.append(if *count != 1 { "s" } else { "" });
                out.append(" from ");
                out.append(side.label());
                out.append(" hand");
                out
            },
            BodyLocation::Foot(s) => sided(*s, " foot"),
            BodyLocation::Genitals => String::from_str("genitals"),
            BodyLocation::Hand(s) => sided(*s, " hand"),
            BodyLocation::Head => String::from_str("head"),
            BodyLocation::Leg(s) => sided(*s, " leg"),
            BodyLocation::Thumb(s) => sided(*s, " thumb"),
        }
    }
}

} // verus!
