//! Exotic colors: a base color from a weighted table, now and then tinted
//! dark or pastel.
use crate::dice::{roll, sub_roll_fits};
use vstd::prelude::*;

verus! {

/// The untinted colors of the table.
#[derive(Debug, Clone, Copy, PartialEq, Eq, Hash, Structural)]
pub enum BaseColor {
    Red,
    Crimson,
    Scarlet,
    BloodRed,
    RedOrange,
    SunsetOrange,
    Orange,
    YellowOrange,
    Yellow,
    YellowGreen,
    Citrine,
    Green,
    BlueGreen,
    Aquamarine,
    Tourquoise,
    Blue,
    BlueViolet,
    RoyalBlue,
    Violet,
    Purple,
    Lavender,
    RedViolet,
    Magenta,
    HotPink,
    Pink,
    White,
    SnowWhite,
    OffWhite,
    Ivory,
    Black,
    Ebony,
    TrueBlack,
    VantaBlack,
    Gray,
    Maroon,
    ReddishBrown,
    PurplishBrown,
    Silver,
    Gold,
    Platinum,
}

/// A base color, bare or tinted once. A tint always holds a bare base
/// color, so a tint of a tint cannot be built.
#[derive(Debug, Clone, Copy, PartialEq, Eq, Hash, Structural)]
pub enum ExoticColor {
    Plain(BaseColor),
    Dark(BaseColor),
    Pastel(BaseColor),
}

/// Sides of the primary die of the color table.
pub const COLOR_DIE: u32 = 19;

/// Sides of the die rolled after a primary roll of `primary`; 0 for none.
pub open spec fn color_sub_die(primary: u32) -> u32 {
    if primary <= 1 || primary == 14 {
        4
    } else if primary == 2 || primary == 6 || primary == 10 || primary == 18 {
        2
    } else if primary == 8 || primary == 11 || primary == 12 || primary == 15 || primary == 17 {
        3
    } else {
        0
    }
}

/// Picks one of four colors by a d4 roll.
pub open spec fn pick4(sub: u32, a: BaseColor, b: BaseColor, c: BaseColor, d: BaseColor) -> BaseColor {
    if sub <= 1 { a } else if sub == 2 { b } else if sub == 3 { c } else { d }
}

/// Picks one of three colors by a d3 roll.
pub open spec fn pick3(sub: u32, a: BaseColor, b: BaseColor, c: BaseColor) -> BaseColor {
    if sub <= 1 { a } else if sub == 2 { b } else { c }
}

/// Picks one of two colors by a d2 roll.
pub open spec fn pick2(sub: u32, a: BaseColor, b: BaseColor) -> BaseColor {
    if sub == 1 { a } else { b }
}

/// The base color table: a primary d19 roll and, where the entry asks for
/// one, a second roll `sub`.
pub open spec fn base_color_for(primary: u32, sub: u32) -> BaseColor {
    if primary <= 1 {
        pick4(sub, BaseColor::Red, BaseColor::Crimson, BaseColor::Scarlet, BaseColor::BloodRed)
    } else if primary == 2 {
        pick2(sub, BaseColor::RedOrange, BaseColor::SunsetOrange)
    } else if primary == 3 {
        BaseColor::Orange
    } else if primary == 4 {
        BaseColor::YellowOrange
    } else if primary == 5 {
        BaseColor::Yellow
    } else if primary == 6 {
        pick2(sub, BaseColor::YellowGreen, BaseColor::Citrine)
    } else if primary == 7 {
        BaseColor::Green
    } else if primary == 8 {
        pick3(sub, BaseColor::BlueGreen, BaseColor::Aquamarine, BaseColor::Tourquoise)
    } else if primary == 9 {
        BaseColor::Blue
    } else if primary == 10 {
        pick2(sub, BaseColor::BlueViolet, BaseColor::RoyalBlue)
    } else if primary == 11 {
        pick3(sub, BaseColor::Violet, BaseColor::Purple, BaseColor::Lavender)
    } else if primary == 12 {
        pick3(sub, BaseColor::RedViolet, BaseColor::Magenta, BaseColor::HotPink)
    } else if primary == 13 {
        BaseColor::Pink
    } else if primary == 14 {
        pick4(sub, BaseColor::White, BaseColor::SnowWhite, BaseColor::OffWhite, BaseColor::Ivory)
    } else if primary == 15 {
        pick3(sub, BaseColor::Black, BaseColor::Ebony, BaseColor::TrueBlack)
    } else if primary == 16 {
        BaseColor::Gray
    } else if primary == 17 {
        pick3(sub, BaseColor::Maroon, BaseColor::ReddishBrown, BaseColor::PurplishBrown)
    } else if primary == 18 {
        pick2(sub, BaseColor::Silver, BaseColor::Platinum)
    } else {
        BaseColor::Gold
    }
}

/// The tint step: a d20 roll `chance` of 1 tints the base, dark on a d2
/// roll `tint` of 1 and pastel otherwise; any other `chance` leaves it bare.
pub open spec fn tinted(base: BaseColor, chance: u32, tint: u32) -> ExoticColor {
    if chance == 1 {
        if tint == 1 { ExoticColor::Dark(base) } else { ExoticColor::Pastel(base) }
    } else {
        ExoticColor::Plain(base)
    }
}

/// True when the tables give `c` for some possible rolls.
pub open spec fn rolled_color(c: ExoticColor) -> bool {
    exists|primary: u32, sub: u32, chance: u32, tint: u32|
        1 <= primary <= COLOR_DIE && sub_roll_fits(color_sub_die(primary), sub) && 1 <= chance
            <= 20 && sub_roll_fits(if chance == 1 { 2 } else { 0 }, tint) && c == tinted(
            base_color_for(primary, sub),
            chance,
            tint,
        )
}

impl BaseColor {
    /// Sides of the second die that the table entry of `primary` rolls; 0 for none.
    pub fn sub_die(primary: u32) -> (r: u32)
        ensures
            r == color_sub_die(primary),
    {
        match primary {
            ..=1 | 14 => 4,
            2 | 6 | 10 | 18 => 2,
            8 | 11 | 12 | 15 | 17 => 3,
            _ => 0,
        }
    }

    /// Looks up the base color table. Every pair of rolls resolves to one color.
    pub fn from_rolls(primary: u32, sub: u32) -> (r: BaseColor)
        ensures
            r == base_color_for(primary, sub),
    {
        match primary {
            ..=1 => match sub {
                ..=1 => BaseColor::Red,
                2 => BaseColor::Crimson,
                3 => BaseColor::Scarlet,
                _ => BaseColor::BloodRed,
            },
            2 => if sub == 1 { BaseColor::RedOrange } else { BaseColor::SunsetOrange },
            3 => BaseColor::Orange,
            4 => BaseColor::YellowOrange,
            5 => BaseColor::Yellow,
            6 => if sub == 1 { BaseColor::YellowGreen } else { BaseColor::Citrine },
            7 => BaseColor::Green,
            8 => match sub {
                ..=1 => BaseColor::BlueGreen,
                2 => BaseColor::Aquamarine,
                _ => BaseColor::Tourquoise,
            },
            9 => BaseColor::Blue,
            10 => if sub == 1 { BaseColor::BlueViolet } else { BaseColor::RoyalBlue },
            11 => match sub {
                ..=1 => BaseColor::Violet,
                2 => BaseColor::Purple,
                _ => BaseColor::Lavender,
            },
            12 => match sub {
                ..=1 => BaseColor::RedViolet,
                2 => BaseColor::Magenta,
                _ => BaseColor::HotPink,
            },
            13 => BaseColor::Pink,
            14 => match sub {
                ..=1 => BaseColor::White,
                2 => BaseColor::SnowWhite,
                3 => BaseColor::OffWhite,
                _ => BaseColor::Ivory,
            },
            15 => match sub {
                ..=1 => BaseColor::Black,
                2 => BaseColor::Ebony,
                _ => BaseColor::TrueBlack,
            },
            16 => BaseColor::Gray,
            17 => match sub {
                ..=1 => BaseColor::Maroon,
                2 => BaseColor::ReddishBrown,
                _ => BaseColor::PurplishBrown,
            },
            18 => if sub == 1 { BaseColor::Silver } else { BaseColor::Platinum },
            _ => BaseColor::Gold,
        }
    }

    /// Generates a random base color.
    pub fn new() -> (r: BaseColor)
        ensures
            exists|primary: u32, sub: u32|
                1 <= primary <= COLOR_DIE && sub_roll_fits(color_sub_die(primary), sub) && r
                    == base_color_for(primary, sub),
    {
        let primary = roll(COLOR_DIE);
        let sides = BaseColor::sub_die(primary);
        let sub = if sides > 0 { roll(sides) } else { 0 };
        BaseColor::from_rolls(primary, sub)
    }
}

impl ExoticColor {
    /// The base color, with any tint taken off.
    pub open spec fn base_spec(self) -> BaseColor {
        match self {
            ExoticColor::Plain(b) => b,
            ExoticColor::Dark(b) => b,
            ExoticColor::Pastel(b) => b,
        }
    }

    /// The base color, with any tint taken off.
    pub fn base(&self) -> (r: BaseColor)
        ensures
            r == self.base_spec(),
    {
        match self {
            ExoticColor::Plain(b) => *b,
            ExoticColor::Dark(b) => *b,
            ExoticColor::Pastel(b) => *b,
        }
    }

    /// Applies the tint step to `base` for the rolls `chance` (d20) and `tint` (d2).
    pub fn with_modifier(base: BaseColor, chance: u32, tint: u32) -> (r: ExoticColor)
        ensures
            r == tinted(base, chance, tint),
            r.base_spec() == base,
    {
        if chance == 1 {
            if tint == 1 {
                ExoticColor::Dark(base)
            } else {
                ExoticColor::Pastel(base)
            }
        } else {
            ExoticColor::Plain(base)
        }
    }

    /// Generates a random exotic color which may or may not be tinted.
    pub fn new() -> (r: ExoticColor)
        ensures
            rolled_color(r),
    {
        let base = BaseColor::new();
        let chance = roll(20);
        let tint = if chance == 1 { roll(2) } else { 0 };
        ExoticColor::with_modifier(base, chance, tint)
    }
}

} // verus!
