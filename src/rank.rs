//! A generic, unclamped rank for skills, stats and the like.
use crate::details::DetailedDisplay;
use crate::text::{push_signed_decimal, signed_decimal};
use std::cmp::Ordering;
use std::ops::{Add, AddAssign, Sub, SubAssign};
use vstd::prelude::*;
use vstd::string::StringExecFns;

verus! {

/// Generic "rank" for various things, e.g. stats, skills, etc.
#[derive(Debug, Clone, Copy)]
pub struct Rank {
    pub value: i32,
}

/// A trait for anything with a rank.
pub trait IsRanked {
    /// The current rank.
    fn rank(&self) -> Rank;

    /// The current rank, to change in place.
    fn rank_mut(&mut self) -> &mut Rank;
}

/// The description of a rank of value `v`: one bucket for each of 1 to 10,
/// one for anything at most 0 and one for anything above 10.
pub open spec fn rank_label(v: int) -> Seq<char> {
    if v <= 0 {
        "Rank 0"@
    } else if v == 1 {
        "Rank 1"@
    } else if v == 2 {
        "Rank 2"@
    } else if v == 3 {
        "Rank 3"@
    } else if v == 4 {
        "Rank 4"@
    } else if v == 5 {
        "Rank 5"@
    } else if v == 6 {
        "Rank 6"@
    } else if v == 7 {
        "Rank 7"@
    } else if v == 8 {
        "Rank 8"@
    } else if v == 9 {
        "Rank 9"@
    } else if v == 10 {
        "Rank 10"@
    } else {
        "Rank 11+"@
    }
}

/// The order of two integers.
pub open spec fn order_of(a: int, b: int) -> Ordering {
    if a < b {
        Ordering::Less
    } else if a == b {
        Ordering::Equal
    } else {
        Ordering::Greater
    }
}

/// Compares two integers.
fn compare(a: i32, b: i32) -> (r: Ordering)
    ensures
        r == order_of(a as int, b as int),
{
    if a < b {
        Ordering::Less
    } else if a == b {
        Ordering::Equal
    } else {
        Ordering::Greater
    }
}

impl Rank {
    /// The value of this rank.
    pub open spec fn val(self) -> int {
        self.value as int
    }

    /// A rank of `value`.
    pub fn new(value: i32) -> (r: Rank)
        ensures
            r.val() == value,
    {
        Rank { value }
    }

    /// The value of this rank.
    pub fn value(&self) -> (r: i32)
        ensures
            r == self.val(),
    {
        self.value
    }

    /// A rank of 3.
    pub fn average() -> (r: Rank)
        ensures
            r.val() == 3,
    {
        Rank { value: 3 }
    }

    /// A rank of 0.
    pub fn none() -> (r: Rank)
        ensures
            r.val() == 0,
    {
        Rank { value: 0 }
    }

    /// A short description of the rank.
    pub fn explain(&self) -> (r: &'static str)
        ensures
            r@ == rank_label(self.val()),
    {
        match self.value {
            ..=0 => "Rank 0",
            1 => "Rank 1",
            2 => "Rank 2",
            3 => "Rank 3",
            4 => "Rank 4",
            5 => "Rank 5",
            6 => "Rank 6",
            7 => "Rank 7",
            8 => "Rank 8",
            9 => "Rank 9",
            10 => "Rank 10",
            _ => "Rank 11+",
        }
    }

    /// The value in decimal.
    pub fn to_text(&self) -> (r: String)
        ensures
            r@ == signed_decimal(self.val()),
    {
        let mut out = String::new();
        push_signed_decimal(&mut out, self.value as i64);
        out
    }
}

impl Default for Rank {
    fn default() -> (r: Rank)
        ensures
            r.val() == 0,
    {
        Rank { value: 0 }
    }
}

impl DetailedDisplay for Rank {
    fn detailed_display(&self) -> (r: String)
        ensures
            r@ == rank_label(self.val()),
    {
        String::from_str(self.explain())
    }
}

impl Add<i32> for Rank {
    type Output = Rank;

    fn add(self, rhs: i32) -> (r: Rank) {
        Rank { value: self.value + rhs }
    }
}

impl vstd::std_specs::ops::AddSpecImpl<i32> for Rank {
    open spec fn obeys_add_spec() -> bool {
        true
    }

    open spec fn add_req(self, rhs: i32) -> bool {
        i32::MIN <= self.val() + rhs <= i32::MAX
    }

    open spec fn add_spec(self, rhs: i32) -> Rank {
        Rank { value: (self.val() + rhs) as i32 }
    }
}

impl Sub<i32> for Rank {
    type Output = Rank;

    fn sub(self, rhs: i32) -> (r: Rank) {
        Rank { value: self.value - rhs }
    }
}

impl vstd::std_specs::ops::SubSpecImpl<i32> for Rank {
    open spec fn obeys_sub_spec() -> bool {
        true
    }

    open spec fn sub_req(self, rhs: i32) -> bool {
        i32::MIN <= self.val() - rhs <= i32::MAX
    }

    open spec fn sub_spec(self, rhs: i32) -> Rank {
        Rank { value: (self.val() - rhs) as i32 }
    }
}

impl AddAssign<i32> for Rank {
    fn add_assign(&mut self, rhs: i32)
        requires
            i32::MIN <= old(self).val() + rhs <= i32::MAX,
        ensures
            final(self).val() == old(self).val() + rhs,
    {
        self.value = self.value + rhs;
    }
}

impl SubAssign<i32> for Rank {
    fn sub_assign(&mut self, rhs: i32)
        requires
            i32::MIN <= old(self).val() - rhs <= i32::MAX,
        ensures
            final(self).val() == old(self).val() - rhs,
    {
        self.value = self.value - rhs;
    }
}

impl PartialEq for Rank {
    fn eq(&self, other: &Rank) -> (r: bool) {
        self.value == other.value
    }
}

impl vstd::std_specs::cmp::PartialEqSpecImpl for Rank {
    open spec fn obeys_eq_spec() -> bool {
        true
    }

    open spec fn eq_spec(&self, other: &Rank) -> bool {
        self.val() == other.val()
    }
}

impl PartialEq<i32> for Rank {
    fn eq(&self, other: &i32) -> (r: bool) {
        self.value == *other
    }
}

impl vstd::std_specs::cmp::PartialEqSpecImpl<i32> for Rank {
    open spec fn obeys_eq_spec() -> bool {
        true
    }

    open spec fn eq_spec(&self, other: &i32) -> bool {
        self.val() == *other
    }
}

impl PartialEq<Rank> for i32 {
    fn eq(&self, other: &Rank) -> (r: bool) {
        *self == other.value
    }
}

impl vstd::std_specs::cmp::PartialEqSpecImpl<Rank> for i32 {
    open spec fn obeys_eq_spec() -> bool {
        true
    }

    open spec fn eq_spec(&self, other: &Rank) -> bool {
        *self == other.val()
    }
}

impl PartialOrd for Rank {
    fn partial_cmp(&self, other: &Rank) -> (r: Option<Ordering>) {
        Some(compare(self.value, other.value))
    }
}

impl vstd::std_specs::cmp::PartialOrdSpecImpl for Rank {
    open spec fn obeys_partial_cmp_spec() -> bool {
        true
    }

    open spec fn partial_cmp_spec(&self, other: &Rank) -> Option<Ordering> {
        Some(order_of(self.val(), other.val()))
    }
}

impl PartialOrd<i32> for Rank {
    fn partial_cmp(&self, other: &i32) -> (r: Option<Ordering>) {
        Some(compare(self.value, *other))
    }
}

impl vstd::std_specs::cmp::PartialOrdSpecImpl<i32> for Rank {
    open spec fn obeys_partial_cmp_spec() -> bool {
        true
    }

    open spec fn partial_cmp_spec(&self, other: &i32) -> Option<Ordering> {
        Some(order_of(self.val(), *other as int))
    }
}

impl PartialOrd<Rank> for i32 {
    fn partial_cmp(&self, other: &Rank) -> (r: Option<Ordering>) {
        Some(compare(*self, other.value))
    }
}

impl vstd::std_specs::cmp::PartialOrdSpecImpl<Rank> for i32 {
    open spec fn obeys_partial_cmp_spec() -> bool {
        true
    }

    open spec fn partial_cmp_spec(&self, other: &Rank) -> Option<Ordering> {
        Some(order_of(*self as int, other.val()))
    }
}

impl From<i32> for Rank {
    fn from(value: i32) -> (r: Rank) {
        Rank::new(value)
    }
}

impl vstd::std_specs::convert::FromSpecImpl<i32> for Rank {
    open spec fn obeys_from_spec() -> bool {
        true
    }

    open spec fn from_spec(value: i32) -> Rank {
        Rank { value }
    }
}

} // verus!
