//! Stats: named quantities with an integer value and a floor that every
//! additive change respects.
//!
//! * **Age** (in whole years)
//! * **App**earance (comeliness)
//! * **Cha**risma (personal magnetism)
//! * **Con**stitution
//! * **Dex**terity (manual)
//! * **Int**elligence
//! * **Mag**ical Aptitude
//! * **Str**ength (physical)
//! * **Will** (strength of one's mind)
use crate::text::{decimal, push_decimal, push_signed_decimal, signed_decimal};
use std::ops::{Add, AddAssign, Sub, SubAssign};
use vstd::prelude::*;
use vstd::string::StringExecFns;

verus! {

/// Core stat kinds without value payload.
#[derive(Debug, Clone, Copy, PartialEq, Eq, Hash, Structural)]
pub enum StatBase {
    Age,
    App,
    Cha,
    Con,
    Dex,
    Int,
    Mag,
    Str,
    Will,
}

/// Stats with a value assigned.
#[derive(Debug, Clone, Copy, PartialEq, Eq, Hash, Structural)]
pub enum Stat {
    Age { val: i32 },
    App { val: i32 },
    Cha { val: i32 },
    Con { val: i32 },
    Dex { val: i32 },
    Int { val: i32 },
    Mag { val: i32 },
    Str { val: i32 },
    Will { val: i32 },
}

/// The floor that a kind of stat keeps after every change.
#[derive(Debug, Clone, Copy, PartialEq, Eq, Structural)]
pub enum ClampClass {
    /// No floor and no ceiling.
    Unclamped,
    /// Never below 0.
    FloorZero,
    /// Never below 1.
    FloorOne,
}

/// Why two stats could not be combined.
#[derive(Debug, Clone, Copy, PartialEq, Eq, Structural)]
pub enum StatError {
    /// The two stats are of different kinds.
    KindMismatch,
    /// The sum or difference does not fit an `i32`.
    Overflow,
}

/// The clamp class of each kind.
pub open spec fn clamp_class_of(kind: StatBase) -> ClampClass {
    match kind {
        StatBase::App | StatBase::Cha => ClampClass::Unclamped,
        StatBase::Age | StatBase::Int | StatBase::Mag | StatBase::Will => ClampClass::FloorZero,
        StatBase::Con | StatBase::Dex | StatBase::Str => ClampClass::FloorOne,
    }
}

/// `v` raised to the floor of `class`.
pub open spec fn clamp(class: ClampClass, v: int) -> int {
    match class {
        ClampClass::Unclamped => v,
        ClampClass::FloorZero => if v < 0 { 0 } else { v },
        ClampClass::FloorOne => if v < 1 { 1 } else { v },
    }
}

/// True when `v` fits an `i32`.
pub open spec fn fits_i32(v: int) -> bool {
    i32::MIN <= v <= i32::MAX
}

/// The stat of kind `kind` with value `val`.
pub open spec fn stat_of(kind: StatBase, val: i32) -> Stat {
    match kind {
        StatBase::Age => Stat::Age { val },
        StatBase::App => Stat::App { val },
        StatBase::Cha => Stat::Cha { val },
        StatBase::Con => Stat::Con { val },
        StatBase::Dex => Stat::Dex { val },
        StatBase::Int => Stat::Int { val },
        StatBase::Mag => Stat::Mag { val },
        StatBase::Str => Stat::Str { val },
        StatBase::Will => Stat::Will { val },
    }
}

/// `s` changed by `delta`, then clamped by its kind's class.
pub open spec fn shifted(s: Stat, delta: int) -> Stat {
    stat_of(s.kind(), clamp(clamp_class_of(s.kind()), s.val() + delta) as i32)
}

/// `s` changed by each of `deltas` in turn.
pub open spec fn after_deltas(s: Stat, deltas: Seq<int>) -> Stat
    decreases deltas.len(),
{
    if deltas.len() == 0 {
        s
    } else {
        after_deltas(shifted(s, deltas[0]), deltas.drop_first())
    }
}

/// True when no step of [`after_deltas`] leaves the range of `i32` before clamping.
pub open spec fn deltas_fit(s: Stat, deltas: Seq<int>) -> bool
    decreases deltas.len(),
{
    deltas.len() == 0 || (fits_i32(s.val() + deltas[0]) && deltas_fit(
        shifted(s, deltas[0]),
        deltas.drop_first(),
    ))
}

/// The sum of `deltas`.
pub open spec fn total(deltas: Seq<int>) -> int
    decreases deltas.len(),
{
    if deltas.len() == 0 {
        0
    } else {
        deltas[0] + total(deltas.drop_first())
    }
}

impl StatBase {
    /// The clamp class of this kind.
    pub fn clamp_class(&self) -> (r: ClampClass)
        ensures
            r == clamp_class_of(*self),
    {
        match self {
            StatBase::App | StatBase::Cha => ClampClass::Unclamped,
            StatBase::Age | StatBase::Int | StatBase::Mag | StatBase::Will => ClampClass::FloorZero,
            StatBase::Con | StatBase::Dex | StatBase::Str => ClampClass::FloorOne,
        }
    }

    /// A sensible starting stat of this kind.
    pub fn default(&self) -> (r: Stat)
        ensures
            r.kind() == *self,
            r.val() == match *self {
                StatBase::Age => 18i32,
                StatBase::Con | StatBase::Dex | StatBase::Int | StatBase::Str => 10,
                _ => 0,
            },
    {
        match self {
            // 18 is a rather common minimum age for adventurers.
            StatBase::Age => Stat::Age { val: 18 },
            // ±0 from the racial average.
            StatBase::App => Stat::App { val: 0 },
            StatBase::Cha => Stat::Cha { val: 0 },
            // Generic averages; systems differ.
            StatBase::Con => Stat::Con { val: 10 },
            StatBase::Dex => Stat::Dex { val: 10 },
            StatBase::Int => Stat::Int { val: 10 },
            // No spell casting capability by default.
            StatBase::Mag => Stat::Mag { val: 0 },
            StatBase::Str => Stat::Str { val: 10 },
            // ±0 from the average.
            StatBase::Will => Stat::Will { val: 0 },
        }
    }

    /// A short label of this kind.
    pub fn label(&self) -> (r: &'static str)
        ensures
            r@ == stat_label(*self),
    {
        match self {
            StatBase::Age => "age",
            StatBase::App => "APP",
            StatBase::Cha => "CHA",
            StatBase::Con => "CON",
            StatBase::Dex => "DEX",
            StatBase::Int => "INT",
            StatBase::Mag => "MAG",
            StatBase::Str => "STR",
            StatBase::Will => "Willpower",
        }
    }
}

/// The label of each kind.
pub open spec fn stat_label(kind: StatBase) -> Seq<char> {
    match kind {
        StatBase::Age => "age"@,
        StatBase::App => "APP"@,
        StatBase::Cha => "CHA"@,
        StatBase::Con => "CON"@,
        StatBase::Dex => "DEX"@,
        StatBase::Int => "INT"@,
        StatBase::Mag => "MAG"@,
        StatBase::Str => "STR"@,
        StatBase::Will => "Willpower"@,
    }
}

impl<'a> From<&'a Stat> for StatBase {
    /// The kind of `stat`.
    fn from(stat: &'a Stat) -> (r: StatBase) {
        match stat {
            Stat::Age { .. } => StatBase::Age,
            Stat::App { .. } => StatBase::App,
            Stat::Cha { .. } => StatBase::Cha,
            Stat::Con { .. } => StatBase::Con,
            Stat::Dex { .. } => StatBase::Dex,
            Stat::Int { .. } => StatBase::Int,
            Stat::Mag { .. } => StatBase::Mag,
            Stat::Str { .. } => StatBase::Str,
            Stat::Will { .. } => StatBase::Will,
        }
    }
}

impl<'a> vstd::std_specs::convert::FromSpecImpl<&'a Stat> for StatBase {
    open spec fn obeys_from_spec() -> bool {
        true
    }

    open spec fn from_spec(stat: &'a Stat) -> StatBase {
        stat.kind()
    }
}

impl Stat {
    /// The kind of this stat.
    pub open spec fn kind(self) -> StatBase {
        match self {
            Stat::Age { .. } => StatBase::Age,
            Stat::App { .. } => StatBase::App,
            Stat::Cha { .. } => StatBase::Cha,
            Stat::Con { .. } => StatBase::Con,
            Stat::Dex { .. } => StatBase::Dex,
            Stat::Int { .. } => StatBase::Int,
            Stat::Mag { .. } => StatBase::Mag,
            Stat::Str { .. } => StatBase::Str,
            Stat::Will { .. } => StatBase::Will,
        }
    }

    /// The value of this stat.
    pub open spec fn val(self) -> i32 {
        match self {
            Stat::Age { val } => val,
            Stat::App { val } => val,
            Stat::Cha { val } => val,
            Stat::Con { val } => val,
            Stat::Dex { val } => val,
            Stat::Int { val } => val,
            Stat::Mag { val } => val,
            Stat::Str { val } => val,
            Stat::Will { val } => val,
        }
    }

    /// The stat of kind `kind` with value `val`.
    pub fn of(kind: StatBase, val: i32) -> (r: Stat)
        ensures
            r == stat_of(kind, val),
            r.kind() == kind,
            r.val() == val,
    {
        match kind {
            StatBase::Age => Stat::Age { val },
            StatBase::App => Stat::App { val },
            StatBase::Cha => Stat::Cha { val },
            StatBase::Con => Stat::Con { val },
            StatBase::Dex => Stat::Dex { val },
            StatBase::Int => Stat::Int { val },
            StatBase::Mag => Stat::Mag { val },
            StatBase::Str => Stat::Str { val },
            StatBase::Will => Stat::Will { val },
        }
    }

    /// The underlying stat value.
    pub fn value(&self) -> (r: i32)
        ensures
            r == self.val(),
    {
        match self {
            Stat::Age { val } => *val,
            Stat::App { val } => *val,
            Stat::Cha { val } => *val,
            Stat::Con { val } => *val,
            Stat::Dex { val } => *val,
            Stat::Int { val } => *val,
            Stat::Mag { val } => *val,
            Stat::Str { val } => *val,
            Stat::Will { val } => *val,
        }
    }

    /// The kind, without the value.
    pub fn stat_base(&self) -> (r: StatBase)
        ensures
            r == self.kind(),
    {
        StatBase::from(self)
    }

    /// The stat as text: its label, a space and the value with its sign,
    /// e.g. `"STR +12"` or `"APP -1"`.
    pub fn to_text(&self) -> (r: String)
        ensures
            r@ == stat_label(self.kind()) + " "@ + (if self.val() >= 0 {
                "+"@ + decimal(self.val() as nat)
            } else {
                signed_decimal(self.val() as int)
            }),
    {
        let mut out = String::from_str(self.stat_base().label());
        out.append(" ");
        let v = self.value();
        if v >= 0 {
            out.append("+");
            push_decimal(&mut out, v as u64);
        } else {
            push_signed_decimal(&mut out, v as i64);
        }
        out
    }

    /// This stat changed by `delta` and clamped by its kind's class.
    fn shift(self, delta: i32) -> (r: Stat)
        requires
            fits_i32(self.val() + delta),
        ensures
            r == shifted(self, delta as int),
    {
        let kind = self.stat_base();
        let raw = self.value() + delta;
        let val = match kind.clamp_class() {
            ClampClass::Unclamped => raw,
            ClampClass::FloorZero => if raw < 0 { 0 } else { raw },
            ClampClass::FloorOne => if raw < 1 { 1 } else { raw },
        };
        Stat::of(kind, val)
    }

    /// This stat plus `rhs`, with the kinds checked: an error where the
    /// kinds differ or the sum does not fit, else the clamped sum.
    pub fn try_add(self, rhs: Stat) -> (r: Result<Stat, StatError>)
        ensures
            self.kind() != rhs.kind() ==> r == Err::<Stat, StatError>(StatError::KindMismatch),
            self.kind() == rhs.kind() && !fits_i32(self.val() + rhs.val()) ==> r == Err::<
                Stat,
                StatError,
            >(StatError::Overflow),
            self.kind() == rhs.kind() && fits_i32(self.val() + rhs.val()) ==> r == Ok::<
                Stat,
                StatError,
            >(shifted(self, rhs.val() as int)),
    {
        if self.stat_base() != rhs.stat_base() {
            return Err(StatError::KindMismatch);
        }
        match self.value().checked_add(rhs.value()) {
            Some(_) => Ok(self.shift(rhs.value())),
            None => Err(StatError::Overflow),
        }
    }

    /// This stat minus `rhs`, with the kinds checked: an error where the
    /// kinds differ or the difference does not fit, else the clamped difference.
    pub fn try_sub(self, rhs: Stat) -> (r: Result<Stat, StatError>)
        ensures
            self.kind() != rhs.kind() ==> r == Err::<Stat, StatError>(StatError::KindMismatch),
            self.kind() == rhs.kind() && !fits_i32(self.val() - rhs.val()) ==> r == Err::<
                Stat,
                StatError,
            >(StatError::Overflow),
            self.kind() == rhs.kind() && fits_i32(self.val() - rhs.val()) ==> r == Ok::<
                Stat,
                StatError,
            >(shifted(self, -rhs.val())),
    {
        if self.stat_base() != rhs.stat_base() {
            return Err(StatError::KindMismatch);
        }
        match self.value().checked_sub(rhs.value()) {
            Some(_) => Ok(self.shift_down(rhs.value())),
            None => Err(StatError::Overflow),
        }
    }

    /// This stat changed by minus `delta` and clamped by its kind's class.
    fn shift_down(self, delta: i32) -> (r: Stat)
        requires
            fits_i32(self.val() - delta),
        ensures
            r == shifted(self, -delta),
    {
        let kind = self.stat_base();
        let raw = self.value() - delta;
        let val = match kind.clamp_class() {
            ClampClass::Unclamped => raw,
            ClampClass::FloorZero => if raw < 0 { 0 } else { raw },
            ClampClass::FloorOne => if raw < 1 { 1 } else { raw },
        };
        Stat::of(kind, val)
    }
}

impl AddAssign<i32> for Stat {
    /// Adds `rhs` and clamps by the kind's class.
    fn add_assign(&mut self, rhs: i32)
        requires
            fits_i32(old(self).val() + rhs),
        ensures
            *final(self) == shifted(*old(self), rhs as int),
    {
        *self = self.shift(rhs);
    }
}

impl SubAssign<i32> for Stat {
    /// Subtracts `rhs` and clamps by the kind's class.
    fn sub_assign(&mut self, rhs: i32)
        requires
            fits_i32(old(self).val() - rhs),
        ensures
            *final(self) == shifted(*old(self), -rhs),
    {
        *self = self.shift_down(rhs);
    }
}

impl AddAssign<Stat> for Stat {
    /// Adds the value of a stat of the same kind.
    fn add_assign(&mut self, rhs: Stat)
        requires
            old(self).kind() == rhs.kind(),
            fits_i32(old(self).val() + rhs.val()),
        ensures
            *final(self) == shifted(*old(self), rhs.val() as int),
    {
        *self = self.shift(rhs.value());
    }
}

impl SubAssign<Stat> for Stat {
    /// Subtracts the value of a stat of the same kind.
    fn sub_assign(&mut self, rhs: Stat)
        requires
            old(self).kind() == rhs.kind(),
            fits_i32(old(self).val() - rhs.val()),
        ensures
            *final(self) == shifted(*old(self), -rhs.val()),
    {
        *self = self.shift_down(rhs.value());
    }
}

impl Add<i32> for Stat {
    type Output = Stat;

    fn add(self, rhs: i32) -> (r: Stat) {
        self.shift(rhs)
    }
}

impl vstd::std_specs::ops::AddSpecImpl<i32> for Stat {
    open spec fn obeys_add_spec() -> bool {
        true
    }

    open spec fn add_req(self, rhs: i32) -> bool {
        fits_i32(self.val() + rhs)
    }

    open spec fn add_spec(self, rhs: i32) -> Stat {
        shifted(self, rhs as int)
    }
}

impl Sub<i32> for Stat {
    type Output = Stat;

    fn sub(self, rhs: i32) -> (r: Stat) {
        self.shift_down(rhs)
    }
}

impl vstd::std_specs::ops::SubSpecImpl<i32> for Stat {
    open spec fn obeys_sub_spec() -> bool {
        true
    }

    open spec fn sub_req(self, rhs: i32) -> bool {
        fits_i32(self.val() - rhs)
    }

    open spec fn sub_spec(self, rhs: i32) -> Stat {
        shifted(self, -rhs)
    }
}

impl Add<Stat> for Stat {
    type Output = Stat;

    fn add(self, rhs: Stat) -> (r: Stat) {
        self.shift(rhs.value())
    }
}

impl vstd::std_specs::ops::AddSpecImpl<Stat> for Stat {
    open spec fn obeys_add_spec() -> bool {
        true
    }

    open spec fn add_req(self, rhs: Stat) -> bool {
        self.kind() == rhs.kind() && fits_i32(self.val() + rhs.val())
    }

    open spec fn add_spec(self, rhs: Stat) -> Stat {
        shifted(self, rhs.val() as int)
    }
}

impl Sub<Stat> for Stat {
    type Output = Stat;

    fn sub(self, rhs: Stat) -> (r: Stat) {
        self.shift_down(rhs.value())
    }
}

impl vstd::std_specs::ops::SubSpecImpl<Stat> for Stat {
    open spec fn obeys_sub_spec() -> bool {
        true
    }

    open spec fn sub_req(self, rhs: Stat) -> bool {
        self.kind() == rhs.kind() && fits_i32(self.val() - rhs.val())
    }

    open spec fn sub_spec(self, rhs: Stat) -> Stat {
        shifted(self, -rhs.val())
    }
}

/// After any sequence of additive changes a stat keeps its kind and its
/// floor: a floor-at-zero stat is at least 0, a floor-at-one stat at least
/// 1, and an unclamped stat has moved by exactly the sum of the changes.
pub proof fn lemma_clamp_invariants(s: Stat, deltas: Seq<int>)
    requires
        deltas_fit(s, deltas),
    ensures
        after_deltas(s, deltas).kind() == s.kind(),
        deltas.len() > 0 && clamp_class_of(s.kind()) is FloorZero ==> after_deltas(s, deltas).val() >= 0,
        deltas.len() > 0 && clamp_class_of(s.kind()) is FloorOne ==> after_deltas(s, deltas).val() >= 1,
        clamp_class_of(s.kind()) is Unclamped ==> after_deltas(s, deltas).val() == s.val() + total(deltas),
    decreases deltas.len(),
{
    if deltas.len() > 0 {
        let next = shifted(s, deltas[0]);
        lemma_clamp_invariants(next, deltas.drop_first());
        if deltas.len() == 1 {
            assert(deltas.drop_first().len() == 0);
        }
    }
}

} // verus!
