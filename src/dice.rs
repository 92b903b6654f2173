//! The one source of chance: a single die of any number of sides.
use dicebag::DiceExt;
use vstd::prelude::*;

verus! {

/// True when `sub` can be the second roll of a table entry whose second die
/// has `sides` sides; an entry with no second die (`sides == 0`) takes any.
pub open spec fn sub_roll_fits(sides: u32, sub: u32) -> bool {
    sides == 0 || 1 <= sub <= sides
}

/// Rolls one die of `sides` sides.
///
/// Relies on `dicebag::DiceExt::d` (which `d2`, `d20` and the other named
/// dice call): one die, rolled for a count of one, lands in `1..=sides`.
/// `dicebag` asserts that a die has at least one side.
#[verifier::external_body]
pub(crate) fn roll(sides: u32) -> (r: u32)
    requires
        1 <= sides,
    ensures
        1 <= r <= sides,
{
    1u32.d(sides as usize)
}

} // verus!
