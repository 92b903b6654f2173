//! Names of things.
use vstd::prelude::*;

verus! {

/// A trait for anything with a name or nick.
pub trait IsNamed {
    /// The name or nick.
    fn name(&self) -> &str;
}

} // verus!
