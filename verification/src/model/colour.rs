//! Colours of roles and embeds.

use vstd::prelude::*;

verus! {

/// A colour as a 24-bit RGB number; the platform ignores the upper byte.
#[derive(Clone, Copy, Debug, PartialEq, Eq, Structural, Hash)]
pub struct Colour(pub u32);

impl Colour {
    /// The colour with the number `value`.
    pub fn new(value: u32) -> (r: Self)
        ensures
            r.0 == value,
    {
        Colour(value)
    }
}

} // verus!
