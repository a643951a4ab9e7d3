//! Permission sets.

use vstd::prelude::*;

verus! {

/// A set of permissions, one bit each.
#[derive(Clone, Copy, Debug, PartialEq, Eq, Structural, Hash)]
pub struct Permissions(pub u64);

} // verus!
