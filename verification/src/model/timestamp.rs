//! Points in time, as the platform writes them.

use vstd::prelude::*;

verus! {

/// A point in time, held as its RFC 3339 text (`2004-06-08T16:04:23Z`).
#[derive(Debug, PartialEq, Eq)]
pub struct Timestamp(pub String);

impl Clone for Timestamp {
    fn clone(&self) -> (r: Self)
        ensures
            r == *self,
    {
        Timestamp(self.0.clone())
    }
}

} // verus!
