//! Small helpers of the client.

use vstd::prelude::*;

verus! {

/// A value that can be shown for diagnosis in the middle of a chain of
/// calls: `dbg` hands the value on as it is.
pub trait Debuggable: Sized + core::fmt::Debug {
    /// The value itself, unchanged.
    fn dbg(self) -> (same: Self)
        ensures
            same == self,
    {
        self
    }
}

impl<T> Debuggable for T where T: Sized + core::fmt::Debug {
}

} // verus!
