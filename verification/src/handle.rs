//! The capability trait giving every wrapper type access to its raw native
//! identifier.

use vstd::prelude::*;

verus! {

/// Access to the underlying native handle of a wrapper type.
///
/// Generic code binds an object's handle into a creation descriptor through
/// this single accessor, without per-type knowledge.  It is a pure accessor:
/// no side effects and no failure mode.
pub trait Handle {
    type Target;

    /// The handle as a mathematical value.
    spec fn spec_handle(&self) -> Self::Target;

    /// Returns the underlying native handle.
    fn handle(&self) -> (h: Self::Target)
        ensures
            h == self.spec_handle(),
    ;
}

} // verus!
