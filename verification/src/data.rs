//! Value identity for application data.

use vstd::prelude::*;

verus! {

/// Types whose values can be checked for identity, so the framework can
/// tell whether data it retains has changed.
pub trait Data: Sized {
    /// What `same` decides for this type.
    spec fn same_spec(&self, other: &Self) -> bool;

    /// Whether the two values are the same for the framework's purposes.
    fn same(&self, other: &Self) -> (r: bool)
        ensures
            r == self.same_spec(other),
    ;
}

} // verus!
