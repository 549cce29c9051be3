//! The opaque object type of the underlying object system.

use vstd::prelude::*;

verus! {

/// An identity-only reference to an object of the native object system.
/// The object's memory is owned entirely by the native library; this side
/// never looks inside it, it can only carry the identity and hand it back
/// across the boundary.
#[derive(Clone, Copy, Debug, PartialEq, Eq, Structural)]
pub enum Eo {
    Id(u64),
}

/// The object-class type of the native object system; classes are objects.
pub type EoClass = Eo;

impl Eo {
    /// The identity this reference carries.
    pub fn id(&self) -> (r: u64)
        ensures
            *self == Eo::Id(r),
    {
        match self {
            Eo::Id(v) => *v,
        }
    }
}

} // verus!
