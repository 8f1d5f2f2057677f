use vstd::prelude::*;

verus! {

/// A direction that can be scaled to unit length. Callers guard against a
/// zero-length value first: normalising one is left undefined.
pub trait Normalize: Sized + Copy {
    fn normalize(self) -> Self;
}

/// The cross product of two directions.
pub trait Cross: Sized + Copy {
    fn cross(self, v: Self) -> Self;
}

} // verus!
