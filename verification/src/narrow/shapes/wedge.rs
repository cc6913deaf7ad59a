use crate::vec2::Vec2;
use crate::NumTolerance;
use vstd::prelude::*;

verus! {

/// A circular wedge between two directions. Data only: the shape takes no
/// part in collision tests.
pub struct Wedge<T: NumTolerance> {
    pub start: Vec2<T>,
    pub end: Vec2<T>,
    pub radius: T,
}

} // verus!
