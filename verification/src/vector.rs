//! Pairs of scalars, with the componentwise arithmetic the fountain needs.

use crate::scalar::Scalar;
use vstd::prelude::*;

verus! {

/// A point or a direction in the plane.
#[derive(Clone, Copy, Debug, PartialEq, Eq, Structural)]
pub struct Vec2 {
    pub x: Scalar,
    pub y: Scalar,
}

impl Vec2 {
    /// The vector whose components are both `+0`.
    pub open spec fn zero_spec() -> Vec2 {
        Vec2 { x: Scalar { bits: 0 }, y: Scalar { bits: 0 } }
    }

    /// The componentwise rounded sum.
    pub open spec fn plus_spec(self, other: Vec2) -> Vec2 {
        Vec2 { x: self.x.plus_spec(other.x), y: self.y.plus_spec(other.y) }
    }

    /// Each component times `factor`, rounded.
    pub open spec fn scaled_spec(self, factor: Scalar) -> Vec2 {
        Vec2 { x: self.x.times_spec(factor), y: self.y.times_spec(factor) }
    }

    /// The vector with these components.
    pub fn new(x: Scalar, y: Scalar) -> (v: Vec2)
        ensures
            v == (Vec2 { x, y }),
    {
        Vec2 { x, y }
    }

    /// The vector whose components are both `+0`.
    pub fn zero() -> (v: Vec2)
        ensures
            v == Vec2::zero_spec(),
    {
        Vec2 { x: Scalar { bits: 0 }, y: Scalar { bits: 0 } }
    }

    /// The componentwise sum.
    pub fn plus(self, other: Vec2) -> (v: Vec2)
        ensures
            v == self.plus_spec(other),
    {
        Vec2 { x: self.x.plus(other.x), y: self.y.plus(other.y) }
    }

    /// Each component times `factor`.
    pub fn scaled(self, factor: Scalar) -> (v: Vec2)
        ensures
            v == self.scaled_spec(factor),
    {
        Vec2 { x: self.x.times(factor), y: self.y.times(factor) }
    }
}

} // verus!
