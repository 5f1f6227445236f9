use crate::scalar::Scalar;
use vstd::prelude::*;

verus! {

/// A vector of three double-precision components. Every operation works
/// component by component.
#[derive(Clone, Copy, Debug)]
pub struct Vector3 {
    pub x: Scalar,
    pub y: Scalar,
    pub z: Scalar,
}

impl Vector3 {
    /// The componentwise sum.
    pub open spec fn sum(self, rhs: Vector3) -> Vector3 {
        Vector3 { x: self.x.sum(rhs.x), y: self.y.sum(rhs.y), z: self.z.sum(rhs.z) }
    }

    /// The componentwise difference.
    pub open spec fn difference(self, rhs: Vector3) -> Vector3 {
        Vector3 {
            x: self.x.difference(rhs.x),
            y: self.y.difference(rhs.y),
            z: self.z.difference(rhs.z),
        }
    }

    /// Every component multiplied by `factor`.
    pub open spec fn scaled(self, factor: Scalar) -> Vector3 {
        Vector3 {
            x: self.x.product(factor),
            y: self.y.product(factor),
            z: self.z.product(factor),
        }
    }

    /// Every component divided by `divisor`.
    pub open spec fn unscaled(self, divisor: Scalar) -> Vector3 {
        Vector3 {
            x: self.x.quotient(divisor),
            y: self.y.quotient(divisor),
            z: self.z.quotient(divisor),
        }
    }

    /// The magnitude of every component.
    pub open spec fn magnitudes(self) -> Vector3 {
        Vector3 { x: self.x.magnitude(), y: self.y.magnitude(), z: self.z.magnitude() }
    }

    /// The vector whose components are all positive zero.
    pub open spec fn origin() -> Vector3 {
        Vector3 { x: Scalar { bits: 0 }, y: Scalar { bits: 0 }, z: Scalar { bits: 0 } }
    }

    pub fn new(x: Scalar, y: Scalar, z: Scalar) -> (r: Vector3)
        ensures
            r == (Vector3 { x, y, z }),
    {
        Vector3 { x, y, z }
    }

    pub fn zeros() -> (r: Vector3)
        ensures
            r == Vector3::origin(),
    {
        Vector3 { x: Scalar::zero(), y: Scalar::zero(), z: Scalar::zero() }
    }

    pub fn plus(self, rhs: Vector3) -> (r: Vector3)
        ensures
            r == self.sum(rhs),
    {
        Vector3 { x: self.x.plus(rhs.x), y: self.y.plus(rhs.y), z: self.z.plus(rhs.z) }
    }

    pub fn minus(self, rhs: Vector3) -> (r: Vector3)
        ensures
            r == self.difference(rhs),
    {
        Vector3 { x: self.x.minus(rhs.x), y: self.y.minus(rhs.y), z: self.z.minus(rhs.z) }
    }

    pub fn scale(self, factor: Scalar) -> (r: Vector3)
        ensures
            r == self.scaled(factor),
    {
        Vector3 { x: self.x.times(factor), y: self.y.times(factor), z: self.z.times(factor) }
    }

    /// Divides every component by `divisor`. A zero divisor is the caller's
    /// affair: the components then come out infinite or NaN.
    pub fn unscale(self, divisor: Scalar) -> (r: Vector3)
        ensures
            r == self.unscaled(divisor),
    {
        Vector3 { x: self.x.over(divisor), y: self.y.over(divisor), z: self.z.over(divisor) }
    }

    pub fn abs(self) -> (r: Vector3)
        ensures
            r == self.magnitudes(),
    {
        Vector3 { x: self.x.abs(), y: self.y.abs(), z: self.z.abs() }
    }
}

} // verus!
