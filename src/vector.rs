//! The three-component vector that quaternions rotate.
use vstd::prelude::*;

use crate::scalar::{Real, one, zero};

verus! {

/// A vector of three scalars.
#[derive(Clone, Copy)]
pub struct Vec3<S> {
    pub x: S,
    pub y: S,
    pub z: S,
}

impl<S: Real> Vec3<S> {
    pub open spec fn dot_spec(self, o: Vec3<S>) -> S {
        self.x.mul_spec(o.x).add_spec(self.y.mul_spec(o.y)).add_spec(self.z.mul_spec(o.z))
    }

    pub open spec fn cross_spec(self, o: Vec3<S>) -> Vec3<S> {
        Vec3 {
            x: self.y.mul_spec(o.z).sub_spec(self.z.mul_spec(o.y)),
            y: self.z.mul_spec(o.x).sub_spec(self.x.mul_spec(o.z)),
            z: self.x.mul_spec(o.y).sub_spec(self.y.mul_spec(o.x)),
        }
    }

    pub open spec fn mul_s_spec(self, k: S) -> Vec3<S> {
        Vec3 { x: self.x.mul_spec(k), y: self.y.mul_spec(k), z: self.z.mul_spec(k) }
    }

    pub open spec fn div_s_spec(self, k: S) -> Vec3<S> {
        Vec3 { x: self.x.div_spec(k), y: self.y.div_spec(k), z: self.z.div_spec(k) }
    }

    pub open spec fn add_v_spec(self, o: Vec3<S>) -> Vec3<S> {
        Vec3 { x: self.x.add_spec(o.x), y: self.y.add_spec(o.y), z: self.z.add_spec(o.z) }
    }

    pub open spec fn neg_spec(self) -> Vec3<S> {
        Vec3 { x: self.x.neg_spec(), y: self.y.neg_spec(), z: self.z.neg_spec() }
    }

    /// The vector scaled by the reciprocal of its length.
    pub open spec fn normalize_spec(self) -> Vec3<S> {
        self.mul_s_spec(one::<S>().div_spec(self.dot_spec(self).sqrt_spec()))
    }

    pub fn new(x: S, y: S, z: S) -> (r: Vec3<S>)
        ensures
            r == (Vec3 { x, y, z }),
    {
        Vec3 { x, y, z }
    }

    /// The vector of three zeros.
    pub fn zero() -> (r: Vec3<S>)
        ensures
            r == (Vec3 { x: zero::<S>(), y: zero::<S>(), z: zero::<S>() }),
    {
        Vec3 { x: S::ratio(0, 1), y: S::ratio(0, 1), z: S::ratio(0, 1) }
    }

    pub fn dot(&self, o: &Vec3<S>) -> (r: S)
        ensures
            r == self.dot_spec(*o),
    {
        self.x.mul(o.x).add(self.y.mul(o.y)).add(self.z.mul(o.z))
    }

    /// The squared length: the vector's dot product with itself.
    pub fn length2(&self) -> (r: S)
        ensures
            r == self.dot_spec(*self),
    {
        self.dot(self)
    }

    /// The length: the square root of `length2`.
    pub fn length(&self) -> (r: S)
        ensures
            r == self.dot_spec(*self).sqrt_spec(),
    {
        self.length2().sqrt()
    }

    /// The vector of unit length in the same direction. A zero vector gives
    /// whatever the scalar's division by zero gives.
    pub fn normalize(&self) -> (r: Vec3<S>)
        ensures
            r == self.normalize_spec(),
    {
        self.mul_s(S::ratio(1, 1).div(self.length()))
    }

    pub fn cross(&self, o: &Vec3<S>) -> (r: Vec3<S>)
        ensures
            r == self.cross_spec(*o),
    {
        Vec3 {
            x: self.y.mul(o.z).sub(self.z.mul(o.y)),
            y: self.z.mul(o.x).sub(self.x.mul(o.z)),
            z: self.x.mul(o.y).sub(self.y.mul(o.x)),
        }
    }

    pub fn mul_s(&self, k: S) -> (r: Vec3<S>)
        ensures
            r == self.mul_s_spec(k),
    {
        Vec3 { x: self.x.mul(k), y: self.y.mul(k), z: self.z.mul(k) }
    }

    pub fn div_s(&self, k: S) -> (r: Vec3<S>)
        ensures
            r == self.div_s_spec(k),
    {
        Vec3 { x: self.x.div(k), y: self.y.div(k), z: self.z.div(k) }
    }

    pub fn add_v(&self, o: &Vec3<S>) -> (r: Vec3<S>)
        ensures
            r == self.add_v_spec(*o),
    {
        Vec3 { x: self.x.add(o.x), y: self.y.add(o.y), z: self.z.add(o.z) }
    }

    pub fn neg(&self) -> (r: Vec3<S>)
        ensures
            r == self.neg_spec(),
    {
        Vec3 { x: self.x.neg(), y: self.y.neg(), z: self.z.neg() }
    }
}

} // verus!
