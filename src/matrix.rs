//! The 3 x 3 matrix that quaternions convert to.
use vstd::prelude::*;

use crate::scalar::Real;
use crate::vector::Vec3;

verus! {

/// A 3 x 3 matrix, stored as three columns.
#[derive(Clone, Copy)]
pub struct Mat3<S> {
    pub x: Vec3<S>,
    pub y: Vec3<S>,
    pub z: Vec3<S>,
}

impl<S: Real> Mat3<S> {
    /// The matrix times the column vector `v`: each row's dot product with `v`.
    pub open spec fn mul_v_spec(self, v: Vec3<S>) -> Vec3<S> {
        Vec3 {
            x: (Vec3 { x: self.x.x, y: self.y.x, z: self.z.x }).dot_spec(v),
            y: (Vec3 { x: self.x.y, y: self.y.y, z: self.z.y }).dot_spec(v),
            z: (Vec3 { x: self.x.z, y: self.y.z, z: self.z.z }).dot_spec(v),
        }
    }

    /// The basis that looks along `dir`: the columns are the side vector
    /// `up × dir`, the corrected up vector `dir × side` and `dir`, each
    /// normalized.
    pub open spec fn look_at_spec(dir: Vec3<S>, up: Vec3<S>) -> Mat3<S> {
        let d = dir.normalize_spec();
        let side = up.cross_spec(d).normalize_spec();
        let u = d.cross_spec(side).normalize_spec();
        Mat3 { x: side, y: u, z: d }
    }

    /// The matrix with the three columns given.
    pub fn from_cols(c0: Vec3<S>, c1: Vec3<S>, c2: Vec3<S>) -> (r: Mat3<S>)
        ensures
            r == (Mat3 { x: c0, y: c1, z: c2 }),
    {
        Mat3 { x: c0, y: c1, z: c2 }
    }

    /// The rotation whose `z` axis is `dir` and whose `y` axis lies in the
    /// plane of `dir` and `up`.
    pub fn look_at(dir: &Vec3<S>, up: &Vec3<S>) -> (r: Mat3<S>)
        ensures
            r == Self::look_at_spec(*dir, *up),
    {
        let dir = dir.normalize();
        let side = up.cross(&dir).normalize();
        let up = dir.cross(&side).normalize();
        Mat3::from_cols(side, up, dir)
    }

    /// The sum of the diagonal.
    pub open spec fn trace_spec(self) -> S {
        self.x.x.add_spec(self.y.y).add_spec(self.z.z)
    }

    pub fn trace(&self) -> (r: S)
        ensures
            r == self.trace_spec(),
    {
        self.x.x.add(self.y.y).add(self.z.z)
    }

    /// The matrix from its nine entries, column by column.
    pub fn new(
        c0r0: S,
        c0r1: S,
        c0r2: S,
        c1r0: S,
        c1r1: S,
        c1r2: S,
        c2r0: S,
        c2r1: S,
        c2r2: S,
    ) -> (r: Mat3<S>)
        ensures
            r.x == (Vec3 { x: c0r0, y: c0r1, z: c0r2 }),
            r.y == (Vec3 { x: c1r0, y: c1r1, z: c1r2 }),
            r.z == (Vec3 { x: c2r0, y: c2r1, z: c2r2 }),
    {
        Mat3 {
            x: Vec3 { x: c0r0, y: c0r1, z: c0r2 },
            y: Vec3 { x: c1r0, y: c1r1, z: c1r2 },
            z: Vec3 { x: c2r0, y: c2r1, z: c2r2 },
        }
    }

    /// The row of index `i` (0, 1 or 2).
    pub fn row(&self, i: usize) -> (r: Vec3<S>)
        requires
            i < 3,
        ensures
            i == 0 ==> r == (Vec3 { x: self.x.x, y: self.y.x, z: self.z.x }),
            i == 1 ==> r == (Vec3 { x: self.x.y, y: self.y.y, z: self.z.y }),
            i == 2 ==> r == (Vec3 { x: self.x.z, y: self.y.z, z: self.z.z }),
    {
        if i == 0 {
            Vec3 { x: self.x.x, y: self.y.x, z: self.z.x }
        } else if i == 1 {
            Vec3 { x: self.x.y, y: self.y.y, z: self.z.y }
        } else {
            Vec3 { x: self.x.z, y: self.y.z, z: self.z.z }
        }
    }

    /// The matrix applied to the column vector `v`.
    pub fn mul_v(&self, v: &Vec3<S>) -> (r: Vec3<S>)
        ensures
            r == self.mul_v_spec(*v),
    {
        Vec3 { x: self.row(0).dot(v), y: self.row(1).dot(v), z: self.row(2).dot(v) }
    }
}

} // verus!
