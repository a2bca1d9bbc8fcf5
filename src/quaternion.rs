//! Quaternions in scalar/vector form, as rotations.
use vstd::prelude::*;

use crate::angle::{Angle, Rad, ToRad, acos, cos, sin, sin_cos};
use crate::matrix::Mat3;
use crate::laws::{
    lemma_acos,
    lemma_add_assoc,
    lemma_add_comm,
    lemma_add_neg,
    lemma_add_swap,
    lemma_add_zero,
    lemma_cancel_first,
    lemma_cancel_second,
    lemma_cancel_third,
    lemma_equal_is_identity,
    lemma_lt_add,
    lemma_lt_irreflexive,
    lemma_lt_total,
    lemma_lt_trans,
    lemma_mul_assoc,
    lemma_mul_comm,
    lemma_mul_distrib,
    lemma_mul_neg,
    lemma_mul_one,
    lemma_mul_zero,
    lemma_neg_add,
    lemma_neg_neg,
    lemma_neg_zero,
    lemma_proper_fraction,
    lemma_reciprocal,
    lemma_regroup,
    lemma_regroup_doubles,
    lemma_sqrt_squared,
    lemma_square_nonneg,
    lemma_square_of_difference,
    lemma_sub_add_neg,
    lemma_sum_nonneg,
    lemma_zero_product,
    order_laws,
    real_laws,
    ring_laws,
    unit_values,
};
use crate::scalar::{Real, clamp, clamped, le, one, zero};
use crate::vector::Vec3;

verus! {

/// A quaternion `s + v.x i + v.y j + v.z k`.
#[derive(Clone, Copy)]
pub struct Quat<S> {
    pub s: S,
    pub v: Vec3<S>,
}

/// The dot product above which `slerp` interpolates linearly: the two
/// rotations are too close for the arc to be computed stably.
pub open spec fn dot_threshold<S: Real>() -> S {
    S::ratio_spec(9995, 10000)
}

/// Half of `theta`, in radians.
pub open spec fn half_rad<S: Real, A: Angle<S>>(theta: A) -> S {
    A::make(theta.value().mul_spec(S::ratio_spec(1, 2))).rad_spec().s
}

/// The quaternion of Euler angles from the sines and cosines of their
/// halves, in the product order z, x, y.
pub open spec fn euler_spec<S: Real>(sx2: S, cx2: S, sy2: S, cy2: S, sz2: S, cz2: S) -> Quat<S> {
    Quat {
        s: cz2.mul_spec(cx2).mul_spec(cy2).add_spec(sz2.mul_spec(sx2).mul_spec(sy2)),
        v: Vec3 {
            x: sz2.mul_spec(cx2).mul_spec(cy2).sub_spec(cz2.mul_spec(sx2).mul_spec(sy2)),
            y: cz2.mul_spec(sx2).mul_spec(cy2).add_spec(sz2.mul_spec(cx2).mul_spec(sy2)),
            z: cz2.mul_spec(cx2).mul_spec(sy2).sub_spec(sz2.mul_spec(sx2).mul_spec(cy2)),
        },
    }
}

/// Conversion to a quaternion.
pub trait ToQuat<S: Real> {
    /// The quaternion that the value converts to.
    spec fn quat_spec(&self) -> Quat<S>;

    fn to_quat(&self) -> (r: Quat<S>)
        ensures
            r == self.quat_spec(),
    ;
}

/// The quaternion of a rotation matrix, from the square root of the largest
/// of four sums of diagonal entries (the trace where it is not negative),
/// so that the division is by the largest available number.
pub open spec fn mat3_quat_spec<S: Real>(m: Mat3<S>) -> Quat<S> {
    let half = S::ratio_spec(1, 2);
    let o = one::<S>();
    let trace = m.trace_spec();
    if !trace.lt_spec(zero()) {
        let s = o.add_spec(trace).sqrt_spec();
        let f = half.div_spec(s);
        Quat {
            s: half.mul_spec(s),
            v: Vec3 {
                x: m.y.z.sub_spec(m.z.y).mul_spec(f),
                y: m.z.x.sub_spec(m.x.z).mul_spec(f),
                z: m.x.y.sub_spec(m.y.x).mul_spec(f),
            },
        }
    } else if m.y.y.lt_spec(m.x.x) && m.z.z.lt_spec(m.x.x) {
        let s = o.add_spec(m.x.x).sub_spec(m.y.y).sub_spec(m.z.z).sqrt_spec();
        let f = half.div_spec(s);
        Quat {
            s: m.y.z.sub_spec(m.z.y).mul_spec(f),
            v: Vec3 {
                x: half.mul_spec(s),
                y: m.y.x.add_spec(m.x.y).mul_spec(f),
                z: m.z.x.add_spec(m.x.z).mul_spec(f),
            },
        }
    } else if m.z.z.lt_spec(m.y.y) {
        let s = o.add_spec(m.y.y).sub_spec(m.x.x).sub_spec(m.z.z).sqrt_spec();
        let f = half.div_spec(s);
        Quat {
            s: m.z.x.sub_spec(m.x.z).mul_spec(f),
            v: Vec3 {
                x: m.y.x.add_spec(m.x.y).mul_spec(f),
                y: half.mul_spec(s),
                z: m.z.y.add_spec(m.y.z).mul_spec(f),
            },
        }
    } else {
        let s = o.add_spec(m.z.z).sub_spec(m.x.x).sub_spec(m.y.y).sqrt_spec();
        let f = half.div_spec(s);
        Quat {
            s: m.x.y.sub_spec(m.y.x).mul_spec(f),
            v: Vec3 {
                x: m.z.x.add_spec(m.x.z).mul_spec(f),
                y: m.z.y.add_spec(m.y.z).mul_spec(f),
                z: half.mul_spec(s),
            },
        }
    }
}

impl<S: Real> ToQuat<S> for Mat3<S> {
    open spec fn quat_spec(&self) -> Quat<S> {
        mat3_quat_spec(*self)
    }

    /// The quaternion of the rotation matrix.
    fn to_quat(&self) -> (r: Quat<S>) {
        let m = self;
        let half = S::ratio(1, 2);
        let o = S::ratio(1, 1);
        let trace = m.trace();
        if !trace.lt(S::ratio(0, 1)) {
            let s = o.add(trace).sqrt();
            let f = half.div(s);
            Quat::new(
                half.mul(s),
                m.y.z.sub(m.z.y).mul(f),
                m.z.x.sub(m.x.z).mul(f),
                m.x.y.sub(m.y.x).mul(f),
            )
        } else if m.y.y.lt(m.x.x) && m.z.z.lt(m.x.x) {
            let s = o.add(m.x.x).sub(m.y.y).sub(m.z.z).sqrt();
            let f = half.div(s);
            Quat::new(
                m.y.z.sub(m.z.y).mul(f),
                half.mul(s),
                m.y.x.add(m.x.y).mul(f),
                m.z.x.add(m.x.z).mul(f),
            )
        } else if m.z.z.lt(m.y.y) {
            let s = o.add(m.y.y).sub(m.x.x).sub(m.z.z).sqrt();
            let f = half.div(s);
            Quat::new(
                m.z.x.sub(m.x.z).mul(f),
                m.y.x.add(m.x.y).mul(f),
                half.mul(s),
                m.z.y.add(m.y.z).mul(f),
            )
        } else {
            let s = o.add(m.z.z).sub(m.x.x).sub(m.y.y).sqrt();
            let f = half.div(s);
            Quat::new(
                m.x.y.sub(m.y.x).mul(f),
                m.z.x.add(m.x.z).mul(f),
                m.z.y.add(m.y.z).mul(f),
                half.mul(s),
            )
        }
    }
}

/// The multiplicative identity, `1 + 0i + 0j + 0k`.
pub open spec fn identity_spec<S: Real>() -> Quat<S> {
    Quat { s: one::<S>(), v: Vec3 { x: zero::<S>(), y: zero::<S>(), z: zero::<S>() } }
}

impl<S: Real> Quat<S> {
    /// The conjugate: the vector part negated, the scalar kept.
    pub open spec fn conjugate_spec(self) -> Quat<S> {
        Quat { s: self.s, v: self.v.neg_spec() }
    }

    pub open spec fn mul_s_spec(self, k: S) -> Quat<S> {
        Quat { s: self.s.mul_spec(k), v: self.v.mul_s_spec(k) }
    }

    pub open spec fn div_s_spec(self, k: S) -> Quat<S> {
        Quat { s: self.s.div_spec(k), v: self.v.div_s_spec(k) }
    }

    pub open spec fn add_q_spec(self, o: Quat<S>) -> Quat<S> {
        Quat { s: self.s.add_spec(o.s), v: self.v.add_v_spec(o.v) }
    }

    pub open spec fn sub_q_spec(self, o: Quat<S>) -> Quat<S> {
        Quat {
            s: self.s.sub_spec(o.s),
            v: Vec3 {
                x: self.v.x.sub_spec(o.v.x),
                y: self.v.y.sub_spec(o.v.y),
                z: self.v.z.sub_spec(o.v.z),
            },
        }
    }

    /// The Hamilton product.
    pub open spec fn mul_q_spec(self, o: Quat<S>) -> Quat<S> {
        let (a, b) = (self, o);
        Quat {
            s: a.s.mul_spec(b.s).sub_spec(a.v.x.mul_spec(b.v.x)).sub_spec(
                a.v.y.mul_spec(b.v.y),
            ).sub_spec(a.v.z.mul_spec(b.v.z)),
            v: Vec3 {
                x: a.s.mul_spec(b.v.x).add_spec(a.v.x.mul_spec(b.s)).add_spec(
                    a.v.y.mul_spec(b.v.z),
                ).sub_spec(a.v.z.mul_spec(b.v.y)),
                y: a.s.mul_spec(b.v.y).add_spec(a.v.y.mul_spec(b.s)).add_spec(
                    a.v.z.mul_spec(b.v.x),
                ).sub_spec(a.v.x.mul_spec(b.v.z)),
                z: a.s.mul_spec(b.v.z).add_spec(a.v.z.mul_spec(b.s)).add_spec(
                    a.v.x.mul_spec(b.v.y),
                ).sub_spec(a.v.y.mul_spec(b.v.x)),
            },
        }
    }

    pub open spec fn dot_spec(self, o: Quat<S>) -> S {
        self.s.mul_spec(o.s).add_spec(self.v.dot_spec(o.v))
    }

    pub open spec fn magnitude2_spec(self) -> S {
        self.s.mul_spec(self.s).add_spec(self.v.dot_spec(self.v))
    }

    pub open spec fn normalize_spec(self) -> Quat<S> {
        self.mul_s_spec(one::<S>().div_spec(self.magnitude2_spec().sqrt_spec()))
    }

    pub open spec fn nlerp_spec(self, o: Quat<S>, amount: S) -> Quat<S> {
        self.mul_s_spec(one::<S>().sub_spec(amount)).add_q_spec(
            o.mul_s_spec(amount),
        ).normalize_spec()
    }

    /// Spherical interpolation: `nlerp` above the closeness threshold, else
    /// the arc through `self` and the part of `o` orthogonal to it.
    pub open spec fn slerp_spec(self, o: Quat<S>, amount: S) -> Quat<S> {
        let dot = self.dot_spec(o);
        if dot_threshold::<S>().lt_spec(dot) {
            self.nlerp_spec(o, amount)
        } else {
            let robust_dot = clamped(dot, one::<S>().neg_spec(), one::<S>());
            let theta = robust_dot.acos_spec().mul_spec(amount);
            let q = o.sub_q_spec(self.mul_s_spec(robust_dot)).normalize_spec();
            self.mul_s_spec(theta.cos_spec()).add_q_spec(q.mul_s_spec(theta.sin_spec()))
        }
    }

    /// The rotation matrix, column by column, from the doubled products of
    /// the components.
    pub open spec fn to_mat3_spec(self) -> Mat3<S> {
        let x2 = self.v.x.add_spec(self.v.x);
        let y2 = self.v.y.add_spec(self.v.y);
        let z2 = self.v.z.add_spec(self.v.z);
        let xx2 = x2.mul_spec(self.v.x);
        let xy2 = x2.mul_spec(self.v.y);
        let xz2 = x2.mul_spec(self.v.z);
        let yy2 = y2.mul_spec(self.v.y);
        let yz2 = y2.mul_spec(self.v.z);
        let zz2 = z2.mul_spec(self.v.z);
        let sy2 = y2.mul_spec(self.s);
        let sz2 = z2.mul_spec(self.s);
        let sx2 = x2.mul_spec(self.s);
        Mat3 {
            x: Vec3 {
                x: one::<S>().sub_spec(yy2).sub_spec(zz2),
                y: xy2.add_spec(sz2),
                z: xz2.sub_spec(sy2),
            },
            y: Vec3 {
                x: xy2.sub_spec(sz2),
                y: one::<S>().sub_spec(xx2).sub_spec(zz2),
                z: yz2.add_spec(sx2),
            },
            z: Vec3 {
                x: xz2.add_spec(sy2),
                y: yz2.sub_spec(sx2),
                z: one::<S>().sub_spec(xx2).sub_spec(yy2),
            },
        }
    }

    /// A quaternion from one scalar component and three imaginary ones.
    pub fn new(w: S, xi: S, yj: S, zk: S) -> (r: Quat<S>)
        ensures
            r == (Quat { s: w, v: Vec3 { x: xi, y: yj, z: zk } }),
    {
        Quat::from_sv(w, Vec3::new(xi, yj, zk))
    }

    /// A quaternion from a scalar and a vector.
    pub fn from_sv(s: S, v: Vec3<S>) -> (r: Quat<S>)
        ensures
            r == (Quat { s, v }),
    {
        Quat { s, v }
    }

    /// A rotation of `theta` around the `x` axis (pitch).
    pub fn from_angle_x<A: Angle<S>>(theta: A) -> (r: Quat<S>)
        ensures
            r == (Quat {
                s: half_rad(theta).cos_spec(),
                v: Vec3 { x: half_rad(theta).sin_spec(), y: zero::<S>(), z: zero::<S>() },
            }),
    {
        let half = theta.mul_s(S::ratio(1, 2));
        Quat::new(cos(half), sin(half), S::ratio(0, 1), S::ratio(0, 1))
    }

    /// A rotation of `theta` around the `y` axis (yaw).
    pub fn from_angle_y<A: Angle<S>>(theta: A) -> (r: Quat<S>)
        ensures
            r == (Quat {
                s: half_rad(theta).cos_spec(),
                v: Vec3 { x: zero::<S>(), y: half_rad(theta).sin_spec(), z: zero::<S>() },
            }),
    {
        let half = theta.mul_s(S::ratio(1, 2));
        Quat::new(cos(half), S::ratio(0, 1), sin(half), S::ratio(0, 1))
    }

    /// A rotation of `theta` around the `z` axis (roll).
    pub fn from_angle_z<A: Angle<S>>(theta: A) -> (r: Quat<S>)
        ensures
            r == (Quat {
                s: half_rad(theta).cos_spec(),
                v: Vec3 { x: zero::<S>(), y: zero::<S>(), z: half_rad(theta).sin_spec() },
            }),
    {
        let half = theta.mul_s(S::ratio(1, 2));
        Quat::new(cos(half), S::ratio(0, 1), S::ratio(0, 1), sin(half))
    }

    /// A rotation from Euler angles: `x` around the `x` axis (pitch), `y`
    /// around the `y` axis (yaw), `z` around the `z` axis (roll).
    pub fn from_euler<A: Angle<S>>(x: A, y: A, z: A) -> (r: Quat<S>)
        ensures
            r == euler_spec(
                half_rad(x).sin_spec(),
                half_rad(x).cos_spec(),
                half_rad(y).sin_spec(),
                half_rad(y).cos_spec(),
                half_rad(z).sin_spec(),
                half_rad(z).cos_spec(),
            ),
    {
        let (sx2, cx2) = sin_cos(x.mul_s(S::ratio(1, 2)));
        let (sy2, cy2) = sin_cos(y.mul_s(S::ratio(1, 2)));
        let (sz2, cz2) = sin_cos(z.mul_s(S::ratio(1, 2)));

        Quat::new(
            cz2.mul(cx2).mul(cy2).add(sz2.mul(sx2).mul(sy2)),
            sz2.mul(cx2).mul(cy2).sub(cz2.mul(sx2).mul(sy2)),
            cz2.mul(sx2).mul(cy2).add(sz2.mul(cx2).mul(sy2)),
            cz2.mul(cx2).mul(sy2).sub(sz2.mul(sx2).mul(cy2)),
        )
    }

    /// A rotation of `angle` around `axis`, which the caller gives with
    /// unit length: `cos` of the half angle, and `axis` scaled by its `sin`.
    pub fn from_axis_angle<A: Angle<S>>(axis: &Vec3<S>, angle: A) -> (r: Quat<S>)
        ensures
            r == (Quat {
                s: half_rad(angle).cos_spec(),
                v: axis.mul_s_spec(half_rad(angle).sin_spec()),
            }),
    {
        let half = angle.mul_s(S::ratio(1, 2));
        Quat::from_sv(cos(half), axis.mul_s(sin(half)))
    }

    /// The additive identity, `0 + 0i + 0j + 0k`.
    pub fn zero() -> (r: Quat<S>)
        ensures
            r == (Quat { s: zero::<S>(), v: Vec3 { x: zero::<S>(), y: zero::<S>(), z: zero::<S>() } }),
    {
        Quat::new(S::ratio(0, 1), S::ratio(0, 1), S::ratio(0, 1), S::ratio(0, 1))
    }

    /// The multiplicative identity, `1 + 0i + 0j + 0k`.
    pub fn identity() -> (r: Quat<S>)
        ensures
            r == identity_spec::<S>(),
    {
        Quat::from_sv(S::ratio(1, 1), Vec3::zero())
    }

    pub fn div_s(&self, value: S) -> (r: Quat<S>)
        ensures
            r == self.div_s_spec(value),
    {
        Quat::from_sv(self.s.div(value), self.v.div_s(value))
    }

    /// The vector `vec` rotated by the quaternion, as
    /// `vec + 2 v × (v × vec + s vec)`.
    pub fn mul_v(&self, vec: &Vec3<S>) -> (r: Vec3<S>)
        ensures
            r == self.v.cross_spec(self.v.cross_spec(*vec).add_v_spec(vec.mul_s_spec(self.s))).mul_s_spec(
                S::ratio_spec(2, 1),
            ).add_v_spec(*vec),
    {
        let tmp = self.v.cross(vec).add_v(&vec.mul_s(self.s));
        self.v.cross(&tmp).mul_s(S::ratio(2, 1)).add_v(vec)
    }

    /// The Hamilton product of the quaternion and `other`.
    pub fn mul_q(&self, other: &Quat<S>) -> (r: Quat<S>)
        ensures
            r == self.mul_q_spec(*other),
    {
        let (a, b) = (self, other);
        Quat::new(
            a.s.mul(b.s).sub(a.v.x.mul(b.v.x)).sub(a.v.y.mul(b.v.y)).sub(a.v.z.mul(b.v.z)),
            a.s.mul(b.v.x).add(a.v.x.mul(b.s)).add(a.v.y.mul(b.v.z)).sub(a.v.z.mul(b.v.y)),
            a.s.mul(b.v.y).add(a.v.y.mul(b.s)).add(a.v.z.mul(b.v.x)).sub(a.v.x.mul(b.v.z)),
            a.s.mul(b.v.z).add(a.v.z.mul(b.s)).add(a.v.x.mul(b.v.y)).sub(a.v.y.mul(b.v.x)),
        )
    }

    pub fn mul_self_s(&mut self, s: S)
        ensures
            *final(self) == old(self).mul_s_spec(s),
    {
        *self = self.mul_s(s);
    }

    pub fn div_self_s(&mut self, s: S)
        ensures
            *final(self) == old(self).div_s_spec(s),
    {
        *self = self.div_s(s);
    }

    pub fn add_self_q(&mut self, other: &Quat<S>)
        ensures
            *final(self) == old(self).add_q_spec(*other),
    {
        *self = self.add_q(other);
    }

    pub fn sub_self_q(&mut self, other: &Quat<S>)
        ensures
            *final(self) == old(self).sub_q_spec(*other),
    {
        *self = self.sub_q(other);
    }

    pub fn mul_self_q(&mut self, other: &Quat<S>)
        ensures
            *final(self) == old(self).mul_q_spec(*other),
    {
        *self = self.mul_q(other);
    }

    /// The conjugate: the vector part negated, the scalar kept.
    pub fn conjugate(&self) -> (r: Quat<S>)
        ensures
            r == self.conjugate_spec(),
    {
        Quat::from_sv(self.s, self.v.neg())
    }

    /// The additive inverse: every component negated.
    pub fn neg(&self) -> (r: Quat<S>)
        ensures
            r == (Quat { s: self.s.neg_spec(), v: self.v.neg_spec() }),
    {
        Quat::from_sv(self.s.neg(), self.v.neg())
    }

    /// The rotation that looks along `dir`, with `up` fixing the roll: the
    /// quaternion of the matrix `Mat3::look_at(dir, up)`.
    pub fn look_at(dir: &Vec3<S>, up: &Vec3<S>) -> (r: Quat<S>)
        ensures
            r == mat3_quat_spec(Mat3::look_at_spec(*dir, *up)),
    {
        Mat3::look_at(dir, up).to_quat()
    }

    pub fn mul_s(&self, value: S) -> (r: Quat<S>)
        ensures
            r == self.mul_s_spec(value),
    {
        Quat::from_sv(self.s.mul(value), self.v.mul_s(value))
    }

    pub fn add_q(&self, other: &Quat<S>) -> (r: Quat<S>)
        ensures
            r == self.add_q_spec(*other),
    {
        Quat::from_sv(self.s.add(other.s), self.v.add_v(&other.v))
    }

    /// The component-wise difference.
    pub fn sub_q(&self, other: &Quat<S>) -> (r: Quat<S>)
        ensures
            r == self.sub_q_spec(*other),
    {
        Quat::new(
            self.s.sub(other.s),
            self.v.x.sub(other.v.x),
            self.v.y.sub(other.v.y),
            self.v.z.sub(other.v.z),
        )
    }

    pub fn dot(&self, other: &Quat<S>) -> (r: S)
        ensures
            r == self.dot_spec(*other),
    {
        self.s.mul(other.s).add(self.v.dot(&other.v))
    }

    /// The squared magnitude, `s² + |v|²`.
    pub fn magnitude2(&self) -> (r: S)
        ensures
            r == self.magnitude2_spec(),
    {
        self.s.mul(self.s).add(self.v.length2())
    }

    /// The magnitude: the square root of `magnitude2`.
    pub fn magnitude(&self) -> (r: S)
        ensures
            r == self.magnitude2_spec().sqrt_spec(),
    {
        self.magnitude2().sqrt()
    }

    /// The quaternion scaled by the reciprocal of its magnitude. A zero
    /// quaternion gives whatever the scalar's division by zero gives.
    pub fn normalize(&self) -> (r: Quat<S>)
        ensures
            r == self.normalize_spec(),
    {
        self.mul_s(S::ratio(1, 1).div(self.magnitude()))
    }

    /// Normalized linear interpolation.
    pub fn nlerp(&self, other: &Quat<S>, amount: S) -> (r: Quat<S>)
        ensures
            r == self.nlerp_spec(*other, amount),
    {
        self.mul_s(S::ratio(1, 1).sub(amount)).add_q(&other.mul_s(amount)).normalize()
    }

    /// Spherical linear interpolation between two unit quaternions.
    ///
    /// Above a dot product of `0.9995` the two are too close for the arc to
    /// be computed stably, and `nlerp` is used. Otherwise the dot product is
    /// clamped into `[-1, 1]`, the domain of `acos`, and the result is
    /// `self` rotated towards the normalized part of `other` orthogonal to
    /// it, by the fraction `amount` of the angle between them.
    pub fn slerp(&self, other: &Quat<S>, amount: S) -> (r: Quat<S>)
        ensures
            r == self.slerp_spec(*other, amount),
            dot_threshold::<S>().lt_spec(self.dot_spec(*other)) ==> r == self.nlerp_spec(
                *other,
                amount,
            ),
    {
        let dot = self.dot(other);
        let dot_threshold = S::ratio(9995, 10000);

        if dot_threshold.lt(dot) {
            self.nlerp(other, amount)
        } else {
            // stay within the domain of acos()
            let one = S::ratio(1, 1);
            let robust_dot = clamp(dot, one.neg(), one);

            let theta: Rad<S> = acos(robust_dot);  // the angle between the quaternions
            let theta: Rad<S> = theta.mul_s(amount);  // the fraction of it that `amount` asks for

            let q = other.sub_q(&self.mul_s(robust_dot)).normalize();

            self.mul_s(cos(theta)).add_q(&q.mul_s(sin(theta)))
        }
    }

    /// The rotation matrix of the quaternion.
    pub fn to_mat3(&self) -> (r: Mat3<S>)
        ensures
            r == self.to_mat3_spec(),
    {
        let x2 = self.v.x.add(self.v.x);
        let y2 = self.v.y.add(self.v.y);
        let z2 = self.v.z.add(self.v.z);

        let xx2 = x2.mul(self.v.x);
        let xy2 = x2.mul(self.v.y);
        let xz2 = x2.mul(self.v.z);

        let yy2 = y2.mul(self.v.y);
        let yz2 = y2.mul(self.v.z);
        let zz2 = z2.mul(self.v.z);

        let sy2 = y2.mul(self.s);
        let sz2 = z2.mul(self.s);
        let sx2 = x2.mul(self.s);

        let one = S::ratio(1, 1);
        Mat3::new(
            one.sub(yy2).sub(zz2),
            xy2.add(sz2),
            xz2.sub(sy2),
            xy2.sub(sz2),
            one.sub(xx2).sub(zz2),
            yz2.add(sx2),
            xz2.add(sy2),
            yz2.sub(sx2),
            one.sub(xx2).sub(yy2),
        )
    }
}

/// Above the closeness threshold `slerp` takes the `nlerp` path, so the two
/// agree exactly.
pub proof fn lemma_slerp_close_is_nlerp<S: Real>(a: Quat<S>, b: Quat<S>, t: S)
    requires
        dot_threshold::<S>().lt_spec(a.dot_spec(b)),
    ensures
        a.slerp_spec(b, t) == a.nlerp_spec(b, t),
{
}

/// `a - 0 == a`.
proof fn lemma_sub_zero<S: Real>(a: S)
    requires
        ring_laws::<S>(),
    ensures
        a.sub_spec(zero()) == a,
{
    lemma_sub_add_neg(a, zero());
    lemma_neg_zero::<S>();
    lemma_add_zero(a);
}

/// The identity quaternion is a neutral element of the Hamilton product on
/// either side, for scalars whose arithmetic is exact.
pub proof fn lemma_identity_mul<S: Real>(q: Quat<S>)
    requires
        ring_laws::<S>(),
    ensures
        identity_spec::<S>().mul_q_spec(q) == q,
        q.mul_q_spec(identity_spec::<S>()) == q,
{
    let (o, z) = (one::<S>(), zero::<S>());
    lemma_mul_one(q.s);
    lemma_mul_one(q.v.x);
    lemma_mul_one(q.v.y);
    lemma_mul_one(q.v.z);
    lemma_mul_zero(q.s);
    lemma_mul_zero(q.v.x);
    lemma_mul_zero(q.v.y);
    lemma_mul_zero(q.v.z);
    lemma_mul_zero(o);
    lemma_mul_zero(z);
    lemma_sub_zero(q.s);
    lemma_sub_zero(q.v.x);
    lemma_sub_zero(q.v.y);
    lemma_sub_zero(q.v.z);
    lemma_add_zero(q.s);
    lemma_add_zero(q.v.x);
    lemma_add_zero(q.v.y);
    lemma_add_zero(q.v.z);
}

/// `u - (-w) == u + w`.
proof fn lemma_sub_neg<S: Real>(u: S, w: S)
    requires
        ring_laws::<S>(),
    ensures
        u.sub_spec(w.neg_spec()) == u.add_spec(w),
{
    lemma_sub_add_neg(u, w.neg_spec());
    lemma_neg_neg(w);
}

/// `((-(a b) + b a) + -(c d)) - -(d c) == 0`: the pattern of each vector
/// component of a quaternion times its conjugate.
proof fn lemma_cancel<S: Real>(a: S, b: S, c: S, d: S)
    requires
        ring_laws::<S>(),
    ensures
        a.mul_spec(b).neg_spec().add_spec(b.mul_spec(a)).add_spec(
            c.mul_spec(d).neg_spec(),
        ).sub_spec(d.mul_spec(c).neg_spec()) == zero::<S>(),
{
    let ab = a.mul_spec(b);
    let cd = c.mul_spec(d);
    lemma_mul_comm(a, b);
    lemma_mul_comm(c, d);
    lemma_add_neg(ab);
    lemma_add_zero(cd.neg_spec());
    lemma_sub_neg(cd.neg_spec(), cd);
    lemma_add_neg(cd);
}

/// A quaternion times its conjugate is its squared magnitude, with a zero
/// vector part, for scalars whose arithmetic is exact.
pub proof fn lemma_mul_conjugate<S: Real>(q: Quat<S>)
    requires
        ring_laws::<S>(),
    ensures
        q.mul_q_spec(q.conjugate_spec()).s == q.magnitude2_spec(),
        q.mul_q_spec(q.conjugate_spec()).v == (Vec3 {
            x: zero::<S>(),
            y: zero::<S>(),
            z: zero::<S>(),
        }),
{
    let (s, x, y, z) = (q.s, q.v.x, q.v.y, q.v.z);
    lemma_mul_neg(x, x);
    lemma_mul_neg(y, y);
    lemma_mul_neg(z, z);
    let (ss, xx, yy, zz) = (s.mul_spec(s), x.mul_spec(x), y.mul_spec(y), z.mul_spec(z));
    lemma_sub_neg(ss, xx);
    lemma_sub_neg(ss.add_spec(xx), yy);
    lemma_sub_neg(ss.add_spec(xx).add_spec(yy), zz);
    lemma_add_assoc(ss, xx, yy);
    lemma_add_assoc(ss, xx.add_spec(yy), zz);

    lemma_mul_neg(s, x);
    lemma_mul_neg(y, z);
    lemma_mul_neg(z, y);
    lemma_cancel(s, x, y, z);
    lemma_mul_neg(s, y);
    lemma_mul_neg(z, x);
    lemma_mul_neg(x, z);
    lemma_cancel(s, y, z, x);
    lemma_mul_neg(s, z);
    lemma_mul_neg(x, y);
    lemma_mul_neg(y, x);
    lemma_cancel(s, z, x, y);
}

/// `(u - v) a == u a - v a` and `(u + v) a == u a + v a`.
proof fn lemma_mul_right<S: Real>(u: S, v: S, a: S)
    requires
        ring_laws::<S>(),
    ensures
        u.sub_spec(v).mul_spec(a) == u.mul_spec(a).sub_spec(v.mul_spec(a)),
        u.add_spec(v).mul_spec(a) == u.mul_spec(a).add_spec(v.mul_spec(a)),
{
    lemma_sub_add_neg(u, v);
    lemma_mul_comm(u.add_spec(v.neg_spec()), a);
    lemma_mul_distrib(a, u, v.neg_spec());
    lemma_mul_comm(a, u);
    lemma_mul_neg(a, v);
    lemma_mul_comm(a, v);
    lemma_sub_add_neg(u.mul_spec(a), v.mul_spec(a));
    lemma_mul_comm(u.add_spec(v), a);
    lemma_mul_distrib(a, u, v);
}

/// `((u + u) w) q == (u w) q + (u w) q`.
proof fn lemma_double<S: Real>(u: S, w: S, q: S)
    requires
        ring_laws::<S>(),
    ensures
        u.add_spec(u).mul_spec(w).mul_spec(q) == u.mul_spec(w).mul_spec(q).add_spec(
            u.mul_spec(w).mul_spec(q),
        ),
{
    lemma_mul_right(u, u, w);
    lemma_mul_right(u.mul_spec(w), u.mul_spec(w), q);
}

/// `((p s) w) r == ((r s) w) p`.
proof fn lemma_swap_outer<S: Real>(p: S, r: S, s: S, w: S)
    requires
        ring_laws::<S>(),
    ensures
        p.mul_spec(s).mul_spec(w).mul_spec(r) == r.mul_spec(s).mul_spec(w).mul_spec(p),
{
    let k = s.mul_spec(w);
    lemma_mul_assoc(p, s, w);
    lemma_mul_assoc(r, s, w);
    lemma_mul_assoc(p, k, r);
    lemma_mul_comm(k, r);
    lemma_mul_assoc(p, r, k);
    lemma_mul_assoc(r, k, p);
    lemma_mul_comm(k, p);
    lemma_mul_assoc(r, p, k);
    lemma_mul_comm(p, r);
}

/// `(m (q t)) r == (m (r t)) q`.
proof fn lemma_swap_inner<S: Real>(m: S, q: S, r: S, t: S)
    requires
        ring_laws::<S>(),
    ensures
        m.mul_spec(q.mul_spec(t)).mul_spec(r) == m.mul_spec(r.mul_spec(t)).mul_spec(q),
{
    lemma_mul_assoc(m, q.mul_spec(t), r);
    lemma_mul_assoc(m, r.mul_spec(t), q);
    lemma_mul_assoc(q, t, r);
    lemma_mul_comm(t, r);
    lemma_mul_assoc(q, r, t);
    lemma_mul_assoc(r, t, q);
    lemma_mul_comm(t, q);
    lemma_mul_assoc(r, q, t);
    lemma_mul_comm(q, r);
}

/// The rotation matrix of `c + s a` leaves `a` unchanged, whatever `c` and
/// `s` are, for scalars whose arithmetic is exact.
proof fn lemma_matrix_fixes_axis<S: Real>(a: Vec3<S>, c: S, s: S)
    requires
        ring_laws::<S>(),
    ensures
        (Quat { s: c, v: a.mul_s_spec(s) }).to_mat3_spec().mul_v_spec(a) == a,
{
    let q = Quat { s: c, v: a.mul_s_spec(s) };
    let m = q.to_mat3_spec();
    let (a1, a2, a3) = (a.x, a.y, a.z);
    let (x, y, z) = (a1.mul_spec(s), a2.mul_spec(s), a3.mul_spec(s));
    let (x2, y2, z2) = (x.add_spec(x), y.add_spec(y), z.add_spec(z));
    let o = one::<S>();
    let (xx2, yy2, zz2) = (x2.mul_spec(x), y2.mul_spec(y), z2.mul_spec(z));
    let (xy2, xz2, yz2) = (x2.mul_spec(y), x2.mul_spec(z), y2.mul_spec(z));
    let (sx2, sy2, sz2) = (x2.mul_spec(c), y2.mul_spec(c), z2.mul_spec(c));

    // first row
    lemma_mul_right(o.sub_spec(yy2), zz2, a1);
    lemma_mul_right(o, yy2, a1);
    lemma_mul_one(a1);
    lemma_mul_right(xy2, sz2, a2);
    lemma_mul_right(xz2, sy2, a3);
    lemma_double(y, y, a1);
    lemma_double(x, y, a2);
    lemma_swap_outer(a2, a1, s, y);
    lemma_double(z, z, a1);
    lemma_double(x, z, a3);
    lemma_swap_outer(a3, a1, s, z);
    lemma_double(z, c, a2);
    lemma_double(y, c, a3);
    lemma_swap_outer(a3, a2, s, c);
    lemma_cancel_first(a1, yy2.mul_spec(a1), zz2.mul_spec(a1), sz2.mul_spec(a2));

    // second row
    lemma_mul_right(xy2, sz2, a1);
    lemma_mul_right(o.sub_spec(xx2), zz2, a2);
    lemma_mul_right(o, xx2, a2);
    lemma_mul_one(a2);
    lemma_mul_right(yz2, sx2, a3);
    lemma_double(x, y, a1);
    lemma_double(x, x, a2);
    lemma_swap_inner(x, a2, a1, s);
    lemma_double(z, c, a1);
    lemma_double(x, c, a3);
    lemma_swap_outer(a3, a1, s, c);
    lemma_double(z, z, a2);
    lemma_double(y, z, a3);
    lemma_swap_outer(a3, a2, s, z);
    lemma_cancel_second(a2, xx2.mul_spec(a2), zz2.mul_spec(a2), sz2.mul_spec(a1));

    // third row
    lemma_mul_right(xz2, sy2, a1);
    lemma_mul_right(yz2, sx2, a2);
    lemma_mul_right(o.sub_spec(xx2), yy2, a3);
    lemma_mul_right(o, xx2, a3);
    lemma_mul_one(a3);
    lemma_double(x, z, a1);
    lemma_double(x, x, a3);
    lemma_swap_inner(x, a3, a1, s);
    lemma_double(y, c, a1);
    lemma_double(x, c, a2);
    lemma_swap_outer(a2, a1, s, c);
    lemma_double(y, z, a2);
    lemma_double(y, y, a3);
    lemma_swap_inner(y, a3, a2, s);
    lemma_cancel_third(a3, xx2.mul_spec(a3), yy2.mul_spec(a3), sy2.mul_spec(a1));
}

/// The rotation matrix of an axis-angle quaternion leaves the axis
/// unchanged, for every axis and angle, for scalars whose arithmetic is
/// exact.
pub proof fn lemma_axis_angle_fixes_axis<S: Real, A: Angle<S>>(axis: Vec3<S>, theta: A)
    requires
        ring_laws::<S>(),
    ensures
        (Quat {
            s: half_rad(theta).cos_spec(),
            v: axis.mul_s_spec(half_rad(theta).sin_spec()),
        }).to_mat3_spec().mul_v_spec(axis) == axis,
{
    lemma_matrix_fixes_axis(axis, half_rad(theta).cos_spec(), half_rad(theta).sin_spec());
}

/// A quaternion scaled by one is itself; scaled by zero, it is zero.
proof fn lemma_scale_one_zero<S: Real>(q: Quat<S>)
    requires
        ring_laws::<S>(),
    ensures
        q.mul_s_spec(one()) == q,
        q.mul_s_spec(zero()) == (Quat {
            s: zero::<S>(),
            v: Vec3 { x: zero::<S>(), y: zero::<S>(), z: zero::<S>() },
        }),
{
    lemma_mul_one(q.s);
    lemma_mul_one(q.v.x);
    lemma_mul_one(q.v.y);
    lemma_mul_one(q.v.z);
    lemma_mul_zero(q.s);
    lemma_mul_zero(q.v.x);
    lemma_mul_zero(q.v.y);
    lemma_mul_zero(q.v.z);
}

/// Adding the zero quaternion on either side changes nothing.
proof fn lemma_add_zero_quat<S: Real>(q: Quat<S>)
    requires
        ring_laws::<S>(),
    ensures
        q.add_q_spec(Quat::<S> {
            s: zero(),
            v: Vec3 { x: zero(), y: zero(), z: zero() },
        }) == q,
        (Quat::<S> {
            s: zero(),
            v: Vec3 { x: zero(), y: zero(), z: zero() },
        }).add_q_spec(q) == q,
{
    lemma_add_zero(q.s);
    lemma_add_zero(q.v.x);
    lemma_add_zero(q.v.y);
    lemma_add_zero(q.v.z);
}

/// A unit quaternion is its own normalization.
proof fn lemma_normalize_unit<S: Real>(q: Quat<S>)
    requires
        ring_laws::<S>(),
        unit_values::<S>(),
        q.magnitude2_spec() == one::<S>(),
    ensures
        q.normalize_spec() == q,
{
    lemma_scale_one_zero(q);
}

/// Spherical interpolation by zero gives the unit quaternion it starts
/// from, whatever the other one is, for scalars whose arithmetic is exact.
pub proof fn lemma_slerp_start<S: Real>(a: Quat<S>, b: Quat<S>)
    requires
        ring_laws::<S>(),
        unit_values::<S>(),
        a.magnitude2_spec() == one::<S>(),
    ensures
        a.slerp_spec(b, zero()) == a,
{
    lemma_scale_one_zero(a);
    lemma_scale_one_zero(b);
    lemma_add_zero_quat(a);
    if dot_threshold::<S>().lt_spec(a.dot_spec(b)) {
        lemma_sub_zero(one::<S>());
        lemma_normalize_unit(a);
    } else {
        let robust_dot = clamped(a.dot_spec(b), one::<S>().neg_spec(), one::<S>());
        lemma_mul_zero(robust_dot.acos_spec());
        let q = b.sub_q_spec(a.mul_s_spec(robust_dot)).normalize_spec();
        lemma_scale_one_zero(q);
    }
}

/// Where two unit quaternions are close enough for `slerp` to take the
/// `nlerp` path, interpolating by one gives the second, for scalars whose
/// arithmetic is exact.
proof fn lemma_slerp_end_close<S: Real>(a: Quat<S>, b: Quat<S>)
    requires
        ring_laws::<S>(),
        unit_values::<S>(),
        b.magnitude2_spec() == one::<S>(),
        dot_threshold::<S>().lt_spec(a.dot_spec(b)),
    ensures
        a.slerp_spec(b, one()) == b,
{
    lemma_add_neg(one::<S>());
    lemma_sub_add_neg(one::<S>(), one::<S>());
    lemma_scale_one_zero(a);
    lemma_scale_one_zero(b);
    lemma_add_zero_quat(b);
    lemma_normalize_unit(b);
}

/// The squared magnitude is a sum of squares, so not negative.
proof fn lemma_magnitude2_nonneg<S: Real>(q: Quat<S>)
    requires
        real_laws::<S>(),
    ensures
        le(zero(), q.magnitude2_spec()),
{
    let (s, x, y, z) = (q.s, q.v.x, q.v.y, q.v.z);
    lemma_square_nonneg(s);
    lemma_square_nonneg(x);
    lemma_square_nonneg(y);
    lemma_square_nonneg(z);
    lemma_sum_nonneg(x.mul_spec(x), y.mul_spec(y));
    lemma_sum_nonneg(x.mul_spec(x).add_spec(y.mul_spec(y)), z.mul_spec(z));
    lemma_sum_nonneg(s.mul_spec(s), q.v.dot_spec(q.v));
}

/// `b (a r) == (a b) r` and `(a r)(a r) == (a a)(r r)`.
proof fn lemma_products<S: Real>(a: S, b: S, r: S)
    requires
        ring_laws::<S>(),
    ensures
        b.mul_spec(a.mul_spec(r)) == a.mul_spec(b).mul_spec(r),
        a.mul_spec(r).mul_spec(a.mul_spec(r)) == a.mul_spec(a).mul_spec(r.mul_spec(r)),
{
    lemma_mul_assoc(b, a, r);
    lemma_mul_comm(b, a);
    lemma_mul_assoc(a, r, a.mul_spec(r));
    lemma_mul_assoc(r, a, r);
    lemma_mul_comm(r, a);
    lemma_mul_assoc(a, r, r);
    lemma_mul_assoc(a, a, r.mul_spec(r));
}

/// `p0 k + ((p1 k + p2 k) + p3 k) == (p0 + ((p1 + p2) + p3)) k`.
proof fn lemma_sum_scale<S: Real>(p0: S, p1: S, p2: S, p3: S, k: S)
    requires
        ring_laws::<S>(),
    ensures
        p0.mul_spec(k).add_spec(p1.mul_spec(k).add_spec(p2.mul_spec(k)).add_spec(p3.mul_spec(k)))
            == p0.add_spec(p1.add_spec(p2).add_spec(p3)).mul_spec(k),
{
    lemma_mul_right(p1, p2, k);
    lemma_mul_right(p1.add_spec(p2), p3, k);
    lemma_mul_right(p0, p1.add_spec(p2).add_spec(p3), k);
}

/// `|b - a r|² == (|b|² - (d r + d r)) + |a|² r r`, with `d` the dot
/// product of `a` and `b`.
proof fn lemma_magnitude2_of_difference<S: Real>(a: Quat<S>, b: Quat<S>, r: S)
    requires
        ring_laws::<S>(),
    ensures
        b.sub_q_spec(a.mul_s_spec(r)).magnitude2_spec() == b.magnitude2_spec().sub_spec(
            a.dot_spec(b).mul_spec(r).add_spec(a.dot_spec(b).mul_spec(r)),
        ).add_spec(a.magnitude2_spec().mul_spec(r.mul_spec(r))),
{
    let (a0, a1, a2, a3) = (a.s, a.v.x, a.v.y, a.v.z);
    let (b0, b1, b2, b3) = (b.s, b.v.x, b.v.y, b.v.z);
    let rr = r.mul_spec(r);
    lemma_square_of_difference(b0, a0.mul_spec(r));
    lemma_square_of_difference(b1, a1.mul_spec(r));
    lemma_square_of_difference(b2, a2.mul_spec(r));
    lemma_square_of_difference(b3, a3.mul_spec(r));
    lemma_products(a0, b0, r);
    lemma_products(a1, b1, r);
    lemma_products(a2, b2, r);
    lemma_products(a3, b3, r);
    let (u0, u1, u2, u3) = (b0.mul_spec(b0), b1.mul_spec(b1), b2.mul_spec(b2), b3.mul_spec(b3));
    let (q0, q1, q2, q3) = (
        a0.mul_spec(b0).mul_spec(r),
        a1.mul_spec(b1).mul_spec(r),
        a2.mul_spec(b2).mul_spec(r),
        a3.mul_spec(b3).mul_spec(r),
    );
    let (v0, v1, v2, v3) = (
        a0.mul_spec(a0).mul_spec(rr),
        a1.mul_spec(a1).mul_spec(rr),
        a2.mul_spec(a2).mul_spec(rr),
        a3.mul_spec(a3).mul_spec(rr),
    );
    lemma_regroup(u1, q1.add_spec(q1), v1, u2, q2.add_spec(q2), v2);
    lemma_regroup(
        u1.add_spec(u2),
        q1.add_spec(q1).add_spec(q2.add_spec(q2)),
        v1.add_spec(v2),
        u3,
        q3.add_spec(q3),
        v3,
    );
    lemma_regroup(
        u0,
        q0.add_spec(q0),
        v0,
        u1.add_spec(u2).add_spec(u3),
        q1.add_spec(q1).add_spec(q2.add_spec(q2)).add_spec(q3.add_spec(q3)),
        v1.add_spec(v2).add_spec(v3),
    );
    lemma_regroup_doubles(q1, q2);
    lemma_regroup_doubles(q1.add_spec(q2), q3);
    lemma_regroup_doubles(q0, q1.add_spec(q2).add_spec(q3));
    lemma_sum_scale(a0.mul_spec(b0), a1.mul_spec(b1), a2.mul_spec(b2), a3.mul_spec(b3), r);
    lemma_sum_scale(a0.mul_spec(a0), a1.mul_spec(a1), a2.mul_spec(a2), a3.mul_spec(a3), rr);
}

/// `(u - v)(u + v) == u u - v v`.
proof fn lemma_difference_of_squares<S: Real>(u: S, v: S)
    requires
        ring_laws::<S>(),
    ensures
        u.sub_spec(v).mul_spec(u.add_spec(v)) == u.mul_spec(u).sub_spec(v.mul_spec(v)),
{
    let (uu, uv, vv) = (u.mul_spec(u), u.mul_spec(v), v.mul_spec(v));
    lemma_sub_add_neg(u, v);
    lemma_mul_right(u, v.neg_spec(), u.add_spec(v));
    lemma_mul_distrib(u, u, v);
    lemma_mul_distrib(v.neg_spec(), u, v);
    lemma_mul_neg(u, v);
    lemma_mul_comm(v.neg_spec(), u);
    lemma_mul_neg(v, v);
    lemma_mul_comm(v.neg_spec(), v);
    lemma_add_assoc(uu, uv, uv.neg_spec().add_spec(vv.neg_spec()));
    lemma_add_assoc(uv, uv.neg_spec(), vv.neg_spec());
    lemma_add_neg(uv);
    lemma_add_zero(vv.neg_spec());
    lemma_sub_add_neg(uu, vv);
}

/// `v + (u - v) == u`.
proof fn lemma_add_sub_cancel<S: Real>(u: S, v: S)
    requires
        ring_laws::<S>(),
    ensures
        v.add_spec(u.sub_spec(v)) == u,
{
    lemma_sub_add_neg(u, v);
    lemma_add_comm(u, v.neg_spec());
    lemma_add_assoc(v, v.neg_spec(), u);
    lemma_add_neg(v);
    lemma_add_zero(u);
}

/// `x < y` gives `0 < y - x`.
proof fn lemma_lt_sub<S: Real>(x: S, y: S)
    requires
        ring_laws::<S>(),
        order_laws::<S>(),
        x.lt_spec(y),
    ensures
        zero::<S>().lt_spec(y.sub_spec(x)),
{
    lemma_lt_add(x, y, x.neg_spec());
    lemma_add_neg(x);
    lemma_sub_add_neg(y, x);
}

/// Between two unit quaternions with a dot product of at least `-1` whose
/// `slerp` takes the arc path, the arc at one ends at the second.
proof fn lemma_slerp_end_arc<S: Real>(a: Quat<S>, b: Quat<S>)
    requires
        ring_laws::<S>(),
        order_laws::<S>(),
        real_laws::<S>(),
        a.magnitude2_spec() == one::<S>(),
        b.magnitude2_spec() == one::<S>(),
        !dot_threshold::<S>().lt_spec(a.dot_spec(b)),
        one::<S>().neg_spec().lt_spec(a.dot_spec(b)),
    ensures
        a.slerp_spec(b, one()) == b,
{
    let d = a.dot_spec(b);
    let (o, z, m1) = (one::<S>(), zero::<S>(), one::<S>().neg_spec());
    // d < 1
    lemma_proper_fraction::<S>(9995, 10000);
    lemma_lt_total(dot_threshold::<S>(), d);
    if d.lt_spec(dot_threshold()) {
        lemma_lt_trans(d, dot_threshold(), o);
    }
    assert(d.lt_spec(o));
    // the clamp leaves d alone
    lemma_lt_irreflexive(d);
    if d.lt_spec(m1) {
        lemma_lt_trans(d, m1, d);
    }
    if o.lt_spec(d) {
        lemma_lt_trans(d, o, d);
    }
    assert(clamped(d, m1, o) == d);
    // cos and sin of the angle
    lemma_mul_one(d.acos_spec());
    lemma_acos(d);
    let g = d.mul_spec(d);
    let w = o.sub_spec(g);
    // the orthogonal part has squared magnitude w
    let qp = b.sub_q_spec(a.mul_s_spec(d));
    lemma_magnitude2_of_difference(a, b, d);
    lemma_mul_one(g);
    lemma_sub_add_neg(o, g.add_spec(g));
    lemma_neg_add(g, g);
    lemma_add_assoc(o, g.neg_spec().add_spec(g.neg_spec()), g);
    lemma_add_assoc(g.neg_spec(), g.neg_spec(), g);
    lemma_add_neg(g);
    lemma_add_zero(g.neg_spec());
    lemma_sub_add_neg(o, g);
    assert(qp.magnitude2_spec() == w);
    lemma_magnitude2_nonneg(qp);
    // w is not zero, nor is its square root
    lemma_lt_sub(d, o);
    lemma_lt_add(m1, d, o);
    lemma_add_neg(o);
    lemma_add_comm(d, o);
    lemma_mul_one(o);
    lemma_difference_of_squares(o, d);
    lemma_lt_irreflexive(z);
    if w == z {
        lemma_zero_product(o.sub_spec(d), o.add_spec(d));
    }
    let sw = w.sqrt_spec();
    lemma_sqrt_squared(w);
    lemma_mul_zero(z);
    lemma_reciprocal(sw);
    let k = o.div_spec(sw);
    // scaling the normalized part back by sqrt(w) gives the part itself
    assert(qp.normalize_spec() == qp.mul_s_spec(k));
    lemma_mul_assoc(qp.s, k, sw);
    lemma_mul_assoc(qp.v.x, k, sw);
    lemma_mul_assoc(qp.v.y, k, sw);
    lemma_mul_assoc(qp.v.z, k, sw);
    lemma_mul_comm(k, sw);
    lemma_mul_one(qp.s);
    lemma_mul_one(qp.v.x);
    lemma_mul_one(qp.v.y);
    lemma_mul_one(qp.v.z);
    assert(qp.mul_s_spec(k).mul_s_spec(sw) == qp);
    // a d + (b - a d) == b
    lemma_add_sub_cancel(b.s, a.s.mul_spec(d));
    lemma_add_sub_cancel(b.v.x, a.v.x.mul_spec(d));
    lemma_add_sub_cancel(b.v.y, a.v.y.mul_spec(d));
    lemma_add_sub_cancel(b.v.z, a.v.z.mul_spec(d));
}

/// The dot product of two unit quaternions is at least `-1`, as
/// `|b + a|² = 2 + 2 d` is not negative.
proof fn lemma_dot_at_least_minus_one<S: Real>(a: Quat<S>, b: Quat<S>)
    requires
        ring_laws::<S>(),
        order_laws::<S>(),
        real_laws::<S>(),
        a.magnitude2_spec() == one::<S>(),
        b.magnitude2_spec() == one::<S>(),
    ensures
        le(one::<S>().neg_spec(), a.dot_spec(b)),
{
    let d = a.dot_spec(b);
    let (o, z, m1) = (one::<S>(), zero::<S>(), one::<S>().neg_spec());
    let e = o.add_spec(d);
    let x = b.sub_q_spec(a.mul_s_spec(m1)).magnitude2_spec();
    lemma_magnitude2_of_difference(a, b, m1);
    lemma_magnitude2_nonneg(b.sub_q_spec(a.mul_s_spec(m1)));
    lemma_mul_neg(d, o);
    lemma_mul_one(d);
    lemma_mul_neg(m1, o);
    lemma_mul_one(m1);
    lemma_neg_neg(o);
    lemma_mul_one(o);
    lemma_sub_add_neg(o, d.neg_spec().add_spec(d.neg_spec()));
    lemma_neg_add(d.neg_spec(), d.neg_spec());
    lemma_neg_neg(d);
    lemma_add_assoc(o, d.add_spec(d), o);
    lemma_add_comm(d.add_spec(d), o);
    lemma_add_assoc(o, o, d.add_spec(d));
    lemma_add_swap(o, d, o, d);
    assert(x == e.add_spec(e));
    lemma_lt_irreflexive(z);
    lemma_equal_is_identity(z, e.add_spec(e));
    if e.lt_spec(z) {
        lemma_lt_add(e, z, e);
        lemma_add_zero(e);
        lemma_lt_trans(e.add_spec(e), e, z);
        if z.lt_spec(e.add_spec(e)) {
            lemma_lt_trans(z, e.add_spec(e), z);
        }
    }
    lemma_lt_total(e, z);
    lemma_add_comm(o, d);
    lemma_add_assoc(d, o, m1);
    lemma_add_neg(o);
    lemma_add_zero(d);
    lemma_add_zero(m1);
    lemma_equal_is_identity(m1, d);
    if z.lt_spec(e) {
        lemma_lt_add(z, e, m1);
    }
}

/// Spherical interpolation by one between two unit quaternions ends at the
/// second, for scalars that behave as the real numbers, unless their dot
/// product is `-1` (the second is the negation of the first): there the
/// part of the second orthogonal to the first is zero and cannot be
/// normalized.
pub proof fn lemma_slerp_end<S: Real>(a: Quat<S>, b: Quat<S>)
    requires
        ring_laws::<S>(),
        order_laws::<S>(),
        real_laws::<S>(),
        unit_values::<S>(),
        a.magnitude2_spec() == one::<S>(),
        b.magnitude2_spec() == one::<S>(),
        a.dot_spec(b) != one::<S>().neg_spec(),
    ensures
        a.slerp_spec(b, one()) == b,
{
    if dot_threshold::<S>().lt_spec(a.dot_spec(b)) {
        lemma_slerp_end_close(a, b);
    } else {
        lemma_dot_at_least_minus_one(a, b);
        lemma_equal_is_identity(one::<S>().neg_spec(), a.dot_spec(b));
        lemma_slerp_end_arc(a, b);
    }
}

} // verus!
