//! Laws that exact arithmetic obeys, stated of the scalar's operations, and
//! lemmas that each give one law (or a short consequence of a few) for
//! chosen values, so that a proof brings in only the facts it uses. The library's general properties are proved from
//! these where they hold only of exact arithmetic.
use vstd::prelude::*;

use crate::scalar::{Real, le, one, zero};

verus! {

/// The scalar's arithmetic obeys the laws of a commutative ring, as exact
/// arithmetic does (floating point obeys them only approximately). The last
/// four follow from the others and are listed for use in proofs.
#[verifier::opaque]
pub open spec fn ring_laws<S: Real>() -> bool {
    &&& forall|a: S, b: S| #[trigger] a.add_spec(b) == b.add_spec(a)
    &&& forall|a: S, b: S, c: S| #[trigger]
        a.add_spec(b).add_spec(c) == a.add_spec(b.add_spec(c))
    &&& forall|a: S| #[trigger] a.add_spec(zero()) == a
    &&& forall|a: S| #[trigger] a.add_spec(a.neg_spec()) == zero::<S>()
    &&& forall|a: S, b: S| #[trigger] a.sub_spec(b) == a.add_spec(b.neg_spec())
    &&& forall|a: S, b: S| #[trigger] a.mul_spec(b) == b.mul_spec(a)
    &&& forall|a: S, b: S, c: S| #[trigger]
        a.mul_spec(b).mul_spec(c) == a.mul_spec(b.mul_spec(c))
    &&& forall|a: S| #[trigger] a.mul_spec(one()) == a
    &&& forall|a: S, b: S, c: S| #[trigger]
        a.mul_spec(b.add_spec(c)) == a.mul_spec(b).add_spec(a.mul_spec(c))
    &&& forall|a: S| #[trigger] a.mul_spec(zero()) == zero::<S>()
    &&& forall|a: S, b: S| #[trigger] a.mul_spec(b.neg_spec()) == a.mul_spec(b).neg_spec()
    &&& forall|a: S| #[trigger] a.neg_spec().neg_spec() == a
    &&& forall|a: S, b: S| #[trigger]
        a.add_spec(b).neg_spec() == a.neg_spec().add_spec(b.neg_spec())
    &&& zero::<S>().neg_spec() == zero::<S>()
}

/// The scalar's comparisons form a total order that addition preserves,
/// its equality is the identity of values, a full turn in either unit is
/// positive, and its remainder against a positive `t` behaves as the
/// remainder of truncating division does in exact arithmetic: it lies
/// strictly between `-t` and `t`, leaves a value strictly between `-t` and
/// `t` unchanged, and is the same for `a`
/// and `a + t` where these have the same sign.
#[verifier::opaque]
pub open spec fn order_laws<S: Real>() -> bool {
    &&& forall|a: S, b: S| #[trigger] a.equal_spec(b) == (a == b)
    &&& forall|a: S| !(#[trigger] a.lt_spec(a))
    &&& forall|a: S, b: S| #[trigger] a.lt_spec(b) || a == b || b.lt_spec(a)
    &&& forall|a: S, b: S, c: S|
        #![trigger a.lt_spec(b), b.lt_spec(c)]
        a.lt_spec(b) && b.lt_spec(c) ==> a.lt_spec(c)
    &&& forall|a: S, b: S, c: S|
        a.lt_spec(b) ==> #[trigger] a.add_spec(c).lt_spec(b.add_spec(c))
    &&& zero::<S>().lt_spec(S::two_pi_spec())
    &&& zero::<S>().lt_spec(S::ratio_spec(360, 1))
    &&& forall|a: S, t: S|
        #![trigger a.rem_spec(t)]
        zero::<S>().lt_spec(t) ==> t.neg_spec().lt_spec(a.rem_spec(t)) && a.rem_spec(t).lt_spec(t)
    &&& forall|a: S, t: S|
        #![trigger a.rem_spec(t)]
        t.neg_spec().lt_spec(a) && a.lt_spec(t) ==> a.rem_spec(t) == a
    &&& forall|a: S, t: S|
        #![trigger a.add_spec(t).rem_spec(t)]
        zero::<S>().lt_spec(t) && (le(zero::<S>(), a) || le(a.add_spec(t), zero::<S>()))
            ==> a.add_spec(t).rem_spec(t) == a.rem_spec(t)
}

pub proof fn lemma_add_comm<S: Real>(a: S, b: S)
    requires
        ring_laws::<S>(),
    ensures
        a.add_spec(b) == b.add_spec(a),
{
    reveal(ring_laws);
}

pub proof fn lemma_add_assoc<S: Real>(a: S, b: S, c: S)
    requires
        ring_laws::<S>(),
    ensures
        a.add_spec(b).add_spec(c) == a.add_spec(b.add_spec(c)),
{
    reveal(ring_laws);
}

pub proof fn lemma_add_zero<S: Real>(a: S)
    requires
        ring_laws::<S>(),
    ensures
        a.add_spec(zero()) == a,
        zero::<S>().add_spec(a) == a,
{
    reveal(ring_laws);
    lemma_add_comm(a, zero());
}

pub proof fn lemma_add_neg<S: Real>(a: S)
    requires
        ring_laws::<S>(),
    ensures
        a.add_spec(a.neg_spec()) == zero::<S>(),
        a.neg_spec().add_spec(a) == zero::<S>(),
{
    reveal(ring_laws);
    lemma_add_comm(a, a.neg_spec());
}

pub proof fn lemma_sub_add_neg<S: Real>(a: S, b: S)
    requires
        ring_laws::<S>(),
    ensures
        a.sub_spec(b) == a.add_spec(b.neg_spec()),
{
    reveal(ring_laws);
}

pub proof fn lemma_mul_comm<S: Real>(a: S, b: S)
    requires
        ring_laws::<S>(),
    ensures
        a.mul_spec(b) == b.mul_spec(a),
{
    reveal(ring_laws);
}

pub proof fn lemma_mul_assoc<S: Real>(a: S, b: S, c: S)
    requires
        ring_laws::<S>(),
    ensures
        a.mul_spec(b).mul_spec(c) == a.mul_spec(b.mul_spec(c)),
{
    reveal(ring_laws);
}

pub proof fn lemma_mul_distrib<S: Real>(a: S, b: S, c: S)
    requires
        ring_laws::<S>(),
    ensures
        a.mul_spec(b.add_spec(c)) == a.mul_spec(b).add_spec(a.mul_spec(c)),
{
    reveal(ring_laws);
}

/// `(a b)(c d) == (a d)(b c)`
pub proof fn lemma_mul_swap<S: Real>(a: S, b: S, c: S, d: S)
    requires
        ring_laws::<S>(),
    ensures
        a.mul_spec(b).mul_spec(c.mul_spec(d)) == a.mul_spec(d).mul_spec(b.mul_spec(c)),
{
    lemma_mul_comm(c, d);
    lemma_mul_assoc(a, b, d.mul_spec(c));
    lemma_mul_assoc(b, d, c);
    lemma_mul_comm(b, d);
    lemma_mul_assoc(d, b, c);
    lemma_mul_assoc(a, d, b.mul_spec(c));
}

pub proof fn lemma_mul_one<S: Real>(a: S)
    requires
        ring_laws::<S>(),
    ensures
        a.mul_spec(one()) == a,
        one::<S>().mul_spec(a) == a,
{
    reveal(ring_laws);
    lemma_mul_comm(a, one());
}

pub proof fn lemma_mul_zero<S: Real>(a: S)
    requires
        ring_laws::<S>(),
    ensures
        a.mul_spec(zero()) == zero::<S>(),
        zero::<S>().mul_spec(a) == zero::<S>(),
{
    reveal(ring_laws);
    lemma_mul_comm(a, zero());
}

pub proof fn lemma_mul_neg<S: Real>(a: S, b: S)
    requires
        ring_laws::<S>(),
    ensures
        a.mul_spec(b.neg_spec()) == a.mul_spec(b).neg_spec(),
        b.neg_spec().mul_spec(a) == b.mul_spec(a).neg_spec(),
{
    reveal(ring_laws);
    lemma_mul_comm(a, b.neg_spec());
    lemma_mul_comm(a, b);
}

pub proof fn lemma_neg_neg<S: Real>(a: S)
    requires
        ring_laws::<S>(),
    ensures
        a.neg_spec().neg_spec() == a,
{
    reveal(ring_laws);
}

pub proof fn lemma_neg_add<S: Real>(a: S, b: S)
    requires
        ring_laws::<S>(),
    ensures
        a.add_spec(b).neg_spec() == a.neg_spec().add_spec(b.neg_spec()),
{
    reveal(ring_laws);
}

/// `(a + b) + (c + d) == (a + c) + (b + d)`
pub proof fn lemma_add_swap<S: Real>(a: S, b: S, c: S, d: S)
    requires
        ring_laws::<S>(),
    ensures
        a.add_spec(b).add_spec(c.add_spec(d)) == a.add_spec(c).add_spec(b.add_spec(d)),
{
    lemma_add_assoc(a, b, c.add_spec(d));
    lemma_add_assoc(b, c, d);
    lemma_add_comm(b, c);
    lemma_add_assoc(c, b, d);
    lemma_add_assoc(a, c, b.add_spec(d));
}

pub proof fn lemma_neg_zero<S: Real>()
    requires
        ring_laws::<S>(),
    ensures
        zero::<S>().neg_spec() == zero::<S>(),
{
    reveal(ring_laws);
}

/// The values of the scalar's functions at zero and one that exact
/// arithmetic (and floating point too) gives: `sin 0 = 0`, `cos 0 = 1`,
/// `sqrt 1 = 1` and `1 / 1 = 1`.
pub open spec fn unit_values<S: Real>() -> bool {
    &&& zero::<S>().sin_spec() == zero::<S>()
    &&& zero::<S>().cos_spec() == one::<S>()
    &&& one::<S>().sqrt_spec() == one::<S>()
    &&& one::<S>().div_spec(one()) == one::<S>()
}

/// `(((a - p) - q) + (p - r)) + (q + r) == a`
pub proof fn lemma_cancel_first<S: Real>(a: S, p: S, q: S, r: S)
    requires
        ring_laws::<S>(),
    ensures
        a.sub_spec(p).sub_spec(q).add_spec(p.sub_spec(r)).add_spec(q.add_spec(r)) == a,
{
    reveal(ring_laws);
}

/// `((p + r) + ((a - p) - q)) + (q - r) == a`
pub proof fn lemma_cancel_second<S: Real>(a: S, p: S, q: S, r: S)
    requires
        ring_laws::<S>(),
    ensures
        p.add_spec(r).add_spec(a.sub_spec(p).sub_spec(q)).add_spec(q.sub_spec(r)) == a,
{
    reveal(ring_laws);
}

/// `((p - r) + (q + r)) + ((a - p) - q) == a`
pub proof fn lemma_cancel_third<S: Real>(a: S, p: S, q: S, r: S)
    requires
        ring_laws::<S>(),
    ensures
        p.sub_spec(r).add_spec(q.add_spec(r)).add_spec(a.sub_spec(p).sub_spec(q)) == a,
{
    reveal(ring_laws);
}

pub proof fn lemma_equal_is_identity<S: Real>(a: S, b: S)
    requires
        order_laws::<S>(),
    ensures
        a.equal_spec(b) == (a == b),
{
    reveal(order_laws);
}

pub proof fn lemma_lt_irreflexive<S: Real>(a: S)
    requires
        order_laws::<S>(),
    ensures
        !a.lt_spec(a),
{
    reveal(order_laws);
}

pub proof fn lemma_lt_total<S: Real>(a: S, b: S)
    requires
        order_laws::<S>(),
    ensures
        a.lt_spec(b) || a == b || b.lt_spec(a),
{
    reveal(order_laws);
}

pub proof fn lemma_lt_trans<S: Real>(a: S, b: S, c: S)
    requires
        order_laws::<S>(),
        a.lt_spec(b),
        b.lt_spec(c),
    ensures
        a.lt_spec(c),
{
    reveal(order_laws);
}

pub proof fn lemma_lt_add<S: Real>(a: S, b: S, c: S)
    requires
        order_laws::<S>(),
        a.lt_spec(b),
    ensures
        a.add_spec(c).lt_spec(b.add_spec(c)),
{
    reveal(order_laws);
}

pub proof fn lemma_turns_positive<S: Real>()
    requires
        order_laws::<S>(),
    ensures
        zero::<S>().lt_spec(S::two_pi_spec()),
        zero::<S>().lt_spec(S::ratio_spec(360, 1)),
{
    reveal(order_laws);
}

pub proof fn lemma_rem_bounds<S: Real>(a: S, t: S)
    requires
        order_laws::<S>(),
        zero::<S>().lt_spec(t),
    ensures
        t.neg_spec().lt_spec(a.rem_spec(t)),
        a.rem_spec(t).lt_spec(t),
{
    reveal(order_laws);
}

pub proof fn lemma_rem_small<S: Real>(a: S, t: S)
    requires
        order_laws::<S>(),
        t.neg_spec().lt_spec(a),
        a.lt_spec(t),
    ensures
        a.rem_spec(t) == a,
{
    reveal(order_laws);
}

pub proof fn lemma_rem_period<S: Real>(a: S, t: S)
    requires
        order_laws::<S>(),
        zero::<S>().lt_spec(t),
        le(zero::<S>(), a) || le(a.add_spec(t), zero::<S>()),
    ensures
        a.add_spec(t).rem_spec(t) == a.rem_spec(t),
{
    reveal(order_laws);
}

/// The scalar behaves as the real numbers do where exact arithmetic is
/// concerned: squares and sums of non-negative numbers are non-negative,
/// a product is zero only where a factor is, a non-zero number times its
/// reciprocal is one, division is multiplication by the reciprocal, a
/// conversion between degrees and radians multiplies by `2π / 360` or its
/// inverse, the square root of a non-negative number squares back
/// to it, a proper fraction is below one, and on `[-1, 1]` the cosine of
/// the arc cosine is the number itself and its sine is `sqrt(1 - x x)`.
#[verifier::opaque]
pub open spec fn real_laws<S: Real>() -> bool {
    &&& forall|x: S| le(zero(), #[trigger] x.mul_spec(x))
    &&& forall|x: S, y: S|
        le(zero(), x) && le(zero(), y) ==> le(zero(), #[trigger] x.add_spec(y))
    &&& forall|x: S, y: S|
        #[trigger] x.mul_spec(y) == zero::<S>() ==> x == zero::<S>() || y == zero::<S>()
    &&& forall|x: S|
        x != zero::<S>() ==> #[trigger] x.mul_spec(one::<S>().div_spec(x)) == one::<S>()
    &&& forall|x: S, y: S| #[trigger] x.div_spec(y) == x.mul_spec(one::<S>().div_spec(y))
    &&& forall|x: S| #[trigger]
        x.to_radians_spec() == x.mul_spec(S::two_pi_spec().div_spec(S::ratio_spec(360, 1)))
    &&& forall|x: S| #[trigger]
        x.to_degrees_spec() == x.mul_spec(S::ratio_spec(360, 1).div_spec(S::two_pi_spec()))
    &&& forall|x: S| le(zero(), x) ==> #[trigger] x.sqrt_spec().mul_spec(x.sqrt_spec()) == x
    &&& forall|n: i32, d: u32|
        0 < n && n < d ==> (#[trigger] S::ratio_spec(n, d)).lt_spec(one())
    &&& forall|x: S|
        le(one::<S>().neg_spec(), x) && le(x, one()) ==> #[trigger] x.acos_spec().cos_spec() == x
    &&& forall|x: S|
        le(one::<S>().neg_spec(), x) && le(x, one()) ==> #[trigger] x.acos_spec().sin_spec()
            == one::<S>().sub_spec(x.mul_spec(x)).sqrt_spec()
}

pub proof fn lemma_square_nonneg<S: Real>(x: S)
    requires
        real_laws::<S>(),
    ensures
        le(zero(), x.mul_spec(x)),
{
    reveal(real_laws);
}

pub proof fn lemma_sum_nonneg<S: Real>(x: S, y: S)
    requires
        real_laws::<S>(),
        le(zero(), x),
        le(zero(), y),
    ensures
        le(zero(), x.add_spec(y)),
{
    reveal(real_laws);
}

pub proof fn lemma_zero_product<S: Real>(x: S, y: S)
    requires
        real_laws::<S>(),
        x.mul_spec(y) == zero::<S>(),
    ensures
        x == zero::<S>() || y == zero::<S>(),
{
    reveal(real_laws);
}

pub proof fn lemma_reciprocal<S: Real>(x: S)
    requires
        real_laws::<S>(),
        x != zero::<S>(),
    ensures
        x.mul_spec(one::<S>().div_spec(x)) == one::<S>(),
{
    reveal(real_laws);
}

pub proof fn lemma_division<S: Real>(x: S, y: S)
    requires
        real_laws::<S>(),
    ensures
        x.div_spec(y) == x.mul_spec(one::<S>().div_spec(y)),
{
    reveal(real_laws);
}

pub proof fn lemma_conversions<S: Real>(x: S)
    requires
        real_laws::<S>(),
    ensures
        x.to_radians_spec() == x.mul_spec(S::two_pi_spec().div_spec(S::ratio_spec(360, 1))),
        x.to_degrees_spec() == x.mul_spec(S::ratio_spec(360, 1).div_spec(S::two_pi_spec())),
{
    reveal(real_laws);
}

pub proof fn lemma_sqrt_squared<S: Real>(x: S)
    requires
        real_laws::<S>(),
        le(zero(), x),
    ensures
        x.sqrt_spec().mul_spec(x.sqrt_spec()) == x,
{
    reveal(real_laws);
}

pub proof fn lemma_proper_fraction<S: Real>(n: i32, d: u32)
    requires
        real_laws::<S>(),
        0 < n,
        n < d,
    ensures
        S::ratio_spec(n, d).lt_spec(one()),
{
    reveal(real_laws);
}

pub proof fn lemma_acos<S: Real>(x: S)
    requires
        real_laws::<S>(),
        le(one::<S>().neg_spec(), x),
        le(x, one()),
    ensures
        x.acos_spec().cos_spec() == x,
        x.acos_spec().sin_spec() == one::<S>().sub_spec(x.mul_spec(x)).sqrt_spec(),
{
    reveal(real_laws);
}

/// `(u - v)(u - v) == (u u - (u v + u v)) + v v`
pub proof fn lemma_square_of_difference<S: Real>(u: S, v: S)
    requires
        ring_laws::<S>(),
    ensures
        u.sub_spec(v).mul_spec(u.sub_spec(v)) == u.mul_spec(u).sub_spec(
            u.mul_spec(v).add_spec(u.mul_spec(v)),
        ).add_spec(v.mul_spec(v)),
{
    let (uu, uv, vv) = (u.mul_spec(u), u.mul_spec(v), v.mul_spec(v));
    let nv = v.neg_spec();
    lemma_sub_add_neg(u, v);
    lemma_mul_comm(u.add_spec(nv), u.add_spec(nv));
    lemma_mul_distrib(u.add_spec(nv), u, nv);
    lemma_mul_comm(u.add_spec(nv), u);
    lemma_mul_comm(u.add_spec(nv), nv);
    lemma_mul_distrib(u, u, nv);
    lemma_mul_distrib(nv, u, nv);
    lemma_mul_neg(u, v);
    lemma_mul_neg(v, u);
    lemma_mul_comm(v, u);
    lemma_mul_neg(nv, v);
    lemma_mul_neg(v, v);
    lemma_neg_neg(vv);
    lemma_add_assoc(uu, uv.neg_spec(), uv.neg_spec().add_spec(vv));
    lemma_add_assoc(uv.neg_spec(), uv.neg_spec(), vv);
    lemma_add_assoc(uu, uv.neg_spec().add_spec(uv.neg_spec()), vv);
    lemma_neg_add(uv, uv);
    lemma_sub_add_neg(uu, uv.add_spec(uv));
}

/// `((p0 - q0) + r0) + ((p1 - q1) + r1) == ((p0 + p1) - (q0 + q1)) + (r0 + r1)`
pub proof fn lemma_regroup<S: Real>(p0: S, q0: S, r0: S, p1: S, q1: S, r1: S)
    requires
        ring_laws::<S>(),
    ensures
        p0.sub_spec(q0).add_spec(r0).add_spec(p1.sub_spec(q1).add_spec(r1)) == p0.add_spec(
            p1,
        ).sub_spec(q0.add_spec(q1)).add_spec(r0.add_spec(r1)),
{
    lemma_sub_add_neg(p0, q0);
    lemma_sub_add_neg(p1, q1);
    lemma_add_swap(p0.sub_spec(q0), r0, p1.sub_spec(q1), r1);
    lemma_add_swap(p0, q0.neg_spec(), p1, q1.neg_spec());
    lemma_neg_add(q0, q1);
    lemma_sub_add_neg(p0.add_spec(p1), q0.add_spec(q1));
}

/// `(p0 + p0) + (p1 + p1) == (p0 + p1) + (p0 + p1)`
pub proof fn lemma_regroup_doubles<S: Real>(p0: S, p1: S)
    requires
        ring_laws::<S>(),
    ensures
        p0.add_spec(p0).add_spec(p1.add_spec(p1)) == p0.add_spec(p1).add_spec(p0.add_spec(p1)),
{
    lemma_add_swap(p0, p0, p1, p1);
}

} // verus!
