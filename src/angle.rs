//! Angle units for type-safe, self-documenting code.
use vstd::prelude::*;

use crate::laws::{
    lemma_add_assoc,
    lemma_add_comm,
    lemma_add_neg,
    lemma_add_zero,
    lemma_conversions,
    lemma_division,
    lemma_equal_is_identity,
    lemma_lt_add,
    lemma_lt_irreflexive,
    lemma_lt_total,
    lemma_lt_trans,
    lemma_mul_assoc,
    lemma_mul_comm,
    lemma_mul_one,
    lemma_mul_swap,
    lemma_reciprocal,
    lemma_rem_bounds,
    lemma_rem_period,
    lemma_rem_small,
    lemma_turns_positive,
    order_laws,
    real_laws,
    ring_laws,
};
use crate::scalar::{Real, approx_eq_eps, close, le, one, zero};

verus! {

/// An angle in radians.
#[derive(Clone, Copy)]
pub struct Rad<S> {
    pub s: S,
}

/// An angle in degrees.
#[derive(Clone, Copy)]
pub struct Deg<S> {
    pub s: S,
}

/// Raw equality: the scalars held are equal, with no normalization.
impl<S: Real> PartialEq for Rad<S> {
    fn eq(&self, o: &Rad<S>) -> (r: bool) {
        self.s.equal(o.s)
    }
}

impl<S: Real> vstd::std_specs::cmp::PartialEqSpecImpl for Rad<S> {
    open spec fn obeys_eq_spec() -> bool {
        true
    }

    open spec fn eq_spec(&self, o: &Rad<S>) -> bool {
        self.s.equal_spec(o.s)
    }
}

/// Raw equality: the scalars held are equal, with no normalization.
impl<S: Real> PartialEq for Deg<S> {
    fn eq(&self, o: &Deg<S>) -> (r: bool) {
        self.s.equal(o.s)
    }
}

impl<S: Real> vstd::std_specs::cmp::PartialEqSpecImpl for Deg<S> {
    open spec fn obeys_eq_spec() -> bool {
        true
    }

    open spec fn eq_spec(&self, o: &Deg<S>) -> bool {
        self.s.equal_spec(o.s)
    }
}

/// An angle in radians holding `s`.
pub fn rad<S: Real>(s: S) -> (r: Rad<S>)
    ensures
        r.s == s,
{
    Rad { s }
}

/// An angle in degrees holding `s`.
pub fn deg<S: Real>(s: S) -> (r: Deg<S>)
    ensures
        r.s == s,
{
    Deg { s }
}

/// Conversion of an angle to radians.
pub trait ToRad<S: Real> {
    /// The angle in radians.
    spec fn rad_spec(&self) -> Rad<S>;

    fn to_rad(&self) -> (r: Rad<S>)
        ensures
            r == self.rad_spec(),
    ;
}

/// Conversion of an angle to degrees.
pub trait ToDeg<S: Real> {
    /// The angle in degrees.
    spec fn deg_spec(&self) -> Deg<S>;

    fn to_deg(&self) -> (r: Deg<S>)
        ensures
            r == self.deg_spec(),
    ;
}

impl<S: Real> ToRad<S> for Rad<S> {
    open spec fn rad_spec(&self) -> Rad<S> {
        *self
    }

    fn to_rad(&self) -> (r: Rad<S>) {
        *self
    }
}

impl<S: Real> ToRad<S> for Deg<S> {
    open spec fn rad_spec(&self) -> Rad<S> {
        Rad { s: self.s.to_radians_spec() }
    }

    fn to_rad(&self) -> (r: Rad<S>) {
        rad(self.s.to_radians())
    }
}

impl<S: Real> ToDeg<S> for Rad<S> {
    open spec fn deg_spec(&self) -> Deg<S> {
        Deg { s: self.s.to_degrees_spec() }
    }

    fn to_deg(&self) -> (r: Deg<S>) {
        deg(self.s.to_degrees())
    }
}

impl<S: Real> ToDeg<S> for Deg<S> {
    open spec fn deg_spec(&self) -> Deg<S> {
        *self
    }

    fn to_deg(&self) -> (r: Deg<S>) {
        *self
    }
}

/// `x` reduced by the remainder against `turn`, with `turn` added once
/// where the remainder is negative.
pub open spec fn normalized<S: Real>(x: S, turn: S) -> S {
    let r = x.rem_spec(turn);
    if r.lt_spec(zero()) {
        r.add_spec(turn)
    } else {
        r
    }
}

/// An angle in a unit: a scalar tagged with radians or degrees.
pub trait Angle<S: Real>: Sized + Copy + ToRad<S> + ToDeg<S> {
    /// The scalar that the angle holds, in its own unit.
    spec fn value(self) -> S;

    /// The angle of this unit that holds `s`.
    spec fn make(s: S) -> Self;

    /// One full turn in this unit, as a scalar.
    spec fn turn() -> S;

    /// Whether this unit is the radian (else it is the degree).
    spec fn is_radians() -> bool;

    proof fn lemma_value_make(s: S)
        ensures
            Self::make(s).value() == s,
    ;

    /// A full turn is positive where the scalar's order is exact.
    proof fn lemma_turn_positive()
        requires
            order_laws::<S>(),
        ensures
            zero::<S>().lt_spec(Self::turn()),
    ;

    /// The angle of this unit that holds `s`.
    fn from_scalar(s: S) -> (r: Self)
        ensures
            r == Self::make(s),
    ;

    /// The scalar that the angle holds.
    fn s(&self) -> (r: S)
        ensures
            r == self.value(),
    ;

    /// `theta` converted to this unit.
    fn from<A: ToRad<S> + ToDeg<S>>(theta: A) -> (r: Self)
        ensures
            r == (if Self::is_radians() {
                Self::make(theta.rad_spec().s)
            } else {
                Self::make(theta.deg_spec().s)
            }),
    ;

    /// One full turn in this unit.
    fn full_turn() -> (r: Self)
        ensures
            r == Self::make(Self::turn()),
    ;

    /// The additive inverse, in the same unit.
    fn neg(&self) -> (r: Self)
        ensures
            r == Self::make(self.value().neg_spec()),
    {
        Self::from_scalar(self.s().neg())
    }

    fn neg_self(&mut self)
        ensures
            *final(self) == Self::make(old(self).value().neg_spec()),
    {
        *self = self.neg();
    }

    fn add_a(&self, other: Self) -> (r: Self)
        ensures
            r == Self::make(self.value().add_spec(other.value())),
    {
        Self::from_scalar(self.s().add(other.s()))
    }

    fn sub_a(&self, other: Self) -> (r: Self)
        ensures
            r == Self::make(self.value().sub_spec(other.value())),
    {
        Self::from_scalar(self.s().sub(other.s()))
    }

    /// How many times `other` goes into the angle.
    fn div_a(&self, other: Self) -> (r: S)
        ensures
            r == self.value().div_spec(other.value()),
    {
        self.s().div(other.s())
    }

    fn rem_a(&self, other: Self) -> (r: S)
        ensures
            r == self.value().rem_spec(other.value()),
    {
        self.s().rem(other.s())
    }

    fn mul_s(&self, s: S) -> (r: Self)
        ensures
            r == Self::make(self.value().mul_spec(s)),
    {
        Self::from_scalar(self.s().mul(s))
    }

    fn div_s(&self, s: S) -> (r: Self)
        ensures
            r == Self::make(self.value().div_spec(s)),
    {
        Self::from_scalar(self.s().div(s))
    }

    fn rem_s(&self, s: S) -> (r: Self)
        ensures
            r == Self::make(self.value().rem_spec(s)),
    {
        Self::from_scalar(self.s().rem(s))
    }

    fn add_self_a(&mut self, other: Self)
        ensures
            *final(self) == Self::make(old(self).value().add_spec(other.value())),
    {
        *self = self.add_a(other);
    }

    fn sub_self_a(&mut self, other: Self)
        ensures
            *final(self) == Self::make(old(self).value().sub_spec(other.value())),
    {
        *self = self.sub_a(other);
    }

    fn mul_self_s(&mut self, s: S)
        ensures
            *final(self) == Self::make(old(self).value().mul_spec(s)),
    {
        *self = self.mul_s(s);
    }

    fn div_self_s(&mut self, s: S)
        ensures
            *final(self) == Self::make(old(self).value().div_spec(s)),
    {
        *self = self.div_s(s);
    }

    fn rem_self_s(&mut self, s: S)
        ensures
            *final(self) == Self::make(old(self).value().rem_spec(s)),
    {
        *self = self.rem_s(s);
    }

    /// The angle, normalized to the range `[0, full_turn)`.
    fn normalize(&self) -> (r: Self)
        ensures
            r == Self::make(normalized(self.value(), Self::turn())),
    {
        let mut a = *self;
        a.normalize_self();
        a
    }

    /// Normalizes the angle to the range `[0, full_turn)`: the remainder
    /// against a full turn, with a full turn added once if it is negative.
    fn normalize_self(&mut self)
        ensures
            *final(self) == Self::make(normalized(old(self).value(), Self::turn())),
    {
        let full_turn = Self::full_turn();
        proof {
            Self::lemma_value_make(Self::turn());
        }
        self.rem_self_s(full_turn.s());
        proof {
            Self::lemma_value_make(old(self).value().rem_spec(Self::turn()));
        }
        if self.s().lt(S::ratio(0, 1)) {
            self.add_self_a(full_turn);
        }
    }

    /// The angle rotated by half a turn, normalized.
    fn opposite(&self) -> (r: Self)
        ensures
            r == Self::make(
                normalized(
                    self.value().add_spec(Self::turn().div_spec(S::ratio_spec(2, 1))),
                    Self::turn(),
                ),
            ),
    {
        let half = Self::turn_div_2();
        proof {
            Self::lemma_value_make(Self::turn().div_spec(S::ratio_spec(2, 1)));
        }
        let a = self.add_a(half);
        proof {
            Self::lemma_value_make(self.value().add_spec(half.value()));
        }
        a.normalize()
    }

    /// The interior bisector of the two angles: the angle moved by half of
    /// its difference to `other`, normalized.
    fn bisect(&self, other: Self) -> (r: Self)
        ensures
            r == Self::make(
                normalized(
                    self.value().add_spec(
                        self.value().sub_spec(other.value()).mul_spec(S::ratio_spec(1, 2)),
                    ),
                    Self::turn(),
                ),
            ),
    {
        let d = self.sub_a(other);
        proof {
            Self::lemma_value_make(self.value().sub_spec(other.value()));
        }
        let h = d.mul_s(S::ratio(1, 2));
        proof {
            Self::lemma_value_make(d.value().mul_spec(S::ratio_spec(1, 2)));
        }
        let a = self.add_a(h);
        proof {
            Self::lemma_value_make(self.value().add_spec(h.value()));
        }
        a.normalize()
    }

    fn turn_div_2() -> (r: Self)
        ensures
            r == Self::make(Self::turn().div_spec(S::ratio_spec(2, 1))),
    {
        proof {
            Self::lemma_value_make(Self::turn());
        }
        Self::full_turn().div_s(S::ratio(2, 1))
    }

    fn turn_div_3() -> (r: Self)
        ensures
            r == Self::make(Self::turn().div_spec(S::ratio_spec(3, 1))),
    {
        proof {
            Self::lemma_value_make(Self::turn());
        }
        Self::full_turn().div_s(S::ratio(3, 1))
    }

    fn turn_div_4() -> (r: Self)
        ensures
            r == Self::make(Self::turn().div_spec(S::ratio_spec(4, 1))),
    {
        proof {
            Self::lemma_value_make(Self::turn());
        }
        Self::full_turn().div_s(S::ratio(4, 1))
    }

    fn turn_div_6() -> (r: Self)
        ensures
            r == Self::make(Self::turn().div_spec(S::ratio_spec(6, 1))),
    {
        proof {
            Self::lemma_value_make(Self::turn());
        }
        Self::full_turn().div_s(S::ratio(6, 1))
    }

    /// Whether the two angles are the same once normalized, unlike raw
    /// equality, which compares the scalars held as they are.
    fn equiv(&self, other: &Self) -> (r: bool)
        ensures
            r == normalized(self.value(), Self::turn()).equal_spec(
                normalized(other.value(), Self::turn()),
            ),
    {
        let a = self.normalize();
        let b = other.normalize();
        proof {
            Self::lemma_value_make(normalized(self.value(), Self::turn()));
            Self::lemma_value_make(normalized(other.value(), Self::turn()));
        }
        a.s().equal(b.s())
    }

    /// Whether the two angles differ by less than the scalar's default
    /// tolerance.
    fn approx_eq(&self, other: &Self) -> (r: bool)
        ensures
            r == close(self.value(), other.value(), S::epsilon_spec()),
    {
        approx_eq_eps(self.s(), other.s(), S::epsilon())
    }

    /// Whether the two angles differ by less than `eps`.
    fn approx_eq_eps(&self, other: &Self, eps: &S) -> (r: bool)
        ensures
            r == close(self.value(), other.value(), *eps),
    {
        approx_eq_eps(self.s(), other.s(), *eps)
    }
}

impl<S: Real> Angle<S> for Rad<S> {
    open spec fn value(self) -> S {
        self.s
    }

    open spec fn make(s: S) -> Rad<S> {
        Rad { s }
    }

    /// `2π`.
    open spec fn turn() -> S {
        S::two_pi_spec()
    }

    open spec fn is_radians() -> bool {
        true
    }

    proof fn lemma_value_make(s: S) {
    }

    proof fn lemma_turn_positive() {
        lemma_turns_positive::<S>();
    }

    fn from_scalar(s: S) -> (r: Rad<S>) {
        rad(s)
    }

    fn s(&self) -> (r: S) {
        self.s
    }

    fn from<A: ToRad<S> + ToDeg<S>>(theta: A) -> (r: Rad<S>) {
        theta.to_rad()
    }

    fn full_turn() -> (r: Rad<S>) {
        rad(S::two_pi())
    }
}

impl<S: Real> Angle<S> for Deg<S> {
    open spec fn value(self) -> S {
        self.s
    }

    open spec fn make(s: S) -> Deg<S> {
        Deg { s }
    }

    /// `360`.
    open spec fn turn() -> S {
        S::ratio_spec(360, 1)
    }

    open spec fn is_radians() -> bool {
        false
    }

    proof fn lemma_value_make(s: S) {
    }

    proof fn lemma_turn_positive() {
        lemma_turns_positive::<S>();
    }

    fn from_scalar(s: S) -> (r: Deg<S>) {
        deg(s)
    }

    fn s(&self) -> (r: S) {
        self.s
    }

    fn from<A: ToRad<S> + ToDeg<S>>(theta: A) -> (r: Deg<S>) {
        theta.to_deg()
    }

    fn full_turn() -> (r: Deg<S>) {
        deg(S::ratio(360, 1))
    }
}

impl<S: Real> Rad<S> {
    /// The zero angle.
    pub fn zero() -> (r: Rad<S>)
        ensures
            r.s == zero::<S>(),
    {
        rad(S::ratio(0, 1))
    }

    /// One full turn.
    pub fn full_turn() -> (r: Rad<S>)
        ensures
            r.s == <Rad<S> as Angle<S>>::turn(),
    {
        <Rad<S> as Angle<S>>::full_turn()
    }

    /// A full turn divided by 2.
    pub fn turn_div_2() -> (r: Rad<S>)
        ensures
            r.s == <Rad<S> as Angle<S>>::turn().div_spec(S::ratio_spec(2, 1)),
    {
        <Rad<S> as Angle<S>>::turn_div_2()
    }

    /// A full turn divided by 3.
    pub fn turn_div_3() -> (r: Rad<S>)
        ensures
            r.s == <Rad<S> as Angle<S>>::turn().div_spec(S::ratio_spec(3, 1)),
    {
        <Rad<S> as Angle<S>>::turn_div_3()
    }

    /// A full turn divided by 4.
    pub fn turn_div_4() -> (r: Rad<S>)
        ensures
            r.s == <Rad<S> as Angle<S>>::turn().div_spec(S::ratio_spec(4, 1)),
    {
        <Rad<S> as Angle<S>>::turn_div_4()
    }

    /// A full turn divided by 6.
    pub fn turn_div_6() -> (r: Rad<S>)
        ensures
            r.s == <Rad<S> as Angle<S>>::turn().div_spec(S::ratio_spec(6, 1)),
    {
        <Rad<S> as Angle<S>>::turn_div_6()
    }
}

impl<S: Real> Deg<S> {
    /// The zero angle.
    pub fn zero() -> (r: Deg<S>)
        ensures
            r.s == zero::<S>(),
    {
        deg(S::ratio(0, 1))
    }

    /// One full turn.
    pub fn full_turn() -> (r: Deg<S>)
        ensures
            r.s == <Deg<S> as Angle<S>>::turn(),
    {
        <Deg<S> as Angle<S>>::full_turn()
    }

    /// A full turn divided by 2.
    pub fn turn_div_2() -> (r: Deg<S>)
        ensures
            r.s == <Deg<S> as Angle<S>>::turn().div_spec(S::ratio_spec(2, 1)),
    {
        <Deg<S> as Angle<S>>::turn_div_2()
    }

    /// A full turn divided by 3.
    pub fn turn_div_3() -> (r: Deg<S>)
        ensures
            r.s == <Deg<S> as Angle<S>>::turn().div_spec(S::ratio_spec(3, 1)),
    {
        <Deg<S> as Angle<S>>::turn_div_3()
    }

    /// A full turn divided by 4.
    pub fn turn_div_4() -> (r: Deg<S>)
        ensures
            r.s == <Deg<S> as Angle<S>>::turn().div_spec(S::ratio_spec(4, 1)),
    {
        <Deg<S> as Angle<S>>::turn_div_4()
    }

    /// A full turn divided by 6.
    pub fn turn_div_6() -> (r: Deg<S>)
        ensures
            r.s == <Deg<S> as Angle<S>>::turn().div_spec(S::ratio_spec(6, 1)),
    {
        <Deg<S> as Angle<S>>::turn_div_6()
    }
}

/// A normalized angle lies in `[0, full_turn)`, and normalizing it again
/// leaves it unchanged, for scalars whose arithmetic, order and remainder
/// are exact.
pub proof fn lemma_normalize_idempotent<S: Real, A: Angle<S>>(a: A)
    requires
        ring_laws::<S>(),
        order_laws::<S>(),
    ensures
        le(zero::<S>(), normalized(a.value(), A::turn())),
        normalized(a.value(), A::turn()).lt_spec(A::turn()),
        normalized(normalized(a.value(), A::turn()), A::turn()) == normalized(
            a.value(),
            A::turn(),
        ),
        A::make(normalized(A::make(normalized(a.value(), A::turn())).value(), A::turn()))
            == A::make(normalized(a.value(), A::turn())),
{
    let t = A::turn();
    let z = zero::<S>();
    let r = a.value().rem_spec(t);
    let n = normalized(a.value(), t);
    A::lemma_turn_positive();
    lemma_neg_below_zero(t);
    lemma_rem_bounds(a.value(), t);
    if r.lt_spec(z) {
        lemma_lt_add(t.neg_spec(), r, t);
        lemma_add_neg(t);
        lemma_lt_add(r, z, t);
        lemma_add_zero(t);
    } else {
        lemma_lt_total(r, z);
        lemma_equal_is_identity(z, r);
    }
    assert(le(z, n) && n.lt_spec(t));
    if z.lt_spec(n) {
        lemma_lt_trans(t.neg_spec(), z, n);
    }
    lemma_rem_small(n, t);
    lemma_not_below_zero(n);
    A::lemma_value_make(n);
}

/// An angle and the angle a full turn further are equivalent, though not
/// equal, for scalars whose arithmetic, order and remainder are exact.
pub proof fn lemma_equiv_full_turn<S: Real, A: Angle<S>>(a: A)
    requires
        ring_laws::<S>(),
        order_laws::<S>(),
    ensures
        normalized(a.value().add_spec(A::turn()), A::turn()) == normalized(a.value(), A::turn()),
        !a.value().equal_spec(a.value().add_spec(A::turn())),
{
    let t = A::turn();
    let z = zero::<S>();
    let x = a.value();
    let y = x.add_spec(t);
    A::lemma_turn_positive();
    lemma_lt_add(z, t, x);
    lemma_add_zero(x);
    lemma_add_comm(t, x);
    lemma_equal_is_identity(x, y);
    lemma_lt_irreflexive(x);
    if le(z, x) || le(y, z) {
        lemma_rem_period(x, t);
    } else {
        lemma_lt_total(x, z);
        lemma_equal_is_identity(z, x);
        lemma_lt_total(y, z);
        lemma_equal_is_identity(y, z);
        assert(x.lt_spec(z) && z.lt_spec(y));
        lemma_lt_add(z, y, t.neg_spec());
        lemma_add_zero(t.neg_spec());
        lemma_add_assoc(x, t, t.neg_spec());
        lemma_add_neg(t);
        lemma_lt_trans(x, z, t);
        lemma_rem_small(x, t);
        lemma_neg_below_zero(t);
        lemma_lt_trans(t.neg_spec(), z, y);
        lemma_lt_add(x, z, t);
        lemma_add_zero(t);
        lemma_rem_small(y, t);
        lemma_not_below_zero(y);
    }
}

/// Converting degrees to radians and back, or radians to degrees and back,
/// gives the angle it started from, for scalars that behave as the real
/// numbers.
pub proof fn lemma_unit_round_trip<S: Real>(a: Deg<S>, b: Rad<S>)
    requires
        ring_laws::<S>(),
        order_laws::<S>(),
        real_laws::<S>(),
    ensures
        a.rad_spec().deg_spec() == a,
        b.deg_spec().rad_spec() == b,
{
    let t = S::two_pi_spec();
    let f = S::ratio_spec(360, 1);
    let o = one::<S>();
    let (c, c2) = (t.div_spec(f), f.div_spec(t));
    lemma_turns_positive::<S>();
    lemma_lt_irreflexive(zero::<S>());
    lemma_reciprocal(t);
    lemma_reciprocal(f);
    lemma_division(t, f);
    lemma_division(f, t);
    lemma_mul_swap(t, o.div_spec(f), f, o.div_spec(t));
    lemma_mul_comm(o.div_spec(f), f);
    lemma_mul_one(o);
    lemma_mul_swap(f, o.div_spec(t), t, o.div_spec(f));
    lemma_mul_comm(o.div_spec(t), t);
    lemma_conversions(a.s);
    lemma_conversions(a.s.mul_spec(c));
    lemma_mul_assoc(a.s, c, c2);
    lemma_mul_one(a.s);
    lemma_conversions(b.s);
    lemma_conversions(b.s.mul_spec(c2));
    lemma_mul_assoc(b.s, c2, c);
    lemma_mul_one(b.s);
}

/// `-t < 0` for a positive `t`.
proof fn lemma_neg_below_zero<S: Real>(t: S)
    requires
        ring_laws::<S>(),
        order_laws::<S>(),
        zero::<S>().lt_spec(t),
    ensures
        t.neg_spec().lt_spec(zero()),
{
    lemma_lt_add(zero(), t, t.neg_spec());
    lemma_add_zero(t.neg_spec());
    lemma_add_neg(t);
}

/// A value at least zero is not below zero.
proof fn lemma_not_below_zero<S: Real>(n: S)
    requires
        order_laws::<S>(),
        le(zero::<S>(), n),
    ensures
        !n.lt_spec(zero()),
{
    lemma_equal_is_identity(zero::<S>(), n);
    lemma_lt_irreflexive(n);
    if n.lt_spec(zero()) && zero::<S>().lt_spec(n) {
        lemma_lt_trans(n, zero(), n);
    }
}

/// The interior bisector of `a` and `b`.
pub fn bisect<S: Real, A: Angle<S>>(a: A, b: A) -> (r: A)
    ensures
        r == A::make(
            normalized(
                a.value().add_spec(a.value().sub_spec(b.value()).mul_spec(S::ratio_spec(1, 2))),
                A::turn(),
            ),
        ),
{
    a.bisect(b)
}

/// The sine of `theta`, computed in radians.
pub fn sin<S: Real, A: Angle<S>>(theta: A) -> (r: S)
    ensures
        r == theta.rad_spec().s.sin_spec(),
{
    theta.to_rad().s.sin()
}

/// The cosine of `theta`, computed in radians.
pub fn cos<S: Real, A: Angle<S>>(theta: A) -> (r: S)
    ensures
        r == theta.rad_spec().s.cos_spec(),
{
    theta.to_rad().s.cos()
}

/// The tangent of `theta`, computed in radians.
pub fn tan<S: Real, A: Angle<S>>(theta: A) -> (r: S)
    ensures
        r == theta.rad_spec().s.tan_spec(),
{
    theta.to_rad().s.tan()
}

/// The sine and the cosine of `theta`.
pub fn sin_cos<S: Real, A: Angle<S>>(theta: A) -> (r: (S, S))
    ensures
        r.0 == theta.rad_spec().s.sin_spec(),
        r.1 == theta.rad_spec().s.cos_spec(),
{
    let x = theta.to_rad().s;
    (x.sin(), x.cos())
}

/// The cotangent of `theta`: the reciprocal of its tangent.
pub fn cot<S: Real, A: Angle<S>>(theta: A) -> (r: S)
    ensures
        r == S::ratio_spec(1, 1).div_spec(theta.rad_spec().s.tan_spec()),
{
    S::ratio(1, 1).div(tan(theta))
}

/// The secant of `theta`: the reciprocal of its cosine.
pub fn sec<S: Real, A: Angle<S>>(theta: A) -> (r: S)
    ensures
        r == S::ratio_spec(1, 1).div_spec(theta.rad_spec().s.cos_spec()),
{
    S::ratio(1, 1).div(cos(theta))
}

/// The cosecant of `theta`: the reciprocal of its sine.
pub fn csc<S: Real, A: Angle<S>>(theta: A) -> (r: S)
    ensures
        r == S::ratio_spec(1, 1).div_spec(theta.rad_spec().s.sin_spec()),
{
    S::ratio(1, 1).div(sin(theta))
}

/// The arc sine of `s`, in the unit `A`.
pub fn asin<S: Real, A: Angle<S>>(s: S) -> (r: A)
    ensures
        r == (if A::is_radians() {
            A::make(s.asin_spec())
        } else {
            A::make(s.asin_spec().to_degrees_spec())
        }),
{
    A::from(rad(s.asin()))
}

/// The arc cosine of `s`, in the unit `A`.
pub fn acos<S: Real, A: Angle<S>>(s: S) -> (r: A)
    ensures
        r == (if A::is_radians() {
            A::make(s.acos_spec())
        } else {
            A::make(s.acos_spec().to_degrees_spec())
        }),
{
    A::from(rad(s.acos()))
}

/// The arc tangent of `s`, in the unit `A`.
pub fn atan<S: Real, A: Angle<S>>(s: S) -> (r: A)
    ensures
        r == (if A::is_radians() {
            A::make(s.atan_spec())
        } else {
            A::make(s.atan_spec().to_degrees_spec())
        }),
{
    A::from(rad(s.atan()))
}

/// The four-quadrant arc tangent of `a / b`, in the unit `A`.
pub fn atan2<S: Real, A: Angle<S>>(a: S, b: S) -> (r: A)
    ensures
        r == (if A::is_radians() {
            A::make(a.atan2_spec(b))
        } else {
            A::make(a.atan2_spec(b).to_degrees_spec())
        }),
{
    A::from(rad(a.atan2(b)))
}

} // verus!
