//! The number type that angles, vectors and quaternions are built from.
use vstd::prelude::*;

verus! {

/// A floating-point-like number.
///
/// Every operation is a function of its arguments alone: the spec function
/// beside each executable method names its result, and the contracts of the
/// library say which of these operations, in which order, make a result.
/// The bodies of the spec functions here are defaults that code generic over
/// the scalar never sees; an implementation checked by Verus gives its own,
/// and one outside Verus needs only the executable methods.
pub trait Real: Sized + Copy {
    open spec fn add_spec(self, o: Self) -> Self {
        arbitrary()
    }

    open spec fn sub_spec(self, o: Self) -> Self {
        arbitrary()
    }

    open spec fn mul_spec(self, o: Self) -> Self {
        arbitrary()
    }

    open spec fn div_spec(self, o: Self) -> Self {
        arbitrary()
    }

    /// The remainder of truncating division, with the sign of `self`.
    open spec fn rem_spec(self, o: Self) -> Self {
        arbitrary()
    }

    open spec fn neg_spec(self) -> Self {
        arbitrary()
    }

    open spec fn lt_spec(self, o: Self) -> bool {
        arbitrary()
    }

    /// Numeric equality (not the identity of representations).
    open spec fn equal_spec(self, o: Self) -> bool {
        arbitrary()
    }

    /// The number closest to `n / d`.
    open spec fn ratio_spec(n: i32, d: u32) -> Self {
        arbitrary()
    }

    /// The number closest to a full turn in radians, `2π`.
    open spec fn two_pi_spec() -> Self {
        arbitrary()
    }

    /// The default tolerance of approximate comparison for this type.
    open spec fn epsilon_spec() -> Self {
        arbitrary()
    }

    open spec fn sqrt_spec(self) -> Self {
        arbitrary()
    }

    open spec fn sin_spec(self) -> Self {
        arbitrary()
    }

    open spec fn cos_spec(self) -> Self {
        arbitrary()
    }

    open spec fn tan_spec(self) -> Self {
        arbitrary()
    }

    open spec fn asin_spec(self) -> Self {
        arbitrary()
    }

    open spec fn acos_spec(self) -> Self {
        arbitrary()
    }

    open spec fn atan_spec(self) -> Self {
        arbitrary()
    }

    /// The four-quadrant arc tangent of `self / o`.
    open spec fn atan2_spec(self, o: Self) -> Self {
        arbitrary()
    }

    /// `self` taken as degrees, in radians.
    open spec fn to_radians_spec(self) -> Self {
        arbitrary()
    }

    /// `self` taken as radians, in degrees.
    open spec fn to_degrees_spec(self) -> Self {
        arbitrary()
    }

    fn add(self, o: Self) -> (r: Self)
        ensures
            r == self.add_spec(o),
    ;

    fn sub(self, o: Self) -> (r: Self)
        ensures
            r == self.sub_spec(o),
    ;

    fn mul(self, o: Self) -> (r: Self)
        ensures
            r == self.mul_spec(o),
    ;

    fn div(self, o: Self) -> (r: Self)
        ensures
            r == self.div_spec(o),
    ;

    fn rem(self, o: Self) -> (r: Self)
        ensures
            r == self.rem_spec(o),
    ;

    fn neg(self) -> (r: Self)
        ensures
            r == self.neg_spec(),
    ;

    fn lt(self, o: Self) -> (r: bool)
        ensures
            r == self.lt_spec(o),
    ;

    fn equal(self, o: Self) -> (r: bool)
        ensures
            r == self.equal_spec(o),
    ;

    fn ratio(n: i32, d: u32) -> (r: Self)
        requires
            d > 0,
        ensures
            r == Self::ratio_spec(n, d),
    ;

    fn two_pi() -> (r: Self)
        ensures
            r == Self::two_pi_spec(),
    ;

    fn epsilon() -> (r: Self)
        ensures
            r == Self::epsilon_spec(),
    ;

    fn sqrt(self) -> (r: Self)
        ensures
            r == self.sqrt_spec(),
    ;

    fn sin(self) -> (r: Self)
        ensures
            r == self.sin_spec(),
    ;

    fn cos(self) -> (r: Self)
        ensures
            r == self.cos_spec(),
    ;

    fn tan(self) -> (r: Self)
        ensures
            r == self.tan_spec(),
    ;

    fn asin(self) -> (r: Self)
        ensures
            r == self.asin_spec(),
    ;

    fn acos(self) -> (r: Self)
        ensures
            r == self.acos_spec(),
    ;

    fn atan(self) -> (r: Self)
        ensures
            r == self.atan_spec(),
    ;

    fn to_radians(self) -> (r: Self)
        ensures
            r == self.to_radians_spec(),
    ;

    fn to_degrees(self) -> (r: Self)
        ensures
            r == self.to_degrees_spec(),
    ;

    fn atan2(self, o: Self) -> (r: Self)
        ensures
            r == self.atan2_spec(o),
    ;
}


/// The number zero of `S`.
pub open spec fn zero<S: Real>() -> S {
    S::ratio_spec(0, 1)
}

/// The number one of `S`.
pub open spec fn one<S: Real>() -> S {
    S::ratio_spec(1, 1)
}

/// `x <= y` by the scalar's comparisons.
pub open spec fn le<S: Real>(x: S, y: S) -> bool {
    x.lt_spec(y) || x.equal_spec(y)
}

/// The absolute value: `x` negated where it is below zero.
pub open spec fn abs<S: Real>(x: S) -> S {
    if x.lt_spec(zero()) {
        x.neg_spec()
    } else {
        x
    }
}

/// `x` and `y` differ by less than `eps`.
pub open spec fn close<S: Real>(x: S, y: S, eps: S) -> bool {
    abs(x.sub_spec(y)).lt_spec(eps)
}

/// `x` held to the interval from `lo` to `hi`; a value that compares with
/// neither bound (not a number) passes unchanged.
pub open spec fn clamped<S: Real>(x: S, lo: S, hi: S) -> S {
    if x.lt_spec(lo) {
        lo
    } else if hi.lt_spec(x) {
        hi
    } else {
        x
    }
}

/// Absolute value.
pub fn abs_of<S: Real>(x: S) -> (r: S)
    ensures
        r == abs(x),
{
    if x.lt(S::ratio(0, 1)) {
        x.neg()
    } else {
        x
    }
}

/// Whether `x` and `y` differ by less than `eps`.
pub fn approx_eq_eps<S: Real>(x: S, y: S, eps: S) -> (r: bool)
    ensures
        r == close(x, y, eps),
{
    abs_of(x.sub(y)).lt(eps)
}

/// `x` held to the interval from `lo` to `hi`.
pub fn clamp<S: Real>(x: S, lo: S, hi: S) -> (r: S)
    ensures
        r == clamped(x, lo, hi),
{
    if x.lt(lo) {
        lo
    } else if hi.lt(x) {
        hi
    } else {
        x
    }
}

} // verus!
