use cgmath::angle::{
    acos, asin, atan, atan2, bisect, cos, cot, csc, deg, rad, sec, sin, sin_cos, tan, Angle, Deg,
    Rad, ToDeg, ToRad,
};
use cgmath::matrix::Mat3;
use cgmath::quaternion::{Quat, ToQuat};
use cgmath::scalar::{approx_eq_eps, clamp, Real};
use cgmath::vector::Vec3;

#[derive(Clone, Copy, Debug)]
struct F(f64);

impl Real for F {
    fn add(self, o: F) -> F {
        F(self.0 + o.0)
    }
    fn sub(self, o: F) -> F {
        F(self.0 - o.0)
    }
    fn mul(self, o: F) -> F {
        F(self.0 * o.0)
    }
    fn div(self, o: F) -> F {
        F(self.0 / o.0)
    }
    fn rem(self, o: F) -> F {
        F(self.0 % o.0)
    }
    fn neg(self) -> F {
        F(-self.0)
    }
    fn lt(self, o: F) -> bool {
        self.0 < o.0
    }
    fn equal(self, o: F) -> bool {
        self.0 == o.0
    }
    fn ratio(n: i32, d: u32) -> F {
        F(n as f64 / d as f64)
    }
    fn two_pi() -> F {
        F(std::f64::consts::TAU)
    }
    fn epsilon() -> F {
        F(4.0 * f64::EPSILON)
    }
    fn sqrt(self) -> F {
        F(self.0.sqrt())
    }
    fn sin(self) -> F {
        F(self.0.sin())
    }
    fn cos(self) -> F {
        F(self.0.cos())
    }
    fn tan(self) -> F {
        F(self.0.tan())
    }
    fn asin(self) -> F {
        F(self.0.asin())
    }
    fn acos(self) -> F {
        F(self.0.acos())
    }
    fn atan(self) -> F {
        F(self.0.atan())
    }
    fn to_radians(self) -> F {
        F(self.0.to_radians())
    }
    fn to_degrees(self) -> F {
        F(self.0.to_degrees())
    }
    fn atan2(self, o: F) -> F {
        F(self.0.atan2(o.0))
    }
}

const EPS: f64 = 1e-5;

fn near(a: f64, b: f64) -> bool {
    (a - b).abs() < EPS
}

fn q(w: f64, x: f64, y: f64, z: f64) -> Quat<F> {
    Quat::new(F(w), F(x), F(y), F(z))
}

fn v3(x: f64, y: f64, z: f64) -> Vec3<F> {
    Vec3::new(F(x), F(y), F(z))
}

fn quat_near(a: &Quat<F>, b: &Quat<F>) -> bool {
    near(a.s.0, b.s.0) && vec_near(&a.v, &b.v)
}

fn vec_near(a: &Vec3<F>, b: &Vec3<F>) -> bool {
    near(a.x.0, b.x.0) && near(a.y.0, b.y.0) && near(a.z.0, b.z.0)
}

fn quat_same(a: &Quat<F>, b: &Quat<F>) -> bool {
    a.s.0 == b.s.0 && a.v.x.0 == b.v.x.0 && a.v.y.0 == b.v.y.0 && a.v.z.0 == b.v.z.0
}

fn unit(w: f64, x: f64, y: f64, z: f64) -> Quat<F> {
    q(w, x, y, z).normalize()
}

#[test]
fn unit_round_trip() {
    for x in [0.0, 1.0, -45.5, 90.0, 359.9, 1234.5] {
        assert!(near(deg(F(x)).to_rad().to_deg().s.0, x));
        assert!(near(rad(F(x)).to_deg().to_rad().s.0, x));
    }
    assert!(near(deg(F(180.0)).to_rad().s.0, std::f64::consts::PI));
    assert_eq!(rad(F(2.5)).to_rad().s.0, 2.5);
    assert_eq!(deg(F(2.5)).to_deg().s.0, 2.5);
}

#[test]
fn normalize_in_range_and_idempotent() {
    for x in [-725.0, -360.0, -0.5, 0.0, 45.0, 360.0, 719.5, 1080.0] {
        let n = deg(F(x)).normalize();
        assert!(n.s.0 >= 0.0 && n.s.0 < 360.0, "{} gave {}", x, n.s.0);
        assert_eq!(n.normalize().s.0, n.s.0);
    }
    assert_eq!(deg(F(-725.0)).normalize().s.0, 355.0);
    assert_eq!(deg(F(719.5)).normalize().s.0, 359.5);
    let r = rad(F(-1.0)).normalize();
    assert!(near(r.s.0, std::f64::consts::TAU - 1.0));
    let mut a = deg(F(-90.0));
    a.normalize_self();
    assert_eq!(a.s.0, 270.0);
}

#[test]
fn equivalence_is_not_equality() {
    let a = deg(F(30.0));
    let b = a.add_a(Deg::full_turn());
    assert_eq!(b.s.0, 390.0);
    assert!(a.s.0 != b.s.0);
    assert!(a.equiv(&b));
    assert!(!a.equiv(&deg(F(31.0))));
    let c = rad(F(-1.0));
    assert!(c.equiv(&c.add_a(Rad::full_turn())));
}

#[test]
fn identity_is_neutral() {
    let p = unit(0.5, -0.5, 0.5, 0.5);
    let r = unit(0.9, 0.1, -0.3, 0.2);
    for x in [p, r] {
        assert!(quat_same(&Quat::identity().mul_q(&x), &x));
        assert!(quat_same(&x.mul_q(&Quat::identity()), &x));
    }
}

#[test]
fn conjugate_product_is_magnitude2() {
    let x = q(1.0, 2.0, -3.0, 0.5);
    let p = x.mul_q(&x.conjugate());
    assert!(near(p.s.0, x.magnitude2().0));
    assert_eq!(x.magnitude2().0, 14.25);
    assert!(vec_near(&p.v, &v3(0.0, 0.0, 0.0)));
    assert!(near(x.magnitude().0, 14.25f64.sqrt()));
    let c = x.conjugate();
    assert_eq!((c.s.0, c.v.x.0, c.v.y.0, c.v.z.0), (1.0, -2.0, 3.0, -0.5));
}

#[test]
fn slerp_endpoints() {
    let a = Quat::from_angle_x(deg(F(10.0)));
    let b = Quat::from_angle_y(deg(F(120.0)));
    assert!(quat_near(&a.slerp(&b, F(0.0)), &a));
    assert!(quat_near(&a.slerp(&b, F(1.0)), &b));
    let c = Quat::from_angle_z(deg(F(-150.0)));
    assert!(quat_near(&a.slerp(&c, F(0.0)), &a));
    assert!(quat_near(&a.slerp(&c, F(1.0)), &c));
}

#[test]
fn slerp_midpoint_is_half_rotation() {
    let a: Quat<F> = Quat::identity();
    let b = Quat::from_angle_z(deg(F(90.0)));
    let m = a.slerp(&b, F(0.5));
    assert!(quat_near(&m, &Quat::from_angle_z(deg(F(45.0)))));
}

#[test]
fn slerp_close_takes_nlerp_path() {
    let a = Quat::from_angle_x(deg(F(1.0)));
    let b = Quat::from_angle_x(deg(F(2.0)));
    assert!(a.dot(&b).0 > 0.9995);
    for t in [0.0, 0.25, 0.7, 1.0] {
        assert!(quat_same(&a.slerp(&b, F(t)), &a.nlerp(&b, F(t))));
    }
}

#[test]
fn axis_is_fixed_by_its_rotation() {
    let s = 1.0 / 3.0f64.sqrt();
    for axis in [v3(1.0, 0.0, 0.0), v3(0.0, 0.6, 0.8), v3(s, -s, s)] {
        for theta in [0.0, 33.0, 90.0, 181.0, -270.0] {
            let m = Quat::from_axis_angle(&axis, deg(F(theta))).to_mat3();
            assert!(vec_near(&m.mul_v(&axis), &axis));
        }
    }
}

#[test]
fn quarter_turn_about_z_maps_x_to_y() {
    let m = Quat::from_angle_z(deg(F(90.0))).to_mat3();
    assert!(vec_near(&m.mul_v(&v3(1.0, 0.0, 0.0)), &v3(0.0, 1.0, 0.0)));
    let r = Quat::from_angle_z(deg(F(90.0))).mul_v(&v3(1.0, 0.0, 0.0));
    assert!(vec_near(&r, &v3(0.0, 1.0, 0.0)));
}

#[test]
fn half_turn_in_degrees_and_full_turn_normalized() {
    assert!(near(rad(F(std::f64::consts::PI)).to_deg().s.0, 180.0));
    assert_eq!(deg(F(360.0)).normalize().s.0, Deg::<F>::zero().s.0);
}

#[test]
fn turn_fractions() {
    assert_eq!(Deg::<F>::full_turn().s.0, 360.0);
    assert_eq!(Deg::<F>::turn_div_2().s.0, 180.0);
    assert_eq!(Deg::<F>::turn_div_3().s.0, 120.0);
    assert_eq!(Deg::<F>::turn_div_4().s.0, 90.0);
    assert_eq!(Deg::<F>::turn_div_6().s.0, 60.0);
    assert_eq!(Rad::<F>::full_turn().s.0, std::f64::consts::TAU);
    assert!(near(Rad::<F>::turn_div_2().s.0, std::f64::consts::PI));
    assert!(near(Rad::<F>::turn_div_3().s.0, std::f64::consts::TAU / 3.0));
    assert!(near(Rad::<F>::turn_div_4().s.0, std::f64::consts::FRAC_PI_2));
    assert!(near(Rad::<F>::turn_div_6().s.0, std::f64::consts::FRAC_PI_3));
    assert_eq!(Rad::<F>::zero().s.0, 0.0);
}

#[test]
fn angle_arithmetic() {
    let a = deg(F(100.0));
    let b = deg(F(30.0));
    assert_eq!(a.add_a(b).s.0, 130.0);
    assert_eq!(a.sub_a(b).s.0, 70.0);
    assert_eq!(a.div_a(deg(F(25.0))).0, 4.0);
    assert_eq!(a.rem_a(b).0, 10.0);
    assert_eq!(a.mul_s(F(2.0)).s.0, 200.0);
    assert_eq!(a.div_s(F(4.0)).s.0, 25.0);
    assert_eq!(a.rem_s(F(40.0)).s.0, 20.0);
    assert_eq!(a.neg().s.0, -100.0);
    let mut c = a;
    c.add_self_a(b);
    assert_eq!(c.s.0, 130.0);
    c.sub_self_a(b);
    assert_eq!(c.s.0, 100.0);
    c.mul_self_s(F(3.0));
    assert_eq!(c.s.0, 300.0);
    c.div_self_s(F(2.0));
    assert_eq!(c.s.0, 150.0);
    c.rem_self_s(F(100.0));
    assert_eq!(c.s.0, 50.0);
    c.neg_self();
    assert_eq!(c.s.0, -50.0);
    assert_eq!(Deg::from_scalar(F(7.0)).s().0, 7.0);
}

#[test]
fn opposite_and_bisect() {
    assert_eq!(deg(F(270.0)).opposite().s.0, 90.0);
    assert_eq!(deg(F(10.0)).opposite().s.0, 190.0);
    assert_eq!(deg(F(90.0)).bisect(deg(F(30.0))).s.0, 120.0);
    assert_eq!(bisect(deg(F(30.0)), deg(F(90.0))).s.0, 0.0);
    assert_eq!(bisect(deg(F(10.0)), deg(F(50.0))).s.0, 350.0);
}

#[test]
fn approximate_comparison() {
    assert!(deg(F(1.0)).approx_eq(&deg(F(1.0))));
    assert!(!deg(F(1.0)).approx_eq(&deg(F(1.001))));
    assert!(deg(F(1.0)).approx_eq_eps(&deg(F(1.001)), &F(0.01)));
    assert!(!rad(F(1.0)).approx_eq_eps(&rad(F(1.1)), &F(0.01)));
    assert!(approx_eq_eps(F(2.0), F(2.0000001), F(1e-6)));
    assert!(!approx_eq_eps(F(f64::NAN), F(0.0), F(1.0)));
    assert_eq!(clamp(F(1.5), F(-1.0), F(1.0)).0, 1.0);
    assert_eq!(clamp(F(-3.0), F(-1.0), F(1.0)).0, -1.0);
    assert_eq!(clamp(F(0.25), F(-1.0), F(1.0)).0, 0.25);
}

#[test]
fn trigonometry_goes_through_radians() {
    assert!(near(sin(deg(F(30.0))).0, 0.5));
    assert!(near(cos(deg(F(60.0))).0, 0.5));
    assert!(near(tan(deg(F(45.0))).0, 1.0));
    assert!(near(sin(rad(F(std::f64::consts::FRAC_PI_2))).0, 1.0));
    let (s, c) = sin_cos(deg(F(90.0)));
    assert!(near(s.0, 1.0) && near(c.0, 0.0));
    assert!(near(cot(deg(F(45.0))).0, 1.0));
    assert!(near(sec(deg(F(60.0))).0, 2.0));
    assert!(near(csc(deg(F(30.0))).0, 2.0));
    let a: Deg<F> = asin(F(0.5));
    assert!(near(a.s.0, 30.0));
    let b: Deg<F> = acos(F(0.0));
    assert!(near(b.s.0, 90.0));
    let c: Rad<F> = atan(F(1.0));
    assert!(near(c.s.0, std::f64::consts::FRAC_PI_4));
    let d: Deg<F> = atan2(F(1.0), F(-1.0));
    assert!(near(d.s.0, 135.0));
    let e = <Rad<F> as Angle<F>>::from(deg(F(90.0)));
    assert!(near(e.s.0, std::f64::consts::FRAC_PI_2));
    let g = <Deg<F> as Angle<F>>::from(rad(F(std::f64::consts::PI)));
    assert!(near(g.s.0, 180.0));
}

#[test]
fn single_axis_rotations() {
    let h = std::f64::consts::FRAC_1_SQRT_2;
    assert!(quat_near(&Quat::from_angle_x(deg(F(90.0))), &q(h, h, 0.0, 0.0)));
    assert!(quat_near(&Quat::from_angle_y(deg(F(90.0))), &q(h, 0.0, h, 0.0)));
    assert!(quat_near(&Quat::from_angle_z(deg(F(90.0))), &q(h, 0.0, 0.0, h)));
    assert!(quat_near(&Quat::from_angle_z(rad(F(std::f64::consts::PI))), &q(0.0, 0.0, 0.0, 1.0)));
}

#[test]
fn euler_angles() {
    let z = deg(F(0.0));
    assert!(quat_near(&Quat::from_euler(deg(F(90.0)), z, z), &Quat::from_angle_y(deg(F(90.0)))));
    assert!(quat_near(&Quat::from_euler(z, deg(F(90.0)), z), &Quat::from_angle_z(deg(F(90.0)))));
    assert!(quat_near(&Quat::from_euler(z, z, deg(F(90.0))), &Quat::from_angle_x(deg(F(90.0)))));
    let e = Quat::from_euler(deg(F(30.0)), deg(F(40.0)), deg(F(50.0)));
    assert!(near(e.magnitude().0, 1.0));
}

#[test]
fn axis_angle_matches_single_axis() {
    let a = Quat::from_axis_angle(&v3(0.0, 0.0, 1.0), deg(F(60.0)));
    assert!(quat_near(&a, &Quat::from_angle_z(deg(F(60.0)))));
}

#[test]
fn quaternion_arithmetic() {
    let a = q(1.0, 2.0, 3.0, 4.0);
    let b = q(0.5, -1.0, 2.0, 0.25);
    assert!(quat_same(&a.add_q(&b), &q(1.5, 1.0, 5.0, 4.25)));
    assert!(quat_same(&a.sub_q(&b), &q(0.5, 3.0, 1.0, 3.75)));
    assert!(quat_same(&a.mul_s(F(2.0)), &q(2.0, 4.0, 6.0, 8.0)));
    assert!(quat_same(&a.div_s(F(2.0)), &q(0.5, 1.0, 1.5, 2.0)));
    assert!(quat_same(&a.neg(), &q(-1.0, -2.0, -3.0, -4.0)));
    assert_eq!(a.dot(&b).0, 0.5 - 2.0 + 6.0 + 1.0);
    let i = q(0.0, 1.0, 0.0, 0.0);
    let j = q(0.0, 0.0, 1.0, 0.0);
    assert!(quat_same(&i.mul_q(&j), &q(0.0, 0.0, 0.0, 1.0)));
    assert!(quat_same(&j.mul_q(&i), &q(0.0, 0.0, 0.0, -1.0)));
    assert!(quat_same(&a.mul_q(&b), &q(-4.5, -7.25, -1.0, 9.25)));
    assert!(quat_same(&Quat::zero(), &q(0.0, 0.0, 0.0, 0.0)));
    let mut c = a;
    c.add_self_q(&b);
    assert!(quat_same(&c, &q(1.5, 1.0, 5.0, 4.25)));
    c.sub_self_q(&b);
    assert!(quat_same(&c, &a));
    c.mul_self_s(F(4.0));
    assert!(quat_same(&c, &q(4.0, 8.0, 12.0, 16.0)));
    c.div_self_s(F(4.0));
    assert!(quat_same(&c, &a));
    c.mul_self_q(&b);
    assert!(quat_same(&c, &a.mul_q(&b)));
}

#[test]
fn normalize_and_nlerp() {
    let a = q(0.0, 3.0, 0.0, 4.0).normalize();
    assert!(quat_near(&a, &q(0.0, 0.6, 0.0, 0.8)));
    let x: Quat<F> = Quat::identity();
    let y = q(0.0, 0.0, 0.0, 1.0);
    let h = std::f64::consts::FRAC_1_SQRT_2;
    assert!(quat_near(&x.nlerp(&y, F(0.5)), &q(h, 0.0, 0.0, h)));
    assert!(quat_near(&x.nlerp(&y, F(0.0)), &x));
}

#[test]
fn rotation_matrix_matches_vector_rotation() {
    let r = Quat::from_euler(deg(F(20.0)), deg(F(-70.0)), deg(F(135.0)));
    let m = r.to_mat3();
    for v in [v3(1.0, 0.0, 0.0), v3(0.3, -2.0, 5.0)] {
        assert!(vec_near(&m.mul_v(&v), &r.mul_v(&v)));
    }
    let id: Mat3<F> = Quat::identity().to_mat3();
    assert_eq!(id.x.x.0, 1.0);
    assert_eq!(id.y.y.0, 1.0);
    assert_eq!(id.z.z.0, 1.0);
    assert_eq!(id.x.y.0, 0.0);
    assert_eq!(id.row(0).y.0, 0.0);
}

#[test]
fn vector_operations() {
    let a = v3(1.0, 2.0, 3.0);
    let b = v3(4.0, 5.0, 6.0);
    assert_eq!(a.dot(&b).0, 32.0);
    assert_eq!(a.length2().0, 14.0);
    let c = a.cross(&b);
    assert_eq!((c.x.0, c.y.0, c.z.0), (-3.0, 6.0, -3.0));
    let d = a.add_v(&b).mul_s(F(2.0)).div_s(F(4.0)).neg();
    assert_eq!((d.x.0, d.y.0, d.z.0), (-2.5, -3.5, -4.5));
    assert_eq!(Vec3::<F>::zero().x.0, 0.0);
}

#[test]
fn matrix_to_quaternion_round_trip() {
    let rotations = [
        Quat::from_euler(deg(F(20.0)), deg(F(-70.0)), deg(F(135.0))),
        Quat::from_angle_x(deg(F(180.0))),
        Quat::from_angle_y(deg(F(180.0))),
        Quat::from_angle_z(deg(F(180.0))),
        Quat::from_axis_angle(&v3(0.0, 0.6, 0.8), deg(F(200.0))),
    ];
    for r in rotations {
        let back = r.to_mat3().to_quat();
        assert!(quat_near(&back, &r) || quat_near(&back, &r.neg()));
    }
}

#[test]
fn look_at_builds_a_basis() {
    let m = Mat3::look_at(&v3(0.0, 0.0, 2.0), &v3(0.0, 1.0, 0.0));
    assert!(vec_near(&m.x, &v3(1.0, 0.0, 0.0)));
    assert!(vec_near(&m.y, &v3(0.0, 1.0, 0.0)));
    assert!(vec_near(&m.z, &v3(0.0, 0.0, 1.0)));
    assert!(quat_near(&Quat::look_at(&v3(0.0, 0.0, 1.0), &v3(0.0, 1.0, 0.0)), &Quat::identity()));
    let r = Quat::look_at(&v3(3.0, 0.0, 0.0), &v3(0.0, 1.0, 0.0));
    assert!(quat_near(&r, &Quat::from_angle_y(deg(F(90.0)))));
    assert!(vec_near(&r.mul_v(&v3(0.0, 0.0, 1.0)), &v3(1.0, 0.0, 0.0)));
    assert_eq!(Mat3::new(F(1.0), F(0.0), F(0.0), F(0.0), F(2.0), F(0.0), F(0.0), F(0.0), F(3.0)).trace().0, 6.0);
}

#[test]
fn vector_length_and_normalize() {
    let a = v3(3.0, 0.0, 4.0);
    assert_eq!(a.length().0, 5.0);
    let n = a.normalize();
    assert!(vec_near(&n, &v3(0.6, 0.0, 0.8)));
    let c = Mat3::from_cols(v3(1.0, 2.0, 3.0), v3(4.0, 5.0, 6.0), v3(7.0, 8.0, 9.0));
    let r = c.mul_v(&v3(1.0, 0.0, -1.0));
    assert_eq!((r.x.0, r.y.0, r.z.0), (-6.0, -6.0, -6.0));
}

#[test]
fn raw_equality_does_not_normalize() {
    assert!(deg(F(30.0)) == deg(F(30.0)));
    assert!(deg(F(30.0)) != deg(F(390.0)));
    assert!(deg(F(30.0)).equiv(&deg(F(390.0))));
    assert!(rad(F(1.0)) != rad(F(1.5)));
    assert!(rad(F(f64::NAN)) != rad(F(f64::NAN)));
}

#[test]
fn slerp_between_opposite_rotations_has_no_arc() {
    let a: Quat<F> = Quat::identity();
    let b = a.neg();
    assert_eq!(a.dot(&b).0, -1.0);
    assert!(a.slerp(&b, F(1.0)).s.0.is_nan());
}
