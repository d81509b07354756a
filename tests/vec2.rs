use qmath::dir::QDir;
use qmath::vec2::QVec2;
use qmath::Q64;

const SCALE: f64 = 4294967296.0;

fn q(v: f64) -> Q64 {
    Q64::from_bits((v * SCALE).round() as i64)
}

fn f(v: Q64) -> f64 {
    v.to_bits() as f64 / SCALE
}

fn v2(x: f64, y: f64) -> QVec2 {
    QVec2::new(q(x), q(y))
}

#[test]
fn saturating_element_ops() {
    let a = v2(1.5, -2.0);
    let b = v2(0.5, 4.0);
    assert_eq!(a.saturating_add(b), v2(2.0, 2.0));
    assert_eq!(a.saturating_sub(b), v2(1.0, -6.0));
    assert_eq!(a.saturating_mul(b), v2(0.75, -8.0));
    assert_eq!(a.saturating_div(b), v2(3.0, -0.5));
    assert_eq!(a.saturating_add_num(q(1.0)), v2(2.5, -1.0));
    assert_eq!(a.saturating_sub_num(q(1.0)), v2(0.5, -3.0));
    assert_eq!(a.saturating_mul_num(q(2.0)), v2(3.0, -4.0));
    assert_eq!(a.saturating_div_num(q(2.0)), v2(0.75, -1.0));
    let big = QVec2::splat(Q64::max_value());
    assert_eq!(big.saturating_add(big), big);
    assert_eq!(big.saturating_mul_num(q(2.0)), big);
    let low = QVec2::splat(Q64::min_value());
    assert_eq!(low.saturating_sub(big), low);
}

#[test]
fn dot_cross_and_lengths() {
    let a = v2(3.0, 4.0);
    let b = v2(-2.0, 1.0);
    assert_eq!(a.dot(b), q(-2.0));
    assert_eq!(a.cross(b), q(11.0));
    assert_eq!(a.length_squared(), q(25.0));
    assert_eq!(a.length(), q(5.0));
    assert_eq!(a.distance(v2(0.0, 0.0)), q(5.0));
    assert_eq!(a.distance_squared(v2(3.0, 0.0)), q(16.0));
    assert!((f(a.length_recip()) - 0.2).abs() <= 1.0e-9);
    let n = a.normalize();
    assert!((f(n.x) - 0.6).abs() <= 1.0e-8);
    assert!((f(n.y) - 0.8).abs() <= 1.0e-8);
    assert!(n.is_normalized());
    assert!(!a.is_normalized());
}

#[test]
fn min_max_clamp_abs() {
    let a = v2(1.0, -3.0);
    let b = v2(-2.0, 5.0);
    assert_eq!(a.min(b), v2(-2.0, -3.0));
    assert_eq!(a.max(b), v2(1.0, 5.0));
    assert_eq!(a.min_element(), q(-3.0));
    assert_eq!(b.max_element(), q(5.0));
    assert_eq!(a.abs(), v2(1.0, 3.0));
    assert_eq!(v2(7.0, -7.0).clamp(v2(-1.0, -2.0), v2(1.0, 2.0)), v2(1.0, -2.0));
    assert_eq!(v2(0.5, 0.5).clamp(v2(-1.0, -2.0), v2(1.0, 2.0)), v2(0.5, 0.5));
}

#[test]
fn rounding() {
    let a = v2(2.5, -2.5);
    assert_eq!(a.round(), v2(3.0, -3.0));
    assert_eq!(a.floor(), v2(2.0, -3.0));
    assert_eq!(a.ceil(), v2(3.0, -2.0));
    assert_eq!(a.trunc(), v2(2.0, -2.0));
    assert_eq!(a.fract(), v2(0.5, 0.5));
    assert_eq!(v2(1.25, -0.75).round(), v2(1.0, -1.0));
}

#[test]
fn interpolation() {
    let a = v2(0.0, 2.0);
    let b = v2(4.0, -2.0);
    assert_eq!(a.lerp(b, q(0.25)), v2(1.0, 1.0));
    assert_eq!(a.midpoint(b), v2(2.0, 0.0));
}

#[test]
fn angles_of_vectors() {
    let x = QVec2::from_angle(Q64::zero());
    assert!((f(x.x) - 1.0).abs() <= 1.0e-8 && f(x.y).abs() <= 1.0e-8);
    assert!((f(v2(0.0, 1.0).to_angle()) - std::f64::consts::FRAC_PI_2).abs() <= 1.0e-8);
    let between = v2(1.0, 0.0).angle_between(v2(0.0, 1.0));
    assert!((f(between) - std::f64::consts::FRAC_PI_2).abs() <= 1.0e-8);
    let opposite = v2(1.0, 0.0).angle_between(v2(-1.0, 0.0));
    assert!((f(opposite) - std::f64::consts::PI).abs() <= 1.0e-7);
    let back = v2(0.0, 1.0).angle_between(v2(1.0, 0.0));
    assert!((f(back) + std::f64::consts::FRAC_PI_2).abs() <= 1.0e-8);
}

#[test]
fn perp_and_rotate() {
    let a = v2(1.0, 2.0);
    assert_eq!(a.perp(), v2(-2.0, 1.0));
    assert_eq!(v2(0.0, 1.0).rotate(a), v2(-2.0, 1.0));
    assert_eq!(v2(2.0, 0.0).rotate(a), v2(2.0, 4.0));
}

#[test]
fn abs_diff_eq_uses_tolerance() {
    let a = v2(1.0, 1.0);
    assert!(a.abs_diff_eq(v2(1.0000001, 0.9999999), q(0.000001)));
    assert!(!a.abs_diff_eq(v2(1.1, 1.0), q(0.000001)));
}

#[test]
fn operators_wrap_elementwise() {
    let a = v2(1.5, -2.0);
    let b = v2(0.5, 4.0);
    assert_eq!(a + b, v2(2.0, 2.0));
    assert_eq!(a - b, v2(1.0, -6.0));
    assert_eq!(a * b, v2(0.75, -8.0));
    assert_eq!(a / b, v2(3.0, -0.5));
    assert_eq!(a + q(1.0), v2(2.5, -1.0));
    assert_eq!(a - q(1.0), v2(0.5, -3.0));
    assert_eq!(a * q(2.0), v2(3.0, -4.0));
    assert_eq!(a / q(2.0), v2(0.75, -1.0));
    assert_eq!(v2(5.0, -5.0) % v2(3.0, 3.0), v2(2.0, -2.0));
    assert_eq!(-a, v2(-1.5, 2.0));
    let big = QVec2::splat(Q64::max_value());
    assert_eq!(big + QVec2::splat(Q64::from_bits(1)), QVec2::splat(Q64::min_value()));
}

#[test]
fn direction_from_angle_is_reduced() {
    let two_pi = 2.0 * std::f64::consts::PI;
    let d = QDir::new_from_angle(q(-1.0));
    assert!((f(d.angle()) - (two_pi - 1.0)).abs() <= 1.0e-8);
    let e = QDir::new_from_angle(q(7.0));
    assert!((f(e.angle()) - (7.0 - two_pi)).abs() <= 1.0e-8);
    assert_eq!(QDir::new(q(1.0)).angle(), q(1.0));
}

#[test]
fn direction_from_vector() {
    let up = QDir::new_from_vec(v2(0.0, 1.0));
    assert_eq!(up.angle().to_bits(), 6746518836);
    let down = QDir::new_from_vec(v2(0.0, -1.0));
    assert_eq!(down.angle().to_bits(), 20239556540);
    let diag = QDir::new_from_vec(v2(-1.0, -1.0));
    assert!((f(diag.angle()) - 5.0 * std::f64::consts::FRAC_PI_4).abs() <= 1.0e-8);
}

#[test]
fn direction_turns() {
    let mut d = QDir::new(q(1.0));
    d.rotate(q(6.0));
    assert!((f(d.angle()) - (7.0 - 2.0 * std::f64::consts::PI)).abs() <= 1.0e-8);
    let e = QDir::new(q(3.0)).rotate_dir(QDir::new(q(4.0)));
    assert!((f(e.angle()) - (7.0 - 2.0 * std::f64::consts::PI)).abs() <= 1.0e-8);
    let n = QDir::new(q(1.0)).neg();
    assert!((f(n.angle()) - (2.0 * std::f64::consts::PI - 1.0)).abs() <= 1.0e-8);
}

#[test]
fn direction_vectors() {
    let d = QDir::new(q(std::f64::consts::FRAC_PI_2));
    let u = d.to_vec();
    assert!(f(u.x).abs() <= 1.0e-8 && (f(u.y) - 1.0).abs() <= 1.0e-8);
    let r = d.rotate_vec(v2(2.0, 0.0));
    assert!(f(r.x).abs() <= 1.0e-7 && (f(r.y) - 2.0).abs() <= 1.0e-7);
    let p = d.projection_of(v2(3.0, 5.0));
    assert!((f(p) - 5.0).abs() <= 1.0e-7);
}

#[test]
fn conversions() {
    let v: QVec2 = (q(1.0), q(-2.0)).into();
    assert_eq!(v, v2(1.0, -2.0));
    let t: (Q64, Q64) = v.into();
    assert_eq!(t, (q(1.0), q(-2.0)));
    let d = QDir::new(Q64::zero());
    let u: QVec2 = d.into();
    assert_eq!(u, d.to_vec());
    assert!((f(u.x) - 1.0).abs() <= 1.0e-8);
}

#[test]
fn compound_assignment() {
    let mut a = v2(1.5, -2.0);
    a += v2(0.5, 4.0);
    assert_eq!(a, v2(2.0, 2.0));
    a -= v2(1.0, 1.0);
    assert_eq!(a, v2(1.0, 1.0));
    a *= v2(3.0, -2.0);
    assert_eq!(a, v2(3.0, -2.0));
    a += q(1.0);
    assert_eq!(a, v2(4.0, -1.0));
    a -= q(2.0);
    assert_eq!(a, v2(2.0, -3.0));
    a *= q(0.5);
    assert_eq!(a, v2(1.0, -1.5));
}

#[test]
fn named_vectors() {
    assert_eq!(QVec2::zero(), v2(0.0, 0.0));
    assert_eq!(QVec2::one(), v2(1.0, 1.0));
    assert_eq!(QVec2::neg_one(), v2(-1.0, -1.0));
    assert_eq!(QVec2::min_value(), QVec2::splat(Q64::min_value()));
    assert_eq!(QVec2::max_value(), QVec2::splat(Q64::max_value()));
    assert_eq!(QVec2::unit_x(), v2(1.0, 0.0));
    assert_eq!(QVec2::unit_y(), v2(0.0, 1.0));
    assert_eq!(QVec2::neg_x(), v2(-1.0, 0.0));
    assert_eq!(QVec2::neg_y(), v2(0.0, -1.0));
    assert_eq!(QVec2::axes(), [v2(1.0, 0.0), v2(0.0, 1.0)]);
    assert_eq!(QVec2::eps(), QVec2::splat(Q64::from_bits(43)));
    assert_eq!(QVec2::eps_x(), QVec2::new(Q64::from_bits(43), Q64::zero()));
    assert_eq!(QVec2::eps_y(), QVec2::new(Q64::zero(), Q64::from_bits(43)));
    assert_eq!(QVec2::delta(), QVec2::splat(Q64::from_bits(1)));
    assert_eq!(QVec2::delta_x(), QVec2::new(Q64::from_bits(1), Q64::zero()));
    assert_eq!(QVec2::delta_y(), QVec2::new(Q64::zero(), Q64::from_bits(1)));
}

#[test]
fn array_conversions() {
    let v: QVec2 = [q(3.0), q(-4.0)].into();
    assert_eq!(v, v2(3.0, -4.0));
    let a: [Q64; 2] = v.into();
    assert_eq!(a, [q(3.0), q(-4.0)]);
}
