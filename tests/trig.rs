use qmath::cordic::{QCoordic, TrigError};
use qmath::fixed_point::{EPS_BITS, HALF_PI_BITS, MAX_BITS, MIN_BITS, ONE_BITS, PI_BITS, TWO_PI_BITS};
use qmath::Q64;

const SCALE: f64 = 4294967296.0;
const EPS: f64 = 1.0e-8;

fn q(v: f64) -> Q64 {
    Q64::from_bits((v * SCALE).round() as i64)
}

fn f(v: Q64) -> f64 {
    v.to_bits() as f64 / SCALE
}

fn close(a: f64, b: f64, tol: f64) -> bool {
    (a - b).abs() <= tol
}

fn samples(lo: f64, hi: f64, n: usize) -> Vec<f64> {
    (0..=n).map(|i| lo + (hi - lo) * i as f64 / n as f64).collect()
}

#[test]
fn sin_cos_matches_reference_over_four_turns() {
    let pi = std::f64::consts::PI;
    for t in samples(-4.0 * pi, 4.0 * pi, 4000) {
        let a = q(t);
        let exact = f(a);
        let (s, c) = a.sin_cos();
        assert!(close(f(s), exact.sin(), EPS), "sin at {}", t);
        assert!(close(f(c), exact.cos(), EPS), "cos at {}", t);
        assert_eq!(a.sin(), s);
        assert_eq!(a.cos(), c);
    }
}

#[test]
fn sin_cos_keeps_unit_length() {
    let pi = std::f64::consts::PI;
    for t in samples(-4.0 * pi, 4.0 * pi, 4000) {
        let (s, c) = q(t).sin_cos();
        assert!(close(f(s) * f(s) + f(c) * f(c), 1.0, 4.0 * EPS), "at {}", t);
    }
}

#[test]
fn sin_cos_is_periodic() {
    let pi = std::f64::consts::PI;
    for t in samples(-4.0 * pi, 4.0 * pi, 4000) {
        let a = q(t);
        let b = Q64::from_bits(a.to_bits() + TWO_PI_BITS);
        assert_eq!(a.sin_cos(), b.sin_cos(), "at {}", t);
    }
}

#[test]
fn sin_cos_is_symmetric() {
    let pi = std::f64::consts::PI;
    for t in samples(-4.0 * pi, 4.0 * pi, 4000) {
        let a = q(t);
        let (s, c) = a.sin_cos();
        let (sn, cn) = Q64::from_bits(-a.to_bits()).sin_cos();
        assert!(close(f(sn), -f(s), EPS), "sin at {}", t);
        assert!(close(f(cn), f(c), EPS), "cos at {}", t);
    }
}

#[test]
fn asin_round_trips_through_sin() {
    for v in samples(-1.0, 1.0, 2000) {
        let x = q(v);
        let (a, b) = x.asin().unwrap();
        let best = (f(a.sin()) - f(x)).abs().min((f(b.sin()) - f(x)).abs());
        assert!(best <= EPS, "at {}", v);
    }
}

#[test]
fn acos_round_trips_through_cos() {
    for v in samples(-1.0, 1.0, 2000) {
        let x = q(v);
        let (a, b) = x.acos().unwrap();
        let best = (f(a.cos()) - f(x)).abs().min((f(b.cos()) - f(x)).abs());
        assert!(best <= EPS, "at {}", v);
    }
}

#[test]
fn atan2_vertical_matches_atan_of_max() {
    let up = Q64::atan2(Q64::one(), Q64::zero()).unwrap();
    assert_eq!(up, Q64::max_value().atan().1);
}

#[test]
fn invalid_inputs_fail() {
    let two = Q64::from_int(2);
    let neg_two = Q64::from_int(-2);
    assert_eq!(two.asin(), Err(TrigError::OutOfDomain));
    assert_eq!(neg_two.asin(), Err(TrigError::OutOfDomain));
    assert_eq!(two.acos(), Err(TrigError::OutOfDomain));
    assert_eq!(neg_two.acos(), Err(TrigError::OutOfDomain));
    assert_eq!(Q64::atan2(Q64::zero(), Q64::zero()), Err(TrigError::ZeroVector));
    let just_over = Q64::from_bits(ONE_BITS + 1);
    assert_eq!(just_over.asin(), Err(TrigError::OutOfDomain));
    assert!(Q64::one().asin().is_ok());
    assert!(Q64::neg_one().acos().is_ok());
}

#[test]
fn tan_saturates_at_the_asymptotes() {
    let below_half_pi = Q64::from_bits(HALF_PI_BITS - 1);
    assert_eq!(below_half_pi.tan().to_bits(), MAX_BITS);
    let above_half_pi = Q64::from_bits(HALF_PI_BITS + 1);
    assert_eq!(above_half_pi.tan().to_bits(), MAX_BITS);
    let above_neg_half_pi = Q64::from_bits(-HALF_PI_BITS + 1);
    assert_eq!(above_neg_half_pi.tan().to_bits(), MIN_BITS);
}

#[test]
fn tan_divides_away_from_the_asymptotes() {
    let quarter = q(std::f64::consts::FRAC_PI_4);
    assert!(close(f(quarter.tan()), 1.0, 4.0 * EPS));
    let (s, c) = quarter.sin_cos();
    assert_eq!(quarter.tan(), s.wrapping_div(c));
}

#[test]
fn concrete_values() {
    let (s0, c0) = Q64::zero().sin_cos();
    assert!(s0.to_bits().abs() <= EPS_BITS);
    assert!((c0.to_bits() - ONE_BITS).abs() <= EPS_BITS);
    let (s, c) = q(std::f64::consts::FRAC_PI_6).sin_cos();
    assert!(close(f(s), 0.5, EPS));
    assert!(close(f(c), 0.8660254037844386, EPS));
    let (sp, cp) = Q64::pi().sin_cos();
    assert!(close(f(sp), 0.0, EPS));
    assert!(close(f(cp), -1.0, EPS));
    let diag = Q64::atan2(Q64::one(), Q64::one()).unwrap();
    assert!(close(f(diag), std::f64::consts::FRAC_PI_4, EPS));
    let down = Q64::atan2(Q64::neg_one(), Q64::zero()).unwrap();
    assert!(close(f(down), -std::f64::consts::FRAC_PI_2, EPS));
}

#[test]
fn sin_cos_exact_bits() {
    assert_eq!(Q64::zero().sin_cos(), (Q64::from_bits(1), Q64::from_bits(4294967299)));
    let a = Q64::from_bits(2248839617);
    let (s, c) = a.sin_cos();
    assert!(close(f(s), f(a).sin(), EPS));
    assert!(close(f(c), f(a).cos(), EPS));
}

#[test]
fn atan2_picks_the_quadrant() {
    let pi = std::f64::consts::PI;
    for k in 0..16 {
        let t = -pi + 0.1 + (2.0 * pi - 0.2) * k as f64 / 15.0;
        let y = q(t.sin());
        let x = q(t.cos());
        let a = Q64::atan2(y, x).unwrap();
        assert!(close(f(a), t, 1.0e-6), "at {}", t);
    }
}

#[test]
fn atan_gives_candidates_a_half_turn_apart() {
    for v in samples(-8.0, 8.0, 64) {
        let (a, b) = q(v).atan();
        assert_eq!(b.to_bits() - a.to_bits(), PI_BITS);
        let principal = if f(a).abs() <= f(b).abs() { f(a) } else { f(b) };
        assert!(close(principal, v.atan(), 1.0e-8), "at {}", v);
    }
}

#[test]
fn acos_candidates_are_opposite() {
    let (a, b) = q(0.5).acos().unwrap();
    assert_eq!(a.to_bits(), -b.to_bits());
    assert!(close(f(b), std::f64::consts::FRAC_PI_3, EPS));
}

#[test]
fn asin_candidates_share_a_sine() {
    let (a, b) = q(0.5).asin().unwrap();
    assert!(close(f(a), std::f64::consts::FRAC_PI_6, EPS));
    assert!(close(f(b), 5.0 * std::f64::consts::FRAC_PI_6, EPS));
    let (c, d) = q(-0.5).asin().unwrap();
    assert!(close(f(c), -5.0 * std::f64::consts::FRAC_PI_6, EPS));
    assert!(close(f(d), -std::f64::consts::FRAC_PI_6, EPS));
}

#[test]
fn atan_of_extreme_ratios() {
    let half_pi = std::f64::consts::FRAC_PI_2;
    let (a, b) = Q64::min_value().atan();
    assert!(close(f(a), -half_pi, EPS));
    assert!(close(f(b), half_pi, EPS));
    let (c, d) = Q64::max_value().atan();
    assert!(close(f(c), -half_pi, EPS));
    assert!(close(f(d), half_pi, EPS));
    let steep = Q64::atan2(Q64::from_int(-100), Q64::one()).unwrap();
    assert!(close(f(steep), (-100.0f64).atan(), EPS));
    for v in samples(-10000.0, 10000.0, 2000) {
        let (lo, hi) = q(v).atan();
        let best = (f(lo) - v.atan()).abs().min((f(hi) - v.atan()).abs());
        assert!(best <= EPS, "at {}", v);
    }
}
