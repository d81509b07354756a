use qmath::basic::{QBasic, HALF_BITS, NEG_HALF_BITS};
use qmath::fixed_point::{EPS_BITS, MAX_BITS, ONE_BITS, PI_BITS};
use qmath::Q64;

const SCALE: f64 = 4294967296.0;

fn f(v: Q64) -> f64 {
    v.to_bits() as f64 / SCALE
}

#[test]
fn sqrt_of_pi() {
    let r = Q64::pi().sqrt();
    assert!((f(r) - 1.7724538509055159).abs() <= 1.0e-8);
}

#[test]
fn sqrt_of_four_is_two() {
    assert_eq!(Q64::from_int(4).sqrt(), Q64::from_int(2));
}

#[test]
fn sqrt_of_non_positive_is_zero() {
    assert_eq!(Q64::neg_one().sqrt(), Q64::zero());
    assert_eq!(Q64::zero().sqrt(), Q64::zero());
}

#[test]
fn powi_of_negative_one_is_reciprocal() {
    let r = Q64::max_value().powi(-1);
    assert_eq!(r, Q64::one().wrapping_div(Q64::max_value()));
    assert_eq!(r.to_bits(), 2);
}

#[test]
fn powi_negative_two_is_reciprocal_of_square() {
    let pi = Q64::pi();
    assert_eq!(pi.powi(-2), Q64::one().wrapping_div(pi.powi(2)));
    assert!((f(pi.powi(2)) - 9.869604401089358).abs() <= 1.0e-8);
}

#[test]
fn powi_multiplies_the_base_n_times() {
    assert_eq!(Q64::from_int(2).powi(3), Q64::from_int(8));
    assert_eq!(Q64::from_int(-3).powi(3), Q64::from_int(-27));
    assert_eq!(Q64::from_int(2).powi(10), Q64::from_int(1024));
    assert_eq!(Q64::from_int(2).powi(-2).to_bits(), ONE_BITS / 4);
    assert_eq!(Q64::one().powi(1_000_000_000), Q64::one());
    assert_eq!(Q64::from_bits(HALF_BITS).powi(1_000_000_000), Q64::zero());
}

#[test]
fn sqrt_of_large_values_stays_positive() {
    let top = Q64::from_bits(MAX_BITS - ONE_BITS);
    let r = top.sqrt();
    assert!(r.to_bits() > 0);
    assert!((f(r) - f(top).sqrt()).abs() <= 1.0e-6);
}

#[test]
fn powi_zero_and_one() {
    assert_eq!(Q64::pi().powi(0), Q64::one());
    assert_eq!(Q64::pi().powi(1).to_bits(), PI_BITS);
}

#[test]
fn exp_of_one() {
    let e = Q64::one().exp();
    assert!((f(e) - std::f64::consts::E).abs() <= 1.0e-8);
    assert_eq!(Q64::zero().exp(), Q64::one());
}

#[test]
fn half_rounds_down() {
    assert_eq!(Q64::one().half().to_bits(), HALF_BITS);
    assert_eq!(Q64::neg_one().half().to_bits(), NEG_HALF_BITS);
    assert_eq!(Q64::from_bits(-1).half().to_bits(), -1);
    assert_eq!(Q64::from_bits(3).half().to_bits(), 1);
    assert_eq!(Q64::max_value().half().to_bits(), MAX_BITS / 2);
}

#[test]
fn arithmetic_wraps_and_rounds() {
    let two = Q64::from_int(2);
    let three = Q64::from_int(3);
    assert_eq!(two.wrapping_mul(three), Q64::from_int(6));
    assert_eq!(Q64::from_bits(-1).wrapping_mul(Q64::from_bits(1)).to_bits(), -1);
    assert_eq!(Q64::max_value().wrapping_add(Q64::from_bits(1)), Q64::min_value());
    assert_eq!(Q64::one().wrapping_div(three).to_bits(), 1431655765);
    assert_eq!(Q64::neg_one().wrapping_div(three).to_bits(), -1431655765);
    assert_eq!(Q64::from_int(7).rem(three), Q64::one());
    assert_eq!(Q64::from_int(-7).rem(three), Q64::neg_one());
    assert_eq!(Q64::from_bits(-5).shr(1).to_bits(), -3);
    assert_eq!(Q64::from_wide_bits(-1).to_bits(), -1);
    assert_eq!(Q64::from_wide_bits(1 << 60).to_bits(), ONE_BITS);
    assert_eq!(Q64::from_int(-3).wrapping_abs(), three);
    assert!(EPS_BITS > 0);
}
