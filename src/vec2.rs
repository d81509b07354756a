//! A 2-dimensional vector of fixed-point numbers.
use vstd::prelude::*;
use crate::cordic::{QCoordic, TrigError};
use crate::fixed_point::{
    clamp64, round_away_spec, saturating_mul_bits_spec, trunc_div, wrap64, Q64, EPS_BITS,
    MAX_BITS, MIN_BITS, NEG_ONE_BITS, ONE_BITS, SCALE,
};
use crate::basic::HALF_BITS;

verus! {

/// A 2-dimensional vector.
#[derive(Clone, Copy, PartialEq, Eq, Structural, Debug, Hash, Default)]
pub struct QVec2 {
    pub x: Q64,
    pub y: Q64,
}

/// Bits of the saturating sum of two components.
pub open spec fn sat_add(a: Q64, b: Q64) -> i64 {
    clamp64(a.bits as int + b.bits as int) as i64
}

/// Bits of the saturating difference of two components.
pub open spec fn sat_sub(a: Q64, b: Q64) -> i64 {
    clamp64(a.bits as int - b.bits as int) as i64
}

/// Bits of the saturating product of two components.
pub open spec fn sat_mul(a: Q64, b: Q64) -> i64 {
    saturating_mul_bits_spec(a.bits, b.bits) as i64
}

/// Bits of the saturating quotient of two components.
pub open spec fn sat_div(a: Q64, b: Q64) -> i64 {
    clamp64(trunc_div(a.bits as int * (SCALE as int), b.bits as int)) as i64
}

/// Bits of the dot product: `a.x * b.x + a.y * b.y`, the second product
/// saturated, the first exact, and the sum saturated.
pub open spec fn dot_bits(a: QVec2, b: QVec2) -> i64 {
    clamp64((a.x.bits as int * b.x.bits as int) / (SCALE as int) + sat_mul(a.y, b.y) as int) as i64
}

/// The square root in the format, truncated: the largest `r` with
/// `r * r <= v * 2^32`.
pub open spec fn is_sqrt_of(r: int, v: int) -> bool {
    r >= 0 && r * r <= v * SCALE as int && v * (SCALE as int) < (r + 1) * (r + 1)
}

/// Bits of the cross product `a.x * b.y - a.y * b.x`, each step saturated.
pub open spec fn cross_bits(a: QVec2, b: QVec2) -> i64 {
    clamp64(sat_mul(a.x, b.y) as int - sat_mul(a.y, b.x) as int) as i64
}

/// A vector dotted with itself is never negative.
pub proof fn lemma_dot_self_nonneg(v: QVec2)
    ensures
        dot_bits(v, v) >= 0,
{
    let a = v.x.bits as int;
    let b = v.y.bits as int;
    assert(a * a >= 0) by (nonlinear_arith);
    assert(b * b >= 0) by (nonlinear_arith);
    assert((a * a) / (SCALE as int) >= 0);
    assert((b * b) / (SCALE as int) >= 0);
}

/// The saturating product of two non-negative numbers is not negative.
pub proof fn lemma_sat_mul_nonneg(a: Q64, b: Q64)
    requires
        a.bits >= 0,
        b.bits >= 0,
    ensures
        sat_mul(a, b) >= 0,
{
    assert(a.bits as int * b.bits as int >= 0) by (nonlinear_arith)
        requires
            a.bits >= 0,
            b.bits >= 0,
    ;
}

impl QVec2 {
    /// All zeroes.
    pub fn zero() -> (r: QVec2)
        ensures
            r.x.bits == 0,
            r.y.bits == 0,
    {
        QVec2 { x: Q64::from_bits(0), y: Q64::from_bits(0) }
    }

    /// All ones.
    pub fn one() -> (r: QVec2)
        ensures
            r.x.bits == ONE_BITS,
            r.y.bits == ONE_BITS,
    {
        QVec2 { x: Q64::from_bits(ONE_BITS), y: Q64::from_bits(ONE_BITS) }
    }

    /// All negative ones.
    pub fn neg_one() -> (r: QVec2)
        ensures
            r.x.bits == NEG_ONE_BITS,
            r.y.bits == NEG_ONE_BITS,
    {
        QVec2 { x: Q64::from_bits(NEG_ONE_BITS), y: Q64::from_bits(NEG_ONE_BITS) }
    }

    /// All `MIN`.
    pub fn min_value() -> (r: QVec2)
        ensures
            r.x.bits == MIN_BITS,
            r.y.bits == MIN_BITS,
    {
        QVec2 { x: Q64::from_bits(MIN_BITS), y: Q64::from_bits(MIN_BITS) }
    }

    /// All `MAX`.
    pub fn max_value() -> (r: QVec2)
        ensures
            r.x.bits == MAX_BITS,
            r.y.bits == MAX_BITS,
    {
        QVec2 { x: Q64::from_bits(MAX_BITS), y: Q64::from_bits(MAX_BITS) }
    }

    /// A unit vector pointing along the positive X axis.
    pub fn unit_x() -> (r: QVec2)
        ensures
            r.x.bits == ONE_BITS,
            r.y.bits == 0,
    {
        QVec2 { x: Q64::from_bits(ONE_BITS), y: Q64::from_bits(0) }
    }

    /// A unit vector pointing along the positive Y axis.
    pub fn unit_y() -> (r: QVec2)
        ensures
            r.x.bits == 0,
            r.y.bits == ONE_BITS,
    {
        QVec2 { x: Q64::from_bits(0), y: Q64::from_bits(ONE_BITS) }
    }

    /// A unit vector pointing along the negative X axis.
    pub fn neg_x() -> (r: QVec2)
        ensures
            r.x.bits == NEG_ONE_BITS,
            r.y.bits == 0,
    {
        QVec2 { x: Q64::from_bits(NEG_ONE_BITS), y: Q64::from_bits(0) }
    }

    /// A unit vector pointing along the negative Y axis.
    pub fn neg_y() -> (r: QVec2)
        ensures
            r.x.bits == 0,
            r.y.bits == NEG_ONE_BITS,
    {
        QVec2 { x: Q64::from_bits(0), y: Q64::from_bits(NEG_ONE_BITS) }
    }

    /// All `EPS`.
    pub fn eps() -> (r: QVec2)
        ensures
            r.x.bits == EPS_BITS,
            r.y.bits == EPS_BITS,
    {
        QVec2 { x: Q64::from_bits(EPS_BITS), y: Q64::from_bits(EPS_BITS) }
    }

    /// `EPS` in the X axis, zero in the Y axis.
    pub fn eps_x() -> (r: QVec2)
        ensures
            r.x.bits == EPS_BITS,
            r.y.bits == 0,
    {
        QVec2 { x: Q64::from_bits(EPS_BITS), y: Q64::from_bits(0) }
    }

    /// Zero in the X axis, `EPS` in the Y axis.
    pub fn eps_y() -> (r: QVec2)
        ensures
            r.x.bits == 0,
            r.y.bits == EPS_BITS,
    {
        QVec2 { x: Q64::from_bits(0), y: Q64::from_bits(EPS_BITS) }
    }

    /// All `DELTA`, the smallest positive value.
    pub fn delta() -> (r: QVec2)
        ensures
            r.x.bits == 1,
            r.y.bits == 1,
    {
        QVec2 { x: Q64::from_bits(1), y: Q64::from_bits(1) }
    }

    /// `DELTA` in the X axis, zero in the Y axis.
    pub fn delta_x() -> (r: QVec2)
        ensures
            r.x.bits == 1,
            r.y.bits == 0,
    {
        QVec2 { x: Q64::from_bits(1), y: Q64::from_bits(0) }
    }

    /// Zero in the X axis, `DELTA` in the Y axis.
    pub fn delta_y() -> (r: QVec2)
        ensures
            r.x.bits == 0,
            r.y.bits == 1,
    {
        QVec2 { x: Q64::from_bits(0), y: Q64::from_bits(1) }
    }

    /// The unit axes.
    pub fn axes() -> (r: [QVec2; 2])
        ensures
            r@ == seq![QVec2::unit_x_spec(), QVec2::unit_y_spec()],
    {
        [QVec2::unit_x(), QVec2::unit_y()]
    }

    /// A unit vector pointing along the positive X axis, as a spec value.
    pub open spec fn unit_x_spec() -> QVec2 {
        QVec2 { x: Q64 { bits: ONE_BITS }, y: Q64 { bits: 0 } }
    }

    /// A unit vector pointing along the positive Y axis, as a spec value.
    pub open spec fn unit_y_spec() -> QVec2 {
        QVec2 { x: Q64 { bits: 0 }, y: Q64 { bits: ONE_BITS } }
    }

    /// Creates a new vector.
    pub fn new(x: Q64, y: Q64) -> (r: QVec2)
        ensures
            r.x == x,
            r.y == y,
    {
        QVec2 { x, y }
    }

    /// Creates a vector with all elements set to `v`.
    pub fn splat(v: Q64) -> (r: QVec2)
        ensures
            r.x == v,
            r.y == v,
    {
        QVec2 { x: v, y: v }
    }

    /// Saturating addition.
    pub fn saturating_add(self, rhs: QVec2) -> (r: QVec2)
        ensures
            r.x.bits == sat_add(self.x, rhs.x),
            r.y.bits == sat_add(self.y, rhs.y),
    {
        QVec2 { x: self.x.saturating_add(rhs.x), y: self.y.saturating_add(rhs.y) }
    }

    /// Saturating subtraction.
    pub fn saturating_sub(self, rhs: QVec2) -> (r: QVec2)
        ensures
            r.x.bits == sat_sub(self.x, rhs.x),
            r.y.bits == sat_sub(self.y, rhs.y),
    {
        QVec2 { x: self.x.saturating_sub(rhs.x), y: self.y.saturating_sub(rhs.y) }
    }

    /// Saturating multiplication.
    pub fn saturating_mul(self, rhs: QVec2) -> (r: QVec2)
        ensures
            r.x.bits == sat_mul(self.x, rhs.x),
            r.y.bits == sat_mul(self.y, rhs.y),
    {
        QVec2 { x: self.x.saturating_mul(rhs.x), y: self.y.saturating_mul(rhs.y) }
    }

    /// Saturating division.
    pub fn saturating_div(self, rhs: QVec2) -> (r: QVec2)
        requires
            rhs.x.bits != 0,
            rhs.y.bits != 0,
        ensures
            r.x.bits == sat_div(self.x, rhs.x),
            r.y.bits == sat_div(self.y, rhs.y),
    {
        QVec2 { x: self.x.saturating_div(rhs.x), y: self.y.saturating_div(rhs.y) }
    }

    /// Saturating addition of a number to each element.
    pub fn saturating_add_num(self, rhs: Q64) -> (r: QVec2)
        ensures
            r.x.bits == sat_add(self.x, rhs),
            r.y.bits == sat_add(self.y, rhs),
    {
        QVec2 { x: self.x.saturating_add(rhs), y: self.y.saturating_add(rhs) }
    }

    /// Saturating subtraction of a number from each element.
    pub fn saturating_sub_num(self, rhs: Q64) -> (r: QVec2)
        ensures
            r.x.bits == sat_sub(self.x, rhs),
            r.y.bits == sat_sub(self.y, rhs),
    {
        QVec2 { x: self.x.saturating_sub(rhs), y: self.y.saturating_sub(rhs) }
    }

    /// Saturating multiplication of each element by a number.
    pub fn saturating_mul_num(self, rhs: Q64) -> (r: QVec2)
        ensures
            r.x.bits == sat_mul(self.x, rhs),
            r.y.bits == sat_mul(self.y, rhs),
    {
        QVec2 { x: self.x.saturating_mul(rhs), y: self.y.saturating_mul(rhs) }
    }

    /// Saturating division of each element by a number.
    pub fn saturating_div_num(self, rhs: Q64) -> (r: QVec2)
        requires
            rhs.bits != 0,
        ensures
            r.x.bits == sat_div(self.x, rhs),
            r.y.bits == sat_div(self.y, rhs),
    {
        QVec2 { x: self.x.saturating_div(rhs), y: self.y.saturating_div(rhs) }
    }

    /// Computes the dot product of `self` and `rhs`.
    pub fn dot(self, rhs: QVec2) -> (r: Q64)
        ensures
            r.bits == dot_bits(self, rhs),
    {
        self.x.saturating_mul_add(rhs.x, self.y.saturating_mul(rhs.y))
    }

    /// Returns a vector containing the minimum values for each element of
    /// `self` and `rhs`.
    pub fn min(self, rhs: QVec2) -> (r: QVec2)
        ensures
            r.x.bits == if self.x.bits <= rhs.x.bits { self.x.bits } else { rhs.x.bits },
            r.y.bits == if self.y.bits <= rhs.y.bits { self.y.bits } else { rhs.y.bits },
    {
        QVec2 { x: self.x.min(rhs.x), y: self.y.min(rhs.y) }
    }

    /// Returns a vector containing the maximum values for each element of
    /// `self` and `rhs`.
    pub fn max(self, rhs: QVec2) -> (r: QVec2)
        ensures
            r.x.bits == if self.x.bits >= rhs.x.bits { self.x.bits } else { rhs.x.bits },
            r.y.bits == if self.y.bits >= rhs.y.bits { self.y.bits } else { rhs.y.bits },
    {
        QVec2 { x: self.x.max(rhs.x), y: self.y.max(rhs.y) }
    }

    /// Component-wise clamping of values; each element of `min` must not
    /// exceed the corresponding element of `max`.
    pub fn clamp(self, min: QVec2, max: QVec2) -> (r: QVec2)
        requires
            min.x.bits <= max.x.bits,
            min.y.bits <= max.y.bits,
        ensures
            min.x.bits <= r.x.bits <= max.x.bits,
            min.y.bits <= r.y.bits <= max.y.bits,
            min.x.bits <= self.x.bits <= max.x.bits ==> r.x == self.x,
            min.y.bits <= self.y.bits <= max.y.bits ==> r.y == self.y,
            self.x.bits < min.x.bits ==> r.x == min.x,
            self.y.bits < min.y.bits ==> r.y == min.y,
            self.x.bits > max.x.bits ==> r.x == max.x,
            self.y.bits > max.y.bits ==> r.y == max.y,
    {
        self.max(min).min(max)
    }

    /// Returns the smaller element.
    pub fn min_element(self) -> (r: Q64)
        ensures
            r == if self.x.bits <= self.y.bits { self.x } else { self.y },
    {
        self.x.min(self.y)
    }

    /// Returns the larger element.
    pub fn max_element(self) -> (r: Q64)
        ensures
            r == if self.x.bits >= self.y.bits { self.x } else { self.y },
    {
        self.x.max(self.y)
    }

    /// Returns a vector containing the absolute value of each element, which
    /// wraps only for `MIN`.
    pub fn abs(self) -> (r: QVec2)
        ensures
            r.x.bits == if self.x.bits < 0 { 0i64.wrapping_sub(self.x.bits) } else { self.x.bits },
            r.y.bits == if self.y.bits < 0 { 0i64.wrapping_sub(self.y.bits) } else { self.y.bits },
    {
        QVec2 { x: self.x.wrapping_abs(), y: self.y.wrapping_abs() }
    }

    /// Computes the length of `self`.
    pub fn length(self) -> (r: Q64)
        ensures
            is_sqrt_of(r.bits as int, dot_bits(self, self) as int),
    {
        proof {
            lemma_dot_self_nonneg(self);
        }
        self.dot(self).saturating_sqrt()
    }

    /// Computes the squared length of `self`.
    pub fn length_squared(self) -> (r: Q64)
        ensures
            r.bits == dot_bits(self, self),
            r.bits >= 0,
    {
        proof {
            lemma_dot_self_nonneg(self);
        }
        self.dot(self)
    }

    /// Computes `1.0 / length()`, saturating; the length must not be zero.
    pub fn length_recip(self) -> (r: Q64)
        requires
            dot_bits(self, self) > 0,
        ensures
            exists|l: int| is_sqrt_of(l, dot_bits(self, self) as int) && l != 0
                && r.bits as int == clamp64(trunc_div(ONE_BITS as int * (SCALE as int), l)),
    {
        let l = self.length();
        assert(l.bits != 0) by (nonlinear_arith)
            requires
                is_sqrt_of(l.bits as int, dot_bits(self, self) as int),
                dot_bits(self, self) > 0,
        ;
        l.saturating_recip()
    }

    /// Computes the distance between two points.
    pub fn distance(self, rhs: QVec2) -> (r: Q64)
        ensures
            is_sqrt_of(r.bits as int, dot_bits(self.sub_spec(rhs), self.sub_spec(rhs)) as int),
    {
        self.saturating_sub(rhs).length()
    }

    /// Computes the squared distance between two points.
    pub fn distance_squared(self, rhs: QVec2) -> (r: Q64)
        ensures
            r.bits == dot_bits(self.sub_spec(rhs), self.sub_spec(rhs)),
    {
        self.saturating_sub(rhs).length_squared()
    }

    /// The saturating difference, as a spec value.
    pub open spec fn sub_spec(self, rhs: QVec2) -> QVec2 {
        QVec2 { x: Q64 { bits: sat_sub(self.x, rhs.x) }, y: Q64 { bits: sat_sub(self.y, rhs.y) } }
    }

    /// Returns `self` scaled by the reciprocal of its length; the length
    /// must not be zero.
    pub fn normalize(self) -> (r: QVec2)
        requires
            dot_bits(self, self) > 0,
        ensures
            exists|k: Q64| r.x.bits == sat_mul(self.x, k) && r.y.bits == sat_mul(self.y, k)
                && exists|l: int| is_sqrt_of(l, dot_bits(self, self) as int) && l != 0
                && k.bits as int == clamp64(trunc_div(ONE_BITS as int * (SCALE as int), l)),
    {
        let k = self.length_recip();
        self.saturating_mul_num(k)
    }

    /// Whether the squared length is within the tolerance of one.
    pub fn is_normalized(self) -> (r: bool)
        ensures
            r == (-EPS_BITS <= dot_bits(self, self) as int - ONE_BITS as int <= EPS_BITS),
    {
        proof {
            lemma_dot_self_nonneg(self);
        }
        let d = self.length_squared().saturating_sub(Q64::one());
        d.wrapping_abs().bits <= EPS_BITS
    }

    /// Rounds each element to the nearest integer, ties away from zero.
    pub fn round(self) -> (r: QVec2)
        ensures
            r.x.bits as int == wrap64(round_away_spec(self.x.bits as int)),
            r.y.bits as int == wrap64(round_away_spec(self.y.bits as int)),
    {
        QVec2 { x: self.x.round(), y: self.y.round() }
    }

    /// Rounds each element toward minus infinity.
    pub fn floor(self) -> (r: QVec2)
        ensures
            r.x.bits as int == (self.x.bits as int / SCALE as int) * SCALE as int,
            r.y.bits as int == (self.y.bits as int / SCALE as int) * SCALE as int,
    {
        QVec2 { x: self.x.floor(), y: self.y.floor() }
    }

    /// Rounds each element toward plus infinity.
    pub fn ceil(self) -> (r: QVec2)
        ensures
            r.x.bits as int == wrap64(((self.x.bits as int + SCALE as int - 1) / SCALE as int) * SCALE as int),
            r.y.bits as int == wrap64(((self.y.bits as int + SCALE as int - 1) / SCALE as int) * SCALE as int),
    {
        QVec2 { x: self.x.ceil(), y: self.y.ceil() }
    }

    /// Rounds each element toward zero.
    pub fn trunc(self) -> (r: QVec2)
        ensures
            r.x.bits as int == trunc_div(self.x.bits as int, SCALE as int) * SCALE as int,
            r.y.bits as int == trunc_div(self.y.bits as int, SCALE as int) * SCALE as int,
    {
        QVec2 { x: self.x.round_to_zero(), y: self.y.round_to_zero() }
    }

    /// The fractional part of each element, `self - self.floor()`, in
    /// `[0, 1)`.
    pub fn fract(self) -> (r: QVec2)
        ensures
            r.x.bits as int == self.x.bits as int % SCALE as int,
            r.y.bits as int == self.y.bits as int % SCALE as int,
    {
        let f = self.floor();
        proof {
            vstd::arithmetic::div_mod::lemma_fundamental_div_mod(self.x.bits as int, SCALE as int);
            vstd::arithmetic::div_mod::lemma_fundamental_div_mod(self.y.bits as int, SCALE as int);
        }
        QVec2 { x: self.x.wrapping_sub(f.x), y: self.y.wrapping_sub(f.y) }
    }

    /// Linear interpolation: `self + (rhs - self) * s`, each step saturated.
    pub fn lerp(self, rhs: QVec2, s: Q64) -> (r: QVec2)
        ensures
            r.x.bits == sat_add(self.x, Q64 { bits: sat_mul(Q64 { bits: sat_sub(rhs.x, self.x) }, s) }),
            r.y.bits == sat_add(self.y, Q64 { bits: sat_mul(Q64 { bits: sat_sub(rhs.y, self.y) }, s) }),
    {
        self.saturating_add(rhs.saturating_sub(self).saturating_mul_num(s))
    }

    /// The point halfway between two points: `(self + rhs) * 0.5`, each step
    /// saturated.
    pub fn midpoint(self, rhs: QVec2) -> (r: QVec2)
        ensures
            r.x.bits == sat_mul(Q64 { bits: sat_add(self.x, rhs.x) }, Q64 { bits: HALF_BITS }),
            r.y.bits == sat_mul(Q64 { bits: sat_add(self.y, rhs.y) }, Q64 { bits: HALF_BITS }),
    {
        self.saturating_add(rhs).saturating_mul_num(Q64::from_bits(HALF_BITS))
    }

    /// The unit vector `(cos, sin)` of an angle in radians.
    pub fn from_angle(angle: Q64) -> (r: QVec2)
        ensures
            r.x == angle.sin_cos_spec().1,
            r.y == angle.sin_cos_spec().0,
    {
        let (sin, cos) = angle.sin_cos();
        QVec2 { x: cos, y: sin }
    }

    /// The angle of the vector in `[-PI, PI]`; the zero vector has none.
    pub fn to_angle(self) -> (r: Q64)
        requires
            self.x.bits != 0 || self.y.bits != 0,
        ensures
            r == Q64::atan2_spec(self.y, self.x),
    {
        Q64::atan2(self.y, self.x).unwrap()
    }

    /// The signed angle from `self` to `rhs`: the arccosine of the
    /// normalised dot product, clamped to `[-1, 1]`, negated where the cross
    /// product is negative. Both vectors must have a length.
    pub fn angle_between(self, rhs: QVec2) -> (r: Q64)
        requires
            sat_mul(Q64 { bits: dot_bits(self, self) }, Q64 { bits: dot_bits(rhs, rhs) }) > 0,
        ensures
            exists|h: Q64, c: Q64|
                is_sqrt_of(h.bits as int, sat_mul(Q64 { bits: dot_bits(self, self) }, Q64 { bits: dot_bits(rhs, rhs) }) as int)
                && h.bits != 0
                && c.bits == clamp_unit(sat_div(Q64 { bits: dot_bits(self, rhs) }, h))
                && r.bits == crate::fixed_point::mul_bits(c.acos_spec().1.bits, sign_bits(cross_bits(self, rhs))),
    {
        let ls = self.length_squared();
        let lr = rhs.length_squared();
        let p = ls.saturating_mul(lr);
        proof {
            lemma_sat_mul_nonneg(ls, lr);
        }
        let hyp = p.saturating_sqrt();
        assert(hyp.bits != 0) by (nonlinear_arith)
            requires
                is_sqrt_of(hyp.bits as int, p.bits as int),
                p.bits > 0,
        ;
        let c = self.dot(rhs).saturating_div(hyp).clamp(Q64::neg_one(), Q64::one());
        let angle = c.acos().unwrap().1;
        let sign = if self.cross(rhs).bits < 0 { Q64::neg_one() } else { Q64::one() };
        let r = angle.wrapping_mul(sign);
        assert(c.bits == clamp_unit(sat_div(Q64 { bits: dot_bits(self, rhs) }, hyp)));
        r
    }

    /// Returns a vector that is equal to `self` rotated by 90 degrees.
    pub fn perp(self) -> (r: QVec2)
        ensures
            r.x.bits == 0i64.wrapping_sub(self.y.bits),
            r.y == self.x,
    {
        QVec2 { x: self.y.wrapping_neg(), y: self.x }
    }

    /// The 2D cross product `self.x * rhs.y - self.y * rhs.x`, saturating.
    pub fn cross(self, rhs: QVec2) -> (r: Q64)
        ensures
            r.bits == cross_bits(self, rhs),
    {
        self.x.saturating_mul(rhs.y).saturating_sub(self.y.saturating_mul(rhs.x))
    }

    /// Rotates `rhs` by the angle of `self` and scales it by the length of
    /// `self`: the complex product `(x1 x2 - y1 y2, y1 x2 + x1 y2)`, each step
    /// saturated.
    pub fn rotate(self, rhs: QVec2) -> (r: QVec2)
        ensures
            r == self.rotate_spec(rhs),
    {
        QVec2 {
            x: self.x.saturating_mul(rhs.x).saturating_sub(self.y.saturating_mul(rhs.y)),
            y: self.y.saturating_mul(rhs.x).saturating_add(self.x.saturating_mul(rhs.y)),
        }
    }

    /// The complex product of two vectors, each step saturated.
    pub open spec fn rotate_spec(self, rhs: QVec2) -> QVec2 {
        QVec2 {
            x: Q64 { bits: clamp64(sat_mul(self.x, rhs.x) as int - sat_mul(self.y, rhs.y) as int) as i64 },
            y: Q64 { bits: clamp64(sat_mul(self.y, rhs.x) as int + sat_mul(self.x, rhs.y) as int) as i64 },
        }
    }

    /// Whether each element of the saturating difference lies within
    /// `max_abs_diff` in absolute value.
    pub fn abs_diff_eq(self, rhs: QVec2, max_abs_diff: Q64) -> (r: bool)
        ensures
            r == (abs_bits(sat_sub(self.x, rhs.x)) <= max_abs_diff.bits
                && abs_bits(sat_sub(self.y, rhs.y)) <= max_abs_diff.bits),
    {
        let dif = self.saturating_sub(rhs).abs();
        dif.x.bits <= max_abs_diff.bits && dif.y.bits <= max_abs_diff.bits
    }


}

/// Absolute value of a bit pattern, wrapping for `MIN`.
pub open spec fn abs_bits(v: i64) -> i64 {
    if v < 0 { 0i64.wrapping_sub(v) } else { v }
}

/// A bit pattern restricted to `[-1, 1]`.
pub open spec fn clamp_unit(v: i64) -> i64 {
    if v < NEG_ONE_BITS { NEG_ONE_BITS } else if v > ONE_BITS { ONE_BITS } else { v }
}

/// Bits of negative one for a negative `v`, else of one.
pub open spec fn sign_bits(v: i64) -> i64 {
    if v < 0 { NEG_ONE_BITS } else { ONE_BITS }
}

impl core::ops::Add<QVec2> for QVec2 {
    type Output = QVec2;

    fn add(self, rhs: QVec2) -> QVec2 {
        QVec2 { x: self.x.wrapping_add(rhs.x), y: self.y.wrapping_add(rhs.y) }
    }
}

impl vstd::std_specs::ops::AddSpecImpl<QVec2> for QVec2 {
    open spec fn obeys_add_spec() -> bool {
        true
    }

    open spec fn add_req(self, rhs: QVec2) -> bool {
        true
    }

    open spec fn add_spec(self, rhs: QVec2) -> QVec2 {
        QVec2 { x: Q64 { bits: self.x.bits.wrapping_add(rhs.x.bits) }, y: Q64 { bits: self.y.bits.wrapping_add(rhs.y.bits) } }
    }
}

impl core::ops::Add<Q64> for QVec2 {
    type Output = QVec2;

    fn add(self, rhs: Q64) -> QVec2 {
        QVec2 { x: self.x.wrapping_add(rhs), y: self.y.wrapping_add(rhs) }
    }
}

impl vstd::std_specs::ops::AddSpecImpl<Q64> for QVec2 {
    open spec fn obeys_add_spec() -> bool {
        true
    }

    open spec fn add_req(self, rhs: Q64) -> bool {
        true
    }

    open spec fn add_spec(self, rhs: Q64) -> QVec2 {
        QVec2 { x: Q64 { bits: self.x.bits.wrapping_add(rhs.bits) }, y: Q64 { bits: self.y.bits.wrapping_add(rhs.bits) } }
    }
}

impl core::ops::Sub<QVec2> for QVec2 {
    type Output = QVec2;

    fn sub(self, rhs: QVec2) -> QVec2 {
        QVec2 { x: self.x.wrapping_sub(rhs.x), y: self.y.wrapping_sub(rhs.y) }
    }
}

impl vstd::std_specs::ops::SubSpecImpl<QVec2> for QVec2 {
    open spec fn obeys_sub_spec() -> bool {
        true
    }

    open spec fn sub_req(self, rhs: QVec2) -> bool {
        true
    }

    open spec fn sub_spec(self, rhs: QVec2) -> QVec2 {
        QVec2 { x: Q64 { bits: self.x.bits.wrapping_sub(rhs.x.bits) }, y: Q64 { bits: self.y.bits.wrapping_sub(rhs.y.bits) } }
    }
}

impl core::ops::Sub<Q64> for QVec2 {
    type Output = QVec2;

    fn sub(self, rhs: Q64) -> QVec2 {
        QVec2 { x: self.x.wrapping_sub(rhs), y: self.y.wrapping_sub(rhs) }
    }
}

impl vstd::std_specs::ops::SubSpecImpl<Q64> for QVec2 {
    open spec fn obeys_sub_spec() -> bool {
        true
    }

    open spec fn sub_req(self, rhs: Q64) -> bool {
        true
    }

    open spec fn sub_spec(self, rhs: Q64) -> QVec2 {
        QVec2 { x: Q64 { bits: self.x.bits.wrapping_sub(rhs.bits) }, y: Q64 { bits: self.y.bits.wrapping_sub(rhs.bits) } }
    }
}

impl core::ops::Mul<QVec2> for QVec2 {
    type Output = QVec2;

    fn mul(self, rhs: QVec2) -> QVec2 {
        QVec2 { x: self.x.wrapping_mul(rhs.x), y: self.y.wrapping_mul(rhs.y) }
    }
}

impl vstd::std_specs::ops::MulSpecImpl<QVec2> for QVec2 {
    open spec fn obeys_mul_spec() -> bool {
        true
    }

    open spec fn mul_req(self, rhs: QVec2) -> bool {
        true
    }

    open spec fn mul_spec(self, rhs: QVec2) -> QVec2 {
        QVec2 { x: Q64 { bits: crate::fixed_point::mul_bits(self.x.bits, rhs.x.bits) }, y: Q64 { bits: crate::fixed_point::mul_bits(self.y.bits, rhs.y.bits) } }
    }
}

impl core::ops::Mul<Q64> for QVec2 {
    type Output = QVec2;

    fn mul(self, rhs: Q64) -> QVec2 {
        QVec2 { x: self.x.wrapping_mul(rhs), y: self.y.wrapping_mul(rhs) }
    }
}

impl vstd::std_specs::ops::MulSpecImpl<Q64> for QVec2 {
    open spec fn obeys_mul_spec() -> bool {
        true
    }

    open spec fn mul_req(self, rhs: Q64) -> bool {
        true
    }

    open spec fn mul_spec(self, rhs: Q64) -> QVec2 {
        QVec2 { x: Q64 { bits: crate::fixed_point::mul_bits(self.x.bits, rhs.bits) }, y: Q64 { bits: crate::fixed_point::mul_bits(self.y.bits, rhs.bits) } }
    }
}

impl core::ops::Div<QVec2> for QVec2 {
    type Output = QVec2;

    fn div(self, rhs: QVec2) -> QVec2 {
        QVec2 { x: self.x.wrapping_div(rhs.x), y: self.y.wrapping_div(rhs.y) }
    }
}

impl vstd::std_specs::ops::DivSpecImpl<QVec2> for QVec2 {
    open spec fn obeys_div_spec() -> bool {
        true
    }

    open spec fn div_req(self, rhs: QVec2) -> bool {
        rhs.x.bits != 0 && rhs.y.bits != 0
    }

    open spec fn div_spec(self, rhs: QVec2) -> QVec2 {
        QVec2 { x: Q64 { bits: crate::fixed_point::div_bits(self.x.bits, rhs.x.bits) }, y: Q64 { bits: crate::fixed_point::div_bits(self.y.bits, rhs.y.bits) } }
    }
}

impl core::ops::Div<Q64> for QVec2 {
    type Output = QVec2;

    fn div(self, rhs: Q64) -> QVec2 {
        QVec2 { x: self.x.wrapping_div(rhs), y: self.y.wrapping_div(rhs) }
    }
}

impl vstd::std_specs::ops::DivSpecImpl<Q64> for QVec2 {
    open spec fn obeys_div_spec() -> bool {
        true
    }

    open spec fn div_req(self, rhs: Q64) -> bool {
        rhs.bits != 0
    }

    open spec fn div_spec(self, rhs: Q64) -> QVec2 {
        QVec2 { x: Q64 { bits: crate::fixed_point::div_bits(self.x.bits, rhs.bits) }, y: Q64 { bits: crate::fixed_point::div_bits(self.y.bits, rhs.bits) } }
    }
}

impl core::ops::Rem<QVec2> for QVec2 {
    type Output = QVec2;

    fn rem(self, rhs: QVec2) -> QVec2 {
        QVec2 { x: self.x.rem(rhs.x), y: self.y.rem(rhs.y) }
    }
}

impl vstd::std_specs::ops::RemSpecImpl<QVec2> for QVec2 {
    open spec fn obeys_rem_spec() -> bool {
        true
    }

    open spec fn rem_req(self, rhs: QVec2) -> bool {
        rhs.x.bits != 0 && rhs.y.bits != 0
    }

    open spec fn rem_spec(self, rhs: QVec2) -> QVec2 {
        QVec2 { x: Q64 { bits: crate::fixed_point::trunc_rem(self.x.bits as int, rhs.x.bits as int) as i64 }, y: Q64 { bits: crate::fixed_point::trunc_rem(self.y.bits as int, rhs.y.bits as int) as i64 } }
    }
}

impl core::ops::Neg for QVec2 {
    type Output = QVec2;

    fn neg(self) -> QVec2 {
        QVec2 { x: self.x.wrapping_neg(), y: self.y.wrapping_neg() }
    }
}

impl vstd::std_specs::ops::NegSpecImpl for QVec2 {
    open spec fn obeys_neg_spec() -> bool {
        true
    }

    open spec fn neg_req(self) -> bool {
        true
    }

    open spec fn neg_spec(self) -> QVec2 {
        QVec2 { x: Q64 { bits: 0i64.wrapping_sub(self.x.bits) }, y: Q64 { bits: 0i64.wrapping_sub(self.y.bits) } }
    }
}

impl core::ops::AddAssign<QVec2> for QVec2 {
    fn add_assign(&mut self, rhs: QVec2) {
        self.x = self.x.wrapping_add(rhs.x);
        self.y = self.y.wrapping_add(rhs.y);
    }
}

impl core::ops::AddAssign<Q64> for QVec2 {
    fn add_assign(&mut self, rhs: Q64) {
        self.x = self.x.wrapping_add(rhs);
        self.y = self.y.wrapping_add(rhs);
    }
}

impl core::ops::SubAssign<QVec2> for QVec2 {
    fn sub_assign(&mut self, rhs: QVec2) {
        self.x = self.x.wrapping_sub(rhs.x);
        self.y = self.y.wrapping_sub(rhs.y);
    }
}

impl core::ops::SubAssign<Q64> for QVec2 {
    fn sub_assign(&mut self, rhs: Q64) {
        self.x = self.x.wrapping_sub(rhs);
        self.y = self.y.wrapping_sub(rhs);
    }
}

impl core::ops::MulAssign<QVec2> for QVec2 {
    fn mul_assign(&mut self, rhs: QVec2) {
        self.x = self.x.wrapping_mul(rhs.x);
        self.y = self.y.wrapping_mul(rhs.y);
    }
}

impl core::ops::MulAssign<Q64> for QVec2 {
    fn mul_assign(&mut self, rhs: Q64) {
        self.x = self.x.wrapping_mul(rhs);
        self.y = self.y.wrapping_mul(rhs);
    }
}

impl From<[Q64; 2]> for QVec2 {
    fn from(a: [Q64; 2]) -> QVec2 {
        QVec2 { x: a[0], y: a[1] }
    }
}

impl vstd::std_specs::convert::FromSpecImpl<[Q64; 2]> for QVec2 {
    open spec fn obeys_from_spec() -> bool {
        true
    }

    open spec fn from_spec(a: [Q64; 2]) -> QVec2 {
        QVec2 { x: a@[0], y: a@[1] }
    }
}

impl From<QVec2> for [Q64; 2] {
    fn from(v: QVec2) -> [Q64; 2] {
        [v.x, v.y]
    }
}

impl vstd::std_specs::convert::FromSpecImpl<QVec2> for [Q64; 2] {
    open spec fn obeys_from_spec() -> bool {
        true
    }

    open spec fn from_spec(v: QVec2) -> [Q64; 2] {
        [v.x, v.y]
    }
}

impl From<(Q64, Q64)> for QVec2 {
    fn from(t: (Q64, Q64)) -> QVec2 {
        QVec2 { x: t.0, y: t.1 }
    }
}

impl vstd::std_specs::convert::FromSpecImpl<(Q64, Q64)> for QVec2 {
    open spec fn obeys_from_spec() -> bool {
        true
    }

    open spec fn from_spec(t: (Q64, Q64)) -> QVec2 {
        QVec2 { x: t.0, y: t.1 }
    }
}

impl From<QVec2> for (Q64, Q64) {
    fn from(v: QVec2) -> (Q64, Q64) {
        (v.x, v.y)
    }
}

impl vstd::std_specs::convert::FromSpecImpl<QVec2> for (Q64, Q64) {
    open spec fn obeys_from_spec() -> bool {
        true
    }

    open spec fn from_spec(v: QVec2) -> (Q64, Q64) {
        (v.x, v.y)
    }
}

} // verus!
