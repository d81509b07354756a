//! CORDIC trigonometry on the 32.32 fixed-point scalar.
//!
//! Every result is specified bit for bit by the spec functions below: a fixed
//! sequence of 32 shift-and-add rotations driven by a table of rotation angles
//! held with 60 fractional bits and narrowed to 32 on read.
use vstd::prelude::*;
use crate::fixed_point::{
    div_bits, div_i64, mul_bits, mul_i64, narrow_bits, narrow_i64, trunc_div, trunc_rem, abs,
    Q64, EPS_BITS, HALF_PI_BITS, MAX_BITS, MIN_BITS, NEG_ONE_BITS, ONE_BITS, PI_BITS,
    THREE_HALF_PI_BITS, TWO_PI_BITS,
};

verus! {

/// `arctan(2^-k)` in radians, with 60 fractional bits.
pub open spec fn circle_rad(k: int) -> i64 {
    if k == 0 {
        905502432259640320
    } else if k == 1 {
        534549298976576448
    } else if k == 2 {
        282441168888798112
    } else if k == 3 {
        143371547418228448
    } else if k == 4 {
        71963988336308048
    } else if k == 5 {
        36017075762092180
    } else if k == 6 {
        18012932708689206
    } else if k == 7 {
        9007016009513623
    } else if k == 8 {
        4503576721087964
    } else if k == 9 {
        2251796950380271
    } else if k == 10 {
        1125899548928888
    } else if k == 11 {
        562949908682076
    } else if k == 12 {
        281474971118251
    } else if k == 13 {
        140737487656277
    } else if k == 14 {
        70368744090283
    } else if k == 15 {
        35184372077909
    } else if k == 16 {
        17592186043051
    } else if k == 17 {
        8796093022037
    } else if k == 18 {
        4398046511083
    } else if k == 19 {
        2199023255549
    } else if k == 20 {
        1099511627776
    } else if k == 21 {
        549755813888
    } else if k == 22 {
        274877906944
    } else if k == 23 {
        137438953472
    } else if k == 24 {
        68719476736
    } else if k == 25 {
        34359738368
    } else if k == 26 {
        17179869184
    } else if k == 27 {
        8589934592
    } else if k == 28 {
        4294967296
    } else if k == 29 {
        2147483648
    } else if k == 30 {
        1073741824
    } else {
        536870912
    }
}

/// `cos(arctan(2^-k))`, with 60 fractional bits.
pub open spec fn circle_cos(k: int) -> i64 {
    if k == 0 {
        815238614083298944
    } else if k == 1 {
        1031204342808898688
    } else if k == 2 {
        1118498150950604288
    } else if k == 3 {
        1144018502608809088
    } else if k == 4 {
        1150676280461235072
    } else if k == 5 {
        1152358966635028224
    } else if k == 6 {
        1152780792883053696
    } else if k == 7 {
        1152886321845288960
    } else if k == 8 {
        1152912708614486784
    } else if k == 9 {
        1152919305589882880
    } else if k == 10 {
        1152920954851426304
    } else if k == 11 {
        1152921367167918080
    } else if k == 12 {
        1152921470247110144
    } else if k == 13 {
        1152921496016912512
    } else if k == 14 {
        1152921502459363328
    } else if k == 15 {
        1152921504069976064
    } else if k == 16 {
        1152921504472629248
    } else if k == 17 {
        1152921504573292544
    } else if k == 18 {
        1152921504598458368
    } else if k == 19 {
        1152921504604749824
    } else if k == 20 {
        1152921504606322688
    } else if k == 21 {
        1152921504606715904
    } else if k == 22 {
        1152921504606814208
    } else if k == 23 {
        1152921504606838784
    } else if k == 24 {
        1152921504606844928
    } else if k == 25 {
        1152921504606846464
    } else if k == 26 {
        1152921504606846848
    } else if k == 27 {
        1152921504606846976
    } else if k == 28 {
        1152921504606846976
    } else if k == 29 {
        1152921504606846976
    } else if k == 30 {
        1152921504606846976
    } else {
        1152921504606846976
    }
}

/// The table entry of iteration `k`: its angle and its cosine, with 60
/// fractional bits.
fn circle_entry(k: u32) -> (r: (i64, i64))
    requires
        k < 32,
    ensures
        r.0 == circle_rad(k as int),
        r.1 == circle_cos(k as int),
{
    match k {
        0 => (905502432259640320, 815238614083298944),
        1 => (534549298976576448, 1031204342808898688),
        2 => (282441168888798112, 1118498150950604288),
        3 => (143371547418228448, 1144018502608809088),
        4 => (71963988336308048, 1150676280461235072),
        5 => (36017075762092180, 1152358966635028224),
        6 => (18012932708689206, 1152780792883053696),
        7 => (9007016009513623, 1152886321845288960),
        8 => (4503576721087964, 1152912708614486784),
        9 => (2251796950380271, 1152919305589882880),
        10 => (1125899548928888, 1152920954851426304),
        11 => (562949908682076, 1152921367167918080),
        12 => (281474971118251, 1152921470247110144),
        13 => (140737487656277, 1152921496016912512),
        14 => (70368744090283, 1152921502459363328),
        15 => (35184372077909, 1152921504069976064),
        16 => (17592186043051, 1152921504472629248),
        17 => (8796093022037, 1152921504573292544),
        18 => (4398046511083, 1152921504598458368),
        19 => (2199023255549, 1152921504604749824),
        20 => (1099511627776, 1152921504606322688),
        21 => (549755813888, 1152921504606715904),
        22 => (274877906944, 1152921504606814208),
        23 => (137438953472, 1152921504606838784),
        24 => (68719476736, 1152921504606844928),
        25 => (34359738368, 1152921504606846464),
        26 => (17179869184, 1152921504606846848),
        27 => (8589934592, 1152921504606846976),
        28 => (4294967296, 1152921504606846976),
        29 => (2147483648, 1152921504606846976),
        30 => (1073741824, 1152921504606846976),
        _ => (536870912, 1152921504606846976),
    }
}

/// Number of iterations of every CORDIC loop.
pub const ITERATIONS: u32 = 32;

/// Product of all `cos(arctan(2^-k))`, the total CORDIC gain, with 60
/// fractional bits.
pub const GAIN_WIDE_BITS: i64 = 700114967507363456;

/// Rotation angle of iteration `k`, in the public format.
pub open spec fn step_angle(k: int) -> i64 {
    narrow_bits(circle_rad(k))
}

/// Length compensation of iteration `k`, in the public format.
pub open spec fn step_cos(k: int) -> i64 {
    narrow_bits(circle_cos(k))
}

/// The total gain in the public format.
pub open spec fn gain() -> i64 {
    narrow_bits(GAIN_WIDE_BITS)
}

/// One counter-clockwise step: `(x - y·2^-k, x·2^-k + y)`.
pub open spec fn turn_ccw(x: i64, y: i64, k: int) -> (i64, i64) {
    (x.wrapping_sub(y >> (k as u32)), (x >> (k as u32)).wrapping_add(y))
}

/// One clockwise step: `(x + y·2^-k, y - x·2^-k)`.
pub open spec fn turn_cw(x: i64, y: i64, k: int) -> (i64, i64) {
    (x.wrapping_add(y >> (k as u32)), y.wrapping_sub(x >> (k as u32)))
}

/// Rotation mode from iteration `k` on: turns toward a zero residual angle
/// and returns the final vector `(x, y)`.
pub open spec fn rotation_from(k: int, x: i64, y: i64, remain: i64) -> (i64, i64)
    decreases 32 - k,
{
    if k < 0 || k >= 32 {
        (x, y)
    } else if remain > 0 {
        let (nx, ny) = turn_ccw(x, y, k);
        rotation_from(k + 1, nx, ny, remain.wrapping_sub(step_angle(k)))
    } else {
        let (nx, ny) = turn_cw(x, y, k);
        rotation_from(k + 1, nx, ny, remain.wrapping_add(step_angle(k)))
    }
}

/// What the vectoring mode steers toward the target.
#[derive(Clone, Copy, PartialEq, Eq, Structural, Debug)]
pub enum Steer {
    /// `y` approaches the target.
    Sine,
    /// `x` approaches the target.
    Cosine,
    /// `y / x` approaches the target; a vector turned past the Y axis is
    /// turned back toward the positive X half-plane.
    Tangent,
}

/// Whether the vectoring step turns counter-clockwise.
pub open spec fn steer_ccw(mode: Steer, v: i64, x: i64, y: i64) -> bool {
    match mode {
        Steer::Sine => (x > 0 && v > y) || (x < 0 && v < y),
        Steer::Cosine => (y > 0 && v < x) || (y < 0 && v > x),
        Steer::Tangent => (x > 0 && v > div_bits(y, x)) || (x <= 0 && y < 0),
    }
}

/// Vectoring mode from iteration `k` on: turns the vector toward the target
/// `v`, renormalising it every step, and returns the accumulated angle.
pub open spec fn vectoring_from(mode: Steer, v: i64, k: int, x: i64, y: i64, z: i64) -> i64
    decreases 32 - k,
{
    if k < 0 || k >= 32 {
        z
    } else {
        let ccw = steer_ccw(mode, v, x, y);
        let (xv, yv) = if ccw { turn_ccw(x, y, k) } else { turn_cw(x, y, k) };
        let nz = if ccw { z.wrapping_add(step_angle(k)) } else { z.wrapping_sub(step_angle(k)) };
        let c = step_cos(k);
        vectoring_from(mode, v, k + 1, mul_bits(xv, c), mul_bits(yv, c), nz)
    }
}

/// Argument reduction: the angle brought into `[-pi/2, pi/2]`, and whether
/// the result must be reflected through the origin.
pub open spec fn reduced_angle(theta: i64) -> (int, bool) {
    let rm = trunc_rem(theta as int, TWO_PI_BITS as int);
    let base = if rm < 0 { rm + TWO_PI_BITS } else { rm };
    let flip = HALF_PI_BITS < base && base < THREE_HALF_PI_BITS;
    let turned = if flip {
        if base < PI_BITS { base + PI_BITS } else { base - PI_BITS }
    } else {
        base
    };
    let reduced = if turned >= THREE_HALF_PI_BITS { turned - TWO_PI_BITS } else { turned };
    (reduced, flip)
}

/// `(sin, cos)` of an angle, as bit patterns.
pub open spec fn sin_cos_bits(theta: i64) -> (i64, i64) {
    let (a, flip) = reduced_angle(theta);
    let (x, y) = rotation_from(0, ONE_BITS, 0, a as i64);
    let f = if flip { 0i64.wrapping_sub(gain()) } else { gain() };
    (mul_bits(y, f), mul_bits(x, f))
}

/// `tan` of an angle, as a bit pattern: `MAX` or `MIN` where the cosine is
/// within the tolerance of zero.
pub open spec fn tan_bits(theta: i64) -> i64 {
    let (s, c) = sin_cos_bits(theta);
    let ac = if c < 0 { 0i64.wrapping_sub(c) } else { c };
    if ac <= EPS_BITS {
        if s > 0 { MAX_BITS } else { MIN_BITS }
    } else {
        div_bits(s, c)
    }
}

/// Whether a value lies in `[-1, 1]`.
pub open spec fn in_unit_range(v: i64) -> bool {
    NEG_ONE_BITS <= v && v <= ONE_BITS
}

/// The two `asin` candidates, as bit patterns.
pub open spec fn asin_bits(v: i64) -> (i64, i64) {
    let z = vectoring_from(Steer::Sine, v, 0, ONE_BITS, 0, 0);
    if z > 0 {
        (z, (0i64.wrapping_sub(z)).wrapping_add(PI_BITS))
    } else {
        ((0i64.wrapping_sub(z)).wrapping_sub(PI_BITS), z)
    }
}

/// The two `acos` candidates, as bit patterns.
pub open spec fn acos_bits(v: i64) -> (i64, i64) {
    let z = vectoring_from(Steer::Cosine, v, 0, 0, ONE_BITS, HALF_PI_BITS);
    (0i64.wrapping_sub(z), z)
}

/// The two `atan` candidates, as bit patterns.
pub open spec fn atan_bits(v: i64) -> (i64, i64) {
    let z = vectoring_from(Steer::Tangent, v, 0, ONE_BITS, 0, 0);
    if z > 0 {
        (z.wrapping_sub(PI_BITS), z)
    } else {
        (z, z.wrapping_add(PI_BITS))
    }
}

/// `atan2(y, x)` for a direction other than the zero vector, as a bit pattern.
pub open spec fn atan2_bits(y: i64, x: i64) -> i64 {
    let ratio = if x == 0 { MAX_BITS } else { div_bits(y, x) };
    let (neg, pos) = atan_bits(ratio);
    if y < 0 { neg } else { pos }
}

/// The truncated remainder is smaller in magnitude than a positive divisor
/// and has the sign of the dividend.
pub proof fn lemma_trunc_rem_bound(n: int, d: int)
    requires
        d > 0,
    ensures
        n >= 0 ==> 0 <= trunc_rem(n, d) < d,
        n < 0 ==> -d < trunc_rem(n, d) <= 0,
{
    let q = abs(n) / d;
    assert(abs(d) == d);
    vstd::arithmetic::div_mod::lemma_fundamental_div_mod(abs(n), d);
    if n >= 0 {
        assert(trunc_div(n, d) == q);
    } else {
        assert(trunc_div(n, d) == -q);
        assert(trunc_rem(n, d) == n + d * q) by (nonlinear_arith)
            requires
                trunc_div(n, d) == -q,
                trunc_rem(n, d) == n - d * trunc_div(n, d),
        ;
    }
}

/// Brings an angle into `[-pi/2, pi/2]`; the flag says whether the sine and
/// cosine of the reduced angle must be negated.
pub fn reduce_angle(theta: Q64) -> (r: (Q64, bool))
    ensures
        r.0.bits as int == reduced_angle(theta.bits).0,
        r.1 == reduced_angle(theta.bits).1,
        -HALF_PI_BITS <= r.0.bits <= HALF_PI_BITS,
{
    let rm = theta.rem(Q64::from_bits(TWO_PI_BITS)).bits;
    proof {
        lemma_trunc_rem_bound(theta.bits as int, TWO_PI_BITS as int);
    }
    let mut p: i64 = if rm < 0 { rm + TWO_PI_BITS } else { rm };
    let flip = HALF_PI_BITS < p && p < THREE_HALF_PI_BITS;
    if flip {
        if p < PI_BITS {
            p = p + PI_BITS;
        } else {
            p = p - PI_BITS;
        }
    }
    if p >= THREE_HALF_PI_BITS {
        p = p - TWO_PI_BITS;
    }
    (Q64::from_bits(p), flip)
}

/// Runs the rotation mode from the vector `(1, 0)` by the angle `start`.
fn rotate_unit(start: i64) -> (r: (i64, i64))
    ensures
        r == rotation_from(0, ONE_BITS, 0, start),
{
    let mut x: i64 = ONE_BITS;
    let mut y: i64 = 0;
    let mut remain: i64 = start;
    let mut k: u32 = 0;
    while k < ITERATIONS
        invariant
            k <= 32,
            rotation_from(k as int, x, y, remain) == rotation_from(0, ONE_BITS, 0, start),
        decreases 32 - k,
    {
        let (rad, _) = circle_entry(k);
        let step = narrow_i64(rad);
        if remain > 0 {
            let xv = x.wrapping_sub(y >> k);
            let yv = (x >> k).wrapping_add(y);
            remain = remain.wrapping_sub(step);
            x = xv;
            y = yv;
        } else {
            let xv = x.wrapping_add(y >> k);
            let yv = y.wrapping_sub(x >> k);
            remain = remain.wrapping_add(step);
            x = xv;
            y = yv;
        }
        k = k + 1;
    }
    (x, y)
}

/// Whether the vectoring step turns counter-clockwise.
fn steer(mode: Steer, v: i64, x: i64, y: i64) -> (r: bool)
    ensures
        r == steer_ccw(mode, v, x, y),
{
    match mode {
        Steer::Sine => (x > 0 && v > y) || (x < 0 && v < y),
        Steer::Cosine => (y > 0 && v < x) || (y < 0 && v > x),
        Steer::Tangent => (x > 0 && v > div_i64(y, x)) || (x <= 0 && y < 0),
    }
}

/// Runs the vectoring mode from `(x0, y0)` with accumulator `z0` toward the
/// target `v`, and returns the accumulated angle.
fn vector_toward(mode: Steer, v: i64, x0: i64, y0: i64, z0: i64) -> (r: i64)
    ensures
        r == vectoring_from(mode, v, 0, x0, y0, z0),
{
    let mut x: i64 = x0;
    let mut y: i64 = y0;
    let mut z: i64 = z0;
    let mut k: u32 = 0;
    while k < ITERATIONS
        invariant
            k <= 32,
            vectoring_from(mode, v, k as int, x, y, z) == vectoring_from(mode, v, 0, x0, y0, z0),
        decreases 32 - k,
    {
        let (rad, cos) = circle_entry(k);
        let step = narrow_i64(rad);
        let c = narrow_i64(cos);
        let xv;
        let yv;
        if steer(mode, v, x, y) {
            xv = x.wrapping_sub(y >> k);
            yv = (x >> k).wrapping_add(y);
            z = z.wrapping_add(step);
        } else {
            xv = x.wrapping_add(y >> k);
            yv = y.wrapping_sub(x >> k);
            z = z.wrapping_sub(step);
        }
        x = mul_i64(xv, c);
        y = mul_i64(yv, c);
        k = k + 1;
    }
    z
}

/// Why an inverse trigonometric function has no answer.
#[derive(Clone, Copy, PartialEq, Eq, Structural, Debug)]
pub enum TrigError {
    /// A sine or cosine value outside `[-1, 1]`.
    OutOfDomain,
    /// `atan2` of the zero vector, which has no direction.
    ZeroVector,
}

/// Trigonometric functions.
pub trait QCoordic: Sized {
    /// The `(sin, cos)` pair of an angle in radians.
    spec fn sin_cos_spec(self) -> (Self, Self);

    /// The tangent of an angle in radians.
    spec fn tan_spec(self) -> Self;

    /// Whether the value lies in `[-1, 1]`.
    spec fn unit_range_spec(self) -> bool;

    /// The two angles whose sine is the value.
    spec fn asin_spec(self) -> (Self, Self);

    /// The two angles whose cosine is the value.
    spec fn acos_spec(self) -> (Self, Self);

    /// The two angles whose tangent is the value.
    spec fn atan_spec(self) -> (Self, Self);

    /// Whether `(x, y)` is the zero vector.
    spec fn zero_vector_spec(y: Self, x: Self) -> bool;

    /// The angle of the direction `(x, y)`.
    spec fn atan2_spec(y: Self, x: Self) -> Self;

    /// Returns the Sin and Cos values of an angle in radians as a tuple.
    fn sin_cos(self) -> (r: (Self, Self))
        ensures
            r == self.sin_cos_spec(),
    ;

    /// Returns the Sin value of an angle in radians.
    fn sin(self) -> (r: Self)
        ensures
            r == self.sin_cos_spec().0,
    ;

    /// Returns the Cos value of an angle in radians.
    fn cos(self) -> (r: Self)
        ensures
            r == self.sin_cos_spec().1,
    ;

    /// Returns the Tan value of an angle in radians.
    fn tan(self) -> (r: Self)
        ensures
            r == self.tan_spec(),
    ;

    /// Returns two angles in radians corresponding to the Sin value within
    /// `[-PI, PI]`; a value outside `[-1, 1]` is refused.
    fn asin(self) -> (r: Result<(Self, Self), TrigError>)
        ensures
            self.unit_range_spec() ==> r == Ok::<(Self, Self), TrigError>(self.asin_spec()),
            !self.unit_range_spec() ==> r == Err::<(Self, Self), TrigError>(TrigError::OutOfDomain),
    ;

    /// Returns two angles in radians corresponding to the Cos value within
    /// `[-PI, PI]`; a value outside `[-1, 1]` is refused.
    fn acos(self) -> (r: Result<(Self, Self), TrigError>)
        ensures
            self.unit_range_spec() ==> r == Ok::<(Self, Self), TrigError>(self.acos_spec()),
            !self.unit_range_spec() ==> r == Err::<(Self, Self), TrigError>(TrigError::OutOfDomain),
    ;

    /// Returns two angles in radians corresponding to the Tan value within
    /// `[-PI, PI]`.
    fn atan(self) -> (r: (Self, Self))
        ensures
            r == self.atan_spec(),
    ;

    /// Returns one angle in radians corresponding to the Tan value (y / x)
    /// within `[-PI, PI]`; the zero vector is refused.
    fn atan2(y: Self, x: Self) -> (r: Result<Self, TrigError>)
        ensures
            Self::zero_vector_spec(y, x) ==> r == Err::<Self, TrigError>(TrigError::ZeroVector),
            !Self::zero_vector_spec(y, x) ==> r == Ok::<Self, TrigError>(Self::atan2_spec(y, x)),
    ;
}

impl QCoordic for Q64 {
    open spec fn sin_cos_spec(self) -> (Q64, Q64) {
        let (s, c) = sin_cos_bits(self.bits);
        (Q64 { bits: s }, Q64 { bits: c })
    }

    open spec fn tan_spec(self) -> Q64 {
        Q64 { bits: tan_bits(self.bits) }
    }

    open spec fn unit_range_spec(self) -> bool {
        in_unit_range(self.bits)
    }

    open spec fn asin_spec(self) -> (Q64, Q64) {
        let (a, b) = asin_bits(self.bits);
        (Q64 { bits: a }, Q64 { bits: b })
    }

    open spec fn acos_spec(self) -> (Q64, Q64) {
        let (a, b) = acos_bits(self.bits);
        (Q64 { bits: a }, Q64 { bits: b })
    }

    open spec fn atan_spec(self) -> (Q64, Q64) {
        let (a, b) = atan_bits(self.bits);
        (Q64 { bits: a }, Q64 { bits: b })
    }

    open spec fn zero_vector_spec(y: Q64, x: Q64) -> bool {
        y.bits == 0 && x.bits == 0
    }

    open spec fn atan2_spec(y: Q64, x: Q64) -> Q64 {
        Q64 { bits: atan2_bits(y.bits, x.bits) }
    }

    fn sin_cos(self) -> (r: (Q64, Q64)) {
        let (reduced, flip) = reduce_angle(self);
        let (x, y) = rotate_unit(reduced.bits);
        let k = narrow_i64(GAIN_WIDE_BITS);
        let f = if flip { 0i64.wrapping_sub(k) } else { k };
        (Q64::from_bits(mul_i64(y, f)), Q64::from_bits(mul_i64(x, f)))
    }

    fn sin(self) -> (r: Q64) {
        self.sin_cos().0
    }

    fn cos(self) -> (r: Q64) {
        self.sin_cos().1
    }

    fn tan(self) -> (r: Q64) {
        let (s, c) = self.sin_cos();
        if c.wrapping_abs().bits <= EPS_BITS {
            if s.bits > 0 {
                Q64::max_value()
            } else {
                Q64::min_value()
            }
        } else {
            s.wrapping_div(c)
        }
    }

    fn asin(self) -> (r: Result<(Q64, Q64), TrigError>) {
        if self.bits > ONE_BITS || self.bits < NEG_ONE_BITS {
            return Err(TrigError::OutOfDomain);
        }
        let z = vector_toward(Steer::Sine, self.bits, ONE_BITS, 0, 0);
        if z > 0 {
            Ok((Q64::from_bits(z), Q64::from_bits(0i64.wrapping_sub(z).wrapping_add(PI_BITS))))
        } else {
            Ok((Q64::from_bits(0i64.wrapping_sub(z).wrapping_sub(PI_BITS)), Q64::from_bits(z)))
        }
    }

    fn acos(self) -> (r: Result<(Q64, Q64), TrigError>) {
        if self.bits > ONE_BITS || self.bits < NEG_ONE_BITS {
            return Err(TrigError::OutOfDomain);
        }
        let z = vector_toward(Steer::Cosine, self.bits, 0, ONE_BITS, HALF_PI_BITS);
        Ok((Q64::from_bits(0i64.wrapping_sub(z)), Q64::from_bits(z)))
    }

    fn atan(self) -> (r: (Q64, Q64)) {
        let z = vector_toward(Steer::Tangent, self.bits, ONE_BITS, 0, 0);
        if z > 0 {
            (Q64::from_bits(z.wrapping_sub(PI_BITS)), Q64::from_bits(z))
        } else {
            (Q64::from_bits(z), Q64::from_bits(z.wrapping_add(PI_BITS)))
        }
    }

    fn atan2(y: Q64, x: Q64) -> (r: Result<Q64, TrigError>) {
        if y.bits == 0 && x.bits == 0 {
            return Err(TrigError::ZeroVector);
        }
        let ratio = if x.bits == 0 {
            Q64::max_value()
        } else {
            y.wrapping_div(x)
        };
        let (neg, pos) = ratio.atan();
        if y.bits < 0 {
            Ok(neg)
        } else {
            Ok(pos)
        }
    }
}

/// A vertical direction takes the same path as the largest representable
/// ratio: `atan2(y, 0)` for a positive `y` is the second candidate of
/// `atan(MAX)`, and for a negative `y` the first.
pub proof fn lemma_vertical_ratio(y: Q64)
    requires
        y.bits != 0,
    ensures
        y.bits > 0 ==> Q64::atan2_spec(y, (Q64 { bits: 0 })) == (Q64 { bits: MAX_BITS }).atan_spec().1,
        y.bits < 0 ==> Q64::atan2_spec(y, (Q64 { bits: 0 })) == (Q64 { bits: MAX_BITS }).atan_spec().0,
{
}

/// The reduced angle of every input lies in `[-pi/2, pi/2]`.
pub proof fn lemma_reduced_range(theta: i64)
    ensures
        -HALF_PI_BITS <= reduced_angle(theta).0 <= HALF_PI_BITS,
{
    lemma_trunc_rem_bound(theta as int, TWO_PI_BITS as int);
}

/// The first two steps of the reduction compute the Euclidean remainder of
/// the angle by `2 * pi`.
pub proof fn lemma_reduction_is_euclidean(n: int)
    ensures
        ({
            let rm = trunc_rem(n, TWO_PI_BITS as int);
            let base = if rm < 0 { rm + TWO_PI_BITS } else { rm };
            base == n % (TWO_PI_BITS as int)
        }),
{
    let d = TWO_PI_BITS as int;
    let t = trunc_div(n, d);
    let rm = trunc_rem(n, d);
    lemma_trunc_rem_bound(n, d);
    if rm >= 0 {
        vstd::arithmetic::div_mod::lemma_fundamental_div_mod_converse(n, d, t, rm);
    } else {
        assert(n == (t - 1) * d + (rm + d)) by (nonlinear_arith)
            requires
                rm == n - d * t,
        ;
        vstd::arithmetic::div_mod::lemma_fundamental_div_mod_converse(n, d, t - 1, rm + d);
    }
}

/// Periodicity: turning an angle by a further `2 * pi` gives the same sine
/// and cosine, bit for bit, wherever the sum does not overflow.
pub proof fn lemma_sin_cos_periodic(theta: Q64)
    requires
        theta.bits as int + TWO_PI_BITS as int <= i64::MAX,
    ensures
        theta.sin_cos_spec() == (Q64 { bits: (theta.bits + TWO_PI_BITS) as i64 }).sin_cos_spec(),
{
    let d = TWO_PI_BITS as int;
    let n = theta.bits as int;
    lemma_reduction_is_euclidean(n);
    lemma_reduction_is_euclidean(n + d);
    vstd::arithmetic::div_mod::lemma_mod_add_multiples_vanish(n, d);
    assert(reduced_angle(theta.bits) == reduced_angle((theta.bits + TWO_PI_BITS) as i64));
}

/// `2^33`: two radians in the format, a bound on every accumulated angle.
pub open spec fn two_radians() -> int {
    8589934592
}

/// Each table angle is at most `2^-k` radians, and not negative.
pub proof fn lemma_step_angle_bound(k: int)
    requires
        0 <= k < 32,
    ensures
        0 <= step_angle(k) <= vstd::arithmetic::power2::pow2((32 - k) as nat),
{
    vstd::arithmetic::power2::lemma2_to64();
}

/// The vectoring mode accumulates less than two radians in either direction
/// when it starts from a small enough angle.
pub proof fn lemma_vectoring_bound(mode: Steer, v: i64, k: int, x: i64, y: i64, z: i64)
    requires
        0 <= k <= 32,
        z as int + vstd::arithmetic::power2::pow2((33 - k) as nat) <= two_radians(),
        -two_radians() <= z as int - vstd::arithmetic::power2::pow2((33 - k) as nat),
    ensures
        -two_radians() < vectoring_from(mode, v, k, x, y, z) < two_radians(),
    decreases 32 - k,
{
    vstd::arithmetic::power2::lemma2_to64();
    if k < 32 {
        lemma_step_angle_bound(k);
        vstd::arithmetic::power2::lemma_pow2_adds(1, (32 - k) as nat);
        let ccw = steer_ccw(mode, v, x, y);
        let (xv, yv) = if ccw { turn_ccw(x, y, k) } else { turn_cw(x, y, k) };
        let nz = if ccw { z.wrapping_add(step_angle(k)) } else { z.wrapping_sub(step_angle(k)) };
        let c = step_cos(k);
        lemma_vectoring_bound(mode, v, k + 1, mul_bits(xv, c), mul_bits(yv, c), nz);
    }
}

/// `atan2` of any direction lies in `[-pi, pi]`.
pub proof fn lemma_atan2_range(y: i64, x: i64)
    ensures
        -PI_BITS <= atan2_bits(y, x) <= PI_BITS,
{
    let ratio = if x == 0 { MAX_BITS } else { div_bits(y, x) };
    vstd::arithmetic::power2::lemma2_to64();
    vstd::arithmetic::power2::lemma2_to64_rest();
    lemma_vectoring_bound(Steer::Tangent, ratio, 0, ONE_BITS, 0, 0);
}

/// Both `asin` candidates and both `atan` candidates lie in `[-pi, pi]`.
pub proof fn lemma_candidates_range(v: i64)
    ensures
        -PI_BITS <= asin_bits(v).0 <= PI_BITS,
        -PI_BITS <= asin_bits(v).1 <= PI_BITS,
        -PI_BITS <= atan_bits(v).0 <= PI_BITS,
        -PI_BITS <= atan_bits(v).1 <= PI_BITS,
{
    vstd::arithmetic::power2::lemma2_to64();
    vstd::arithmetic::power2::lemma2_to64_rest();
    lemma_vectoring_bound(Steer::Sine, v, 0, ONE_BITS, 0, 0);
    lemma_vectoring_bound(Steer::Tangent, v, 0, ONE_BITS, 0, 0);
}

} // verus!
