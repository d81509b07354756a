//! The 32.32 signed fixed-point scalar: an `i64` bit pattern whose value is
//! `bits / 2^32`. Arithmetic wraps on overflow.
use vstd::prelude::*;

verus! {

/// `2^32`, the scale of the public format.
pub const SCALE: i64 = 4294967296;

/// `2^64`, the modulus of the wrapping arithmetic.
pub open spec fn modulus() -> int {
    18446744073709551616
}

/// The integer `v` wrapped into the two's-complement range of `i64`.
pub open spec fn wrap64(v: int) -> int {
    let m = v % modulus();
    if m >= 9223372036854775808 {
        m - modulus()
    } else {
        m
    }
}

/// Integer division rounding toward zero, as Rust's `/` does.
pub open spec fn trunc_div(n: int, d: int) -> int {
    let q = abs(n) / abs(d);
    if (n < 0) != (d < 0) {
        -q
    } else {
        q
    }
}

/// The remainder that goes with `trunc_div`, as Rust's `%` computes it.
pub open spec fn trunc_rem(n: int, d: int) -> int {
    n - d * trunc_div(n, d)
}

/// Absolute value of an integer.
pub open spec fn abs(n: int) -> int {
    if n < 0 {
        -n
    } else {
        n
    }
}

/// Bits of the fixed-point product `a * b`: the exact product floored to the
/// format, then wrapped.
pub open spec fn mul_bits_spec(a: i64, b: i64) -> int {
    wrap64((a as int * b as int) / (SCALE as int))
}

/// Bits of the fixed-point quotient `a / b`: the exact quotient truncated
/// toward zero, then wrapped.
pub open spec fn div_bits_spec(a: i64, b: i64) -> int {
    wrap64(trunc_div(a as int * (SCALE as int), b as int))
}

/// Bits of a value held with 60 fractional bits, narrowed to 32 fractional
/// bits by discarding the extra bits (rounding toward minus infinity).
pub open spec fn narrow_bits_spec(wide: i64) -> int {
    (wide as int) / 268435456
}

/// `wrap64` lands in the range of `i64`.
pub proof fn lemma_wrap64_range(v: int)
    ensures
        i64::MIN <= wrap64(v) <= i64::MAX,
{
}

/// Narrowing lands in the range of `i64`.
pub proof fn lemma_narrow_range(wide: i64)
    ensures
        i64::MIN <= narrow_bits_spec(wide) <= i64::MAX,
{
}

/// Bits of the fixed-point product, as an `i64`.
pub open spec fn mul_bits(a: i64, b: i64) -> i64 {
    mul_bits_spec(a, b) as i64
}

/// Bits of the fixed-point quotient, as an `i64`.
pub open spec fn div_bits(a: i64, b: i64) -> i64 {
    div_bits_spec(a, b) as i64
}

/// Bits of a 60-fractional-bit value narrowed to the format, as an `i64`.
pub open spec fn narrow_bits(wide: i64) -> i64 {
    narrow_bits_spec(wide) as i64
}

/// Product of two bit patterns.
pub(crate) fn mul_i64(a: i64, b: i64) -> (r: i64)
    ensures
        r == mul_bits(a, b),
{
    let r = fixed_mul_bits(a, b);
    proof {
        lemma_wrap64_range((a as int * b as int) / (SCALE as int));
    }
    r
}

/// Quotient of two bit patterns.
pub(crate) fn div_i64(a: i64, b: i64) -> (r: i64)
    requires
        b != 0,
    ensures
        r == div_bits(a, b),
{
    let r = fixed_div_bits(a, b);
    proof {
        lemma_wrap64_range(trunc_div(a as int * (SCALE as int), b as int));
    }
    r
}

/// A 60-fractional-bit pattern narrowed to the format.
pub(crate) fn narrow_i64(wide: i64) -> (r: i64)
    ensures
        r == narrow_bits(wide),
{
    let r = fixed_narrow_bits(wide);
    proof {
        lemma_narrow_range(wide);
    }
    r
}

/// The fixed-point product `a * b`, clamped to the representable range
/// instead of wrapped.
pub open spec fn saturating_mul_bits_spec(a: i64, b: i64) -> int {
    let p = (a as int * b as int) / (SCALE as int);
    if p > i64::MAX {
        i64::MAX as int
    } else if p < i64::MIN {
        i64::MIN as int
    } else {
        p
    }
}

/// Relies on `fixed::FixedI64::<U32>::saturating_mul`: the product of
/// `wrapping_mul`, or `MIN` / `MAX` by the signs of the operands where it
/// does not fit.
#[verifier::external_body]
pub(crate) fn fixed_saturating_mul_bits(a: i64, b: i64) -> (r: i64)
    ensures
        r as int == saturating_mul_bits_spec(a, b),
{
    let x = fixed::types::I32F32::from_bits(a);
    let y = fixed::types::I32F32::from_bits(b);
    x.saturating_mul(y).to_bits()
}

/// Relies on `Div<i64>` for `fixed::FixedI64::<U32>`: the bit pattern divided
/// by the integer with Rust's truncating `/`.
#[verifier::external_body]
pub(crate) fn fixed_div_int_bits(a: i64, n: i64) -> (r: i64)
    requires
        n > 0,
    ensures
        r as int == trunc_div(a as int, n as int),
{
    let x = fixed::types::I32F32::from_bits(a);
    (x / n).to_bits()
}

/// An integer clamped to the range of `i64`.
pub open spec fn clamp64(v: int) -> int {
    if v > i64::MAX {
        i64::MAX as int
    } else if v < i64::MIN {
        i64::MIN as int
    } else {
        v
    }
}

/// Relies on `fixed::FixedI64::<U32>::saturating_div`: the quotient of
/// `wrapping_div`, or `MIN` / `MAX` by the signs of the operands where it does
/// not fit, that is the exact truncated quotient clamped. It panics on a zero
/// divisor only.
#[verifier::external_body]
fn fixed_saturating_div_bits(a: i64, b: i64) -> (r: i64)
    requires
        b != 0,
    ensures
        r as int == clamp64(trunc_div(a as int * (SCALE as int), b as int)),
{
    let x = fixed::types::I32F32::from_bits(a);
    let y = fixed::types::I32F32::from_bits(b);
    x.saturating_div(y).to_bits()
}

/// Relies on `fixed::FixedI64::<U32>::saturating_mul_add`: the exact
/// `a * m` floored to the format plus `c`, clamped to the representable range.
#[verifier::external_body]
fn fixed_saturating_mul_add_bits(a: i64, m: i64, c: i64) -> (r: i64)
    ensures
        r as int == clamp64((a as int * m as int) / (SCALE as int) + c as int),
{
    let x = fixed::types::I32F32::from_bits(a);
    let y = fixed::types::I32F32::from_bits(m);
    let z = fixed::types::I32F32::from_bits(c);
    x.saturating_mul_add(y, z).to_bits()
}

/// Relies on `fixed::FixedI64::<U32>::saturating_sqrt`: the square root
/// truncated to the format (it never overflows with 32 integer bits). It
/// panics on a negative value only.
#[verifier::external_body]
fn fixed_saturating_sqrt_bits(a: i64) -> (r: i64)
    requires
        a >= 0,
    ensures
        r >= 0,
        r as int * r as int <= a as int * SCALE as int,
        (a as int) * (SCALE as int) < (r as int + 1) * (r as int + 1),
{
    fixed::types::I32F32::from_bits(a).saturating_sqrt().to_bits()
}

/// Relies on `fixed::FixedI64::<U32>::wrapping_floor`: rounds toward minus
/// infinity; it cannot overflow with 32 integer bits.
#[verifier::external_body]
fn fixed_floor_bits(a: i64) -> (r: i64)
    ensures
        r as int == (a as int / SCALE as int) * SCALE as int,
{
    fixed::types::I32F32::from_bits(a).wrapping_floor().to_bits()
}

/// Relies on `fixed::FixedI64::<U32>::wrapping_ceil`: rounds toward plus
/// infinity, wrapping on overflow.
#[verifier::external_body]
fn fixed_ceil_bits(a: i64) -> (r: i64)
    ensures
        r as int == wrap64(((a as int + SCALE as int - 1) / SCALE as int) * SCALE as int),
{
    fixed::types::I32F32::from_bits(a).wrapping_ceil().to_bits()
}

/// Relies on `fixed::FixedI64::<U32>::wrapping_round`: rounds to the nearest
/// integer with ties away from zero, wrapping on overflow.
#[verifier::external_body]
fn fixed_round_bits(a: i64) -> (r: i64)
    ensures
        r as int == wrap64(round_away_spec(a as int)),
{
    fixed::types::I32F32::from_bits(a).wrapping_round().to_bits()
}

/// Relies on `fixed::FixedI64::<U32>::round_to_zero`: rounds toward zero; it
/// cannot overflow.
#[verifier::external_body]
fn fixed_round_to_zero_bits(a: i64) -> (r: i64)
    ensures
        r as int == trunc_div(a as int, SCALE as int) * SCALE as int,
{
    fixed::types::I32F32::from_bits(a).round_to_zero().to_bits()
}

/// Bits rounded to the nearest integer value, ties away from zero.
pub open spec fn round_away_spec(a: int) -> int {
    if a >= 0 {
        ((a + 2147483648) / SCALE as int) * SCALE as int
    } else {
        -(((-a + 2147483648) / SCALE as int) * SCALE as int)
    }
}

/// Relies on `fixed::FixedI64::<U32>::wrapping_mul`: the double-width product
/// shifted right by the fractional bit count, wrapped to 64 bits.
#[verifier::external_body]
fn fixed_mul_bits(a: i64, b: i64) -> (r: i64)
    ensures
        r as int == mul_bits_spec(a, b),
{
    let x = fixed::types::I32F32::from_bits(a);
    let y = fixed::types::I32F32::from_bits(b);
    x.wrapping_mul(y).to_bits()
}

/// Relies on `fixed::FixedI64::<U32>::wrapping_div`: the dividend shifted left
/// by the fractional bit count, divided with truncation, wrapped to 64 bits.
/// It panics on a zero divisor only.
#[verifier::external_body]
fn fixed_div_bits(a: i64, b: i64) -> (r: i64)
    requires
        b != 0,
    ensures
        r as int == div_bits_spec(a, b),
{
    let x = fixed::types::I32F32::from_bits(a);
    let y = fixed::types::I32F32::from_bits(b);
    x.wrapping_div(y).to_bits()
}

/// Relies on `Rem` for `fixed::FixedI64::<U32>` (`checked_rem`): the
/// truncated remainder of the bit patterns, zero for a divisor of `-1`.
/// It panics on a zero divisor only.
#[verifier::external_body]
fn fixed_rem_bits(a: i64, b: i64) -> (r: i64)
    requires
        b != 0,
    ensures
        r as int == trunc_rem(a as int, b as int),
{
    let x = fixed::types::I32F32::from_bits(a);
    let y = fixed::types::I32F32::from_bits(b);
    (x % y).to_bits()
}

/// Relies on `fixed::FixedI64::<U32>::from_num` applied to a
/// `fixed::types::I4F60`: extra fractional bits are discarded, which rounds
/// toward minus infinity; every `I4F60` value fits.
#[verifier::external_body]
pub(crate) fn fixed_narrow_bits(wide: i64) -> (r: i64)
    ensures
        r as int == narrow_bits_spec(wide),
{
    let w = fixed::types::I4F60::from_bits(wide);
    fixed::types::I32F32::from_num(w).to_bits()
}

/// Bits of zero.
pub const ZERO_BITS: i64 = 0;
/// Bits of one.
pub const ONE_BITS: i64 = 4294967296;
/// Bits of negative one.
pub const NEG_ONE_BITS: i64 = -4294967296;
/// Bits of the smallest representable value.
pub const MIN_BITS: i64 = -9223372036854775808;
/// Bits of the largest representable value.
pub const MAX_BITS: i64 = 9223372036854775807;
/// Bits of pi, truncated to the format.
pub const PI_BITS: i64 = 13493037704;
/// Bits of `pi / 2`.
pub const HALF_PI_BITS: i64 = 6746518852;
/// Bits of `3 * pi / 2`.
pub const THREE_HALF_PI_BITS: i64 = 20239556556;
/// Bits of `2 * pi`.
pub const TWO_PI_BITS: i64 = 26986075408;
/// Bits of the comparison tolerance, `1.0e-8` rounded to the format.
pub const EPS_BITS: i64 = 43;

/// A signed 32.32 fixed-point number.
#[derive(Clone, Copy, PartialEq, Eq, Structural, Debug, Hash, Default)]
pub struct Q64 {
    /// The raw two's-complement bit pattern; the value is `bits / 2^32`.
    pub bits: i64,
}

/// Exact real value of a fixed-point number, scaled by `2^32`.
pub open spec fn val(q: Q64) -> int {
    q.bits as int
}

impl Q64 {
    /// Zero.
    pub fn zero() -> (r: Q64)
        ensures
            r.bits == ZERO_BITS,
    {
        Q64 { bits: ZERO_BITS }
    }

    /// One.
    pub fn one() -> (r: Q64)
        ensures
            r.bits == ONE_BITS,
    {
        Q64 { bits: ONE_BITS }
    }

    /// Negative one.
    pub fn neg_one() -> (r: Q64)
        ensures
            r.bits == NEG_ONE_BITS,
    {
        Q64 { bits: NEG_ONE_BITS }
    }

    /// The smallest representable value.
    pub fn min_value() -> (r: Q64)
        ensures
            r.bits == MIN_BITS,
    {
        Q64 { bits: MIN_BITS }
    }

    /// The largest representable value.
    pub fn max_value() -> (r: Q64)
        ensures
            r.bits == MAX_BITS,
    {
        Q64 { bits: MAX_BITS }
    }

    /// Pi, truncated to the format.
    pub fn pi() -> (r: Q64)
        ensures
            r.bits == PI_BITS,
    {
        Q64 { bits: PI_BITS }
    }

    /// Builds a number from its raw bit pattern.
    pub fn from_bits(bits: i64) -> (r: Q64)
        ensures
            r.bits == bits,
    {
        Q64 { bits }
    }

    /// The raw bit pattern.
    pub fn to_bits(self) -> (r: i64)
        ensures
            r == self.bits,
    {
        self.bits
    }

    /// Builds the number equal to an integer; the integer must fit in the
    /// 32 integer bits.
    pub fn from_int(n: i32) -> (r: Q64)
        ensures
            r.bits == n as int * SCALE as int,
    {
        Q64 { bits: (n as i64) * SCALE }
    }

    /// Sum, wrapping on overflow.
    pub fn wrapping_add(self, o: Q64) -> (r: Q64)
        ensures
            r.bits == self.bits.wrapping_add(o.bits),
    {
        Q64 { bits: self.bits.wrapping_add(o.bits) }
    }

    /// Difference, wrapping on overflow.
    pub fn wrapping_sub(self, o: Q64) -> (r: Q64)
        ensures
            r.bits == self.bits.wrapping_sub(o.bits),
    {
        Q64 { bits: self.bits.wrapping_sub(o.bits) }
    }

    /// Negation, wrapping on overflow (only `MIN` wraps, to itself).
    pub fn wrapping_neg(self) -> (r: Q64)
        ensures
            r.bits == 0i64.wrapping_sub(self.bits),
    {
        Q64 { bits: 0i64.wrapping_sub(self.bits) }
    }

    /// Product, wrapping on overflow.
    pub fn wrapping_mul(self, o: Q64) -> (r: Q64)
        ensures
            r.bits == mul_bits(self.bits, o.bits),
    {
        Q64 { bits: mul_i64(self.bits, o.bits) }
    }

    /// Quotient, wrapping on overflow.
    pub fn wrapping_div(self, o: Q64) -> (r: Q64)
        requires
            o.bits != 0,
        ensures
            r.bits == div_bits(self.bits, o.bits),
    {
        Q64 { bits: div_i64(self.bits, o.bits) }
    }

    /// Remainder of the truncated division.
    pub fn rem(self, o: Q64) -> (r: Q64)
        requires
            o.bits != 0,
        ensures
            r.bits as int == trunc_rem(self.bits as int, o.bits as int),
    {
        Q64 { bits: fixed_rem_bits(self.bits, o.bits) }
    }

    /// Division by `2^k`, rounding toward minus infinity.
    pub fn shr(self, k: u32) -> (r: Q64)
        requires
            k < 64,
        ensures
            r.bits == self.bits >> k,
    {
        Q64 { bits: self.bits >> k }
    }

    /// Absolute value, wrapping on overflow (only `MIN` wraps, to itself).
    pub fn wrapping_abs(self) -> (r: Q64)
        ensures
            r.bits == if self.bits < 0 { 0i64.wrapping_sub(self.bits) } else { self.bits },
    {
        if self.bits < 0 {
            self.wrapping_neg()
        } else {
            self
        }
    }

    /// Sum, clamped to the representable range.
    pub fn saturating_add(self, o: Q64) -> (r: Q64)
        ensures
            r.bits as int == clamp64(self.bits as int + o.bits as int),
    {
        let s: i128 = self.bits as i128 + o.bits as i128;
        if s > i64::MAX as i128 {
            Q64 { bits: i64::MAX }
        } else if s < i64::MIN as i128 {
            Q64 { bits: i64::MIN }
        } else {
            Q64 { bits: s as i64 }
        }
    }

    /// Difference, clamped to the representable range.
    pub fn saturating_sub(self, o: Q64) -> (r: Q64)
        ensures
            r.bits as int == clamp64(self.bits as int - o.bits as int),
    {
        let s: i128 = self.bits as i128 - o.bits as i128;
        if s > i64::MAX as i128 {
            Q64 { bits: i64::MAX }
        } else if s < i64::MIN as i128 {
            Q64 { bits: i64::MIN }
        } else {
            Q64 { bits: s as i64 }
        }
    }

    /// Product, clamped to the representable range.
    pub fn saturating_mul(self, o: Q64) -> (r: Q64)
        ensures
            r.bits as int == saturating_mul_bits_spec(self.bits, o.bits),
    {
        Q64 { bits: fixed_saturating_mul_bits(self.bits, o.bits) }
    }

    /// Quotient, clamped to the representable range.
    pub fn saturating_div(self, o: Q64) -> (r: Q64)
        requires
            o.bits != 0,
        ensures
            r.bits as int == clamp64(trunc_div(self.bits as int * (SCALE as int), o.bits as int)),
    {
        Q64 { bits: fixed_saturating_div_bits(self.bits, o.bits) }
    }

    /// Reciprocal, clamped to the representable range.
    pub fn saturating_recip(self) -> (r: Q64)
        requires
            self.bits != 0,
        ensures
            r.bits as int == clamp64(trunc_div(ONE_BITS as int * (SCALE as int), self.bits as int)),
    {
        Q64 { bits: fixed_saturating_div_bits(ONE_BITS, self.bits) }
    }

    /// `self * m + c`, clamped to the representable range.
    pub fn saturating_mul_add(self, m: Q64, c: Q64) -> (r: Q64)
        ensures
            r.bits as int == clamp64((self.bits as int * m.bits as int) / (SCALE as int) + c.bits as int),
    {
        Q64 { bits: fixed_saturating_mul_add_bits(self.bits, m.bits, c.bits) }
    }

    /// Square root, truncated to the format.
    pub fn saturating_sqrt(self) -> (r: Q64)
        requires
            self.bits >= 0,
        ensures
            r.bits >= 0,
            r.bits as int * r.bits as int <= self.bits as int * SCALE as int,
            (self.bits as int) * (SCALE as int) < (r.bits as int + 1) * (r.bits as int + 1),
    {
        Q64 { bits: fixed_saturating_sqrt_bits(self.bits) }
    }

    /// The smaller of two numbers.
    pub fn min(self, o: Q64) -> (r: Q64)
        ensures
            r.bits == if self.bits <= o.bits { self.bits } else { o.bits },
    {
        if self.bits <= o.bits {
            self
        } else {
            o
        }
    }

    /// The larger of two numbers.
    pub fn max(self, o: Q64) -> (r: Q64)
        ensures
            r.bits == if self.bits >= o.bits { self.bits } else { o.bits },
    {
        if self.bits >= o.bits {
            self
        } else {
            o
        }
    }

    /// The number restricted to `[lo, hi]`.
    pub fn clamp(self, lo: Q64, hi: Q64) -> (r: Q64)
        requires
            lo.bits <= hi.bits,
        ensures
            r.bits == if self.bits < lo.bits {
                lo.bits
            } else if self.bits > hi.bits {
                hi.bits
            } else {
                self.bits
            },
    {
        if self.bits < lo.bits {
            lo
        } else if self.bits > hi.bits {
            hi
        } else {
            self
        }
    }

    /// One, zero or negative one by the sign of the number.
    pub fn signum(self) -> (r: Q64)
        ensures
            r.bits == if self.bits > 0 {
                ONE_BITS
            } else if self.bits < 0 {
                NEG_ONE_BITS
            } else {
                0
            },
    {
        if self.bits > 0 {
            Q64 { bits: ONE_BITS }
        } else if self.bits < 0 {
            Q64 { bits: NEG_ONE_BITS }
        } else {
            Q64 { bits: 0 }
        }
    }

    /// Rounded toward minus infinity.
    pub fn floor(self) -> (r: Q64)
        ensures
            r.bits as int == (self.bits as int / SCALE as int) * SCALE as int,
    {
        Q64 { bits: fixed_floor_bits(self.bits) }
    }

    /// Rounded toward plus infinity, wrapping on overflow.
    pub fn ceil(self) -> (r: Q64)
        ensures
            r.bits as int == wrap64(((self.bits as int + SCALE as int - 1) / SCALE as int) * SCALE as int),
    {
        Q64 { bits: fixed_ceil_bits(self.bits) }
    }

    /// Rounded to the nearest integer, ties away from zero, wrapping on
    /// overflow.
    pub fn round(self) -> (r: Q64)
        ensures
            r.bits as int == wrap64(round_away_spec(self.bits as int)),
    {
        Q64 { bits: fixed_round_bits(self.bits) }
    }

    /// Rounded toward zero.
    pub fn round_to_zero(self) -> (r: Q64)
        ensures
            r.bits as int == trunc_div(self.bits as int, SCALE as int) * SCALE as int,
    {
        Q64 { bits: fixed_round_to_zero_bits(self.bits) }
    }

    /// Narrows a value held with 60 fractional bits to this format.
    pub fn from_wide_bits(wide: i64) -> (r: Q64)
        ensures
            r.bits == narrow_bits(wide),
    {
        Q64 { bits: narrow_i64(wide) }
    }
}

} // verus!
