//! Elementary functions on the 32.32 fixed-point scalar.
use vstd::prelude::*;
use crate::fixed_point::{
    div_bits, div_i64, fixed_div_int_bits, fixed_saturating_mul_bits, mul_bits, mul_i64,
    saturating_mul_bits_spec, trunc_div, Q64, EPS_BITS, MAX_BITS, ONE_BITS,
};

verus! {

/// Bits of one half.
pub const HALF_BITS: i64 = 2147483648;
/// Bits of two.
pub const TWO_BITS: i64 = 8589934592;
/// Bits of negative one half.
pub const NEG_HALF_BITS: i64 = -2147483648;
/// Bits of negative two.
pub const NEG_TWO_BITS: i64 = -8589934592;
/// Bits of `-0.0000000002` rounded to the format: the negated smallest
/// positive value.
pub const NEG_DELTA_BITS: i64 = -1;
/// Bits of the literal `-3.1415926535`.
pub const NEG_PI_BITS: i64 = -13493037704;
/// Bits of the literal `-6.283185307`.
pub const NEG_TWO_PI_BITS: i64 = -26986075408;

/// Largest number of Newton steps that `sqrt` takes.
pub const NEWTON_STEPS: u32 = 64;

/// Absolute value of a bit pattern, wrapping for `MIN`.
pub open spec fn wrapping_abs_bits(v: i64) -> i64 {
    if v < 0 { 0i64.wrapping_sub(v) } else { v }
}

/// One Newton step toward the square root of `s`: `(x + s / x) * 0.5`.
pub open spec fn newton_next(s: i64, x: i64) -> i64 {
    mul_bits(x.wrapping_add(div_bits(s, x)), HALF_BITS)
}

/// Newton's method from the estimate `x`: stops at the first estimate whose
/// successor is within the tolerance of it, at a zero estimate, or when the
/// steps run out.
pub open spec fn newton_from(s: i64, x: i64, steps: nat) -> i64
    decreases steps,
{
    if steps == 0 || x == 0 {
        x
    } else if wrapping_abs_bits(newton_next(s, x).wrapping_sub(x)) <= EPS_BITS {
        x
    } else {
        newton_from(s, newton_next(s, x), (steps - 1) as nat)
    }
}

/// Square root by Newton's method, starting from the value itself; zero for
/// zero and for every negative value.
pub open spec fn sqrt_bits(s: i64) -> i64 {
    if s <= 0 {
        0
    } else {
        newton_from(s, s, NEWTON_STEPS as nat)
    }
}

/// `r` multiplied by the base `s` another `m` times, one factor at a time.
pub open spec fn pow_from(s: i64, r: i64, m: nat) -> i64
    decreases m,
{
    if m == 0 {
        r
    } else {
        pow_from(s, mul_bits(r, s), (m - 1) as nat)
    }
}

/// `|n|` factors of the base, multiplied in order starting from one.
pub open spec fn powi_magnitude(s: i64, n: int) -> i64 {
    pow_from(s, ONE_BITS, (if n < 0 { -n } else { n }) as nat)
}

/// `powi` as computed: the product of `|n|` factors of the base, and its
/// reciprocal for a negative exponent.
pub open spec fn powi_bits(s: i64, n: int) -> i64 {
    if n >= 0 {
        powi_magnitude(s, n)
    } else {
        div_bits(ONE_BITS, powi_magnitude(s, n))
    }
}

/// Once a further factor leaves the running product unchanged, every later
/// factor does too.
pub proof fn lemma_pow_settled(s: i64, r: i64, m: nat)
    requires
        mul_bits(r, s) == r,
    ensures
        pow_from(s, r, m) == r,
    decreases m,
{
    if m > 0 {
        lemma_pow_settled(s, r, (m - 1) as nat);
    }
}

/// The truncated exponential series from term `i` on, with the running term
/// and sum.
pub open spec fn exp_from(s: i64, i: int, term: i64, sum: i64) -> i64
    decreases 13 - i,
{
    if i < 1 || i > 12 {
        sum
    } else {
        let t = mul_bits(term, trunc_div(s as int, i) as i64);
        exp_from(s, i + 1, t, sum.wrapping_add(t))
    }
}

/// The exponential as the series `1 + s + s^2/2! + ... + s^12/12!`.
pub open spec fn exp_bits(s: i64) -> i64 {
    exp_from(s, 1, ONE_BITS, ONE_BITS)
}

/// Multiplying by one half in the format halves the value, rounding toward
/// minus infinity, and never saturates.
pub proof fn lemma_times_half(a: int)
    requires
        i64::MIN <= a <= i64::MAX,
    ensures
        saturating_mul_bits_spec(a as i64, HALF_BITS) == a / 2,
{
    let q = a / 2;
    let r = a % 2;
    assert(a * 2147483648 == q * 4294967296 + r * 2147483648) by (nonlinear_arith)
        requires
            a == 2 * q + r,
    ;
    vstd::arithmetic::div_mod::lemma_fundamental_div_mod_converse(
        a * 2147483648,
        4294967296,
        q,
        r * 2147483648,
    );
}

/// Elementary functions.
pub trait QBasic: Sized {
    /// The square root as `sqrt` computes it.
    spec fn sqrt_spec(self) -> Self;

    /// Whether `sqrt` is defined: not where the first Newton step
    /// `x + s / x` overflows.
    spec fn sqrt_defined(self) -> bool;

    /// The power as `powi` computes it.
    spec fn powi_spec(self, n: int) -> Self;

    /// Whether `powi` is defined: not for the lowest exponent, whose magnitude
    /// does not fit, nor where a negative exponent asks for the reciprocal of
    /// zero.
    spec fn powi_defined(self, n: int) -> bool;

    /// The exponential as `exp` computes it.
    spec fn exp_spec(self) -> Self;

    /// Half of the value.
    spec fn half_spec(self) -> Self;

    /// Computes and returns the square root of a number by Newton's method;
    /// zero for negative numbers.
    fn sqrt(self) -> (r: Self)
        requires
            self.sqrt_defined(),
        ensures
            r == self.sqrt_spec(),
    ;

    /// Computes and returns the nth power of a number.
    fn powi(self, n: isize) -> (r: Self)
        requires
            self.powi_defined(n as int),
        ensures
            r == self.powi_spec(n as int),
    ;

    /// Computes and returns the exponential function of a number.
    fn exp(self) -> (r: Self)
        ensures
            r == self.exp_spec(),
    ;

    /// Half of a number.
    fn half(self) -> (r: Self)
        ensures
            r == self.half_spec(),
    ;
}

impl QBasic for Q64 {
    open spec fn sqrt_spec(self) -> Q64 {
        Q64 { bits: sqrt_bits(self.bits) }
    }

    open spec fn sqrt_defined(self) -> bool {
        self.bits <= MAX_BITS - ONE_BITS
    }

    open spec fn powi_spec(self, n: int) -> Q64 {
        Q64 { bits: powi_bits(self.bits, n) }
    }

    open spec fn powi_defined(self, n: int) -> bool {
        n > isize::MIN && (n >= 0 || powi_magnitude(self.bits, n) != 0)
    }

    open spec fn exp_spec(self) -> Q64 {
        Q64 { bits: exp_bits(self.bits) }
    }

    open spec fn half_spec(self) -> Q64 {
        Q64 { bits: (self.bits as int / 2) as i64 }
    }

    fn sqrt(self) -> (r: Q64) {
        if self.bits <= 0 {
            return Q64::zero();
        }
        let s = self.bits;
        let mut x: i64 = s;
        let mut steps: u32 = NEWTON_STEPS;
        while steps > 0 && x != 0
            invariant
                newton_from(s, x, steps as nat) == newton_from(s, s, NEWTON_STEPS as nat),
            ensures
                x == newton_from(s, s, NEWTON_STEPS as nat),
            decreases steps,
        {
            let next = mul_i64(x.wrapping_add(div_i64(s, x)), HALF_BITS);
            let diff = next.wrapping_sub(x);
            let ad = if diff < 0 { 0i64.wrapping_sub(diff) } else { diff };
            if ad <= EPS_BITS {
                break;
            }
            x = next;
            steps = steps - 1;
        }
        Q64::from_bits(x)
    }

    fn powi(self, n: isize) -> (r: Q64) {
        let mut e: usize = if n < 0 { (-n) as usize } else { n as usize };
        let ghost e0: nat = (if n < 0 { -n } else { n as int }) as nat;
        let s = self.bits;
        let mut result: i64 = ONE_BITS;
        while e > 0
            invariant
                pow_from(s, result, e as nat) == pow_from(s, ONE_BITS, e0),
            decreases e,
        {
            let next = mul_i64(result, s);
            if next == result {
                proof {
                    lemma_pow_settled(s, result, e as nat);
                }
                e = 0;
            } else {
                result = next;
                e = e - 1;
            }
        }
        if n < 0 {
            Q64::from_bits(div_i64(ONE_BITS, result))
        } else {
            Q64::from_bits(result)
        }
    }

    fn exp(self) -> (r: Q64) {
        let mut sum: i64 = ONE_BITS;
        let mut term: i64 = ONE_BITS;
        let mut i: i64 = 1;
        while i <= 12
            invariant
                1 <= i <= 13,
                exp_from(self.bits, i as int, term, sum) == exp_bits(self.bits),
            decreases 13 - i,
        {
            let t = fixed_div_int_bits(self.bits, i);
            term = mul_i64(term, t);
            sum = sum.wrapping_add(term);
            i = i + 1;
        }
        Q64::from_bits(sum)
    }

    fn half(self) -> (r: Q64) {
        let h = fixed_saturating_mul_bits(self.bits, HALF_BITS);
        proof {
            lemma_times_half(self.bits as int);
        }
        Q64::from_bits(h)
    }
}

} // verus!
