//! Saturating decimal fixed-point numbers.
//!
//! A [`Fixed`] stores a count of billionths in an `i64`, so it stands for the
//! rational number `raw / SCALE`.  Money, rates and percentages all use
//! this one representation.  Every operation rounds its exact result toward
//! negative infinity to the nearest billionth and then saturates it to the
//! range of `i64`; a division by zero saturates by the sign of the dividend.
//! All contracts are stated over the raw count as a mathematical integer.
use vstd::prelude::*;
use vstd::arithmetic::div_mod::lemma_fundamental_div_mod;
use vstd::arithmetic::div_mod::lemma_fundamental_div_mod_converse;

verus! {

/// Raw units per whole: every value carries nine decimal places.
pub const SCALE: i64 = 1_000_000_000;

/// The largest magnitude a product of two raw counts can have, `2^126`.
pub const PRODUCT_BOUND: i128 = 0x4000_0000_0000_0000_0000_0000_0000_0000;

/// `x` brought into the range of `i64`.
pub open spec fn saturate(x: int) -> int {
    if x < i64::MIN {
        i64::MIN as int
    } else if x > i64::MAX {
        i64::MAX as int
    } else {
        x
    }
}

/// The quotient of `n` by a nonzero `d`, rounded toward negative infinity.
pub open spec fn floor_div(n: int, d: int) -> int {
    if d > 0 {
        n / d
    } else {
        (-n) / (-d)
    }
}

/// The saturated, rounded-down quotient of `n` by `d`.  A zero divisor gives
/// the largest value for a non-negative `n` and the smallest for a negative one.
pub open spec fn quotient(n: int, d: int) -> int {
    if d == 0 {
        if n >= 0 {
            i64::MAX as int
        } else {
            i64::MIN as int
        }
    } else {
        saturate(floor_div(n, d))
    }
}

/// Raw count of the sum of two values.
pub open spec fn sum(a: int, b: int) -> int {
    saturate(a + b)
}

/// Raw count of the difference of two values.
pub open spec fn difference(a: int, b: int) -> int {
    saturate(a - b)
}

/// Raw count of `a * b / c` for three values, rounded once.
pub open spec fn product_ratio(a: int, b: int, c: int) -> int {
    quotient(a * b, c)
}

/// Raw count of the product of two values.
pub open spec fn product(a: int, b: int) -> int {
    product_ratio(a, b, SCALE as int)
}

/// Raw count of the ratio of two values.
pub open spec fn ratio(a: int, b: int) -> int {
    product_ratio(a, SCALE as int, b)
}

/// Raw count of a value taken `n` times.
pub open spec fn multiple(a: int, n: int) -> int {
    saturate(a * n)
}

/// Raw count of a value split into `n` equal parts.
pub open spec fn part(a: int, n: int) -> int {
    quotient(a, n)
}

/// For a negative dividend and a positive divisor, rounding down is one
/// below the negated quotient of the magnitudes.
proof fn lemma_floor_of_negative(n: int, d: int)
    requires
        n < 0,
        d > 0,
    ensures
        n / d == -((-n - 1) / d) - 1,
{
    let m = -n - 1;
    let q = m / d;
    let r = m % d;
    lemma_fundamental_div_mod(m, d);
    assert(n == (-q - 1) * d + (d - r - 1)) by (nonlinear_arith)
        requires
            m == d * q + r,
            n == -m - 1,
    ;
    lemma_fundamental_div_mod_converse(n, d, -q - 1, d - r - 1);
}

/// The quotient of a wide dividend by a raw count, as `quotient` defines it.
fn wide_quotient(n: i128, d: i64) -> (q: i64)
    requires
        -PRODUCT_BOUND <= n <= PRODUCT_BOUND,
    ensures
        q == quotient(n as int, d as int),
{
    if d == 0 {
        return if n >= 0 {
            i64::MAX
        } else {
            i64::MIN
        };
    }
    let num: i128 = if d > 0 {
        n
    } else {
        -n
    };
    let den: i128 = if d > 0 {
        d as i128
    } else {
        -(d as i128)
    };
    let q: i128 = if num >= 0 {
        num / den
    } else {
        proof {
            lemma_floor_of_negative(num as int, den as int);
        }
        -((-num - 1) / den) - 1
    };
    assert(q == floor_div(n as int, d as int));
    if q > i64::MAX as i128 {
        i64::MAX
    } else if q < i64::MIN as i128 {
        i64::MIN
    } else {
        q as i64
    }
}

/// A decimal fixed-point number with nine decimal places.
#[derive(Clone, Copy, Debug, PartialEq, Eq, PartialOrd, Ord, Hash, Structural)]
pub struct Fixed {
    /// The value in billionths.
    pub raw: i64,
}

impl View for Fixed {
    type V = int;

    open spec fn view(&self) -> int {
        self.raw as int
    }
}

impl Fixed {
    /// The value with the given count of billionths.
    pub fn from_raw(raw: i64) -> (r: Fixed)
        ensures
            r@ == raw,
    {
        Fixed { raw }
    }

    /// The whole number `n`, saturated.
    pub fn from_int(n: i64) -> (r: Fixed)
        ensures
            r@ == multiple(SCALE as int, n as int),
    {
        Fixed::from_raw(SCALE).saturating_mul_int(n)
    }

    /// `self + rhs`, saturated.
    pub fn saturating_add(self, rhs: Fixed) -> (r: Fixed)
        ensures
            r@ == sum(self@, rhs@),
    {
        let wide: i128 = self.raw as i128 + rhs.raw as i128;
        Fixed { raw: wide_quotient(wide, 1) }
    }

    /// `self - rhs`, saturated.
    pub fn saturating_sub(self, rhs: Fixed) -> (r: Fixed)
        ensures
            r@ == difference(self@, rhs@),
    {
        let wide: i128 = self.raw as i128 - rhs.raw as i128;
        Fixed { raw: wide_quotient(wide, 1) }
    }

    /// `self * b / c` with a single rounding, saturated.
    pub fn mul_div(self, b: Fixed, c: Fixed) -> (r: Fixed)
        ensures
            r@ == product_ratio(self@, b@, c@),
    {
        assert(-PRODUCT_BOUND <= self.raw * b.raw <= PRODUCT_BOUND) by (nonlinear_arith);
        let wide: i128 = self.raw as i128 * b.raw as i128;
        Fixed { raw: wide_quotient(wide, c.raw) }
    }

    /// `self * rhs`, rounded down and saturated.
    pub fn saturating_mul(self, rhs: Fixed) -> (r: Fixed)
        ensures
            r@ == product(self@, rhs@),
    {
        self.mul_div(rhs, Fixed { raw: SCALE })
    }

    /// `self / rhs`, rounded down and saturated.
    pub fn saturating_div(self, rhs: Fixed) -> (r: Fixed)
        ensures
            r@ == ratio(self@, rhs@),
    {
        self.mul_div(Fixed { raw: SCALE }, rhs)
    }

    /// `self` taken `n` times, saturated.
    pub fn saturating_mul_int(self, n: i64) -> (r: Fixed)
        ensures
            r@ == multiple(self@, n as int),
    {
        assert(-PRODUCT_BOUND <= self.raw * n <= PRODUCT_BOUND) by (nonlinear_arith);
        let wide: i128 = self.raw as i128 * n as i128;
        Fixed { raw: wide_quotient(wide, 1) }
    }

    /// `self` split into `n` equal parts, rounded down and saturated.
    pub fn div_int(self, n: i64) -> (r: Fixed)
        ensures
            r@ == part(self@, n as int),
    {
        Fixed { raw: wide_quotient(self.raw as i128, n) }
    }
}

} // verus!
