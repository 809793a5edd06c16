//! The fixed monthly payment of a fully amortizing loan.
//!
//! With monthly rate `r` and `n` monthly payments, a principal `p` is repaid
//! by `p * r * (1 + r)^n / ((1 + r)^n - 1)` a month, or by `p / n` when the
//! monthly rate is exactly zero.  The power is built by repeated rounded
//! multiplication; the fraction `r * g / (g - 1)` is rounded once.
use vstd::prelude::*;
use vstd::arithmetic::div_mod::lemma_div_is_ordered;
use vstd::arithmetic::div_mod::lemma_div_is_ordered_by_denominator;
use vstd::arithmetic::div_mod::lemma_div_multiples_vanish;
use vstd::arithmetic::div_mod::lemma_fundamental_div_mod;
use crate::fixed::Fixed;
use crate::fixed::SCALE;
use crate::fixed::difference;
use crate::fixed::part;
use crate::fixed::product;
use crate::fixed::product_ratio;
use crate::fixed::ratio;
use crate::fixed::sum;

verus! {

/// Payments due in each year of a loan's term: one a month.
pub const PAYMENTS_PER_YEAR: i64 = 12;

/// `base` raised to the power `n`, each multiplication rounded.
pub open spec fn compound(base: int, n: nat) -> int
    decreases n,
{
    if n == 0 {
        SCALE as int
    } else {
        product(compound(base, (n - 1) as nat), base)
    }
}

/// `base` raised to the power `n`; a negative power is the reciprocal of the
/// positive one.
pub open spec fn growth_factor(base: int, n: int) -> int {
    if n >= 0 {
        compound(base, n as nat)
    } else {
        ratio(SCALE as int, compound(base, (-n) as nat))
    }
}

/// The rate of one month, a twelfth of the annual rate.
pub open spec fn monthly_rate(annual_rate: int) -> int {
    part(annual_rate, PAYMENTS_PER_YEAR as int)
}

/// The share of the principal due each month, `rate * growth / (growth - 1)`.
pub open spec fn annuity_factor(rate: int, growth: int) -> int {
    product_ratio(rate, growth, difference(growth, SCALE as int))
}

/// The monthly payment that repays `principal` over `years` years at
/// `annual_rate`.
pub open spec fn monthly_payment(principal: int, annual_rate: int, years: int) -> int {
    let rate = monthly_rate(annual_rate);
    let payments = years * PAYMENTS_PER_YEAR;
    if rate == 0 {
        part(principal, payments)
    } else {
        product(
            principal,
            annuity_factor(rate, growth_factor(sum(SCALE as int, rate), payments)),
        )
    }
}

/// A power is a raw count.
pub proof fn lemma_compound_in_range(base: int, n: nat)
    ensures
        i64::MIN <= compound(base, n) <= i64::MAX,
    decreases n,
{
    if n > 0 {
        lemma_compound_in_range(base, (n - 1) as nat);
    }
}

/// Once a power repeats, every higher power equals it.
proof fn lemma_compound_settles(base: int, k: nat, n: nat)
    requires
        compound(base, k + 1) == compound(base, k),
        k <= n,
    ensures
        compound(base, n) == compound(base, k),
    decreases n,
{
    if n > k {
        lemma_compound_settles(base, k, (n - 1) as nat);
    }
}

/// `base` raised to the power `periods`.
fn compound_exec(base: Fixed, periods: u64) -> (r: Fixed)
    ensures
        r@ == compound(base@, periods as nat),
{
    let mut acc: Fixed = Fixed::from_raw(SCALE);
    let mut done: u64 = 0;
    while done < periods
        invariant
            done <= periods,
            acc@ == compound(base@, done as nat),
        decreases periods - done,
    {
        let next: Fixed = acc.saturating_mul(base);
        if next.raw == acc.raw {
            proof {
                lemma_compound_settles(base@, done as nat, periods as nat);
            }
            return acc;
        }
        acc = next;
        done = done + 1;
    }
    acc
}

/// `base` raised to the power `periods`, which may be negative.
fn growth_factor_exec(base: Fixed, periods: i64) -> (r: Fixed)
    requires
        periods > i64::MIN,
    ensures
        r@ == growth_factor(base@, periods as int),
{
    if periods >= 0 {
        compound_exec(base, periods as u64)
    } else {
        let power: Fixed = compound_exec(base, (-periods) as u64);
        Fixed::from_raw(SCALE).saturating_div(power)
    }
}

/// The fixed monthly payment of a loan of `principal` at `annual_rate`, a
/// fraction, over `years` years.
///
/// A monthly rate of exactly zero gives the principal split evenly over the
/// months; a principal of zero gives a payment of zero.
pub fn calculate_monthly_payment(principal: Fixed, annual_rate: Fixed, years: i32) -> (payment:
    Fixed)
    requires
        years != 0,
    ensures
        payment@ == monthly_payment(principal@, annual_rate@, years as int),
        monthly_rate(annual_rate@) == 0 ==> payment@ == part(
            principal@,
            years * PAYMENTS_PER_YEAR,
        ),
        principal@ == 0 ==> payment@ == 0,
{
    let rate: Fixed = annual_rate.div_int(PAYMENTS_PER_YEAR);
    let payments: i64 = years as i64 * PAYMENTS_PER_YEAR;
    if rate.raw == 0 {
        return principal.div_int(payments);
    }
    let base: Fixed = Fixed::from_raw(SCALE).saturating_add(rate);
    let growth: Fixed = growth_factor_exec(base, payments);
    let factor: Fixed = rate.mul_div(growth, growth.saturating_sub(Fixed::from_raw(SCALE)));
    assert(0 * factor@ == 0);
    principal.saturating_mul(factor)
}

/// Fractions with positive denominators round down in the order of their
/// exact values.
proof fn lemma_fraction_order(n1: int, d1: int, n2: int, d2: int)
    requires
        d1 > 0,
        d2 > 0,
        n1 * d2 >= n2 * d1,
    ensures
        n1 / d1 >= n2 / d2,
{
    let q1 = n1 / d1;
    let q2 = n2 / d2;
    lemma_fundamental_div_mod(n1, d1);
    lemma_fundamental_div_mod(n2, d2);
    if q1 < q2 {
        assert(false) by (nonlinear_arith)
            requires
                d1 > 0,
                d2 > 0,
                n1 * d2 >= n2 * d1,
                n1 == d1 * q1 + n1 % d1,
                n2 == d2 * q2 + n2 % d2,
                0 <= n1 % d1 < d1,
                0 <= n2 % d2 < d2,
                q1 + 1 <= q2,
        {
            assert(n1 * d2 < (q1 + 1) * d1 * d2);
            assert((q1 + 1) * d1 * d2 <= q2 * d1 * d2);
            assert(q2 * d1 * d2 <= n2 * d1);
        }
    }
}

/// A product of a non-negative value grows with its other factor.
proof fn lemma_product_ordered(a: int, b1: int, b2: int)
    requires
        a >= 0,
        b1 <= b2,
    ensures
        product(a, b1) <= product(a, b2),
{
    assert(a * b1 <= a * b2) by (nonlinear_arith)
        requires
            a >= 0,
            b1 <= b2,
    ;
    lemma_div_is_ordered(a * b1, a * b2, SCALE as int);
}

/// Powers of a base of at least one never fall from one exponent to the next
/// and never drop below one.
proof fn lemma_compound_nondecreasing(base: int, n: nat)
    requires
        SCALE <= base <= i64::MAX,
    ensures
        SCALE <= compound(base, n) <= compound(base, n + 1),
    decreases n,
{
    let x = compound(base, n);
    lemma_compound_in_range(base, n);
    if n > 0 {
        lemma_compound_nondecreasing(base, (n - 1) as nat);
    }
    assert(x * SCALE <= x * base) by (nonlinear_arith)
        requires
            x >= 0,
            SCALE <= base,
    ;
    lemma_div_is_ordered(x * SCALE, x * base, SCALE as int);
    lemma_div_multiples_vanish(x, SCALE as int);
}

/// Powers of a base of at least one grow with the exponent.
proof fn lemma_compound_ordered(base: int, m: nat, n: nat)
    requires
        SCALE <= base <= i64::MAX,
        m <= n,
    ensures
        compound(base, m) <= compound(base, n),
    decreases n,
{
    if m < n {
        lemma_compound_ordered(base, m, (n - 1) as nat);
        lemma_compound_nondecreasing(base, (n - 1) as nat);
    }
}

/// For a non-negative rate, a larger growth leaves a smaller or equal share
/// of the principal due each month.
proof fn lemma_annuity_factor_ordered(rate: int, g1: int, g2: int)
    requires
        rate >= 0,
        SCALE < g1 <= g2 <= i64::MAX,
    ensures
        annuity_factor(rate, g2) <= annuity_factor(rate, g1),
        0 <= annuity_factor(rate, g2),
{
    let d1 = g1 - SCALE;
    let d2 = g2 - SCALE;
    assert((rate * g1) * d2 >= (rate * g2) * d1) by (nonlinear_arith)
        requires
            rate >= 0,
            SCALE < g1 <= g2,
            d1 == g1 - SCALE,
            d2 == g2 - SCALE,
    ;
    lemma_fraction_order(rate * g1, d1, rate * g2, d2);
    assert(rate * g2 >= 0) by (nonlinear_arith)
        requires
            rate >= 0,
            g2 >= 0,
    ;
    lemma_div_is_ordered(0, rate * g2, d2);
}

/// Over a longer term the monthly payment is never higher: for a
/// non-negative principal and a non-negative annual rate, the payment over
/// `longer` years is at most the payment over `shorter` years.
pub proof fn law_payment_falls_with_term(
    principal: Fixed,
    annual_rate: Fixed,
    shorter: i32,
    longer: i32,
)
    requires
        principal@ >= 0,
        annual_rate@ >= 0,
        0 < shorter <= longer,
    ensures
        monthly_payment(principal@, annual_rate@, longer as int) <= monthly_payment(
            principal@,
            annual_rate@,
            shorter as int,
        ),
{
    let rate = monthly_rate(annual_rate@);
    let n1 = shorter * PAYMENTS_PER_YEAR;
    let n2 = longer * PAYMENTS_PER_YEAR;
    lemma_div_is_ordered(0, annual_rate@, PAYMENTS_PER_YEAR as int);
    lemma_div_is_ordered(annual_rate@, i64::MAX as int, PAYMENTS_PER_YEAR as int);
    if rate == 0 {
        lemma_div_is_ordered_by_denominator(principal@, n1, n2);
    } else {
        let base = sum(SCALE as int, rate);
        let g1 = compound(base, n1 as nat);
        let g2 = compound(base, n2 as nat);
        lemma_compound_ordered(base, 1, n1 as nat);
        lemma_compound_ordered(base, n1 as nat, n2 as nat);
        lemma_compound_in_range(base, n2 as nat);
        assert(compound(base, 1) == base) by {
            assert(compound(base, 0) == SCALE);
            lemma_div_multiples_vanish(base, SCALE as int);
            assert(SCALE * base == base * SCALE) by (nonlinear_arith);
        }
        lemma_annuity_factor_ordered(rate, g1, g2);
        lemma_product_ordered(principal@, annuity_factor(rate, g2), annuity_factor(rate, g1));
    }
}

} // verus!
