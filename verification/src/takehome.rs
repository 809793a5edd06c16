//! An estimate of monthly take-home pay from a gross annual salary.
//!
//! The estimate is deliberately simple.  One flat rate, chosen by the bracket
//! the gross salary falls in, is applied to the whole taxable income, which is
//! the gross salary less a flat deduction and never negative.  Payroll tax is
//! a flat rate on the gross salary.  What is left of the year's salary is
//! split over twelve months.
use vstd::prelude::*;
use vstd::arithmetic::div_mod::lemma_div_is_ordered;
use crate::fixed::Fixed;
use crate::fixed::SCALE;
use crate::fixed::difference;
use crate::fixed::part;
use crate::fixed::product;

verus! {

/// Highest gross salary taxed at `RATE_FIRST`: 11,600.
pub const BRACKET_FIRST: i64 = 11_600_000_000_000;

/// Highest gross salary taxed at `RATE_SECOND`: 47,150.
pub const BRACKET_SECOND: i64 = 47_150_000_000_000;

/// Highest gross salary taxed at `RATE_THIRD`: 100,525.
pub const BRACKET_THIRD: i64 = 100_525_000_000_000;

/// Highest gross salary taxed at `RATE_FOURTH`: 191,950.
pub const BRACKET_FOURTH: i64 = 191_950_000_000_000;

/// 10%.
pub const RATE_FIRST: i64 = 100_000_000;

/// 12%.
pub const RATE_SECOND: i64 = 120_000_000;

/// 22%.
pub const RATE_THIRD: i64 = 220_000_000;

/// 24%.
pub const RATE_FOURTH: i64 = 240_000_000;

/// 32%, the rate above the last bracket.
pub const RATE_TOP: i64 = 320_000_000;

/// The part of a gross salary that is not taxed as income: 13,850.
pub const STANDARD_DEDUCTION: i64 = 13_850_000_000_000;

/// 7.65%, charged on the gross salary.
pub const PAYROLL_TAX_RATE: i64 = 76_500_000;

/// Pay periods in a year: one a month.
pub const PAY_PERIODS_PER_YEAR: i64 = 12;

/// The flat income-tax rate for a gross salary; each bracket includes its
/// upper bound.
pub open spec fn marginal_rate(gross: int) -> int {
    if gross <= BRACKET_FIRST {
        RATE_FIRST as int
    } else if gross <= BRACKET_SECOND {
        RATE_SECOND as int
    } else if gross <= BRACKET_THIRD {
        RATE_THIRD as int
    } else if gross <= BRACKET_FOURTH {
        RATE_FOURTH as int
    } else {
        RATE_TOP as int
    }
}

/// The gross salary less the deduction, or zero where that is negative.
pub open spec fn taxable_income(gross: int) -> int {
    let above = difference(gross, STANDARD_DEDUCTION as int);
    if above > 0 {
        above
    } else {
        0
    }
}

/// Income tax of a year: the taxable income at the salary's flat rate.
pub open spec fn income_tax(gross: int) -> int {
    product(taxable_income(gross), marginal_rate(gross))
}

/// Payroll tax of a year: the gross salary at the payroll rate.
pub open spec fn payroll_tax(gross: int) -> int {
    product(gross, PAYROLL_TAX_RATE as int)
}

/// Everything withheld from a year's gross salary.
pub open spec fn tax_burden(gross: int) -> int {
    income_tax(gross) + payroll_tax(gross)
}

/// What is left of a year's gross salary after both taxes.
pub open spec fn annual_takehome(gross: int) -> int {
    difference(difference(gross, income_tax(gross)), payroll_tax(gross))
}

/// A twelfth of the year's take-home pay.
pub open spec fn monthly_takehome(gross: int) -> int {
    part(annual_takehome(gross), PAY_PERIODS_PER_YEAR as int)
}

/// The income tax withheld from a gross annual salary.
pub fn estimate_income_tax(gross_salary: Fixed) -> (tax: Fixed)
    ensures
        tax@ == income_tax(gross_salary@),
{
    let tax_rate: i64 = if gross_salary.raw <= BRACKET_FIRST {
        RATE_FIRST
    } else if gross_salary.raw <= BRACKET_SECOND {
        RATE_SECOND
    } else if gross_salary.raw <= BRACKET_THIRD {
        RATE_THIRD
    } else if gross_salary.raw <= BRACKET_FOURTH {
        RATE_FOURTH
    } else {
        RATE_TOP
    };
    let above: Fixed = gross_salary.saturating_sub(Fixed::from_raw(STANDARD_DEDUCTION));
    let taxable: Fixed = if above.raw > 0 {
        above
    } else {
        Fixed::from_raw(0)
    };
    taxable.saturating_mul(Fixed::from_raw(tax_rate))
}

/// The payroll tax withheld from a gross annual salary.
pub fn estimate_payroll_tax(gross_salary: Fixed) -> (tax: Fixed)
    ensures
        tax@ == payroll_tax(gross_salary@),
{
    gross_salary.saturating_mul(Fixed::from_raw(PAYROLL_TAX_RATE))
}

/// The estimated monthly take-home pay for a gross annual salary.
///
/// The result depends on the gross salary alone.  A zero salary gives zero,
/// and a negative one a negative estimate.
pub fn estimate_takehome_pay(gross_salary: Fixed) -> (monthly: Fixed)
    ensures
        monthly@ == monthly_takehome(gross_salary@),
{
    let taxes: Fixed = estimate_income_tax(gross_salary);
    let fica: Fixed = estimate_payroll_tax(gross_salary);
    let annual_takehome: Fixed = gross_salary.saturating_sub(taxes).saturating_sub(fica);
    annual_takehome.div_int(PAY_PERIODS_PER_YEAR)
}

/// A higher gross salary never lowers what is withheld in a year, also
/// where the higher salary falls in a higher bracket.
pub proof fn law_tax_burden_rises_with_salary(lower: Fixed, higher: Fixed)
    requires
        lower@ <= higher@,
    ensures
        income_tax(lower@) <= income_tax(higher@),
        payroll_tax(lower@) <= payroll_tax(higher@),
        tax_burden(lower@) <= tax_burden(higher@),
{
    let t1 = taxable_income(lower@);
    let t2 = taxable_income(higher@);
    let r1 = marginal_rate(lower@);
    let r2 = marginal_rate(higher@);
    assert(t1 * r1 <= t2 * r2) by (nonlinear_arith)
        requires
            0 <= t1 <= t2,
            0 <= r1 <= r2,
    ;
    lemma_div_is_ordered(t1 * r1, t2 * r2, SCALE as int);
    lemma_div_is_ordered(lower@ * PAYROLL_TAX_RATE, higher@ * PAYROLL_TAX_RATE, SCALE as int);
}

} // verus!
