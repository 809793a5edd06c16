//! The total cost of tuition over the years of schooling.
//!
//! The first year costs the base amount, taken once per term when tuition is
//! billed by the term.  Each later year costs the year before it times
//! `1 + growth`; growth compounds once a year, never per term.
use vstd::prelude::*;
use vstd::arithmetic::div_mod::lemma_div_is_ordered;
use vstd::arithmetic::div_mod::lemma_div_multiples_vanish;
use crate::fixed::Fixed;
use crate::fixed::SCALE;
use crate::fixed::multiple;
use crate::fixed::product;
use crate::fixed::sum;

verus! {

/// Tuition of the first year: the base amount for each term of the year when
/// billed per term, the base amount itself when billed per year.
pub open spec fn first_year_tuition(base: int, per_term: bool, terms_per_year: int) -> int {
    if per_term {
        multiple(base, terms_per_year)
    } else {
        base
    }
}

/// Tuition of the year after one that cost `current`.
pub open spec fn next_year_tuition(current: int, growth: int) -> int {
    product(current, sum(SCALE as int, growth))
}

/// Tuition of the year with index `year`, counting the first year as 0.
pub open spec fn tuition_in_year(first: int, growth: int, year: nat) -> int
    decreases year,
{
    if year == 0 {
        first
    } else {
        next_year_tuition(tuition_in_year(first, growth, (year - 1) as nat), growth)
    }
}

/// Tuition of the first `years` years together.
pub open spec fn tuition_through(first: int, growth: int, years: nat) -> int
    decreases years,
{
    if years == 0 {
        0
    } else {
        sum(
            tuition_through(first, growth, (years - 1) as nat),
            tuition_in_year(first, growth, (years - 1) as nat),
        )
    }
}

/// The number of years that are billed: none for a count below one.
pub open spec fn billed_years(num_years: int) -> nat {
    if num_years > 0 {
        num_years as nat
    } else {
        0
    }
}

/// The total tuition over `num_years` years.
pub open spec fn total_tuition(
    base: int,
    per_term: bool,
    terms_per_year: int,
    growth: int,
    num_years: int,
) -> int {
    tuition_through(
        first_year_tuition(base, per_term, terms_per_year),
        growth,
        billed_years(num_years),
    )
}

/// Without growth every year costs what the first year cost, and the total
/// is the first year's tuition taken once per year.
proof fn lemma_flat_tuition(first: int, years: nat)
    requires
        i64::MIN <= first <= i64::MAX,
    ensures
        tuition_in_year(first, 0, years) == first,
        tuition_through(first, 0, years) == multiple(first, years as int),
    decreases years,
{
    if years > 0 {
        let before = (years - 1) as nat;
        lemma_flat_tuition(first, before);
        assert(next_year_tuition(first, 0) == first) by {
            lemma_div_multiples_vanish(first, SCALE as int);
            assert(first * SCALE == SCALE * first) by (nonlinear_arith);
        }
        assert(first * years == first * before + first) by (nonlinear_arith)
            requires
                before == years - 1,
        ;
        assert(first >= 0 ==> first * before >= 0) by (nonlinear_arith);
        assert(first <= 0 ==> first * before <= 0) by (nonlinear_arith);
    } else {
        assert(first * 0 == 0);
    }
}

/// While the growth factor is not negative, no year of a non-negative first
/// year costs less than nothing, and the running total never falls.
proof fn lemma_tuition_accumulates(first: int, growth: int, years: nat)
    requires
        0 <= first <= i64::MAX,
        -SCALE <= growth,
    ensures
        0 <= tuition_in_year(first, growth, years) <= i64::MAX,
        0 <= tuition_through(first, growth, years) <= tuition_through(first, growth, years + 1),
        years >= 1 ==> first <= tuition_through(first, growth, years),
    decreases years,
{
    let factor = sum(SCALE as int, growth);
    if years > 0 {
        let before = (years - 1) as nat;
        lemma_tuition_accumulates(first, growth, before);
        let current = tuition_in_year(first, growth, before);
        assert(0 <= current * factor) by (nonlinear_arith)
            requires
                0 <= current,
                0 <= factor,
        ;
        lemma_div_is_ordered(0, current * factor, SCALE as int);
    }
}

/// Schooling of at least a year costs at least the base amount: for a
/// non-negative base, at least one term a year where billed per term, and
/// growth of no less than minus one, the total is no less than the base.
pub proof fn law_total_covers_base(
    base_tuition: Fixed,
    is_per_semester: bool,
    semesters_per_year: i32,
    yearly_increase: Fixed,
    num_yrs_college: i32,
)
    requires
        base_tuition@ >= 0,
        is_per_semester ==> semesters_per_year >= 1,
        yearly_increase@ >= -SCALE,
        num_yrs_college >= 1,
    ensures
        total_tuition(
            base_tuition@,
            is_per_semester,
            semesters_per_year as int,
            yearly_increase@,
            num_yrs_college as int,
        ) >= base_tuition@,
{
    let first = first_year_tuition(base_tuition@, is_per_semester, semesters_per_year as int);
    if is_per_semester {
        assert(base_tuition@ * semesters_per_year >= base_tuition@) by (nonlinear_arith)
            requires
                base_tuition@ >= 0,
                semesters_per_year >= 1,
        ;
    }
    lemma_tuition_accumulates(first, yearly_increase@, num_yrs_college as nat);
}

/// The total tuition over `num_yrs_college` years of schooling.
///
/// `yearly_increase` is the annual growth as a fraction.  A growth of zero
/// gives the first year's tuition once per year, and a year count of zero or
/// less gives a total of zero.
pub fn calculate_total_tuition(
    base_tuition: Fixed,
    is_per_semester: bool,
    semesters_per_year: i32,
    yearly_increase: Fixed,
    num_yrs_college: i32,
) -> (total: Fixed)
    ensures
        total@ == total_tuition(
            base_tuition@,
            is_per_semester,
            semesters_per_year as int,
            yearly_increase@,
            num_yrs_college as int,
        ),
        yearly_increase@ == 0 ==> total@ == multiple(
            first_year_tuition(base_tuition@, is_per_semester, semesters_per_year as int),
            billed_years(num_yrs_college as int) as int,
        ),
        num_yrs_college <= 0 ==> total@ == 0,
{
    let first: Fixed = if is_per_semester {
        base_tuition.saturating_mul_int(semesters_per_year as i64)
    } else {
        base_tuition
    };
    let factor: Fixed = Fixed::from_raw(SCALE).saturating_add(yearly_increase);
    let mut total: Fixed = Fixed::from_raw(0);
    let mut yearly: Fixed = first;
    let mut year: i32 = 0;
    while year < num_yrs_college
        invariant
            0 <= year <= billed_years(num_yrs_college as int),
            factor@ == sum(SCALE as int, yearly_increase@),
            total@ == tuition_through(first@, yearly_increase@, year as nat),
            yearly@ == tuition_in_year(first@, yearly_increase@, year as nat),
        decreases num_yrs_college - year,
    {
        total = total.saturating_add(yearly);
        yearly = yearly.saturating_mul(factor);
        year = year + 1;
    }
    proof {
        if yearly_increase@ == 0 {
            lemma_flat_tuition(first@, billed_years(num_yrs_college as int));
        }
    }
    total
}

} // verus!
