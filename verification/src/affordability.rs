//! Whether a loan for the projected tuition is affordable on the expected
//! salary.
//!
//! An evaluation projects the total tuition, estimates monthly take-home
//! pay, prices the loan over each term of a list, and reports what is left
//! of a month's pay after the lowest payment and the cost of living.  Two
//! independent bandings classify the outcome: one grades a payment by its
//! share of take-home pay, the other grades the money left over.
//!
//! A share of take-home pay is a division, and take-home pay can be zero.
//! Like every division here it then saturates: a non-negative payment
//! against zero take-home pay has the largest share there is, which grades
//! as severe.
use vstd::prelude::*;
use vstd::arithmetic::div_mod::lemma_div_is_ordered;
use crate::amortization::calculate_monthly_payment;
use crate::amortization::law_payment_falls_with_term;
use crate::amortization::monthly_payment;
use crate::fixed::Fixed;
use crate::fixed::SCALE;
use crate::fixed::difference;
use crate::fixed::multiple;
use crate::fixed::part;
use crate::fixed::ratio;
use crate::takehome::estimate_takehome_pay;
use crate::takehome::monthly_takehome;
use crate::tuition::calculate_total_tuition;
use crate::tuition::total_tuition;
use crate::tuition::tuition_through;

verus! {

/// Percentage points in a whole.
pub const PERCENT: i64 = 100;

/// Highest share of take-home pay, in percent, graded low: 15.
pub const SHARE_LOW_MAX: i64 = 15_000_000_000;

/// Highest share of take-home pay, in percent, graded moderate: 33.333.
pub const SHARE_MODERATE_MAX: i64 = 33_333_000_000;

/// Highest share of take-home pay, in percent, graded high: 50.
pub const SHARE_HIGH_MAX: i64 = 50_000_000_000;

/// Money left over below which the margin is very low: 500.
pub const MARGIN_VERY_LOW_BELOW: i64 = 500_000_000_000;

/// Money left over below which the margin is low: 1000.
pub const MARGIN_LOW_BELOW: i64 = 1_000_000_000_000;

/// How tuition is billed.
#[derive(Clone, Copy, Debug, PartialEq, Eq, Structural)]
pub enum BillingPeriod {
    /// The tuition amount is charged once per semester.
    PerSemester,
    /// The tuition amount is charged once per year.
    PerYear,
}

/// What an evaluation is computed from.
#[derive(Clone, Copy, Debug, PartialEq, Eq, Structural)]
pub struct FormData {
    /// Tuition for one billing period.
    pub current_tuition: Fixed,
    /// Whether `current_tuition` is per semester or per year.
    pub tuition_period: BillingPeriod,
    /// Semesters in a year; used only when billed per semester.
    pub semesters_per_year: i32,
    /// Years of schooling.
    pub number_yrs_college: i32,
    /// Annual tuition growth in percent.
    pub tuition_hike: Fixed,
    /// Annual loan interest in percent.
    pub interest_rate: Fixed,
    /// Gross annual salary.
    pub expected_salary: Fixed,
    /// Fixed monthly cost of living.
    pub cost_of_living: Fixed,
}

/// The loan priced over one term.
#[derive(Clone, Copy, Debug, PartialEq, Eq, Structural)]
pub struct PaymentResult {
    /// Length of the term in years.
    pub term: i32,
    /// The fixed monthly payment.
    pub monthly_payment: Fixed,
    /// The payment as a percentage of monthly take-home pay.
    pub percent_of_takehome: Fixed,
}

/// The outcome of an evaluation.
#[derive(Clone, Debug, PartialEq, Eq)]
pub struct CalculationResults {
    /// Tuition over all years of schooling.
    pub total_tuition: Fixed,
    /// Estimated monthly take-home pay.
    pub monthly_takehome: Fixed,
    /// One row per loan term, in the order of the terms.
    pub payments: Vec<PaymentResult>,
    /// The lowest monthly payment of all rows, zero when there is none.
    pub lowest_payment: Fixed,
    /// Take-home pay less the lowest payment and the cost of living.
    pub remaining_money: Fixed,
}

/// Grade of a payment by its share of take-home pay.
#[derive(Clone, Copy, Debug, PartialEq, Eq, Structural)]
pub enum SeverityBand {
    /// At most 15%.
    Low,
    /// Above 15% and at most 33.333%.
    Moderate,
    /// Above 33.333% and at most 50%.
    High,
    /// Above 50%.
    Severe,
}

/// Grade of the money left over each month.
#[derive(Clone, Copy, Debug, PartialEq, Eq, Structural)]
pub enum MarginBand {
    /// Less than nothing is left: expenses exceed income.
    Deficit,
    /// Less than 500 is left.
    VeryLowMargin,
    /// Less than 1000 is left.
    LowMargin,
    /// At least 1000 is left.
    Sustainable,
}

/// The band of a share of take-home pay given in percent; each band
/// includes its upper bound.
pub open spec fn severity_band(share: int) -> SeverityBand {
    if share <= SHARE_LOW_MAX {
        SeverityBand::Low
    } else if share <= SHARE_MODERATE_MAX {
        SeverityBand::Moderate
    } else if share <= SHARE_HIGH_MAX {
        SeverityBand::High
    } else {
        SeverityBand::Severe
    }
}

/// The band of an amount left over; each band excludes its upper bound.
pub open spec fn margin_band(remaining: int) -> MarginBand {
    if remaining < 0 {
        MarginBand::Deficit
    } else if remaining < MARGIN_VERY_LOW_BELOW {
        MarginBand::VeryLowMargin
    } else if remaining < MARGIN_LOW_BELOW {
        MarginBand::LowMargin
    } else {
        MarginBand::Sustainable
    }
}

/// The style class that marks a band.
pub open spec fn band_color(band: SeverityBand) -> Seq<char> {
    match band {
        SeverityBand::Low => "bg-green"@,
        SeverityBand::Moderate => "bg-yellow"@,
        SeverityBand::High => "bg-orange"@,
        SeverityBand::Severe => "bg-red"@,
    }
}

/// The advice that goes with a band.
pub open spec fn band_message(band: MarginBand) -> Seq<char> {
    match band {
        MarginBand::Deficit => "Warning: Your estimated expenses exceed your take-home pay!"@,
        MarginBand::VeryLowMargin => "Caution: Your remaining monthly income is very low!"@,
        MarginBand::LowMargin => "Caution: Your remaining monthly income is low!"@,
        MarginBand::Sustainable => "Your financial plan appears sustainable!"@,
    }
}

/// The style class of the advice that goes with a band.
pub open spec fn band_alert(band: MarginBand) -> Seq<char> {
    match band {
        MarginBand::Deficit => "alert alert-error"@,
        MarginBand::VeryLowMargin => "alert alert-warning"@,
        MarginBand::LowMargin => "alert alert-warning"@,
        MarginBand::Sustainable => "alert alert-success"@,
    }
}

/// The loan terms, in years, that an evaluation prices by default.
pub open spec fn loan_terms() -> Seq<i32> {
    seq![5i32, 10i32, 15i32, 20i32, 25i32, 30i32]
}

/// A rate given in percent, as a fraction.
pub open spec fn fraction_of_percent(percent: int) -> int {
    part(percent, PERCENT as int)
}

/// A payment as a percentage of take-home pay.
pub open spec fn percent_of_takehome(payment: int, takehome: int) -> int {
    multiple(ratio(payment, takehome), PERCENT as int)
}

/// The total tuition that the form describes.
pub open spec fn form_total_tuition(form: FormData) -> int {
    total_tuition(
        form.current_tuition@,
        form.tuition_period == BillingPeriod::PerSemester,
        form.semesters_per_year as int,
        fraction_of_percent(form.tuition_hike@),
        form.number_yrs_college as int,
    )
}

/// The monthly take-home pay on the form's salary.
pub open spec fn form_takehome(form: FormData) -> int {
    monthly_takehome(form.expected_salary@)
}

/// The monthly payment on the form's total tuition over `term` years.
pub open spec fn form_payment(form: FormData, term: int) -> int {
    monthly_payment(form_total_tuition(form), fraction_of_percent(form.interest_rate@), term)
}

/// Whether `row` prices the form's loan over `term` years.
pub open spec fn is_payment_row(form: FormData, term: i32, row: PaymentResult) -> bool {
    &&& row.term == term
    &&& row.monthly_payment@ == form_payment(form, term as int)
    &&& row.percent_of_takehome@ == percent_of_takehome(
        form_payment(form, term as int),
        form_takehome(form),
    )
}

/// Whether `lowest` is the lowest monthly payment among `rows`: one of
/// their payments that none of them undercuts, or zero when there are none.
pub open spec fn is_lowest_payment(rows: Seq<PaymentResult>, lowest: int) -> bool {
    if rows.len() == 0 {
        lowest == 0
    } else {
        &&& exists|i: int| 0 <= i < rows.len() && #[trigger] rows[i].monthly_payment@ == lowest
        &&& forall|i: int| 0 <= i < rows.len() ==> lowest <= #[trigger] rows[i].monthly_payment@
    }
}

/// Whether `results` is the evaluation of `form` over the loan terms
/// `terms`.
pub open spec fn is_evaluation(form: FormData, terms: Seq<i32>, results: CalculationResults) -> bool {
    &&& results.total_tuition@ == form_total_tuition(form)
    &&& results.monthly_takehome@ == form_takehome(form)
    &&& results.payments@.len() == terms.len()
    &&& forall|i: int|
        0 <= i < terms.len() ==> is_payment_row(form, terms[i], #[trigger] results.payments@[i])
    &&& is_lowest_payment(results.payments@, results.lowest_payment@)
    &&& results.remaining_money@ == difference(
        difference(form_takehome(form), results.lowest_payment@),
        form.cost_of_living@,
    )
}

/// The lowest monthly payment among `rows`, zero when there are none.
pub fn lowest_payment(rows: &Vec<PaymentResult>) -> (lowest: Fixed)
    ensures
        is_lowest_payment(rows@, lowest@),
{
    if rows.len() == 0 {
        return Fixed::from_raw(0);
    }
    let mut lowest: Fixed = rows[0].monthly_payment;
    let mut seen: usize = 1;
    let ghost mut at: int = 0;
    while seen < rows.len()
        invariant
            1 <= seen <= rows.len(),
            0 <= at < seen,
            rows@[at].monthly_payment@ == lowest@,
            forall|i: int| 0 <= i < seen ==> lowest@ <= #[trigger] rows@[i].monthly_payment@,
        decreases rows.len() - seen,
    {
        if rows[seen].monthly_payment.raw < lowest.raw {
            lowest = rows[seen].monthly_payment;
            proof {
                at = seen as int;
            }
        }
        seen = seen + 1;
    }
    lowest
}

/// The loan terms, in years, that an evaluation prices by default.
pub fn default_loan_terms() -> (terms: Vec<i32>)
    ensures
        terms@ == loan_terms(),
{
    let mut terms: Vec<i32> = Vec::new();
    terms.push(5);
    terms.push(10);
    terms.push(15);
    terms.push(20);
    terms.push(25);
    terms.push(30);
    terms
}

/// Evaluates `form` over the given loan terms, none of which may be zero.
///
/// The growth and interest rates of the form are percentages; they enter
/// the projection and the payment formula as fractions.
pub fn calculate_results_for_terms(form: &FormData, terms: &Vec<i32>) -> (results:
    CalculationResults)
    requires
        forall|i: int| 0 <= i < terms@.len() ==> terms@[i] != 0,
    ensures
        is_evaluation(*form, terms@, results),
{
    let is_per_semester: bool = match form.tuition_period {
        BillingPeriod::PerSemester => true,
        BillingPeriod::PerYear => false,
    };
    let total_tuition: Fixed = calculate_total_tuition(
        form.current_tuition,
        is_per_semester,
        form.semesters_per_year,
        form.tuition_hike.div_int(PERCENT),
        form.number_yrs_college,
    );
    let monthly_takehome: Fixed = estimate_takehome_pay(form.expected_salary);
    let rate: Fixed = form.interest_rate.div_int(PERCENT);
    let mut payments: Vec<PaymentResult> = Vec::new();
    let mut done: usize = 0;
    while done < terms.len()
        invariant
            done <= terms.len(),
            payments@.len() == done,
            total_tuition@ == form_total_tuition(*form),
            monthly_takehome@ == form_takehome(*form),
            rate@ == fraction_of_percent(form.interest_rate@),
            forall|i: int| 0 <= i < terms@.len() ==> terms@[i] != 0,
            forall|i: int|
                0 <= i < done ==> is_payment_row(*form, terms@[i], #[trigger] payments@[i]),
        decreases terms.len() - done,
    {
        let years: i32 = terms[done];
        let monthly_payment: Fixed = calculate_monthly_payment(total_tuition, rate, years);
        payments.push(
            PaymentResult {
                term: years,
                monthly_payment,
                percent_of_takehome: monthly_payment.saturating_div(
                    monthly_takehome,
                ).saturating_mul_int(PERCENT),
            },
        );
        done = done + 1;
    }
    let lowest_payment: Fixed = lowest_payment(&payments);
    let remaining_money: Fixed = monthly_takehome.saturating_sub(lowest_payment).saturating_sub(
        form.cost_of_living,
    );
    CalculationResults {
        total_tuition,
        monthly_takehome,
        payments,
        lowest_payment,
        remaining_money,
    }
}

/// Evaluates `form` over the default loan terms.
pub fn calculate_results(form: &FormData) -> (results: CalculationResults)
    ensures
        is_evaluation(*form, loan_terms(), results),
{
    let terms: Vec<i32> = default_loan_terms();
    calculate_results_for_terms(form, &terms)
}

/// Two evaluations of the same form over the same terms agree in every
/// field and every row.
pub proof fn law_evaluation_is_repeatable(
    form: FormData,
    terms: Seq<i32>,
    first: CalculationResults,
    second: CalculationResults,
)
    requires
        is_evaluation(form, terms, first),
        is_evaluation(form, terms, second),
    ensures
        first.total_tuition == second.total_tuition,
        first.monthly_takehome == second.monthly_takehome,
        first.payments@ == second.payments@,
        first.lowest_payment == second.lowest_payment,
        first.remaining_money == second.remaining_money,
{
    assert forall|i: int| 0 <= i < terms.len() implies first.payments@[i] == second.payments@[i] by {
        assert(is_payment_row(form, terms[i], first.payments@[i]));
        assert(is_payment_row(form, terms[i], second.payments@[i]));
    }
    assert(first.payments@ =~= second.payments@);
}

/// Over the default terms, with a total tuition and an interest rate that
/// are not negative, the lowest payment is that of the longest term.
pub proof fn law_lowest_payment_is_longest_term(form: FormData, results: CalculationResults)
    requires
        is_evaluation(form, loan_terms(), results),
        form_total_tuition(form) >= 0,
        form.interest_rate@ >= 0,
    ensures
        results.lowest_payment@ == form_payment(form, 30),
{
    let rows = results.payments@;
    let rate = fraction_of_percent(form.interest_rate@);
    lemma_div_is_ordered(0, form.interest_rate@, PERCENT as int);
    lemma_div_is_ordered(form.interest_rate@, i64::MAX as int, PERCENT as int);
    lemma_total_tuition_in_range(form);
    let principal = Fixed { raw: form_total_tuition(form) as i64 };
    let annual = Fixed { raw: rate as i64 };
    let at = choose|i: int| 0 <= i < rows.len() && #[trigger] rows[i].monthly_payment@ == results.lowest_payment@;
    assert(is_payment_row(form, loan_terms()[at], rows[at]));
    assert(is_payment_row(form, loan_terms()[5], rows[5]));
    law_payment_falls_with_term(principal, annual, loan_terms()[at], 30);
}

/// A payment that is not negative, set against take-home pay of zero,
/// has the largest share there is and grades as severe.
pub proof fn law_zero_takehome_is_severe(payment: Fixed)
    requires
        payment@ >= 0,
    ensures
        percent_of_takehome(payment@, 0) == i64::MAX,
        severity_band(percent_of_takehome(payment@, 0)) == SeverityBand::Severe,
{
    assert(payment@ * SCALE >= 0) by (nonlinear_arith)
        requires
            payment@ >= 0,
    ;
}

/// The total tuition of a form is a raw count.
proof fn lemma_total_tuition_in_range(form: FormData)
    ensures
        i64::MIN <= form_total_tuition(form) <= i64::MAX,
{
    reveal_with_fuel(tuition_through, 2);
}

/// The band of a share of take-home pay given in percent.
pub fn classify_ratio(ratio: Fixed) -> (band: SeverityBand)
    ensures
        band == severity_band(ratio@),
{
    if ratio.raw <= SHARE_LOW_MAX {
        SeverityBand::Low
    } else if ratio.raw <= SHARE_MODERATE_MAX {
        SeverityBand::Moderate
    } else if ratio.raw <= SHARE_HIGH_MAX {
        SeverityBand::High
    } else {
        SeverityBand::Severe
    }
}

/// The band of an amount left over each month.
pub fn classify_remaining(remaining: Fixed) -> (band: MarginBand)
    ensures
        band == margin_band(remaining@),
{
    if remaining.raw < 0 {
        MarginBand::Deficit
    } else if remaining.raw < MARGIN_VERY_LOW_BELOW {
        MarginBand::VeryLowMargin
    } else if remaining.raw < MARGIN_LOW_BELOW {
        MarginBand::LowMargin
    } else {
        MarginBand::Sustainable
    }
}

impl PaymentResult {
    /// The band of this row's share of take-home pay.
    pub fn band(&self) -> (band: SeverityBand)
        ensures
            band == severity_band(self.percent_of_takehome@),
    {
        classify_ratio(self.percent_of_takehome)
    }
}

impl CalculationResults {
    /// The band of the money left over each month.
    pub fn outcome(&self) -> (band: MarginBand)
        ensures
            band == margin_band(self.remaining_money@),
    {
        classify_remaining(self.remaining_money)
    }
}

impl SeverityBand {
    /// The style class that marks this band.
    pub fn color(self) -> (class: &'static str)
        ensures
            class@ == band_color(self),
    {
        match self {
            SeverityBand::Low => "bg-green",
            SeverityBand::Moderate => "bg-yellow",
            SeverityBand::High => "bg-orange",
            SeverityBand::Severe => "bg-red",
        }
    }
}

impl MarginBand {
    /// The advice that goes with this band.
    pub fn message(self) -> (text: &'static str)
        ensures
            text@ == band_message(self),
    {
        match self {
            MarginBand::Deficit => "Warning: Your estimated expenses exceed your take-home pay!",
            MarginBand::VeryLowMargin => "Caution: Your remaining monthly income is very low!",
            MarginBand::LowMargin => "Caution: Your remaining monthly income is low!",
            MarginBand::Sustainable => "Your financial plan appears sustainable!",
        }
    }

    /// The style class of the advice that goes with this band.
    pub fn alert_class(self) -> (class: &'static str)
        ensures
            class@ == band_alert(self),
    {
        match self {
            MarginBand::Deficit => "alert alert-error",
            MarginBand::VeryLowMargin => "alert alert-warning",
            MarginBand::LowMargin => "alert alert-warning",
            MarginBand::Sustainable => "alert alert-success",
        }
    }
}

/// The style class for a share of take-home pay given in percent.
pub fn get_color_for_ratio(ratio: Fixed) -> (class: &'static str)
    ensures
        class@ == band_color(severity_band(ratio@)),
{
    classify_ratio(ratio).color()
}

} // verus!
