use tuition_loan_feasibility::amortization::calculate_monthly_payment;
use tuition_loan_feasibility::amortization::PAYMENTS_PER_YEAR;
use tuition_loan_feasibility::fixed::Fixed;

const TERMS: [i32; 6] = [5, 10, 15, 20, 25, 30];

fn fx(raw: i64) -> Fixed {
    Fixed::from_raw(raw)
}

fn dollars(x: Fixed) -> f64 {
    x.raw as f64 / 1e9
}

fn float_payment(principal: f64, annual_rate: f64, years: i32) -> f64 {
    let r = annual_rate / 12.0;
    let n = years as f64 * 12.0;
    if r == 0.0 {
        return principal / n;
    }
    principal * (r * (1.0 + r).powf(n)) / ((1.0 + r).powf(n) - 1.0)
}

#[test]
fn twelve_payments_a_year() {
    assert_eq!(PAYMENTS_PER_YEAR, 12);
}

#[test]
fn zero_rate_splits_principal_evenly() {
    let p = Fixed::from_int(12_000);
    assert_eq!(calculate_monthly_payment(p, fx(0), 1).raw, 1_000_000_000_000);
    assert_eq!(calculate_monthly_payment(p, fx(0), 5).raw, 200_000_000_000);
    assert_eq!(calculate_monthly_payment(p, fx(0), 30).raw, 33_333_333_333);
}

#[test]
fn zero_rate_is_principal_over_months_for_many_inputs() {
    for raw in [0i64, 1, 359, 360, 361, 86_202_500_000_000, i64::MAX, -1, -86_202_500_000_000] {
        for years in TERMS {
            let months = years as i64 * 12;
            let expected = raw.div_euclid(months);
            assert_eq!(calculate_monthly_payment(fx(raw), fx(0), years).raw, expected);
        }
    }
}

#[test]
fn annual_rate_below_twelve_billionths_is_a_zero_monthly_rate() {
    let p = Fixed::from_int(12_000);
    for annual in [1i64, 5, 11] {
        assert_eq!(calculate_monthly_payment(p, fx(annual), 1).raw, 1_000_000_000_000);
    }
    assert_ne!(calculate_monthly_payment(p, fx(12), 1).raw, 1_000_000_000_000);
}

#[test]
fn zero_principal_pays_nothing() {
    for annual in [0i64, 1, 12, 90_000_000, 1_000_000_000, i64::MAX, -90_000_000, -24_000_000_000, i64::MIN] {
        for years in [1, 5, 10, 15, 20, 25, 30, -5] {
            assert_eq!(calculate_monthly_payment(fx(0), fx(annual), years).raw, 0);
        }
    }
}

#[test]
fn payment_at_nine_percent_is_exact() {
    let principal = fx(86_202_500_000_000);
    let rate = fx(90_000_000);
    let expected: [i64; 6] = [
        1_789_422_183_090,
        1_091_976_806_342,
        874_323_165_865,
        775_586_218_947,
        723_408_190_507,
        693_604_796_765,
    ];
    for (years, want) in TERMS.iter().zip(expected) {
        assert_eq!(calculate_monthly_payment(principal, rate, *years).raw, want);
    }
}

#[test]
fn payment_is_close_to_the_real_formula() {
    let cases: [(i64, i64); 4] = [
        (86_202_500_000_000, 90_000_000),
        (250_000_000_000_000, 45_000_000),
        (10_000_000_000_000, 68_750_000),
        (40_000_000_000_000, 120_000_000),
    ];
    for (principal, rate) in cases {
        for years in TERMS {
            let got = dollars(calculate_monthly_payment(fx(principal), fx(rate), years));
            let want = float_payment(principal as f64 / 1e9, rate as f64 / 1e9, years);
            assert!((got - want).abs() < 0.001, "{} vs {}", got, want);
        }
    }
}

#[test]
fn payment_falls_as_term_grows() {
    let principal = fx(86_202_500_000_000);
    let rate = fx(90_000_000);
    let mut previous = calculate_monthly_payment(principal, rate, 5);
    for years in [10, 15, 20, 25, 30] {
        let next = calculate_monthly_payment(principal, rate, years);
        assert!(next.raw < previous.raw);
        previous = next;
    }
    assert!(
        calculate_monthly_payment(principal, rate, 5).raw
            > calculate_monthly_payment(principal, rate, 30).raw
    );
}

#[test]
fn payment_never_rises_with_term() {
    let principals = [0i64, 1, 7, 1_000, 5_000_000_000, 86_202_500_000_000, i64::MAX];
    let rates = [0i64, 11, 12, 1_000, 90_000_000, 1_000_000_000, 24_000_000_000, i64::MAX];
    for principal in principals {
        for rate in rates {
            let mut previous = calculate_monthly_payment(fx(principal), fx(rate), 1);
            for years in [2, 5, 10, 15, 20, 25, 30, 100] {
                let next = calculate_monthly_payment(fx(principal), fx(rate), years);
                assert!(next.raw <= previous.raw);
                previous = next;
            }
        }
    }
}

#[test]
fn smallest_principal_pays_the_same_over_every_term() {
    // One billionth cannot be split further: strict decrease needs room.
    let rate = fx(90_000_000);
    for years in TERMS {
        assert_eq!(calculate_monthly_payment(fx(1), rate, years).raw, 0);
    }
}

#[test]
fn payment_with_saturated_growth_is_interest_only() {
    // At 2400% a year the growth factor saturates within a few months,
    // and the payment settles at one month's interest.
    let principal = Fixed::from_int(1_000);
    let rate = Fixed::from_int(24);
    let payment = calculate_monthly_payment(principal, rate, 30);
    assert_eq!(payment.raw, 2_000_000_000_000);
}

#[test]
fn negative_rate_lowers_the_payment_below_straight_line() {
    let principal = Fixed::from_int(12_000);
    let straight = calculate_monthly_payment(principal, fx(0), 1);
    let negative = calculate_monthly_payment(principal, fx(-120_000_000), 1);
    assert_eq!(negative.raw, 936_197_328_000);
    assert!(negative.raw < straight.raw);
    let want = float_payment(12_000.0, -0.12, 1);
    assert!((dollars(negative) - want).abs() < 0.001);
}

#[test]
fn negative_term_uses_the_reciprocal_power() {
    let principal = Fixed::from_int(12_000);
    let payment = calculate_monthly_payment(principal, fx(120_000_000), -1);
    assert_eq!(payment.raw, -946_185_492_000);
    let want = float_payment(12_000.0, 0.12, -1);
    assert!((dollars(payment) - want).abs() < 0.001);
    assert_eq!(calculate_monthly_payment(principal, fx(0), -1).raw, -1_000_000_000_000);
}

#[test]
fn very_long_term_returns() {
    let principal = Fixed::from_int(1_000);
    let payment = calculate_monthly_payment(principal, fx(50_000_000), i32::MAX);
    assert_eq!(payment.raw, 4_166_666_000);
}
