use tuition_loan_feasibility::fixed::Fixed;
use tuition_loan_feasibility::fixed::SCALE;

fn fx(raw: i64) -> Fixed {
    Fixed::from_raw(raw)
}

#[test]
fn scale_is_one_billion() {
    assert_eq!(SCALE, 1_000_000_000);
    assert_eq!(Fixed::from_int(1).raw, SCALE);
}

#[test]
fn from_int_scales_whole_numbers() {
    assert_eq!(Fixed::from_int(0).raw, 0);
    assert_eq!(Fixed::from_int(10_000).raw, 10_000_000_000_000);
    assert_eq!(Fixed::from_int(-3).raw, -3_000_000_000);
}

#[test]
fn from_int_saturates() {
    assert_eq!(Fixed::from_int(i64::MAX).raw, i64::MAX);
    assert_eq!(Fixed::from_int(10_000_000_000).raw, i64::MAX);
    assert_eq!(Fixed::from_int(i64::MIN).raw, i64::MIN);
    assert_eq!(Fixed::from_int(9_223_372_036).raw, 9_223_372_036_000_000_000);
}

#[test]
fn add_and_sub_are_exact_in_range() {
    assert_eq!(fx(1_500_000_000).saturating_add(fx(2_250_000_000)).raw, 3_750_000_000);
    assert_eq!(fx(1_500_000_000).saturating_sub(fx(2_250_000_000)).raw, -750_000_000);
}

#[test]
fn add_and_sub_saturate() {
    assert_eq!(fx(i64::MAX).saturating_add(fx(1)).raw, i64::MAX);
    assert_eq!(fx(i64::MIN).saturating_add(fx(-1)).raw, i64::MIN);
    assert_eq!(fx(i64::MIN).saturating_sub(fx(1)).raw, i64::MIN);
    assert_eq!(fx(0).saturating_sub(fx(i64::MIN)).raw, i64::MAX);
    assert_eq!(fx(i64::MAX).saturating_sub(fx(i64::MAX)).raw, 0);
}

#[test]
fn mul_rounds_toward_negative_infinity() {
    // 0.000000001 * 0.5 is half a billionth.
    assert_eq!(fx(1).saturating_mul(fx(500_000_000)).raw, 0);
    assert_eq!(fx(-1).saturating_mul(fx(500_000_000)).raw, -1);
    assert_eq!(fx(3).saturating_mul(fx(500_000_000)).raw, 1);
    assert_eq!(fx(-3).saturating_mul(fx(500_000_000)).raw, -2);
}

#[test]
fn mul_is_exact_on_representable_products() {
    assert_eq!(Fixed::from_int(20_000).saturating_mul(fx(1_050_000_000)).raw, 21_000_000_000_000);
    assert_eq!(fx(-2_500_000_000).saturating_mul(fx(4_000_000_000)).raw, -10_000_000_000);
    assert_eq!(fx(-2_500_000_000).saturating_mul(fx(-4_000_000_000)).raw, 10_000_000_000);
}

#[test]
fn mul_by_one_is_identity() {
    for raw in [0, 1, -1, 123_456_789_012, i64::MAX, i64::MIN] {
        assert_eq!(fx(raw).saturating_mul(Fixed::from_int(1)).raw, raw);
    }
}

#[test]
fn mul_saturates() {
    assert_eq!(fx(i64::MAX).saturating_mul(Fixed::from_int(2)).raw, i64::MAX);
    assert_eq!(fx(i64::MAX).saturating_mul(Fixed::from_int(-2)).raw, i64::MIN);
    assert_eq!(fx(i64::MIN).saturating_mul(fx(i64::MIN)).raw, i64::MAX);
}

#[test]
fn div_rounds_toward_negative_infinity() {
    assert_eq!(Fixed::from_int(1).saturating_div(Fixed::from_int(3)).raw, 333_333_333);
    assert_eq!(Fixed::from_int(-1).saturating_div(Fixed::from_int(3)).raw, -333_333_334);
    assert_eq!(Fixed::from_int(1).saturating_div(Fixed::from_int(-3)).raw, -333_333_334);
    assert_eq!(Fixed::from_int(-1).saturating_div(Fixed::from_int(-3)).raw, 333_333_333);
    assert_eq!(Fixed::from_int(6).saturating_div(Fixed::from_int(-3)).raw, -2_000_000_000);
}

#[test]
fn div_by_zero_saturates_by_sign_of_dividend() {
    assert_eq!(Fixed::from_int(5).saturating_div(fx(0)).raw, i64::MAX);
    assert_eq!(fx(0).saturating_div(fx(0)).raw, i64::MAX);
    assert_eq!(Fixed::from_int(-5).saturating_div(fx(0)).raw, i64::MIN);
    assert_eq!(fx(7).div_int(0).raw, i64::MAX);
    assert_eq!(fx(-7).div_int(0).raw, i64::MIN);
}

#[test]
fn div_saturates() {
    assert_eq!(fx(i64::MAX).saturating_div(fx(1)).raw, i64::MAX);
    assert_eq!(fx(i64::MIN).saturating_div(fx(1)).raw, i64::MIN);
    assert_eq!(fx(i64::MIN).saturating_div(Fixed::from_int(-1)).raw, i64::MAX);
}

#[test]
fn mul_div_rounds_once() {
    // 1 * 1 / 3 and 2 * 1 / 3, each rounded a single time.
    let one = Fixed::from_int(1);
    assert_eq!(one.mul_div(one, Fixed::from_int(3)).raw, 333_333_333);
    // (0.000000001 * 0.5) / 0.5 is exact, though the product alone rounds to zero.
    assert_eq!(fx(1).mul_div(fx(500_000_000), fx(500_000_000)).raw, 1);
    assert_eq!(fx(1).saturating_mul(fx(500_000_000)).saturating_div(fx(500_000_000)).raw, 0);
    assert_eq!(fx(7).mul_div(fx(3), fx(0)).raw, i64::MAX);
    assert_eq!(fx(-7).mul_div(fx(3), fx(0)).raw, i64::MIN);
}

#[test]
fn mul_int_and_div_int() {
    assert_eq!(Fixed::from_int(10_000).saturating_mul_int(2).raw, 20_000_000_000_000);
    assert_eq!(fx(i64::MAX).saturating_mul_int(2).raw, i64::MAX);
    assert_eq!(fx(i64::MAX).saturating_mul_int(-2).raw, i64::MIN);
    assert_eq!(fx(38_222_000_000_000).div_int(12).raw, 3_185_166_666_666);
    assert_eq!(fx(-38_222_000_000_000).div_int(12).raw, -3_185_166_666_667);
    assert_eq!(fx(38_222_000_000_000).div_int(-12).raw, -3_185_166_666_667);
    assert_eq!(fx(i64::MIN).div_int(-1).raw, i64::MAX);
}

#[test]
fn values_compare_by_raw_count() {
    assert!(fx(1) < fx(2));
    assert!(fx(-1) < fx(0));
    assert_eq!(fx(5), Fixed { raw: 5 });
    assert_ne!(fx(5), fx(6));
}
