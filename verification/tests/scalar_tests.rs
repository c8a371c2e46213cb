use vehicle_sim::scalar::{Scalar, SCALE};

#[test]
fn scale_is_a_multiple_of_the_finest_ray_step() {
    assert_eq!(SCALE, 20480);
    assert_eq!(Scalar::one().raw, SCALE);
    assert_eq!(Scalar::zero().raw, 0);
}

#[test]
fn scalar_sum_is_exact_inside_the_range() {
    let a = Scalar::from_int(2);
    let b = Scalar::from_ratio(1, 2);
    assert_eq!(a.add(b).raw, 2 * SCALE + SCALE / 2);
    assert_eq!(a.sub(b).raw, 2 * SCALE - SCALE / 2);
}

#[test]
fn scalar_sum_stops_at_the_end_of_the_range() {
    let a = Scalar::from_raw(i32::MAX);
    assert_eq!(a.add(Scalar::one()).raw, i32::MAX);
    let b = Scalar::from_raw(i32::MIN);
    assert_eq!(b.sub(Scalar::one()).raw, i32::MIN);
    assert_eq!(b.neg().raw, i32::MAX);
    assert_eq!(b.abs().raw, i32::MAX);
    assert_eq!(Scalar::from_int(200000).raw, i32::MAX);
    assert_eq!(Scalar::from_int(-200000).raw, i32::MIN);
}

#[test]
fn fractions_round_toward_zero() {
    assert_eq!(Scalar::from_ratio(1, 10).raw, 2048);
    assert_eq!(Scalar::from_ratio(7, 20).raw, 7168);
    assert_eq!(Scalar::from_ratio(1, 3).raw, 6826);
    assert_eq!(Scalar::from_ratio(-1, 3).raw, -6826);
    assert_eq!(Scalar::from_ratio(1, -3).raw, -6826);
    assert_eq!(Scalar::from_ratio(5, 0).raw, 0);
}

#[test]
fn products_and_quotients_round_toward_zero() {
    let half = Scalar::from_ratio(1, 2);
    assert_eq!(half.mul(half).raw, 5120);
    assert_eq!(Scalar::from_ratio(-1, 2).mul(Scalar::from_ratio(3, 10)).raw, -3072);
    assert_eq!(Scalar::one().div(Scalar::from_int(3)).raw, 6826);
    assert_eq!(Scalar::one().div(Scalar::from_int(-3)).raw, -6826);
    assert_eq!(Scalar::from_raw(64340).mul_ratio(1, 3).raw, 21446);
    assert_eq!(Scalar::from_raw(-7).mul_ratio(1, 2).raw, -3);
}

#[test]
fn a_quotient_by_zero_is_zero() {
    assert_eq!(Scalar::from_int(5).div(Scalar::zero()).raw, 0);
    assert_eq!(Scalar::from_int(5).mul_ratio(3, 0).raw, 0);
}

#[test]
fn products_stop_at_the_end_of_the_range() {
    assert_eq!(Scalar::from_raw(i32::MAX).mul(Scalar::from_int(2)).raw, i32::MAX);
    assert_eq!(Scalar::from_raw(i32::MAX).mul(Scalar::from_int(-2)).raw, i32::MIN);
    assert_eq!(Scalar::from_raw(i32::MAX).div(Scalar::from_ratio(1, 2)).raw, i32::MAX);
}

#[test]
fn min_max_and_clamp_select_one_of_their_arguments() {
    let a = Scalar::from_int(1);
    let b = Scalar::from_int(2);
    assert_eq!(a.min(b), a);
    assert_eq!(a.max(b), b);
    assert_eq!(Scalar::from_int(5).clamp(a, b), b);
    assert_eq!(Scalar::from_int(-5).clamp(a, b), a);
    assert_eq!(Scalar::from_ratio(3, 2).clamp(a, b), Scalar::from_ratio(3, 2));
    // with the bounds the wrong way round the upper bound is tested first
    assert_eq!(Scalar::from_int(5).clamp(b, a), a);
    assert_eq!(Scalar::from_ratio(3, 2).clamp(b, a), a);
    assert_eq!(Scalar::zero().clamp(b, a), b);
}

#[test]
fn floor_rounds_down_below_zero_too() {
    assert_eq!(Scalar::from_ratio(3, 2).floor(), 1);
    assert_eq!(Scalar::from_int(2).floor(), 2);
    assert_eq!(Scalar::zero().floor(), 0);
    assert_eq!(Scalar::from_raw(-1).floor(), -1);
    assert_eq!(Scalar::from_ratio(-1, 10).floor(), -1);
    assert_eq!(Scalar::from_int(-1).floor(), -1);
    assert_eq!(Scalar::from_ratio(-3, 2).floor(), -2);
    assert_eq!(Scalar::from_raw(i32::MIN).floor(), -104858);
}
