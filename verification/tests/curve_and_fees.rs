use obric::curve::curve_output;
use obric::fees::{rebate, rebate_ratio, settle, trading_fee};
use obric::math::integer_sqrt;

#[test]
fn curve_output_is_the_fall_of_the_other_coordinate() {
    // 10^14 / (10^7 + 10^5) = 9_900_990 rounded down
    assert_eq!(curve_output(100_000_000_000_000, 10_000_000, 10_000_000, 100_000), Some(99_010));
    assert_eq!(curve_output(100, 10, 10, 0), Some(0));
    assert_eq!(curve_output(100, 10, 10, 1), Some(1));
    assert_eq!(curve_output(100, 10, 10, 90), Some(9));
    assert_eq!(curve_output(100, 10, 10, 91), Some(10));
}

#[test]
fn curve_output_is_refused_outside_its_range() {
    // nothing on the incoming side
    assert_eq!(curve_output(100, 0, 10, 0), None);
    // the outgoing coordinate would rise
    assert_eq!(curve_output(100, 10, 9, 0), None);
    // the incoming coordinate leaves 128 bits
    assert_eq!(curve_output(100, u128::MAX, 10, 1), None);
    // the output leaves 64 bits
    assert_eq!(curve_output(0, 1, u64::MAX as u128 + 1, 1), None);
    assert_eq!(curve_output(0, 1, u64::MAX as u128, 1), Some(u64::MAX));
}

#[test]
fn curve_output_never_falls_as_the_input_grows() {
    let mut last = 0u64;
    let mut strict_steps = 0;
    for input in 0u64..200 {
        let out = curve_output(100, 10, 10, input).unwrap();
        assert!(out >= last);
        if out > last {
            strict_steps += 1;
        }
        last = out;
    }
    // ten units can leave, one at a time, however many inputs are tried
    assert_eq!(last, 10);
    assert_eq!(strict_steps, 10);
    // inputs 41 and 42 receive the same
    assert_eq!(curve_output(100, 10, 10, 41), curve_output(100, 10, 10, 42));
}

#[test]
fn shifted_point_stays_on_the_curve_up_to_one_unit() {
    let big_k: u128 = 123_456_789_012_345;
    for coord_in in [1u128, 7, 11_111_111, 99_999_999_999] {
        for input in [0u64, 1, 5, 1_000_003] {
            let new_in = coord_in + input as u128;
            let new_out = big_k / new_in;
            let out = curve_output(big_k, coord_in, big_k / coord_in, input).unwrap();
            assert_eq!(out as u128, big_k / coord_in - new_out);
            assert!(new_in * new_out <= big_k && big_k < new_in * (new_out + 1));
        }
    }
}

#[test]
fn trading_fee_rounds_down() {
    assert_eq!(trading_fee(99_010, 3_000), Some(297));
    assert_eq!(trading_fee(333, 3_000), Some(0));
    assert_eq!(trading_fee(334, 3_000), Some(1));
    assert_eq!(trading_fee(1_000_000, 1_000_000), Some(1_000_000));
    assert_eq!(trading_fee(u64::MAX, 2), None);
    assert_eq!(trading_fee(u64::MAX, 1), Some(u64::MAX / 1_000_000));
}

#[test]
fn rebate_ratio_is_the_rebalancing_part_in_percent() {
    // the reserve stands at its target: nothing rebalances
    assert_eq!(rebate_ratio(100_000, 1_000_000, 1_000_000), Some(0));
    // the reserve stands above its target
    assert_eq!(rebate_ratio(100_000, 1_000_000, 1_500_000), Some(0));
    // the whole trade fits in the gap
    assert_eq!(rebate_ratio(100_000, 1_000_000, 900_000), Some(100));
    // a third of the trade fits in the gap
    assert_eq!(rebate_ratio(300_000, 1_000_000, 900_000), Some(33));
    // the capped gap times one hundred leaves 64 bits
    assert_eq!(rebate_ratio(u64::MAX, u64::MAX, 0), None);
}

#[test]
fn rebate_rounds_down_twice() {
    assert_eq!(rebate(297, 100, 50), Some(148));
    assert_eq!(rebate(297, 33, 50), Some(49));
    assert_eq!(rebate(297, 0, 50), Some(0));
    assert_eq!(rebate(199, 50, 100), Some(99));
    assert_eq!(rebate(u64::MAX, 2, 1), None);
    assert_eq!(rebate(u64::MAX, 1, 101), None);
}

#[test]
fn settle_splits_the_fee() {
    assert_eq!(settle(99_010, 297, 200), Some((98_713, 59, 238)));
    assert_eq!(settle(99_010, 0, 200), Some((99_010, 0, 0)));
    assert_eq!(settle(10, 10, 1_000), Some((0, 10, 0)));
    assert_eq!(settle(10, 11, 0), None);
    assert_eq!(settle(10, 10, 1_001), Some((0, 10, 0)));
    assert_eq!(settle(1_000, 1_000, 1_001), None);
    assert_eq!(settle(u64::MAX, u64::MAX, 2), None);
}

#[test]
fn integer_sqrt_rounds_down() {
    assert_eq!(integer_sqrt(0), 0);
    assert_eq!(integer_sqrt(1), 1);
    assert_eq!(integer_sqrt(3), 1);
    assert_eq!(integer_sqrt(4), 2);
    assert_eq!(integer_sqrt(99), 9);
    assert_eq!(integer_sqrt(100), 10);
    assert_eq!(integer_sqrt(100_000_000_000_000), 10_000_000);
    assert_eq!(integer_sqrt(u64::MAX as u128), 4_294_967_295);
    assert_eq!(integer_sqrt(u64::MAX as u128 + 1), 4_294_967_296);
    assert_eq!(integer_sqrt(u128::MAX), 18_446_744_073_709_551_615);
}
