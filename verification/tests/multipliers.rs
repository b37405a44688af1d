use obric::multiplier::compute_multipliers;

#[test]
fn equal_decimals_keep_both_prices() {
    assert_eq!(compute_multipliers(1_234, 5_678, 6, 6), Some((1_234, 5_678)));
    assert_eq!(compute_multipliers(0, 0, 0, 0), Some((0, 0)));
}

#[test]
fn the_token_with_fewer_decimals_is_scaled() {
    assert_eq!(compute_multipliers(1_234, 5_678, 9, 6), Some((1_234, 5_678_000)));
    assert_eq!(compute_multipliers(1_234, 5_678, 6, 9), Some((1_234_000, 5_678)));
    assert_eq!(compute_multipliers(1_234, 5_678, 8, 0), Some((1_234, 567_800_000_000)));
}

#[test]
fn the_largest_gap_that_fits_is_nineteen() {
    assert_eq!(compute_multipliers(1, 7, 0, 19), Some((10_000_000_000_000_000_000, 7)));
    assert_eq!(compute_multipliers(2, 7, 0, 19), None);
    assert_eq!(compute_multipliers(1, 7, 0, 20), None);
    assert_eq!(compute_multipliers(0, 0, 0, 20), None);
    assert_eq!(compute_multipliers(1, 1, 255, 0), None);
}

#[test]
fn products_that_leave_the_range_are_refused() {
    assert_eq!(compute_multipliers(u64::MAX, 1, 0, 1), None);
    assert_eq!(compute_multipliers(1, u64::MAX, 1, 0), None);
    assert_eq!(compute_multipliers(u64::MAX / 10, 1, 0, 1), Some((u64::MAX / 10 * 10, 1)));
}

#[test]
fn exchanging_the_tokens_exchanges_the_multipliers() {
    let decimals = [0u8, 6, 8, 9];
    for x_decimals in decimals {
        for y_decimals in decimals {
            let (mult_x, mult_y) = compute_multipliers(24_500, 1_001, x_decimals, y_decimals)
                .unwrap();
            let (swapped_x, swapped_y) =
                compute_multipliers(1_001, 24_500, y_decimals, x_decimals).unwrap();
            assert_eq!((mult_x, mult_y), (swapped_y, swapped_x));
        }
    }
}

#[test]
fn the_ratio_of_the_multipliers_is_the_price_ratio_per_unit() {
    let decimals = [0u8, 6, 8, 9];
    let price_x: u128 = 24_500;
    let price_y: u128 = 1_001;
    for x_decimals in decimals {
        for y_decimals in decimals {
            let (mult_x, mult_y) =
                compute_multipliers(price_x as u64, price_y as u64, x_decimals, y_decimals)
                    .unwrap();
            // mult_x / mult_y == (price_x / 10^x_decimals) / (price_y / 10^y_decimals)
            let left = mult_x as u128 * price_y * 10u128.pow(x_decimals as u32);
            let right = mult_y as u128 * price_x * 10u128.pow(y_decimals as u32);
            assert_eq!(left, right);
        }
    }
}

#[test]
fn the_decimal_factor_is_a_power_of_ten() {
    let mut expected: u64 = 1;
    for gap in 0u8..=19 {
        assert_eq!(compute_multipliers(1, 1, gap, 0), Some((1, expected)));
        assert_eq!(compute_multipliers(1, 1, 0, gap), Some((expected, 1)));
        if gap < 19 {
            expected *= 10;
        }
    }
}
