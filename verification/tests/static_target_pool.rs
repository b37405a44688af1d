use obric::keys::Pubkey;
use obric::v2::errors::ObricError;
use obric::v2::state::SSTradingPair;

fn key(tag: u8) -> Pubkey {
    Pubkey::new_from_array([tag; 32])
}

/// A pool whose curve passes through the point (1_000_000, 1_000_000) with
/// concentration 10: the invariant is the product of the two targets, each
/// scaled by the concentration.
fn pool() -> SSTradingPair {
    SSTradingPair {
        is_initialized: true,
        x_price_feed_id: key(1),
        y_price_feed_id: key(2),
        reserve_x: key(3),
        reserve_y: key(4),
        protocol_fee_x: key(5),
        protocol_fee_y: key(6),
        bump: 255,
        mint_x: key(7),
        mint_y: key(8),
        concentration: 10,
        big_k: 10_000_000u128 * 10_000_000u128,
        target_x: 1_000_000,
        cumulative_volume: 0,
        mult_x: 1000,
        mult_y: 1000,
        fee_millionth: 3000,
        rebate_percentage: 50,
        protocol_fee_share_thousandth: 200,
        volume_record: [0; 8],
        volume_time_record: [0; 8],
    }
}

#[test]
fn golden_quote_x_to_y() {
    let quote = pool().quote_x_to_y(100_000, 1_000_000, 1_000_000);
    assert_eq!(quote, Ok((98_713, 59, 238)));
}

#[test]
fn golden_quote_y_to_x_mirrors_x_to_y() {
    let quote = pool().quote_y_to_x(100_000, 1_000_000, 1_000_000);
    assert_eq!(quote, Ok((98_713, 59, 238)));
}

#[test]
fn target_pair_keeps_total_value() {
    let mut p = pool();
    assert_eq!(p.get_target_xy(900_000, 1_100_000), Ok((1_000_000, 1_000_000)));
    p.mult_x = 2000;
    // total value 900_000 * 2000 + 1_100_000 * 1000, less 1_000_000 * 2000, in units of Y
    assert_eq!(p.get_target_xy(900_000, 1_100_000), Ok((1_000_000, 900_000)));
}

#[test]
fn target_pair_fails_when_value_is_below_target() {
    let p = pool();
    assert_eq!(p.get_target_xy(0, 999_999), Err(ObricError::NumOverflowing));
}

#[test]
fn target_pair_fails_without_multiplier() {
    let mut p = pool();
    p.mult_y = 0;
    assert_eq!(p.get_target_xy(1_000_000, 1_000_000), Err(ObricError::NumOverflowing));
}

#[test]
fn target_pair_fails_when_total_value_overflows() {
    let mut p = pool();
    p.mult_x = u64::MAX;
    p.mult_y = u64::MAX;
    assert_eq!(p.get_target_xy(u64::MAX, u64::MAX), Err(ObricError::NumOverflowing));
}

#[test]
fn curve_point_uses_the_integer_square_root() {
    let mut p = pool();
    // sqrt(10^14) = 10^7 exactly
    assert_eq!(p.curve_point(900_000), Some((9_900_000, 10_101_010)));
    // sqrt(10^14 + 1) and sqrt(10^14 - 1) round down
    p.big_k = 100_000_000_000_001;
    assert_eq!(p.curve_point(1_000_000).map(|point| point.0), Some(10_000_000));
    p.big_k = 99_999_999_999_999;
    assert_eq!(p.curve_point(1_000_000).map(|point| point.0), Some(9_999_999));
    // a price ratio of 4 halves the root
    p.big_k = 100_000_000_000_000;
    p.mult_x = 4000;
    assert_eq!(p.curve_point(1_000_000).map(|point| point.0), Some(5_000_000));
}

#[test]
fn curve_point_keeps_the_invariant_up_to_rounding() {
    let p = pool();
    for current_x in [1u64, 17, 900_000, 1_000_000, 1_234_567, 50_000_000] {
        let (x_k, y_k) = p.curve_point(current_x).unwrap();
        assert!(x_k * y_k <= p.big_k);
        assert!(p.big_k < x_k * (y_k + 1));
    }
}

#[test]
fn curve_point_fails_when_target_exceeds_its_coordinate() {
    let mut p = pool();
    p.target_x = 10_000_001;
    assert_eq!(p.curve_point(1_000_000), None);
    assert_eq!(p.quote_x_to_y(1, 1_000_000, 1_000_000), Err(ObricError::NumOverflowing));
}

#[test]
fn rebate_is_granted_for_moving_toward_the_target() {
    let p = pool();
    // X stands 100_000 below its target: the whole sale of X rebalances
    assert_eq!(p.quote_x_to_y(100_000, 900_000, 1_100_000), Ok((100_858, 30, 122)));
    // Y stands 100_000 below its target: the whole sale of Y rebalances
    assert_eq!(p.quote_y_to_x(50_000, 1_100_000, 900_000), Ok((50_673, 15, 61)));
}

#[test]
fn zero_input_is_quoted_as_zeros_v2() {
    let p = pool();
    assert_eq!(p.quote_x_to_y(0, 1_000_000, 1_000_000), Ok((0, 0, 0)));
    assert_eq!(p.quote_y_to_x(0, 1_000_000, 1_000_000), Ok((0, 0, 0)));
    // even where nothing else could be computed
    let mut broken = pool();
    broken.mult_x = 0;
    broken.mult_y = 0;
    assert_eq!(broken.quote_x_to_y(0, 0, 0), Ok((0, 0, 0)));
    assert_eq!(broken.quote_y_to_x(0, 0, 0), Ok((0, 0, 0)));
    assert_eq!(broken.quote_x_to_y(1, 0, 0), Err(ObricError::NumOverflowing));
}

#[test]
fn quotes_grow_with_the_input_up_to_the_ceiling_v2() {
    let p = pool();
    let expected = [
        (1u64, Ok((1u64, 0u64, 0u64))),
        (10, Ok((10, 0, 0))),
        (100, Ok((100, 0, 0))),
        (1_000, Ok((997, 0, 3))),
        (10_000, Ok((9_962, 5, 24))),
        (100_000, Ok((98_713, 59, 238))),
        (1_000_000, Ok((906_364, 545, 2_182))),
        (1_111_111, Err(ObricError::InsufficientActiveY)),
        (2_000_000, Err(ObricError::InsufficientActiveY)),
        (10_000_000, Err(ObricError::InsufficientActiveY)),
    ];
    let mut last_total = 0u64;
    for (input, quote) in expected {
        let got = p.quote_x_to_y(input, 1_000_000, 1_000_000);
        assert_eq!(got, quote);
        if let Ok((out, protocol_fee, lp_fee)) = got {
            let total = out + protocol_fee + lp_fee;
            assert!(total > last_total);
            last_total = total;
        }
    }
}

#[test]
fn liquidity_ceiling_in_both_directions_v2() {
    let p = pool();
    assert_eq!(
        p.quote_x_to_y(1_000_000_000, 1_000_000, 1_000_000),
        Err(ObricError::InsufficientActiveY)
    );
    assert_eq!(
        p.quote_y_to_x(1_000_000_000, 1_000_000, 1_000_000),
        Err(ObricError::InsufficientActiveX)
    );
}

#[test]
fn fees_are_conserved_v2() {
    let p = pool();
    for (current_x, current_y) in [(1_000_000u64, 1_000_000u64), (900_000, 1_100_000)] {
        for input in [1u64, 999, 1_000, 12_345, 100_000, 777_777] {
            let (x_k, y_k) = p.curve_point(current_x).unwrap();
            let before_fee = (y_k - p.big_k / (x_k + input as u128)) as u64;
            let fee_before_rebate = before_fee * p.fee_millionth / 1_000_000;
            let (out, protocol_fee, lp_fee) =
                p.quote_x_to_y(input, current_x, current_y).unwrap();
            assert_eq!(out + protocol_fee + lp_fee, before_fee);
            assert!(protocol_fee + lp_fee <= fee_before_rebate);
        }
    }
}

#[test]
fn fee_above_the_output_is_refused() {
    let mut p = pool();
    p.fee_millionth = 1_000_000;
    assert_eq!(p.quote_x_to_y(100_000, 1_000_000, 1_000_000), Ok((0, 19_802, 79_208)));
    p.fee_millionth = 2_000_000;
    assert_eq!(p.quote_x_to_y(100_000, 1_000_000, 1_000_000), Err(ObricError::NumOverflowing));
}

#[test]
fn rebate_above_the_fee_is_refused() {
    let mut p = pool();
    p.rebate_percentage = 200;
    assert_eq!(p.quote_x_to_y(100_000, 900_000, 1_100_000), Err(ObricError::NumOverflowing));
}

#[test]
fn protocol_share_above_one_is_refused() {
    let mut p = pool();
    p.protocol_fee_share_thousandth = 2_000;
    assert_eq!(p.quote_x_to_y(100_000, 1_000_000, 1_000_000), Err(ObricError::NumOverflowing));
}

#[test]
fn update_price_scales_the_token_with_fewer_decimals() {
    let mut p = pool();
    assert_eq!(p.update_price(25_000, 1_001, 9, 6), Ok(()));
    assert_eq!((p.mult_x, p.mult_y), (25_000, 1_001_000));
    assert_eq!(p.update_price(25_000, 1_001, 6, 9), Ok(()));
    assert_eq!((p.mult_x, p.mult_y), (25_000_000, 1_001));
    assert_eq!(p.update_price(25_000, 1_001, 6, 6), Ok(()));
    assert_eq!((p.mult_x, p.mult_y), (25_000, 1_001));
}

#[test]
fn update_price_fails_on_overflow_and_changes_nothing() {
    let mut p = pool();
    let before = p;
    assert_eq!(p.update_price(u64::MAX, 1, 0, 1), Err(ObricError::NumOverflowing));
    assert_eq!(p, before);
    assert_eq!(p.update_price(1, 1, 0, 20), Err(ObricError::NumOverflowing));
    assert_eq!(p, before);
    assert_eq!(p.update_price(1, 1, 255, 0), Err(ObricError::NumOverflowing));
    assert_eq!(p, before);
    assert_eq!(p.update_price(1, 1, 0, 19), Ok(()));
    assert_eq!((p.mult_x, p.mult_y), (10_000_000_000_000_000_000, 1));
}
