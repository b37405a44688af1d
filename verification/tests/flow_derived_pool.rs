use obric::keys::Pubkey;
use obric::v3::errors::ObricError;
use obric::v3::state::SSTradingPair;

fn key(tag: u8) -> Pubkey {
    Pubkey::new_from_array([tag; 32])
}

fn pool() -> SSTradingPair {
    SSTradingPair {
        is_initialized: true,
        x_price_feed_id: key(1),
        y_price_feed_id: key(2),
        reserve_x: key(3),
        reserve_y: key(4),
        reserve_x_ctoken: key(5),
        reserve_y_ctoken: key(6),
        protocol_fee_x: key(7),
        protocol_fee_y: key(8),
        bump: 254,
        mint_x: key(9),
        mint_y: key(10),
        deposit_x: 500_000,
        borrow_x: 0,
        deposit_y: 1_000_000,
        borrow_y: 0,
        target_y: 1_000_000,
        concentration: 10,
        big_k: 0,
        cumulative_volume: 0,
        mult_x: 1000,
        mult_y: 1000,
        fee_millionth: 3000,
        rebate_percentage: 0,
        protocol_fee_share_thousandth: 200,
        decimals_x: 6,
        decimals_y: 6,
        volume_records: [0; 8],
    }
}

#[test]
fn pool_values_follow_the_shift() {
    assert_eq!(
        pool().get_pool_values_for_quoting(),
        Ok((105_000_000_000_000, 10_500_000, 10_000_000, 1_500_000, 1_000_000))
    );
}

#[test]
fn pool_values_floor_available_x_at_zero() {
    let mut p = pool();
    p.deposit_x = 0;
    p.borrow_x = 2_000_000;
    let (big_k, x_k, y_k, available_x, available_y) = p.get_pool_values_for_quoting().unwrap();
    assert_eq!((x_k, y_k), (8_000_000, 10_000_000));
    assert_eq!(big_k, 80_000_000_000_000);
    assert_eq!(available_x, 0);
    assert_eq!(available_y, 1_000_000);
}

#[test]
fn pool_values_fail_on_overflow() {
    let mut p = pool();
    p.concentration = u64::MAX;
    assert_eq!(p.get_pool_values_for_quoting(), Err(ObricError::NumOverflowing));
    let mut p = pool();
    p.mult_x = 0;
    assert_eq!(p.get_pool_values_for_quoting(), Err(ObricError::NumOverflowing));
    let mut p = pool();
    p.concentration = 0;
    assert_eq!(p.get_pool_values_for_quoting(), Err(ObricError::NumOverflowing));
    let mut p = pool();
    p.borrow_x = 20_000_000;
    assert_eq!(p.get_pool_values_for_quoting(), Err(ObricError::NumOverflowing));
}

#[test]
fn invariant_is_the_product_of_the_coordinates() {
    for (deposit_x, borrow_x, deposit_y) in
        [(0u64, 0u64, 1_000_000u64), (500_000, 0, 1_000_000), (0, 700_000, 1_300_000), (3, 1, 7)]
    {
        let mut p = pool();
        p.deposit_x = deposit_x;
        p.borrow_x = borrow_x;
        p.deposit_y = deposit_y;
        let (big_k, x_k, y_k, _, _) = p.get_pool_values_for_quoting().unwrap();
        assert_eq!(big_k, x_k as u128 * y_k as u128);
        for input in [0u64, 1, 999, 123_456] {
            let new_x_k = x_k as u128 + input as u128;
            let new_y_k = big_k / new_x_k;
            assert!(new_x_k * new_y_k <= big_k);
            assert!(big_k < new_x_k * (new_y_k + 1));
        }
    }
}

#[test]
fn stored_invariant_matches_the_pool_at_equilibrium() {
    let mut p = pool();
    p.deposit_x = 0;
    p.mult_x = 3000;
    assert_eq!(p.update_target_y(1_000_000), Ok(()));
    let (big_k, _, _, _, _) = p.get_pool_values_for_quoting().unwrap();
    assert_eq!(big_k, p.big_k);
    assert_eq!(p.big_k, 3_333_333u128 * 10_000_000u128);
}

#[test]
fn quote_x_to_y_follows_the_curve() {
    assert_eq!(pool().quote_x_to_y(100_000), Ok((94_057, 56, 227)));
}

#[test]
fn quote_y_to_x_follows_the_curve() {
    assert_eq!(pool().quote_y_to_x(100_000), Ok((103_650, 62, 249)));
}

#[test]
fn zero_input_is_quoted_as_zeros_v3() {
    assert_eq!(pool().quote_x_to_y(0), Ok((0, 0, 0)));
    assert_eq!(pool().quote_y_to_x(0), Ok((0, 0, 0)));
}

#[test]
fn zero_input_on_an_empty_side_is_refused() {
    let mut p = pool();
    p.deposit_y = 0;
    p.target_y = 0;
    p.deposit_x = 5;
    assert_eq!(p.quote_x_to_y(0), Err(ObricError::InsufficientActiveY));
}

#[test]
fn quotes_grow_with_the_input_up_to_the_ceiling_v3() {
    let p = pool();
    let expected = [
        (1u64, Ok((1u64, 0u64, 0u64)), Ok((2u64, 0u64, 0u64))),
        (10, Ok((10, 0, 0)), Ok((11, 0, 0))),
        (100, Ok((96, 0, 0)), Ok((105, 0, 0))),
        (1_000, Ok((951, 0, 2)), Ok((1_047, 0, 3))),
        (10_000, Ok((9_487, 5, 23)), Ok((10_459, 6, 25))),
        (100_000, Ok((94_057, 56, 227)), Ok((103_650, 62, 249))),
        (1_000_000, Ok((866_958, 521, 2_087)), Ok((951_683, 572, 2_291))),
        (1_166_667, Err(ObricError::InsufficientActiveY), Ok((1_093_725, 658, 2_633))),
        (
            10_000_000,
            Err(ObricError::InsufficientActiveY),
            Err(ObricError::InsufficientActiveX),
        ),
    ];
    let mut last_y = 0u64;
    let mut last_x = 0u64;
    for (input, x_to_y, y_to_x) in expected {
        let got_y = p.quote_x_to_y(input);
        let got_x = p.quote_y_to_x(input);
        assert_eq!(got_y, x_to_y);
        assert_eq!(got_x, y_to_x);
        if let Ok((out, protocol_fee, lp_fee)) = got_y {
            assert!(out + protocol_fee + lp_fee >= last_y);
            last_y = out + protocol_fee + lp_fee;
        }
        if let Ok((out, protocol_fee, lp_fee)) = got_x {
            assert!(out + protocol_fee + lp_fee >= last_x);
            last_x = out + protocol_fee + lp_fee;
        }
    }
}

#[test]
fn oversized_input_overflows_the_coordinate() {
    assert_eq!(pool().quote_x_to_y(u64::MAX), Err(ObricError::NumOverflowing));
    assert_eq!(pool().quote_y_to_x(u64::MAX), Err(ObricError::NumOverflowing));
}

#[test]
fn fees_are_conserved_v3() {
    let p = pool();
    let (big_k, x_k, y_k, _, _) = p.get_pool_values_for_quoting().unwrap();
    for input in [1u64, 999, 1_000, 12_345, 100_000, 777_777] {
        let before_fee = y_k - (big_k / (x_k as u128 + input as u128)) as u64;
        let fee = before_fee * p.fee_millionth / 1_000_000;
        let (out, protocol_fee, lp_fee) = p.quote_x_to_y(input).unwrap();
        assert_eq!(out + fee, before_fee);
        assert_eq!(protocol_fee + lp_fee, fee);
        assert_eq!(protocol_fee, fee * p.protocol_fee_share_thousandth / 1000);
    }
}

#[test]
fn fee_product_overflow_is_refused() {
    let mut p = pool();
    p.fee_millionth = u64::MAX;
    assert_eq!(p.quote_x_to_y(100_000), Err(ObricError::NumOverflowing));
}

#[test]
fn target_follows_the_net_flows() {
    let mut p = pool();
    assert_eq!(p.compute_target_y(), Ok(1_500_000));
    p.borrow_x = 200_000;
    p.borrow_y = 100_000;
    assert_eq!(p.compute_target_y(), Ok(1_200_000));
    p.mult_x = 2_500;
    // ((500_000 - 200_000) * 2_500 + (1_000_000 - 100_000) * 1_000) / 1_000
    assert_eq!(p.compute_target_y(), Ok(1_650_000));
}

#[test]
fn target_fails_when_borrows_exceed_deposits() {
    let mut p = pool();
    p.borrow_y = 1_500_001;
    assert_eq!(p.compute_target_y(), Err(ObricError::NumOverflowing));
}

#[test]
fn target_fails_on_overflow_or_missing_multiplier() {
    let mut p = pool();
    p.mult_x = u64::MAX;
    assert_eq!(p.compute_target_y(), Err(ObricError::NumOverflowing));
    let mut p = pool();
    p.mult_y = 0;
    assert_eq!(p.compute_target_y(), Err(ObricError::NumOverflowing));
}

#[test]
fn update_target_recomputes_the_invariant() {
    let mut p = pool();
    assert_eq!(p.update_target_y(1_500_000), Ok(()));
    assert_eq!(p.target_y, 1_500_000);
    assert_eq!(p.big_k, 225_000_000_000_000);
    let mut expected = pool();
    expected.target_y = 1_500_000;
    expected.big_k = 225_000_000_000_000;
    assert_eq!(p, expected);
}

#[test]
fn update_target_fails_and_changes_nothing() {
    let mut p = pool();
    p.mult_x = 0;
    let before = p;
    assert_eq!(p.update_target_y(1_500_000), Err(ObricError::NumOverflowing));
    assert_eq!(p, before);
    let mut p = pool();
    p.mult_x = 1;
    p.mult_y = u64::MAX;
    p.concentration = u64::MAX;
    let before = p;
    assert_eq!(p.update_target_y(u64::MAX), Err(ObricError::NumOverflowing));
    assert_eq!(p, before);
}

#[test]
fn update_price_uses_the_pool_decimals() {
    let mut p = pool();
    p.decimals_x = 9;
    p.decimals_y = 6;
    assert_eq!(p.update_price(25_000, 1_001), Ok(()));
    assert_eq!((p.mult_x, p.mult_y), (25_000, 1_001_000));
    p.decimals_x = 0;
    p.decimals_y = 8;
    assert_eq!(p.update_price(25_000, 1_001), Ok(()));
    assert_eq!((p.mult_x, p.mult_y), (2_500_000_000_000, 1_001));
}

#[test]
fn update_price_overflow_changes_nothing() {
    let mut p = pool();
    p.decimals_x = 0;
    p.decimals_y = 18;
    let before = p;
    assert_eq!(p.update_price(19, 1), Err(ObricError::NumOverflowing));
    assert_eq!(p, before);
    assert_eq!(p.update_price(18, 1), Ok(()));
    assert_eq!(p.mult_x, 18_000_000_000_000_000_000);
}
