use obric::interface::Quote;
use obric::keys::Pubkey;
use obric::v2::state::SSTradingPair as StaticPair;
use obric::v3::state::SSTradingPair as FlowPair;

#[test]
fn the_default_key_is_all_zero() {
    assert_eq!(Pubkey::default().to_bytes(), [0u8; 32]);
}

#[test]
fn the_default_quote_promises_nothing() {
    let quote = Quote::default();
    assert!(!quote.not_enough_liquidity);
    assert_eq!((quote.min_in_amount, quote.min_out_amount), (None, None));
    assert_eq!((quote.in_amount, quote.out_amount, quote.fee_amount), (0, 0, 0));
    assert_eq!(quote.fee_mint, Pubkey::default());
}

#[test]
fn the_default_static_target_record_is_empty() {
    let pair = StaticPair::default();
    assert!(!pair.is_initialized);
    assert_eq!((pair.concentration, pair.big_k, pair.target_x), (0, 0, 0));
    assert_eq!((pair.mult_x, pair.mult_y), (0, 0));
    assert_eq!(
        (pair.fee_millionth, pair.rebate_percentage, pair.protocol_fee_share_thousandth),
        (0, 0, 0)
    );
    assert_eq!(pair.mint_x, Pubkey::default());
    assert_eq!(pair.volume_record, [0u64; 8]);
    assert_eq!(pair.volume_time_record, [0i64; 8]);
    // an empty record quotes nothing but the empty trade
    assert_eq!(pair.quote_x_to_y(0, 0, 0), Ok((0, 0, 0)));
    assert!(pair.quote_x_to_y(1, 0, 0).is_err());
}

#[test]
fn the_default_flow_derived_record_is_empty() {
    let pair = FlowPair::default();
    assert!(!pair.is_initialized);
    assert_eq!((pair.deposit_x, pair.borrow_x, pair.deposit_y, pair.borrow_y), (0, 0, 0, 0));
    assert_eq!((pair.target_y, pair.concentration, pair.big_k), (0, 0, 0));
    assert_eq!((pair.decimals_x, pair.decimals_y), (0, 0));
    assert_eq!(pair.volume_records, [0u64; 8]);
    assert!(pair.get_pool_values_for_quoting().is_err());
    assert!(pair.compute_target_y().is_err());
}
