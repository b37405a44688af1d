use obric::interface::{AccountMeta, Quote, QuoteParams, Swap, SwapParams};
use obric::keys::Pubkey;
use obric::oracle::{FeedStatus, Price};
use obric::v2::amm::{AccountsUpdate, ObricV2Amm};
use obric::v2::errors::ObricError;
use obric::v2::state::{PriceFeed, SSTradingPair};

fn key(tag: u8) -> Pubkey {
    Pubkey::new_from_array([tag; 32])
}

fn state() -> SSTradingPair {
    SSTradingPair {
        is_initialized: true,
        x_price_feed_id: key(1),
        y_price_feed_id: key(2),
        reserve_x: key(3),
        reserve_y: key(4),
        protocol_fee_x: key(5),
        protocol_fee_y: key(6),
        bump: 255,
        mint_x: key(7),
        mint_y: key(8),
        concentration: 10,
        big_k: 100_000_000_000_000,
        target_x: 1_000_000,
        cumulative_volume: 0,
        mult_x: 1000,
        mult_y: 1000,
        fee_millionth: 3000,
        rebate_percentage: 50,
        protocol_fee_share_thousandth: 200,
        volume_record: [0; 8],
        volume_time_record: [0; 8],
    }
}

fn amm() -> ObricV2Amm {
    ObricV2Amm::new(key(100), state(), key(101), key(102))
}

fn feed(price: i64, expo: i32) -> PriceFeed {
    PriceFeed {
        price: Price { price, conf: 0, expo, publish_time: 0 },
        status: FeedStatus::Online,
    }
}

fn accounts() -> AccountsUpdate {
    AccountsUpdate {
        reserve_x: Some(1_000_000),
        reserve_y: Some(1_000_000),
        mint_x_decimals: Some(9),
        mint_y_decimals: Some(6),
        x_price_feed: Some(feed(2_450_000_000, -8)),
        y_price_feed: Some(feed(100_100_000, -8)),
    }
}

#[test]
fn a_new_pool_knows_nothing_of_its_accounts() {
    let a = amm();
    assert_eq!(a.key(), key(100));
    assert_eq!(a.program_id(), key(101));
    assert_eq!((a.current_x, a.current_y, a.x_decimals, a.y_decimals), (0, 0, 0, 0));
    assert_eq!(a.label(), "Obric V2");
    assert_eq!(a.get_reserve_mints(), vec![key(7), key(8)]);
    assert!(a.has_dynamic_accounts());
    assert_eq!(a.get_accounts_len(), 12);
}

#[test]
fn mints_are_read_until_the_decimals_are_known() {
    let mut a = amm();
    assert_eq!(a.get_accounts_to_update(), vec![key(3), key(4), key(1), key(2), key(7), key(8)]);
    assert_eq!(a.update(&accounts()), Ok(()));
    assert_eq!(a.get_accounts_to_update(), vec![key(3), key(4), key(1), key(2)]);
}

#[test]
fn update_sets_balances_decimals_and_multipliers() {
    let mut a = amm();
    assert_eq!(a.update(&accounts()), Ok(()));
    assert_eq!((a.current_x, a.current_y), (1_000_000, 1_000_000));
    assert_eq!((a.x_decimals, a.y_decimals), (9, 6));
    // 24.5 and 1.001 in thousandths, Y scaled by the gap of three decimals
    assert_eq!((a.state.mult_x, a.state.mult_y), (24_500, 1_001_000));
    // known decimals are kept
    let mut again = accounts();
    again.mint_x_decimals = Some(2);
    again.mint_y_decimals = None;
    again.reserve_x = Some(5);
    assert_eq!(a.update(&again), Ok(()));
    assert_eq!((a.x_decimals, a.y_decimals), (9, 6));
    assert_eq!(a.current_x, 5);
}

#[test]
fn negative_price_fails_update_and_keeps_multipliers() {
    let mut a = amm();
    let mut bad = accounts();
    bad.x_price_feed = Some(feed(-2_450_000_000, -8));
    assert_eq!(a.update(&bad), Err(ObricError::NegativePrice));
    assert_eq!((a.state.mult_x, a.state.mult_y), (1000, 1000));
    assert_eq!(a.state, state());
    let mut bad = accounts();
    bad.y_price_feed = Some(feed(0, -8));
    assert_eq!(a.update(&bad), Err(ObricError::NegativePrice));
    assert_eq!(a.state, state());
}

#[test]
fn offline_feed_fails_update_and_keeps_multipliers() {
    let mut a = amm();
    let mut bad = accounts();
    let mut offline = feed(2_450_000_000, -8);
    offline.status = FeedStatus::Offline;
    bad.x_price_feed = Some(offline);
    assert_eq!(a.update(&bad), Err(ObricError::PythOffline));
    assert_eq!(a.state, state());
}

#[test]
fn unrepresentable_price_fails_update() {
    let mut a = amm();
    let mut bad = accounts();
    bad.y_price_feed = Some(feed(i64::MAX, 0));
    assert_eq!(a.update(&bad), Err(ObricError::PythError));
    assert_eq!(a.state, state());
}

#[test]
fn missing_accounts_fail_update() {
    let holes: [fn(&mut AccountsUpdate); 6] = [
        |u| u.reserve_x = None,
        |u| u.reserve_y = None,
        |u| u.mint_x_decimals = None,
        |u| u.mint_y_decimals = None,
        |u| u.x_price_feed = None,
        |u| u.y_price_feed = None,
    ];
    for (index, hole) in holes.iter().enumerate() {
        let mut a = amm();
        let mut update = accounts();
        hole(&mut update);
        assert_eq!(a.update(&update), Err(ObricError::AccountNotFound));
        assert_eq!(a.state, state());
        // balances are taken in once both reserves were found
        let balances = if index < 2 { (0, 0) } else { (1_000_000, 1_000_000) };
        assert_eq!((a.current_x, a.current_y), balances);
        // decimals are taken in once both mints were found
        let decimals = if index < 4 { (0, 0) } else { (9, 6) };
        assert_eq!((a.x_decimals, a.y_decimals), decimals);
    }
}

#[test]
fn multipliers_that_do_not_fit_fail_update() {
    let mut a = amm();
    let mut update = accounts();
    update.mint_x_decimals = Some(30);
    update.mint_y_decimals = Some(0);
    assert_eq!(a.update(&update), Err(ObricError::NumOverflowing));
    assert_eq!(a.state, state());
    assert_eq!((a.x_decimals, a.y_decimals), (30, 0));
}

fn ready() -> ObricV2Amm {
    let mut a = amm();
    a.current_x = 1_000_000;
    a.current_y = 1_000_000;
    a.x_decimals = 6;
    a.y_decimals = 6;
    a
}

#[test]
fn quote_routes_by_input_mint() {
    let a = ready();
    let sell_x = QuoteParams { in_amount: 100_000, input_mint: key(7), output_mint: key(8) };
    let expected = Quote {
        not_enough_liquidity: false,
        min_in_amount: None,
        min_out_amount: None,
        in_amount: 0,
        out_amount: 98_713,
        fee_amount: 297,
        fee_mint: key(8),
    };
    assert_eq!(a.quote(&sell_x), Ok(expected));
    let mut a = ready();
    a.current_x = 1_100_000;
    a.current_y = 900_000;
    let sell_y = QuoteParams { in_amount: 50_000, input_mint: key(8), output_mint: key(7) };
    let quote = a.quote(&sell_y).unwrap();
    assert_eq!((quote.out_amount, quote.fee_amount, quote.fee_mint), (50_673, 76, key(7)));
    assert!(!quote.not_enough_liquidity);
}

#[test]
fn quote_reports_lack_of_liquidity() {
    let a = ready();
    let none = Quote {
        not_enough_liquidity: true,
        min_in_amount: None,
        min_out_amount: None,
        in_amount: 0,
        out_amount: 0,
        fee_amount: 0,
        fee_mint: Pubkey::default(),
    };
    // an unknown mint
    let unknown = QuoteParams { in_amount: 100_000, input_mint: key(9), output_mint: key(8) };
    assert_eq!(a.quote(&unknown), Ok(none));
    // nothing sold
    let nothing = QuoteParams { in_amount: 0, input_mint: key(7), output_mint: key(8) };
    assert_eq!(a.quote(&nothing), Ok(none));
    // more than the reserve holds
    let too_much = QuoteParams { in_amount: 5_000_000, input_mint: key(7), output_mint: key(8) };
    assert_eq!(a.quote(&too_much), Ok(none));
    let too_much = QuoteParams { in_amount: 5_000_000, input_mint: key(8), output_mint: key(7) };
    assert_eq!(a.quote(&too_much), Ok(none));
}

#[test]
fn quote_hands_on_arithmetic_failures() {
    let mut a = ready();
    a.state.mult_x = 0;
    let sell_x = QuoteParams { in_amount: 100_000, input_mint: key(7), output_mint: key(8) };
    assert_eq!(a.quote(&sell_x), Err(ObricError::NumOverflowing));
}

#[test]
fn clone_is_an_equal_pool() {
    let a = ready();
    let b = a.clone_amm();
    assert_eq!(b.key, a.key);
    assert_eq!(b.state, a.state);
    assert_eq!((b.current_x, b.current_y, b.x_decimals, b.y_decimals), (1_000_000, 1_000_000, 6, 6));
    assert_eq!((b.program_id, b.token_program), (key(101), key(102)));
}

#[test]
fn swap_accounts_are_named_in_order() {
    let a = ready();
    let sell_x = SwapParams {
        source_mint: key(7),
        destination_mint: key(8),
        source_token_account: key(50),
        destination_token_account: key(51),
        token_transfer_authority: key(52),
    };
    let named = a.get_swap_and_account_metas(&sell_x);
    assert_eq!(named.swap, Swap::Saber);
    assert_eq!(
        named.account_metas,
        vec![
            AccountMeta { pubkey: key(100), is_signer: false, is_writable: true },
            AccountMeta { pubkey: key(7), is_signer: false, is_writable: false },
            AccountMeta { pubkey: key(8), is_signer: false, is_writable: false },
            AccountMeta { pubkey: key(3), is_signer: false, is_writable: true },
            AccountMeta { pubkey: key(4), is_signer: false, is_writable: true },
            AccountMeta { pubkey: key(50), is_signer: false, is_writable: true },
            AccountMeta { pubkey: key(51), is_signer: false, is_writable: true },
            AccountMeta { pubkey: key(6), is_signer: false, is_writable: true },
            AccountMeta { pubkey: key(1), is_signer: false, is_writable: false },
            AccountMeta { pubkey: key(2), is_signer: false, is_writable: false },
            AccountMeta { pubkey: key(52), is_signer: true, is_writable: false },
            AccountMeta { pubkey: key(102), is_signer: false, is_writable: false },
        ]
    );
    assert_eq!(named.account_metas.len(), a.get_accounts_len());
    let sell_y = SwapParams {
        source_mint: key(8),
        destination_mint: key(7),
        source_token_account: key(50),
        destination_token_account: key(51),
        token_transfer_authority: key(52),
    };
    let named = a.get_swap_and_account_metas(&sell_y);
    assert_eq!(named.account_metas[5].pubkey, key(51));
    assert_eq!(named.account_metas[6].pubkey, key(50));
    assert_eq!(named.account_metas[7].pubkey, key(5));
}

#[test]
fn account_metas_are_writable_or_readonly() {
    assert_eq!(
        AccountMeta::new(key(1), true),
        AccountMeta { pubkey: key(1), is_signer: true, is_writable: true }
    );
    assert_eq!(
        AccountMeta::new_readonly(key(1), false),
        AccountMeta { pubkey: key(1), is_signer: false, is_writable: false }
    );
}

#[test]
fn keys_compare_by_their_bytes() {
    let mut bytes = [7u8; 32];
    assert_eq!(Pubkey::new_from_array(bytes), key(7));
    bytes[31] = 8;
    assert_ne!(Pubkey::new_from_array(bytes), key(7));
    assert_eq!(Pubkey::new_from_array(bytes).to_bytes(), bytes);
    assert_eq!(Pubkey::default(), key(0));
}
