//! A flow-derived pool as a swap aggregator sees it: the pool record
//! together with the addresses of the lending market it deposits into.

use vstd::prelude::*;
use crate::interface::{AccountMeta, Quote, QuoteParams, Swap, SwapAndAccountMetas, SwapParams};
use crate::keys::Pubkey;
use crate::multiplier::{mult_x_spec, mult_y_spec, multipliers_fit};
use crate::v3::consts::{mint_to_larix_reserve, LarixMainPool};
use crate::v3::errors::ObricError;
use crate::v3::state::larix::Reserve;
use crate::v3::state::{PriceFeed, SSTradingPair};

verus! {

/// The length in bytes of an account that holds a pool record.
pub const POOL_ACCOUNT_LEN: usize = 762;

/// The well-known addresses a swap through a flow-derived pool names.
#[derive(Clone, Copy, Debug, PartialEq, Eq)]
pub struct Addresses {
    /// The program that owns the pool.
    pub program_id: Pubkey,
    /// The token program that moves the pool's tokens.
    pub token_program: Pubkey,
    /// The lending program.
    pub lending_program: Pubkey,
    /// The authority of the lending market.
    pub market_authority: Pubkey,
    /// The price oracle of the lending market.
    pub lending_oracle: Pubkey,
    /// The mint of the lending market's own token.
    pub larix_mint: Pubkey,
    /// The reserves of the lending market's main pool.
    pub main_pool: LarixMainPool,
}

/// A flow-derived pool with its obligation in the lending market and the
/// lending reserves it has read.
pub struct ObricV3Amm {
    pub key: Pubkey,
    pub state: SSTradingPair,
    pub obligation: Pubkey,
    pub larix_reserve_x: Option<Reserve>,
    pub larix_reserve_y: Option<Reserve>,
    pub addresses: Addresses,
}

/// What the accounts named by `get_accounts_to_update` hold: the pool
/// record as it is persisted now, and the two price feeds.
pub struct AccountsUpdate {
    pub trading_pair: SSTradingPair,
    pub x_price_feed: PriceFeed,
    pub y_price_feed: PriceFeed,
}

impl ObricV3Amm {
    /// A pool that knows its record and its obligation in the lending
    /// market, and has not read any reserve of that market yet.
    pub fn new(key: Pubkey, state: SSTradingPair, obligation: Pubkey, addresses: Addresses) -> (amm:
        ObricV3Amm)
        ensures
            amm == (ObricV3Amm {
                key,
                state,
                obligation,
                larix_reserve_x: None,
                larix_reserve_y: None,
                addresses,
            }),
    {
        ObricV3Amm {
            key,
            state,
            obligation,
            larix_reserve_x: None,
            larix_reserve_y: None,
            addresses,
        }
    }

    /// The name the aggregator shows for pools of this kind.
    pub fn label(&self) -> (label: String)
        ensures
            label@ == "Obric v3"@,
    {
        "Obric v3".to_owned()
    }

    /// The address of the pool record.
    pub fn key(&self) -> (key: Pubkey)
        ensures
            key == self.key,
    {
        self.key
    }

    /// The program that owns the pool.
    pub fn program_id(&self) -> (id: Pubkey)
        ensures
            id == self.addresses.program_id,
    {
        self.addresses.program_id
    }

    /// The two mints the pool trades, X first.
    pub fn get_reserve_mints(&self) -> (mints: Vec<Pubkey>)
        ensures
            mints@ == seq![self.state.mint_x, self.state.mint_y],
    {
        let mut mints: Vec<Pubkey> = Vec::new();
        mints.push(self.state.mint_x);
        mints.push(self.state.mint_y);
        mints
    }

    /// The accounts the pool wants to see change over time.
    pub fn has_dynamic_accounts(&self) -> (dynamic: bool)
        ensures
            dynamic,
    {
        true
    }

    /// Whether an account of the pool program holds a pool record: its data
    /// is exactly as long as one.
    pub fn is_pool_account(data_len: usize) -> (r: bool)
        ensures
            r == (data_len == POOL_ACCOUNT_LEN),
    {
        data_len == POOL_ACCOUNT_LEN
    }

    /// The lending reserve of the pool's X.
    pub open spec fn lending_reserve_x(&self) -> Result<Pubkey, ObricError> {
        self.addresses.main_pool.reserve_of(self.state.mint_x)
    }

    /// The lending reserve of the pool's Y.
    pub open spec fn lending_reserve_y(&self) -> Result<Pubkey, ObricError> {
        self.addresses.main_pool.reserve_of(self.state.mint_y)
    }

    /// The accounts `update` wants to see, in order.
    pub open spec fn accounts_to_update(&self) -> Result<Seq<Pubkey>, ObricError> {
        if self.larix_reserve_y is None {
            if self.lending_reserve_x() is Err || self.lending_reserve_y() is Err {
                Err(ObricError::NoLarixReserveFoundForMint)
            } else {
                Ok(
                    seq![
                        self.key,
                        self.state.x_price_feed_id,
                        self.state.y_price_feed_id,
                        self.lending_reserve_x()->Ok_0,
                        self.lending_reserve_y()->Ok_0,
                    ],
                )
            }
        } else {
            Ok(seq![self.key, self.state.x_price_feed_id, self.state.y_price_feed_id])
        }
    }

    /// Names the accounts `update` wants to see: the pool record and the
    /// two price feeds, and the two lending reserves while the reserve of Y
    /// has not been read. Fails with `NoLarixReserveFoundForMint` where a
    /// lending reserve is wanted for a mint the main pool does not list.
    pub fn get_accounts_to_update(&self) -> (r: Result<Vec<Pubkey>, ObricError>)
        ensures
            r is Ok <==> self.accounts_to_update() is Ok,
            r matches Ok(accounts) ==> accounts@ == self.accounts_to_update()->Ok_0,
            r matches Err(e) ==> self.accounts_to_update() == Err::<Seq<Pubkey>, ObricError>(e),
    {
        let mut accounts: Vec<Pubkey> = Vec::new();
        accounts.push(self.key);
        accounts.push(self.state.x_price_feed_id);
        accounts.push(self.state.y_price_feed_id);
        if self.larix_reserve_y.is_none() {
            let reserve_x = match mint_to_larix_reserve(
                &self.state.mint_x,
                &self.addresses.main_pool,
            ) {
                Ok(key) => key,
                Err(e) => { return Err(e); },
            };
            let reserve_y = match mint_to_larix_reserve(
                &self.state.mint_y,
                &self.addresses.main_pool,
            ) {
                Ok(key) => key,
                Err(e) => { return Err(e); },
            };
            accounts.push(reserve_x);
            accounts.push(reserve_y);
        }
        Ok(accounts)
    }

    /// The pool after `update` has read `accounts`, and what `update`
    /// returns. The persisted record replaces the pool's own; the prices set
    /// its multipliers; the flows set its target and its invariant. The
    /// first step that fails stops the update there; what was set before
    /// stays.
    pub open spec fn update_spec(self, accounts: AccountsUpdate) -> (
        Result<(), ObricError>,
        ObricV3Amm,
    ) {
        let loaded = ObricV3Amm { state: accounts.trading_pair, ..self };
        match (
            accounts.x_price_feed.price_normalized_spec(),
            accounts.y_price_feed.price_normalized_spec(),
        ) {
            (Err(e), _) => (Err(e), loaded),
            (Ok(_), Err(e)) => (Err(e), loaded),
            (Ok(price_x), Ok(price_y)) => {
                if !multipliers_fit(
                    price_x.price as int,
                    price_y.price as int,
                    loaded.state.decimals_x as int,
                    loaded.state.decimals_y as int,
                ) {
                    (Err(ObricError::NumOverflowing), loaded)
                } else {
                    let priced = SSTradingPair {
                        mult_x: mult_x_spec(
                            price_x.price as int,
                            loaded.state.decimals_x as int,
                            loaded.state.decimals_y as int,
                        ) as u64,
                        mult_y: mult_y_spec(
                            price_y.price as int,
                            loaded.state.decimals_x as int,
                            loaded.state.decimals_y as int,
                        ) as u64,
                        ..loaded.state
                    };
                    if !priced.flows_fit() || !priced.target_fits(priced.flow_target_y()) {
                        (Err(ObricError::NumOverflowing), ObricV3Amm { state: priced, ..self })
                    } else {
                        (
                            Ok(()),
                            ObricV3Amm {
                                state: SSTradingPair {
                                    target_y: priced.flow_target_y() as u64,
                                    big_k: priced.big_k_of(priced.flow_target_y()) as u128,
                                    ..priced
                                },
                                ..self
                            },
                        )
                    }
                }
            },
        }
    }

    /// Takes in what the pool's accounts hold: the persisted record and the
    /// two prices. A feed that is offline or a price that cannot be
    /// normalized leaves the record as it was persisted, multipliers
    /// included.
    pub fn update(&mut self, accounts: &AccountsUpdate) -> (r: Result<(), ObricError>)
        ensures
            r == old(self).update_spec(*accounts).0,
            *final(self) == old(self).update_spec(*accounts).1,
            (r == Err::<(), ObricError>(ObricError::NegativePrice) || r == Err::<(), ObricError>(
                ObricError::PythError,
            ) || r == Err::<(), ObricError>(ObricError::PythOffline)) ==> final(self).state
                == accounts.trading_pair,
            r is Ok ==> {
                &&& final(self).state.mult_x > 0
                &&& final(self).state.mult_y > 0
                &&& final(self).state.target_y == final(self).state.flow_target_y()
                &&& final(self).state.big_k == final(self).state.big_k_of(
                    final(self).state.target_y as int,
                )
            },
    {
        self.state = accounts.trading_pair;
        let price_x = match accounts.x_price_feed.price_normalized() {
            Ok(price) => price.price as u64,
            Err(e) => { return Err(e); },
        };
        let price_y = match accounts.y_price_feed.price_normalized() {
            Ok(price) => price.price as u64,
            Err(e) => { return Err(e); },
        };
        match self.state.update_price(price_x, price_y) {
            Ok(_) => {},
            Err(e) => { return Err(e); },
        }
        let target_y = match self.state.compute_target_y() {
            Ok(target) => target,
            Err(e) => { return Err(e); },
        };
        let r = self.state.update_target_y(target_y);
        proof {
            let spec = old(self).update_spec(*accounts);
            if r is Ok {
                assert(r->Ok_0 == ());
                assert(spec.0->Ok_0 == ());
            }
        }
        r
    }

    /// What the pool record quotes for the request: the sale of X where the
    /// input mint is the pool's X, the sale of Y where it is the pool's Y,
    /// and three zeros for any other mint.
    pub open spec fn routed(&self, quote_params: QuoteParams) -> Result<
        (u64, u64, u64),
        ObricError,
    > {
        if quote_params.input_mint == self.state.mint_x {
            self.state.quote_x_to_y_spec(quote_params.in_amount as int)
        } else if quote_params.input_mint == self.state.mint_y {
            self.state.quote_y_to_x_spec(quote_params.in_amount as int)
        } else {
            Ok((0u64, 0u64, 0u64))
        }
    }

    /// The quote for a request: the output after fees, and the protocol's
    /// part of the fee, charged in the token that is bought.
    pub open spec fn quote_spec(&self, quote_params: QuoteParams) -> Result<Quote, ObricError> {
        match self.routed(quote_params) {
            Ok((output_after_fee, protocol_fee, _)) => Ok(
                Quote {
                    out_amount: output_after_fee,
                    fee_amount: protocol_fee,
                    fee_mint: quote_params.output_mint,
                    ..Quote::empty()
                },
            ),
            Err(e) => Err(e),
        }
    }

    /// Quotes a trade against the pool record last read.
    pub fn quote(&self, quote_params: &QuoteParams) -> (r: Result<Quote, ObricError>)
        ensures
            r == self.quote_spec(*quote_params),
    {
        let routed = if quote_params.input_mint == self.state.mint_x {
            self.state.quote_x_to_y(quote_params.in_amount)
        } else if quote_params.input_mint == self.state.mint_y {
            self.state.quote_y_to_x(quote_params.in_amount)
        } else {
            Ok((0u64, 0u64, 0u64))
        };
        let (output_after_fee, protocol_fee, _) = match routed {
            Ok(parts) => parts,
            Err(e) => { return Err(e); },
        };
        let mut quote = Quote::default();
        quote.out_amount = output_after_fee;
        quote.fee_amount = protocol_fee;
        quote.fee_mint = quote_params.output_mint;
        Ok(quote)
    }

    /// A copy of the pool as it stands.
    pub fn clone_amm(&self) -> (copy: ObricV3Amm)
        ensures
            copy == *self,
    {
        ObricV3Amm {
            key: self.key,
            state: self.state,
            obligation: self.obligation,
            larix_reserve_x: self.larix_reserve_x,
            larix_reserve_y: self.larix_reserve_y,
            addresses: self.addresses,
        }
    }

    /// The accounts a swap names, in instruction order, given the lending
    /// reserves of the pool's two mints. The trader's two token accounts
    /// are sorted into the X and the Y position by the mint that is sold,
    /// and the protocol's fee account is the one of the token that is
    /// bought. A sale of Y names three more accounts at the end: the
    /// lending market's oracle, its token mint, and the fee receiver of the
    /// reserve of X.
    pub open spec fn account_metas(
        &self,
        swap_params: SwapParams,
        lending_reserve_x: Pubkey,
        lending_reserve_y: Pubkey,
    ) -> Seq<AccountMeta>
        recommends
            self.larix_reserve_x is Some,
            self.larix_reserve_y is Some,
    {
        let sells_x = swap_params.source_mint == self.state.mint_x;
        let user_token_account_x = if sells_x {
            swap_params.source_token_account
        } else {
            swap_params.destination_token_account
        };
        let user_token_account_y = if sells_x {
            swap_params.destination_token_account
        } else {
            swap_params.source_token_account
        };
        let protocol_fee = if sells_x {
            self.state.protocol_fee_y
        } else {
            self.state.protocol_fee_x
        };
        let larix_reserve_x = self.larix_reserve_x->0;
        let larix_reserve_y = self.larix_reserve_y->0;
        let always = seq![
            AccountMeta::writable(self.key, false),
            AccountMeta::readonly(self.state.mint_x, false),
            AccountMeta::readonly(self.state.mint_y, false),
            AccountMeta::writable(larix_reserve_x.collateral.mint_pubkey, false),
            AccountMeta::writable(larix_reserve_y.collateral.mint_pubkey, false),
            AccountMeta::writable(user_token_account_x, false),
            AccountMeta::writable(user_token_account_y, false),
            AccountMeta::writable(self.state.reserve_x, false),
            AccountMeta::writable(self.state.reserve_y, false),
            AccountMeta::writable(self.state.reserve_x_ctoken, false),
            AccountMeta::writable(self.state.reserve_y_ctoken, false),
            AccountMeta::writable(protocol_fee, false),
            AccountMeta::readonly(self.state.x_price_feed_id, false),
            AccountMeta::readonly(self.state.y_price_feed_id, false),
            AccountMeta::writable(larix_reserve_x.liquidity.supply_pubkey, false),
            AccountMeta::writable(larix_reserve_y.liquidity.supply_pubkey, false),
            AccountMeta::writable(larix_reserve_x.collateral.supply_pubkey, false),
            AccountMeta::writable(larix_reserve_y.collateral.supply_pubkey, false),
            AccountMeta::writable(lending_reserve_x, false),
            AccountMeta::writable(lending_reserve_y, false),
            AccountMeta::writable(self.obligation, false),
            AccountMeta::writable(larix_reserve_x.lending_market, false),
            AccountMeta::writable(self.addresses.market_authority, false),
            AccountMeta::readonly(larix_reserve_x.liquidity.params_2, false),
            AccountMeta::readonly(larix_reserve_y.liquidity.params_2, false),
            AccountMeta::readonly(swap_params.token_transfer_authority, true),
            AccountMeta::readonly(self.addresses.token_program, false),
            AccountMeta::readonly(self.addresses.lending_program, false),
        ];
        if swap_params.source_mint == self.state.mint_y {
            always + seq![
                AccountMeta::readonly(self.addresses.lending_oracle, false),
                AccountMeta::readonly(self.addresses.larix_mint, false),
                AccountMeta::writable(larix_reserve_x.liquidity.fee_receiver, false),
            ]
        } else {
            always
        }
    }

    /// Names the swap leg and the accounts of a swap. Both lending
    /// reserves must have been read. Fails with
    /// `NoLarixReserveFoundForMint` where the main pool does not list one of
    /// the pool's mints.
    pub fn get_swap_and_account_metas(&self, swap_params: &SwapParams) -> (r: Result<
        SwapAndAccountMetas,
        ObricError,
    >)
        requires
            self.larix_reserve_x is Some,
            self.larix_reserve_y is Some,
        ensures
            r is Ok <==> self.lending_reserve_x() is Ok && self.lending_reserve_y() is Ok,
            r matches Ok(named) ==> {
                &&& named.swap == Swap::Saber
                &&& named.account_metas@ == self.account_metas(
                    *swap_params,
                    self.lending_reserve_x()->Ok_0,
                    self.lending_reserve_y()->Ok_0,
                )
            },
            r matches Err(e) ==> e == ObricError::NoLarixReserveFoundForMint,
    {
        let (user_token_account_x, user_token_account_y, protocol_fee) =
            if swap_params.source_mint == self.state.mint_x {
            (
                swap_params.source_token_account,
                swap_params.destination_token_account,
                self.state.protocol_fee_y,
            )
        } else {
            (
                swap_params.destination_token_account,
                swap_params.source_token_account,
                self.state.protocol_fee_x,
            )
        };
        let larix_reserve_x = self.larix_reserve_x.unwrap();
        let larix_reserve_y = self.larix_reserve_y.unwrap();
        let lending_reserve_x = match mint_to_larix_reserve(
            &self.state.mint_x,
            &self.addresses.main_pool,
        ) {
            Ok(key) => key,
            Err(e) => { return Err(e); },
        };
        let lending_reserve_y = match mint_to_larix_reserve(
            &self.state.mint_y,
            &self.addresses.main_pool,
        ) {
            Ok(key) => key,
            Err(e) => { return Err(e); },
        };
        let mut account_metas: Vec<AccountMeta> = Vec::new();
        account_metas.push(AccountMeta::new(self.key(), false));
        account_metas.push(AccountMeta::new_readonly(self.state.mint_x, false));
        account_metas.push(AccountMeta::new_readonly(self.state.mint_y, false));
        account_metas.push(AccountMeta::new(larix_reserve_x.collateral.mint_pubkey, false));
        account_metas.push(AccountMeta::new(larix_reserve_y.collateral.mint_pubkey, false));
        account_metas.push(AccountMeta::new(user_token_account_x, false));
        account_metas.push(AccountMeta::new(user_token_account_y, false));
        account_metas.push(AccountMeta::new(self.state.reserve_x, false));
        account_metas.push(AccountMeta::new(self.state.reserve_y, false));
        account_metas.push(AccountMeta::new(self.state.reserve_x_ctoken, false));
        account_metas.push(AccountMeta::new(self.state.reserve_y_ctoken, false));
        account_metas.push(AccountMeta::new(protocol_fee, false));
        account_metas.push(AccountMeta::new_readonly(self.state.x_price_feed_id, false));
        account_metas.push(AccountMeta::new_readonly(self.state.y_price_feed_id, false));
        account_metas.push(AccountMeta::new(larix_reserve_x.liquidity.supply_pubkey, false));
        account_metas.push(AccountMeta::new(larix_reserve_y.liquidity.supply_pubkey, false));
        account_metas.push(AccountMeta::new(larix_reserve_x.collateral.supply_pubkey, false));
        account_metas.push(AccountMeta::new(larix_reserve_y.collateral.supply_pubkey, false));
        account_metas.push(AccountMeta::new(lending_reserve_x, false));
        account_metas.push(AccountMeta::new(lending_reserve_y, false));
        account_metas.push(AccountMeta::new(self.obligation, false));
        account_metas.push(AccountMeta::new(larix_reserve_x.lending_market, false));
        account_metas.push(AccountMeta::new(self.addresses.market_authority, false));
        account_metas.push(AccountMeta::new_readonly(larix_reserve_x.liquidity.params_2, false));
        account_metas.push(AccountMeta::new_readonly(larix_reserve_y.liquidity.params_2, false));
        account_metas.push(AccountMeta::new_readonly(swap_params.token_transfer_authority, true));
        account_metas.push(AccountMeta::new_readonly(self.addresses.token_program, false));
        account_metas.push(AccountMeta::new_readonly(self.addresses.lending_program, false));
        if swap_params.source_mint == self.state.mint_y {
            account_metas.push(AccountMeta::new_readonly(self.addresses.lending_oracle, false));
            account_metas.push(AccountMeta::new_readonly(self.addresses.larix_mint, false));
            account_metas.push(AccountMeta::new(larix_reserve_x.liquidity.fee_receiver, false));
        }
        Ok(SwapAndAccountMetas { swap: Swap::Saber, account_metas })
    }
}

} // verus!
