//! A static-target pool as a swap aggregator sees it: the pool record
//! together with the reserve balances and decimal counts last read.

use vstd::prelude::*;
use crate::interface::{AccountMeta, Quote, QuoteParams, Swap, SwapAndAccountMetas, SwapParams};
use crate::keys::Pubkey;
use crate::multiplier::{mult_x_spec, mult_y_spec, multipliers_fit};
use crate::v2::errors::ObricError;
use crate::v2::state::{PriceFeed, SSTradingPair};

verus! {

/// A static-target pool with the balances and decimal counts it last read.
pub struct ObricV2Amm {
    pub key: Pubkey,
    pub state: SSTradingPair,
    pub current_x: u64,
    pub current_y: u64,
    pub x_decimals: u8,
    pub y_decimals: u8,
    /// The program that owns the pool.
    pub program_id: Pubkey,
    /// The token program that moves the pool's tokens.
    pub token_program: Pubkey,
}

/// What the accounts named by `get_accounts_to_update` hold, as far as each
/// was found: the token amounts of the two reserves, the decimal counts of
/// the two mints, and the two price feeds.
pub struct AccountsUpdate {
    pub reserve_x: Option<u64>,
    pub reserve_y: Option<u64>,
    pub mint_x_decimals: Option<u8>,
    pub mint_y_decimals: Option<u8>,
    pub x_price_feed: Option<PriceFeed>,
    pub y_price_feed: Option<PriceFeed>,
}

impl ObricV2Amm {
    /// A pool that has not read its accounts yet: no balances, and decimal
    /// counts unknown.
    pub fn new(key: Pubkey, state: SSTradingPair, program_id: Pubkey, token_program: Pubkey) -> (amm:
        ObricV2Amm)
        ensures
            amm == (ObricV2Amm {
                key,
                state,
                current_x: 0,
                current_y: 0,
                x_decimals: 0,
                y_decimals: 0,
                program_id,
                token_program,
            }),
    {
        ObricV2Amm {
            key,
            state,
            current_x: 0u64,
            current_y: 0u64,
            x_decimals: 0u8,
            y_decimals: 0u8,
            program_id,
            token_program,
        }
    }

    /// The name the aggregator shows for pools of this kind.
    pub fn label(&self) -> (label: String)
        ensures
            label@ == "Obric V2"@,
    {
        "Obric V2".to_owned()
    }

    /// The address of the pool record.
    pub fn key(&self) -> (key: Pubkey)
        ensures
            key == self.key,
    {
        self.key
    }

    /// The program that owns the pool.
    pub fn program_id(&self) -> (id: Pubkey)
        ensures
            id == self.program_id,
    {
        self.program_id
    }

    /// The two mints the pool trades, X first.
    pub fn get_reserve_mints(&self) -> (mints: Vec<Pubkey>)
        ensures
            mints@ == seq![self.state.mint_x, self.state.mint_y],
    {
        let mut mints: Vec<Pubkey> = Vec::new();
        mints.push(self.state.mint_x);
        mints.push(self.state.mint_y);
        mints
    }

    /// Whether the decimal counts of the two mints still have to be read.
    pub open spec fn decimals_unknown(&self) -> bool {
        self.x_decimals == 0 && self.y_decimals == 0
    }

    /// The accounts `update` wants to see, in order.
    pub open spec fn accounts_to_update(&self) -> Seq<Pubkey> {
        if self.decimals_unknown() {
            seq![
                self.state.reserve_x,
                self.state.reserve_y,
                self.state.x_price_feed_id,
                self.state.y_price_feed_id,
                self.state.mint_x,
                self.state.mint_y,
            ]
        } else {
            seq![
                self.state.reserve_x,
                self.state.reserve_y,
                self.state.x_price_feed_id,
                self.state.y_price_feed_id,
            ]
        }
    }

    /// Names the accounts `update` wants to see: the two reserves and the
    /// two price feeds, and the two mints while the decimal counts are
    /// unknown.
    pub fn get_accounts_to_update(&self) -> (accounts: Vec<Pubkey>)
        ensures
            accounts@ == self.accounts_to_update(),
    {
        let mut accounts: Vec<Pubkey> = Vec::new();
        accounts.push(self.state.reserve_x);
        accounts.push(self.state.reserve_y);
        accounts.push(self.state.x_price_feed_id);
        accounts.push(self.state.y_price_feed_id);
        if self.x_decimals == 0 && self.y_decimals == 0 {
            accounts.push(self.state.mint_x);
            accounts.push(self.state.mint_y);
        }
        accounts
    }

    /// The accounts the pool wants to see change over time.
    pub fn has_dynamic_accounts(&self) -> (dynamic: bool)
        ensures
            dynamic,
    {
        true
    }

    /// The number of accounts a swap names.
    pub fn get_accounts_len(&self) -> (len: usize)
        ensures
            len == 12,
    {
        12
    }

    /// The pool after `update` has read `accounts`, and what `update`
    /// returns. The accounts are taken in order: the reserves set the
    /// balances, the mints set the decimal counts while these are unknown,
    /// the price feeds set the multipliers. The first account that is
    /// missing, the first price that cannot be normalized, or multipliers
    /// that do not fit stop the update there; what was set before stays.
    pub open spec fn update_spec(self, accounts: AccountsUpdate) -> (
        Result<(), ObricError>,
        ObricV2Amm,
    ) {
        if accounts.reserve_x is None || accounts.reserve_y is None {
            (Err(ObricError::AccountNotFound), self)
        } else {
            let balanced = ObricV2Amm {
                current_x: accounts.reserve_x->0,
                current_y: accounts.reserve_y->0,
                ..self
            };
            if self.decimals_unknown() && (accounts.mint_x_decimals is None
                || accounts.mint_y_decimals is None) {
                (Err(ObricError::AccountNotFound), balanced)
            } else {
                let counted = if self.decimals_unknown() {
                    ObricV2Amm {
                        x_decimals: accounts.mint_x_decimals->0,
                        y_decimals: accounts.mint_y_decimals->0,
                        ..balanced
                    }
                } else {
                    balanced
                };
                if accounts.x_price_feed is None || accounts.y_price_feed is None {
                    (Err(ObricError::AccountNotFound), counted)
                } else {
                    match (
                        accounts.x_price_feed->0.price_normalized_spec(),
                        accounts.y_price_feed->0.price_normalized_spec(),
                    ) {
                        (Err(e), _) => (Err(e), counted),
                        (Ok(_), Err(e)) => (Err(e), counted),
                        (Ok(price_x), Ok(price_y)) => {
                            if multipliers_fit(
                                price_x.price as int,
                                price_y.price as int,
                                counted.x_decimals as int,
                                counted.y_decimals as int,
                            ) {
                                (
                                    Ok(()),
                                    ObricV2Amm {
                                        state: SSTradingPair {
                                            mult_x: mult_x_spec(
                                                price_x.price as int,
                                                counted.x_decimals as int,
                                                counted.y_decimals as int,
                                            ) as u64,
                                            mult_y: mult_y_spec(
                                                price_y.price as int,
                                                counted.x_decimals as int,
                                                counted.y_decimals as int,
                                            ) as u64,
                                            ..counted.state
                                        },
                                        ..counted
                                    },
                                )
                            } else {
                                (Err(ObricError::NumOverflowing), counted)
                            }
                        },
                    }
                }
            }
        }
    }

    /// Takes in what the pool's accounts hold: balances, decimal counts and
    /// prices. Whatever goes wrong, the pool record itself changes only
    /// when the update succeeds; in particular a price that is not positive
    /// leaves both multipliers as they were.
    pub fn update(&mut self, accounts: &AccountsUpdate) -> (r: Result<(), ObricError>)
        ensures
            r == old(self).update_spec(*accounts).0,
            *final(self) == old(self).update_spec(*accounts).1,
            r is Err ==> final(self).state == old(self).state,
            final(self).key == old(self).key,
    {
        let reserve_x = match accounts.reserve_x {
            Some(v) => v,
            None => { return Err(ObricError::AccountNotFound); },
        };
        let reserve_y = match accounts.reserve_y {
            Some(v) => v,
            None => { return Err(ObricError::AccountNotFound); },
        };
        self.current_x = reserve_x;
        self.current_y = reserve_y;
        if self.x_decimals == 0 && self.y_decimals == 0 {
            let mint_x_decimals = match accounts.mint_x_decimals {
                Some(v) => v,
                None => { return Err(ObricError::AccountNotFound); },
            };
            let mint_y_decimals = match accounts.mint_y_decimals {
                Some(v) => v,
                None => { return Err(ObricError::AccountNotFound); },
            };
            self.x_decimals = mint_x_decimals;
            self.y_decimals = mint_y_decimals;
        }
        let x_price_feed = match accounts.x_price_feed {
            Some(v) => v,
            None => { return Err(ObricError::AccountNotFound); },
        };
        let y_price_feed = match accounts.y_price_feed {
            Some(v) => v,
            None => { return Err(ObricError::AccountNotFound); },
        };
        let price_x = match x_price_feed.price_normalized() {
            Ok(price) => price.price as u64,
            Err(e) => { return Err(e); },
        };
        let price_y = match y_price_feed.price_normalized() {
            Ok(price) => price.price as u64,
            Err(e) => { return Err(e); },
        };
        let r = self.state.update_price(price_x, price_y, self.x_decimals, self.y_decimals);
        proof {
            let spec = old(self).update_spec(*accounts);
            assert(price_x as int == x_price_feed.price_normalized_spec()->Ok_0.price as int);
            assert(price_y as int == y_price_feed.price_normalized_spec()->Ok_0.price as int);
            if r is Ok {
                assert(r->Ok_0 == ());
                assert(spec.0->Ok_0 == ());
            }
        }
        r
    }

    /// The quote that reports a lack of liquidity.
    pub open spec fn no_liquidity() -> Quote {
        Quote { not_enough_liquidity: true, ..Quote::empty() }
    }

    /// The quote that reports what a trade receives and pays.
    pub open spec fn filled(out_amount: u64, fee_amount: u64, fee_mint: Pubkey) -> Quote {
        Quote { out_amount, fee_amount, fee_mint, ..Quote::empty() }
    }

    /// What the pool record quotes for the request: the sale of X where the
    /// input mint is the pool's X, the sale of Y where it is the pool's Y,
    /// and three zeros for any other mint.
    pub open spec fn routed(&self, quote_params: QuoteParams) -> Result<
        (u64, u64, u64),
        ObricError,
    > {
        if quote_params.input_mint == self.state.mint_x {
            self.state.quote_x_to_y_spec(
                quote_params.in_amount as int,
                self.current_x as int,
                self.current_y as int,
            )
        } else if quote_params.input_mint == self.state.mint_y {
            self.state.quote_y_to_x_spec(
                quote_params.in_amount as int,
                self.current_x as int,
                self.current_y as int,
            )
        } else {
            Ok((0u64, 0u64, 0u64))
        }
    }

    /// The quote for a request. A trade that would receive nothing, or that
    /// the pool refuses for lack of liquidity, is answered with the quote
    /// that reports a lack of liquidity; any other failure of the pool
    /// record is handed on.
    pub open spec fn quote_spec(&self, quote_params: QuoteParams) -> Result<Quote, ObricError> {
        match self.routed(quote_params) {
            Ok((output_after_fee, protocol_fee, lp_fee)) => {
                if output_after_fee == 0 {
                    Ok(Self::no_liquidity())
                } else {
                    Ok(
                        Self::filled(
                            output_after_fee,
                            (protocol_fee + lp_fee) as u64,
                            quote_params.output_mint,
                        ),
                    )
                }
            },
            Err(ObricError::InsufficientActiveX) => Ok(Self::no_liquidity()),
            Err(ObricError::InsufficientActiveY) => Ok(Self::no_liquidity()),
            Err(e) => Err(e),
        }
    }

    /// Quotes a trade against the balances last read.
    pub fn quote(&self, quote_params: &QuoteParams) -> (r: Result<Quote, ObricError>)
        ensures
            r == self.quote_spec(*quote_params),
    {
        let routed = if quote_params.input_mint == self.state.mint_x {
            self.state.quote_x_to_y(quote_params.in_amount, self.current_x, self.current_y)
        } else if quote_params.input_mint == self.state.mint_y {
            self.state.quote_y_to_x(quote_params.in_amount, self.current_x, self.current_y)
        } else {
            Ok((0u64, 0u64, 0u64))
        };
        let (output_after_fee, protocol_fee, lp_fee) = match routed {
            Ok(parts) => parts,
            Err(ObricError::InsufficientActiveX) | Err(ObricError::InsufficientActiveY) => {
                let mut quote = Quote::default();
                quote.not_enough_liquidity = true;
                return Ok(quote);
            },
            Err(e) => { return Err(e); },
        };
        let mut quote = Quote::default();
        if output_after_fee == 0 {
            quote.not_enough_liquidity = true;
        } else {
            proof {
                self.lemma_fee_parts_fit(*quote_params);
            }
            quote.out_amount = output_after_fee;
            quote.fee_amount = protocol_fee + lp_fee;
            quote.fee_mint = quote_params.output_mint;
        }
        Ok(quote)
    }

    /// The two fee parts of a quote together are at most the output before
    /// fees, so their sum is a 64-bit number.
    pub proof fn lemma_fee_parts_fit(&self, quote_params: QuoteParams)
        requires
            self.routed(quote_params) is Ok,
        ensures
            ({
                let (output_after_fee, protocol_fee, lp_fee) = self.routed(quote_params)->Ok_0;
                output_after_fee + protocol_fee + lp_fee <= u64::MAX
            }),
    {
        let input = quote_params.in_amount as int;
        if input > 0 {
            if quote_params.input_mint == self.state.mint_x {
                crate::v2::laws::lemma_fee_conservation_x_to_y(
                    self.state,
                    input,
                    self.current_x as int,
                    self.current_y as int,
                );
            } else if quote_params.input_mint == self.state.mint_y {
                crate::v2::laws::lemma_fee_conservation_y_to_x(
                    self.state,
                    input,
                    self.current_x as int,
                    self.current_y as int,
                );
            }
        }
    }

    /// A copy of the pool as it stands.
    pub fn clone_amm(&self) -> (copy: ObricV2Amm)
        ensures
            copy == *self,
    {
        ObricV2Amm {
            key: self.key,
            state: self.state,
            current_x: self.current_x,
            current_y: self.current_y,
            x_decimals: self.x_decimals,
            y_decimals: self.y_decimals,
            program_id: self.program_id,
            token_program: self.token_program,
        }
    }

    /// The accounts a swap names, in instruction order. The trader's two
    /// token accounts are sorted into the X and the Y position by the mint
    /// that is sold, and the protocol's fee account is the one of the token
    /// that is bought.
    pub open spec fn account_metas(&self, swap_params: SwapParams) -> Seq<AccountMeta> {
        let sells_x = swap_params.source_mint == self.state.mint_x;
        let user_token_account_x = if sells_x {
            swap_params.source_token_account
        } else {
            swap_params.destination_token_account
        };
        let user_token_account_y = if sells_x {
            swap_params.destination_token_account
        } else {
            swap_params.source_token_account
        };
        let protocol_fee = if sells_x {
            self.state.protocol_fee_y
        } else {
            self.state.protocol_fee_x
        };
        seq![
            AccountMeta::writable(self.key, false),
            AccountMeta::readonly(self.state.mint_x, false),
            AccountMeta::readonly(self.state.mint_y, false),
            AccountMeta::writable(self.state.reserve_x, false),
            AccountMeta::writable(self.state.reserve_y, false),
            AccountMeta::writable(user_token_account_x, false),
            AccountMeta::writable(user_token_account_y, false),
            AccountMeta::writable(protocol_fee, false),
            AccountMeta::readonly(self.state.x_price_feed_id, false),
            AccountMeta::readonly(self.state.y_price_feed_id, false),
            AccountMeta::readonly(swap_params.token_transfer_authority, true),
            AccountMeta::readonly(self.token_program, false),
        ]
    }

    /// Names the swap leg and the twelve accounts of a swap.
    pub fn get_swap_and_account_metas(&self, swap_params: &SwapParams) -> (r: SwapAndAccountMetas)
        ensures
            r.swap == Swap::Saber,
            r.account_metas@ == self.account_metas(*swap_params),
            r.account_metas@.len() == 12,
    {
        let (user_token_account_x, user_token_account_y, protocol_fee) =
            if swap_params.source_mint == self.state.mint_x {
            (
                swap_params.source_token_account,
                swap_params.destination_token_account,
                self.state.protocol_fee_y,
            )
        } else {
            (
                swap_params.destination_token_account,
                swap_params.source_token_account,
                self.state.protocol_fee_x,
            )
        };
        let mut account_metas: Vec<AccountMeta> = Vec::new();
        account_metas.push(AccountMeta::new(self.key(), false));
        account_metas.push(AccountMeta::new_readonly(self.state.mint_x, false));
        account_metas.push(AccountMeta::new_readonly(self.state.mint_y, false));
        account_metas.push(AccountMeta::new(self.state.reserve_x, false));
        account_metas.push(AccountMeta::new(self.state.reserve_y, false));
        account_metas.push(AccountMeta::new(user_token_account_x, false));
        account_metas.push(AccountMeta::new(user_token_account_y, false));
        account_metas.push(AccountMeta::new(protocol_fee, false));
        account_metas.push(AccountMeta::new_readonly(self.state.x_price_feed_id, false));
        account_metas.push(AccountMeta::new_readonly(self.state.y_price_feed_id, false));
        account_metas.push(AccountMeta::new_readonly(swap_params.token_transfer_authority, true));
        account_metas.push(AccountMeta::new_readonly(self.token_program, false));
        SwapAndAccountMetas { swap: Swap::Saber, account_metas }
    }
}

} // verus!
