//! The plain values a swap aggregator exchanges with a pool: what it asks,
//! what it is quoted, and which accounts a swap has to name.

use vstd::prelude::*;
use crate::keys::Pubkey;

verus! {

/// A request for a quote.
#[derive(Clone, Copy, Debug, PartialEq, Eq)]
pub struct QuoteParams {
    pub in_amount: u64,
    pub input_mint: Pubkey,
    pub output_mint: Pubkey,
}

/// A quote.
#[derive(Clone, Copy, Debug, PartialEq, Eq)]
pub struct Quote {
    pub not_enough_liquidity: bool,
    pub min_in_amount: Option<u64>,
    pub min_out_amount: Option<u64>,
    pub in_amount: u64,
    pub out_amount: u64,
    pub fee_amount: u64,
    pub fee_mint: Pubkey,
}

impl Quote {
    /// The quote that promises nothing: every amount zero, no bound set,
    /// and the all-zero key as fee mint.
    pub open spec fn empty() -> Quote {
        Quote {
            not_enough_liquidity: false,
            min_in_amount: None,
            min_out_amount: None,
            in_amount: 0,
            out_amount: 0,
            fee_amount: 0,
            fee_mint: Pubkey::zeroed(),
        }
    }
}

impl Default for Quote {
    fn default() -> (quote: Quote)
        ensures
            quote == Quote::empty(),
    {
        Quote {
            not_enough_liquidity: false,
            min_in_amount: None,
            min_out_amount: None,
            in_amount: 0,
            out_amount: 0,
            fee_amount: 0,
            fee_mint: Pubkey { bytes: [0u8; 32] },
        }
    }
}

/// The accounts of the trader who swaps.
#[derive(Clone, Copy, Debug, PartialEq, Eq)]
pub struct SwapParams {
    pub source_mint: Pubkey,
    pub destination_mint: Pubkey,
    pub source_token_account: Pubkey,
    pub destination_token_account: Pubkey,
    pub token_transfer_authority: Pubkey,
}

/// One account of an instruction, with what the instruction may do to it.
#[derive(Clone, Copy, Debug, PartialEq, Eq)]
pub struct AccountMeta {
    pub pubkey: Pubkey,
    pub is_signer: bool,
    pub is_writable: bool,
}

impl AccountMeta {
    /// An account the instruction may write to.
    pub open spec fn writable(pubkey: Pubkey, is_signer: bool) -> AccountMeta {
        AccountMeta { pubkey, is_signer, is_writable: true }
    }

    /// An account the instruction only reads.
    pub open spec fn readonly(pubkey: Pubkey, is_signer: bool) -> AccountMeta {
        AccountMeta { pubkey, is_signer, is_writable: false }
    }

    /// An account the instruction may write to.
    pub fn new(pubkey: Pubkey, is_signer: bool) -> (meta: AccountMeta)
        ensures
            meta == AccountMeta::writable(pubkey, is_signer),
    {
        AccountMeta { pubkey, is_signer, is_writable: true }
    }

    /// An account the instruction only reads.
    pub fn new_readonly(pubkey: Pubkey, is_signer: bool) -> (meta: AccountMeta)
        ensures
            meta == AccountMeta::readonly(pubkey, is_signer),
    {
        AccountMeta { pubkey, is_signer, is_writable: false }
    }
}

/// The kind of swap leg an aggregator routes through a pool.
#[derive(Clone, Copy, Debug, PartialEq, Eq, Structural)]
pub enum Swap {
    Saber,
}

/// The swap leg and the accounts it names, in instruction order.
#[derive(Clone, Debug, PartialEq, Eq)]
pub struct SwapAndAccountMetas {
    pub swap: Swap,
    pub account_metas: Vec<AccountMeta>,
}

} // verus!
