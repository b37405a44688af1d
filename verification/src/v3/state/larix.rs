//! What a pool needs to know of a reserve of the lending market.

use vstd::prelude::*;
use crate::keys::Pubkey;

verus! {

/// The liquidity side of a lending reserve.
#[derive(Clone, Copy, Debug, PartialEq, Eq)]
pub struct ReserveLiquidity {
    pub supply_pubkey: Pubkey,
    pub fee_receiver: Pubkey,
    pub params_2: Pubkey,
}

/// The collateral side of a lending reserve.
#[derive(Clone, Copy, Debug, PartialEq, Eq)]
pub struct ReserveCollateral {
    pub mint_pubkey: Pubkey,
    pub supply_pubkey: Pubkey,
}

/// A lending reserve, reduced to the accounts a swap has to name.
#[derive(Clone, Copy, Debug, PartialEq, Eq)]
pub struct Reserve {
    pub lending_market: Pubkey,
    pub liquidity: ReserveLiquidity,
    pub collateral: ReserveCollateral,
}

} // verus!
