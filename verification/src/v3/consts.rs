//! Fixed parameters of flow-derived pools, and the table that leads from a
//! token mint to its reserve in the lending market.

use vstd::prelude::*;
use crate::keys::Pubkey;
use crate::v3::errors::ObricError;

verus! {

/// The seed of a pool record's address.
pub const TRADING_PAIR_SEED: &'static str = "trading_pair";

/// The seed of a fee record's address.
pub const FEE_RECORDS_SEED: &'static str = "fee_records";

/// The scale of fee rates: parts per million.
pub const MILLION: u64 = 1000000;

/// The size in bytes of an obligation account of the Solend market.
pub const SOLEND_OBLIGATION_SPACE: usize = 1300;

/// The seed of a pool's obligation in the lending market.
pub const LARIX_OBLIGATION_SEED: &'static str = "larix_obligation";

/// The size in bytes of an obligation account of the lending market.
pub const LARIX_OBLIGATION_SPACE: usize = 1092;

/// A token mint and the lending reserve that takes deposits of it.
#[derive(Clone, Copy, Debug, PartialEq, Eq)]
pub struct MintReserve {
    pub mint: Pubkey,
    pub reserve: Pubkey,
}

/// The reserves of the lending market's main pool that a pool can deposit
/// into.
#[derive(Clone, Copy, Debug, PartialEq, Eq)]
pub struct LarixMainPool {
    pub sol: MintReserve,
    pub usdc: MintReserve,
    pub usdt: MintReserve,
}

impl LarixMainPool {
    /// The reserve for a mint: the first of SOL, USDC and USDT whose mint it
    /// is.
    pub open spec fn reserve_of(&self, mint: Pubkey) -> Result<Pubkey, ObricError> {
        if mint == self.sol.mint {
            Ok(self.sol.reserve)
        } else if mint == self.usdc.mint {
            Ok(self.usdc.reserve)
        } else if mint == self.usdt.mint {
            Ok(self.usdt.reserve)
        } else {
            Err(ObricError::NoLarixReserveFoundForMint)
        }
    }
}

/// Looks up the lending reserve for a mint. Fails with
/// `NoLarixReserveFoundForMint` for a mint the main pool does not list.
pub fn mint_to_larix_reserve(mint_ref: &Pubkey, main_pool: &LarixMainPool) -> (r: Result<
    Pubkey,
    ObricError,
>)
    ensures
        r == main_pool.reserve_of(*mint_ref),
{
    let mint = *mint_ref;
    if mint == main_pool.sol.mint {
        Ok(main_pool.sol.reserve)
    } else if mint == main_pool.usdc.mint {
        Ok(main_pool.usdc.reserve)
    } else if mint == main_pool.usdt.mint {
        Ok(main_pool.usdt.reserve)
    } else {
        Err(ObricError::NoLarixReserveFoundForMint)
    }
}

} // verus!
