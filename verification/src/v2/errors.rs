//! Everything a static-target pool can fail with.

use vstd::prelude::*;

verus! {

/// What an instruction, an update or a quote can fail with.
#[derive(Clone, Copy, Debug, PartialEq, Eq, Structural)]
pub enum ObricError {
    AlreadyInitialized,
    /// Unauthorized
    Unauthorized,
    /// Mismatched token mint
    MismatchedTokenMint,
    /// Invalid concentration argument
    InvalidConcentrationArg,
    InsufficientActiveY,
    InsufficientActiveX,
    /// input amount must be greater than 0
    InvalidInputAmount,
    NumOverflowing,
    OutputAmountLessThanExpected,
    /// Pyth has an internal error
    PythError,
    /// Pyth price oracle is offline
    PythOffline,
    /// Program should not try to serialize a price account
    TryToSerializePriceAccount,
    InvalidPriceAccount,
    NegativePrice,
    /// Invalid price account owner program
    InvalidPriceOwner,
    InvalidRoutesForSwap,
    AccountNotFound,
}

/// The name aggregator adapters use for the same errors.
pub type AmmError = ObricError;

} // verus!
