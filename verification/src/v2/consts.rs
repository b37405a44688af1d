//! Fixed parameters of static-target pools.

use vstd::prelude::*;

verus! {

/// The seed of a pool record's address.
pub const TRADING_PAIR_SEED: &'static str = "trading_pair";

/// The seed of a fee record's address.
pub const FEE_RECORDS_SEED: &'static str = "fee_records";

/// The scale of fee rates: parts per million.
pub const MILLION: u64 = 1000000;

} // verus!
