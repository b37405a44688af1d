//! Oracle-anchored concentrated-liquidity pricing for two-asset pools.

pub mod curve;
pub mod fees;
pub mod interface;
pub mod keys;
pub mod math;
pub mod multiplier;
pub mod oracle;
pub mod v2;
pub mod v3;
