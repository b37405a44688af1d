//! The persisted record of a static-target pool and the oracle feed it reads.

pub mod price_feed;
pub mod trading_pair;

pub use price_feed::PriceFeed;
pub use trading_pair::SSTradingPair;
