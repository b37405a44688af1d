//! The persisted record of a flow-derived pool, the oracle feed it reads,
//! and the lending reserves it deposits into.

pub mod larix;
pub mod price_feed;
pub mod trading_pair;

pub use price_feed::PriceFeed;
pub use trading_pair::SSTradingPair;
