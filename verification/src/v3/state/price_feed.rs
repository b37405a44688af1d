//! The oracle feed a pool reads its prices from.

use vstd::prelude::*;
use crate::oracle::{normalize, normalized, FeedStatus, NormalizeFailure, Price};
use crate::v3::errors::ObricError;

verus! {

/// The latest reading of one price feed: its price and whether the feed
/// is publishing.
#[derive(Clone, Copy, Debug, PartialEq, Eq)]
pub struct PriceFeed {
    pub price: Price,
    pub status: FeedStatus,
}

impl PriceFeed {
    /// What `price_normalized` returns for this feed.
    pub open spec fn price_normalized_spec(&self) -> Result<Price, ObricError> {
        if self.status == FeedStatus::Offline {
            Err(ObricError::PythOffline)
        } else {
            match normalized(self.price) {
                Ok(price) => Ok(price),
                Err(NormalizeFailure::Unrepresentable) => Err(ObricError::PythError),
                Err(NormalizeFailure::NotPositive) => Err(ObricError::NegativePrice),
            }
        }
    }

    /// The feed's price in thousandths.
    ///
    /// Fails with `PythOffline` where the feed is offline, with `PythError`
    /// where the price has no representation in thousandths, and with
    /// `NegativePrice` where the price in thousandths is zero or negative.
    pub fn price_normalized(&self) -> (r: Result<Price, ObricError>)
        ensures
            r == self.price_normalized_spec(),
            r matches Ok(price) ==> price.price > 0 && price.expo == -3,
    {
        match self.status {
            FeedStatus::Offline => { return Err(ObricError::PythOffline); },
            FeedStatus::Online => {},
        }
        match normalize(&self.price) {
            Ok(price) => Ok(price),
            Err(NormalizeFailure::Unrepresentable) => Err(ObricError::PythError),
            Err(NormalizeFailure::NotPositive) => Err(ObricError::NegativePrice),
        }
    }
}

} // verus!
