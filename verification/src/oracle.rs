//! Oracle prices in fixed-point form, and their rescaling to another
//! exponent.

use vstd::prelude::*;
use crate::math::pow10;

verus! {

/// An oracle price `price * 10^expo` with its confidence interval
/// `conf * 10^expo` and the time it was published at.
#[derive(Clone, Copy, Debug, PartialEq, Eq, Structural)]
pub struct Price {
    pub price: i64,
    pub conf: u64,
    pub expo: i32,
    pub publish_time: i64,
}

/// Whether a feed currently publishes prices.
#[derive(Clone, Copy, Debug, PartialEq, Eq, Structural)]
pub enum FeedStatus {
    /// The feed is trading: its price is current.
    Online,
    /// The feed is halted, in auction, or otherwise not trading.
    Offline,
}

/// The exponent every price is brought to before it is used: thousandths.
pub const NORMALIZED_EXPO: i32 = -3;

/// Division that rounds toward zero.
pub open spec fn trunc_div(a: int, d: int) -> int {
    if a >= 0 {
        a / d
    } else {
        -((-a) / d)
    }
}

/// The price `p` expressed with exponent `target_expo`.
///
/// Raising the exponent divides price and confidence by a power of ten,
/// rounding toward zero. Lowering it multiplies them, and there is no result
/// where a product leaves the range of its field. There is no result either
/// where the distance between the exponents is not a 32-bit number.
pub open spec fn rescaled(p: Price, target_expo: i32) -> Option<Price> {
    let delta = target_expo - p.expo;
    if delta < i32::MIN || delta > i32::MAX {
        None
    } else if delta >= 0 {
        Some(
            Price {
                price: trunc_div(p.price as int, pow10(delta as nat)) as i64,
                conf: (p.conf as int / pow10(delta as nat)) as u64,
                expo: target_expo,
                publish_time: p.publish_time,
            },
        )
    } else {
        let scale = pow10((-delta) as nat);
        if i64::MIN <= p.price * scale <= i64::MAX && p.conf * scale <= u64::MAX {
            Some(
                Price {
                    price: (p.price * scale) as i64,
                    conf: (p.conf * scale) as u64,
                    expo: target_expo,
                    publish_time: p.publish_time,
                },
            )
        } else {
            None
        }
    }
}

/// Rescales a price with `pyth_sdk::Price::scale_to_exponent`. The contract
/// claims that the method divides or multiplies price and confidence by ten
/// once per step of exponent, with checked multiplication and with division
/// that rounds toward zero, keeps the publish time, and gives nothing back
/// where the exponent distance or a product overflows.
#[verifier::external_body]
pub(crate) fn scale_to_exponent(p: &Price, target_expo: i32) -> (r: Option<Price>)
    ensures
        r == rescaled(*p, target_expo),
{
    let q = pyth_sdk::Price {
        price: p.price,
        conf: p.conf,
        expo: p.expo,
        publish_time: p.publish_time,
    };
    match q.scale_to_exponent(target_expo) {
        Some(s) => Some(
            Price { price: s.price, conf: s.conf, expo: s.expo, publish_time: s.publish_time },
        ),
        None => None,
    }
}

/// Why a price could not be normalized.
#[derive(Clone, Copy, Debug, PartialEq, Eq, Structural)]
pub enum NormalizeFailure {
    /// The price has no representation in thousandths.
    Unrepresentable,
    /// The price in thousandths is zero or negative.
    NotPositive,
}

/// The outcome of normalizing `p` to thousandths.
pub open spec fn normalized(p: Price) -> Result<Price, NormalizeFailure> {
    match rescaled(p, NORMALIZED_EXPO) {
        None => Err(NormalizeFailure::Unrepresentable),
        Some(q) => if q.price > 0 {
            Ok(q)
        } else {
            Err(NormalizeFailure::NotPositive)
        },
    }
}

/// Brings a price to thousandths and checks that it is strictly positive.
pub fn normalize(p: &Price) -> (r: Result<Price, NormalizeFailure>)
    ensures
        r == normalized(*p),
        r matches Ok(q) ==> q.expo == NORMALIZED_EXPO && q.price > 0,
{
    match scale_to_exponent(p, NORMALIZED_EXPO) {
        None => Err(NormalizeFailure::Unrepresentable),
        Some(q) => {
            if q.price > 0 {
                Ok(q)
            } else {
                Err(NormalizeFailure::NotPositive)
            }
        },
    }
}

} // verus!
