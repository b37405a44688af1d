//! The pool record and its pricing rules.

use vstd::prelude::*;
use crate::curve::{curve_output, output_before_fee, output_computable};
use crate::fees::{
    fee_of, min_int, rebate, rebate_fits, rebate_of, rebate_ratio, rebate_ratio_of, settle,
    settlement, trading_fee,
};
use crate::keys::Pubkey;
use crate::math::{integer_sqrt, isqrt};
use crate::multiplier::{compute_multipliers, mult_x_spec, mult_y_spec, multipliers_fit};
use crate::v2::errors::ObricError;

verus! {

/// The record of a static-target pool: who it is, how steep its curve is,
/// where its target lies, and what it charges.
///
/// `mult_x` and `mult_y` turn balances into comparable values and follow
/// the oracle. `big_k` is the invariant of the shifted curve, and
/// `target_x` the reserve of X at which the pool is in balance.
#[derive(Clone, Copy, Debug, PartialEq, Eq)]
pub struct SSTradingPair {
    pub is_initialized: bool,
    pub x_price_feed_id: Pubkey,
    pub y_price_feed_id: Pubkey,
    pub reserve_x: Pubkey,
    pub reserve_y: Pubkey,
    pub protocol_fee_x: Pubkey,
    pub protocol_fee_y: Pubkey,
    pub bump: u8,
    pub mint_x: Pubkey,
    pub mint_y: Pubkey,
    pub concentration: u64,
    pub big_k: u128,
    pub target_x: u64,
    pub cumulative_volume: u64,
    pub mult_x: u64,
    pub mult_y: u64,
    pub fee_millionth: u64,
    pub rebate_percentage: u64,
    pub protocol_fee_share_thousandth: u64,
    pub volume_record: [u64; 8],
    pub volume_time_record: [i64; 8],
}

impl Default for SSTradingPair {
    /// The record every field of which is zero.
    fn default() -> (pair: SSTradingPair)
        ensures
            pair == SSTradingPair::empty(),
    {
        SSTradingPair {
            is_initialized: false,
            x_price_feed_id: Pubkey::default(),
            y_price_feed_id: Pubkey::default(),
            reserve_x: Pubkey::default(),
            reserve_y: Pubkey::default(),
            protocol_fee_x: Pubkey::default(),
            protocol_fee_y: Pubkey::default(),
            bump: 0,
            mint_x: Pubkey::default(),
            mint_y: Pubkey::default(),
            concentration: 0,
            big_k: 0,
            target_x: 0,
            cumulative_volume: 0,
            mult_x: 0,
            mult_y: 0,
            fee_millionth: 0,
            rebate_percentage: 0,
            protocol_fee_share_thousandth: 0,
            volume_record: [0u64; 8],
            volume_time_record: [0i64; 8],
        }
    }
}

impl SSTradingPair {
    /// The record every field of which is zero.
    pub open spec fn empty() -> SSTradingPair {
        SSTradingPair {
            is_initialized: false,
            x_price_feed_id: Pubkey::zeroed(),
            y_price_feed_id: Pubkey::zeroed(),
            reserve_x: Pubkey::zeroed(),
            reserve_y: Pubkey::zeroed(),
            protocol_fee_x: Pubkey::zeroed(),
            protocol_fee_y: Pubkey::zeroed(),
            bump: 0,
            mint_x: Pubkey::zeroed(),
            mint_y: Pubkey::zeroed(),
            concentration: 0,
            big_k: 0,
            target_x: 0,
            cumulative_volume: 0,
            mult_x: 0,
            mult_y: 0,
            fee_millionth: 0,
            rebate_percentage: 0,
            protocol_fee_share_thousandth: 0,
            volume_record: vstd::array::spec_array_fill_for_copy_type::<u64, 8>(0u64),
            volume_time_record: vstd::array::spec_array_fill_for_copy_type::<i64, 8>(0i64),
        }
    }

    /// Whether the pool's parameters lie in their ranges: a concentration
    /// of at least one, a fee of at most one million parts per million, a
    /// protocol share of at most one thousand parts per thousand, and a
    /// rebate of at most one hundred percent.
    pub open spec fn parameters_valid(&self) -> bool {
        &&& self.concentration >= 1
        &&& self.fee_millionth <= 1_000_000
        &&& self.protocol_fee_share_thousandth <= 1000
        &&& self.rebate_percentage <= 100
    }

    /// The value of both reserves together.
    pub open spec fn total_value(&self, current_x: int, current_y: int) -> int {
        current_x * self.mult_x + current_y * self.mult_y
    }

    /// The reserve of Y at which the pool would hold `target_x` of X at the
    /// same total value.
    pub open spec fn target_y_of(&self, current_x: int, current_y: int) -> int {
        (self.total_value(current_x, current_y) - self.target_x * self.mult_x) / (
        self.mult_y as int)
    }

    /// Whether the target pair can be computed: the total value fits in 128
    /// bits and covers the value of `target_x`, `mult_y` is not zero, and
    /// the target for Y fits in 64 bits.
    pub open spec fn targets_fit(&self, current_x: int, current_y: int) -> bool {
        &&& self.total_value(current_x, current_y) <= u128::MAX
        &&& self.target_x * self.mult_x <= self.total_value(current_x, current_y)
        &&& self.mult_y > 0
        &&& self.target_y_of(current_x, current_y) <= u64::MAX
    }

    /// The curve coordinate of the target on the X side: the root of the
    /// invariant divided by the price ratio.
    pub open spec fn target_x_k(&self) -> int {
        isqrt((self.big_k * self.mult_y / (self.mult_x as int)) as nat) as int
    }

    /// The pool's X coordinate on the curve when it holds `current_x`.
    pub open spec fn current_x_k(&self, current_x: int) -> int {
        self.target_x_k() - self.target_x + current_x
    }

    /// The pool's Y coordinate on the curve when it holds `current_x`.
    pub open spec fn current_y_k(&self, current_x: int) -> int {
        self.big_k as int / self.current_x_k(current_x)
    }

    /// Whether the pool's point on the curve can be computed: `mult_x` is
    /// not zero, the scaled invariant fits in 128 bits, the target lies on
    /// or below its own curve coordinate, and the X coordinate is not zero.
    pub open spec fn curve_fits(&self, current_x: int) -> bool {
        &&& self.mult_x > 0
        &&& self.big_k * self.mult_y <= u128::MAX
        &&& self.target_x <= self.target_x_k()
        &&& self.current_x_k(current_x) > 0
    }

    /// Recomputes both multipliers from two normalized prices and the two
    /// tokens' decimal counts. Fails, and changes nothing, where a
    /// multiplier does not fit in 64 bits.
    pub fn update_price(
        &mut self,
        price_x: u64,
        price_y: u64,
        x_decimals: u8,
        y_decimals: u8,
    ) -> (r: Result<(), ObricError>)
        ensures
            match r {
                Ok(_) => {
                    &&& multipliers_fit(
                        price_x as int,
                        price_y as int,
                        x_decimals as int,
                        y_decimals as int,
                    )
                    &&& *final(self) == (SSTradingPair {
                        mult_x: mult_x_spec(price_x as int, x_decimals as int, y_decimals as int)
                            as u64,
                        mult_y: mult_y_spec(price_y as int, x_decimals as int, y_decimals as int)
                            as u64,
                        ..*old(self)
                    })
                },
                Err(e) => {
                    &&& e == ObricError::NumOverflowing
                    &&& !multipliers_fit(
                        price_x as int,
                        price_y as int,
                        x_decimals as int,
                        y_decimals as int,
                    )
                    &&& *final(self) == *old(self)
                },
            },
    {
        match compute_multipliers(price_x, price_y, x_decimals, y_decimals) {
            Some((mult_x, mult_y)) => {
                self.mult_x = mult_x;
                self.mult_y = mult_y;
                Ok(())
            },
            None => Err(ObricError::NumOverflowing),
        }
    }

    /// Returns `(target_x, target_y)`: the configured target for X and the
    /// reserve of Y that keeps the pool's total value at that target.
    pub fn get_target_xy(&self, current_x: u64, current_y: u64) -> (r: Result<
        (u64, u64),
        ObricError,
    >)
        ensures
            r is Ok <==> self.targets_fit(current_x as int, current_y as int),
            r matches Ok((target_x, target_y)) ==> {
                &&& target_x == self.target_x
                &&& target_y == self.target_y_of(current_x as int, current_y as int)
            },
            r matches Err(e) ==> e == ObricError::NumOverflowing,
    {
        proof {
            assert(current_x * self.mult_x <= u128::MAX) by (nonlinear_arith)
                requires
                    current_x <= u64::MAX,
                    self.mult_x <= u64::MAX,
            ;
            assert(current_y * self.mult_y <= u128::MAX) by (nonlinear_arith)
                requires
                    current_y <= u64::MAX,
                    self.mult_y <= u64::MAX,
            ;
            assert(self.target_x * self.mult_x <= u128::MAX) by (nonlinear_arith)
                requires
                    self.target_x <= u64::MAX,
                    self.mult_x <= u64::MAX,
            ;
        }
        let value_x: u128 = (current_x as u128) * (self.mult_x as u128);
        let value_y: u128 = (current_y as u128) * (self.mult_y as u128);
        let value_total = match value_x.checked_add(value_y) {
            Some(v) => v,
            None => { return Err(ObricError::NumOverflowing); },
        };
        let target_x = self.target_x;
        let target_x_value: u128 = (target_x as u128) * (self.mult_x as u128);
        let target_y_value = match value_total.checked_sub(target_x_value) {
            Some(v) => v,
            None => { return Err(ObricError::NumOverflowing); },
        };
        let target_y_wide = match target_y_value.checked_div(self.mult_y as u128) {
            Some(v) => v,
            None => { return Err(ObricError::NumOverflowing); },
        };
        if target_y_wide > u64::MAX as u128 {
            return Err(ObricError::NumOverflowing);
        }
        Ok((target_x, target_y_wide as u64))
    }

    /// Maps the pool's reserves onto the curve around its target and
    /// returns `(current_x_k, current_y_k)`. The Y coordinate is the
    /// invariant divided by the X coordinate, rounded down.
    pub fn curve_point(&self, current_x: u64) -> (r: Option<(u128, u128)>)
        ensures
            r is Some <==> self.curve_fits(current_x as int),
            r matches Some((current_x_k, current_y_k)) ==> {
                &&& current_x_k == self.current_x_k(current_x as int)
                &&& current_y_k == self.current_y_k(current_x as int)
            },
    {
        let scaled = match self.big_k.checked_mul(self.mult_y as u128) {
            Some(v) => v,
            None => { return None; },
        };
        let ratio = match scaled.checked_div(self.mult_x as u128) {
            Some(v) => v,
            None => { return None; },
        };
        let target_x_k = integer_sqrt(ratio);
        if target_x_k < self.target_x as u128 {
            return None;
        }
        let current_x_k: u128 = target_x_k - (self.target_x as u128) + (current_x as u128);
        if current_x_k == 0 {
            return None;
        }
        let current_y_k = self.big_k / current_x_k;
        Some((current_x_k, current_y_k))
    }

    /// What a trade pays out once its output before fees is known. The fee
    /// is reduced by the rebate for the part of the trade that moves the
    /// reserve standing at `current` toward `target`; the rest is taken
    /// from the output and split between protocol and liquidity providers.
    pub open spec fn payout(&self, output_before_fee: int, input: int, target: int, current: int)
        -> Result<(u64, u64, u64), ObricError> {
        let fee_before_rebate = fee_of(output_before_fee, self.fee_millionth as int);
        let ratio = rebate_ratio_of(input, target, current);
        let rebate = rebate_of(fee_before_rebate, ratio, self.rebate_percentage as int);
        if output_before_fee * self.fee_millionth > u64::MAX || min_int(
            input,
            target - min_int(target, current),
        ) * 100 > u64::MAX || !rebate_fits(fee_before_rebate, ratio, self.rebate_percentage as int)
            || rebate > fee_before_rebate {
            Err(ObricError::NumOverflowing)
        } else {
            match settlement(
                output_before_fee,
                fee_before_rebate - rebate,
                self.protocol_fee_share_thousandth as int,
            ) {
                Some((output_after_fee, protocol_fee, lp_fee)) => Ok(
                    (output_after_fee as u64, protocol_fee as u64, lp_fee as u64),
                ),
                None => Err(ObricError::NumOverflowing),
            }
        }
    }

    /// What a trade of `input_x` units of X receives before fees.
    pub open spec fn output_before_fee_y(&self, input_x: int, current_x: int) -> int {
        output_before_fee(
            self.big_k as int,
            self.current_x_k(current_x),
            self.current_y_k(current_x),
            input_x,
        )
    }

    /// What a trade of `input_y` units of Y receives before fees.
    pub open spec fn output_before_fee_x(&self, input_y: int, current_x: int) -> int {
        output_before_fee(
            self.big_k as int,
            self.current_y_k(current_x),
            self.current_x_k(current_x),
            input_y,
        )
    }

    /// The quote for selling `input_x` units of X into reserves that stand
    /// at `current_x` and `current_y`.
    pub open spec fn quote_x_to_y_spec(&self, input_x: int, current_x: int, current_y: int)
        -> Result<(u64, u64, u64), ObricError> {
        if input_x == 0 {
            Ok((0u64, 0u64, 0u64))
        } else if !self.targets_fit(current_x, current_y) || !self.curve_fits(current_x)
            || !output_computable(
            self.big_k as int,
            self.current_x_k(current_x),
            self.current_y_k(current_x),
            input_x,
        ) {
            Err(ObricError::NumOverflowing)
        } else if self.output_before_fee_y(input_x, current_x) >= current_y {
            Err(ObricError::InsufficientActiveY)
        } else {
            self.payout(
                self.output_before_fee_y(input_x, current_x),
                input_x,
                self.target_x as int,
                current_x,
            )
        }
    }

    /// The quote for selling `input_y` units of Y into reserves that stand
    /// at `current_x` and `current_y`.
    pub open spec fn quote_y_to_x_spec(&self, input_y: int, current_x: int, current_y: int)
        -> Result<(u64, u64, u64), ObricError> {
        if input_y == 0 {
            Ok((0u64, 0u64, 0u64))
        } else if !self.targets_fit(current_x, current_y) || !self.curve_fits(current_x)
            || !output_computable(
            self.big_k as int,
            self.current_y_k(current_x),
            self.current_x_k(current_x),
            input_y,
        ) {
            Err(ObricError::NumOverflowing)
        } else if self.output_before_fee_x(input_y, current_x) >= current_x {
            Err(ObricError::InsufficientActiveX)
        } else {
            self.payout(
                self.output_before_fee_x(input_y, current_x),
                input_y,
                self.target_y_of(current_x, current_y),
                current_y,
            )
        }
    }

    /// Charges the fee, grants the rebate, and splits what is left of the
    /// fee.
    fn pay_out(&self, output_before_fee: u64, input: u64, target: u64, current: u64) -> (r: Result<
        (u64, u64, u64),
        ObricError,
    >)
        requires
            input > 0,
        ensures
            r == self.payout(output_before_fee as int, input as int, target as int, current as int),
    {
        let fee_before_rebate = match trading_fee(output_before_fee, self.fee_millionth) {
            Some(v) => v,
            None => { return Err(ObricError::NumOverflowing); },
        };
        let ratio = match rebate_ratio(input, target, current) {
            Some(v) => v,
            None => { return Err(ObricError::NumOverflowing); },
        };
        let rebate = match rebate(fee_before_rebate, ratio, self.rebate_percentage) {
            Some(v) => v,
            None => { return Err(ObricError::NumOverflowing); },
        };
        if rebate > fee_before_rebate {
            return Err(ObricError::NumOverflowing);
        }
        let fee = fee_before_rebate - rebate;
        match settle(output_before_fee, fee, self.protocol_fee_share_thousandth) {
            Some(parts) => Ok(parts),
            None => Err(ObricError::NumOverflowing),
        }
    }

    /// Quotes a sale of `input_x` units of X for Y and returns
    /// `(output_after_fee, protocol_fee, lp_fee)`, all in Y. A sale of
    /// nothing is quoted as three zeros.
    ///
    /// Fails with `InsufficientActiveY` where the output before fees would
    /// reach the reserve of Y, and with `NumOverflowing` where the
    /// arithmetic leaves its range.
    pub fn quote_x_to_y(&self, input_x: u64, current_x: u64, current_y: u64) -> (r: Result<
        (u64, u64, u64),
        ObricError,
    >)
        ensures
            r == self.quote_x_to_y_spec(input_x as int, current_x as int, current_y as int),
            input_x == 0 ==> r == Ok::<(u64, u64, u64), ObricError>((0u64, 0u64, 0u64)),
    {
        if input_x == 0 {
            return Ok((0u64, 0u64, 0u64));
        }
        let (target_x, _target_y) = match self.get_target_xy(current_x, current_y) {
            Ok(targets) => targets,
            Err(e) => { return Err(e); },
        };
        let (current_x_k, current_y_k) = match self.curve_point(current_x) {
            Some(point) => point,
            None => { return Err(ObricError::NumOverflowing); },
        };
        let output_before_fee_y = match curve_output(
            self.big_k,
            current_x_k,
            current_y_k,
            input_x,
        ) {
            Some(v) => v,
            None => { return Err(ObricError::NumOverflowing); },
        };
        if output_before_fee_y >= current_y {
            return Err(ObricError::InsufficientActiveY);
        }
        self.pay_out(output_before_fee_y, input_x, target_x, current_x)
    }

    /// Quotes a sale of `input_y` units of Y for X and returns
    /// `(output_after_fee, protocol_fee, lp_fee)`, all in X. A sale of
    /// nothing is quoted as three zeros.
    ///
    /// Fails with `InsufficientActiveX` where the output before fees would
    /// reach the reserve of X, and with `NumOverflowing` where the
    /// arithmetic leaves its range.
    pub fn quote_y_to_x(&self, input_y: u64, current_x: u64, current_y: u64) -> (r: Result<
        (u64, u64, u64),
        ObricError,
    >)
        ensures
            r == self.quote_y_to_x_spec(input_y as int, current_x as int, current_y as int),
            input_y == 0 ==> r == Ok::<(u64, u64, u64), ObricError>((0u64, 0u64, 0u64)),
    {
        if input_y == 0 {
            return Ok((0u64, 0u64, 0u64));
        }
        let (_target_x, target_y) = match self.get_target_xy(current_x, current_y) {
            Ok(targets) => targets,
            Err(e) => { return Err(e); },
        };
        let (current_x_k, current_y_k) = match self.curve_point(current_x) {
            Some(point) => point,
            None => { return Err(ObricError::NumOverflowing); },
        };
        let output_before_fee_x = match curve_output(
            self.big_k,
            current_y_k,
            current_x_k,
            input_y,
        ) {
            Some(v) => v,
            None => { return Err(ObricError::NumOverflowing); },
        };
        if output_before_fee_x >= current_x {
            return Err(ObricError::InsufficientActiveX);
        }
        self.pay_out(output_before_fee_x, input_y, target_y, current_y)
    }
}

} // verus!
