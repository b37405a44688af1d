//! The pool record and its pricing rules.

use vstd::prelude::*;
use crate::curve::{curve_output, output_before_fee, lemma_output_within_coordinate};
use crate::fees::{fee_of, settle, settlement, trading_fee};
use crate::keys::Pubkey;
use crate::multiplier::{compute_multipliers, mult_x_spec, mult_y_spec, multipliers_fit};
use crate::v3::errors::ObricError;

verus! {

/// The record of a flow-derived pool: who it is, how steep its curve is,
/// what it has deposited and borrowed, and what it charges.
///
/// `mult_x` and `mult_y` turn balances into comparable values and follow
/// the oracle. `target_y` is the reserve of Y at which the pool is in
/// balance, derived from the flows, and `big_k` the invariant of the curve
/// through that target.
#[derive(Clone, Copy, Debug, PartialEq, Eq)]
pub struct SSTradingPair {
    pub is_initialized: bool,
    pub x_price_feed_id: Pubkey,
    pub y_price_feed_id: Pubkey,
    pub reserve_x: Pubkey,
    pub reserve_y: Pubkey,
    pub reserve_x_ctoken: Pubkey,
    pub reserve_y_ctoken: Pubkey,
    pub protocol_fee_x: Pubkey,
    pub protocol_fee_y: Pubkey,
    pub bump: u8,
    pub mint_x: Pubkey,
    pub mint_y: Pubkey,
    /// Synced with the lending market after every transaction.
    pub deposit_x: u64,
    pub borrow_x: u64,
    pub deposit_y: u64,
    pub borrow_y: u64,
    pub target_y: u64,
    pub concentration: u64,
    pub big_k: u128,
    pub cumulative_volume: u64,
    pub mult_x: u64,
    pub mult_y: u64,
    pub fee_millionth: u64,
    pub rebate_percentage: u64,
    pub protocol_fee_share_thousandth: u64,
    pub decimals_x: u8,
    pub decimals_y: u8,
    pub volume_records: [u64; 8],
}

impl Default for SSTradingPair {
    /// The record every field of which is zero.
    fn default() -> (pair: SSTradingPair)
        ensures
            pair == SSTradingPair::empty(),
    {
        SSTradingPair {
            is_initialized: false,
            x_price_feed_id: Pubkey::default(),
            y_price_feed_id: Pubkey::default(),
            reserve_x: Pubkey::default(),
            reserve_y: Pubkey::default(),
            reserve_x_ctoken: Pubkey::default(),
            reserve_y_ctoken: Pubkey::default(),
            protocol_fee_x: Pubkey::default(),
            protocol_fee_y: Pubkey::default(),
            bump: 0,
            mint_x: Pubkey::default(),
            mint_y: Pubkey::default(),
            deposit_x: 0,
            borrow_x: 0,
            deposit_y: 0,
            borrow_y: 0,
            target_y: 0,
            concentration: 0,
            big_k: 0,
            cumulative_volume: 0,
            mult_x: 0,
            mult_y: 0,
            fee_millionth: 0,
            rebate_percentage: 0,
            protocol_fee_share_thousandth: 0,
            decimals_x: 0,
            decimals_y: 0,
            volume_records: [0u64; 8],
        }
    }
}

/// The five values a quote starts from.
pub struct PoolValues {
    pub big_k: int,
    pub current_x_k: int,
    pub current_y_k: int,
    pub available_x: int,
    pub available_y: int,
}

impl SSTradingPair {
    /// The record every field of which is zero.
    pub open spec fn empty() -> SSTradingPair {
        SSTradingPair {
            is_initialized: false,
            x_price_feed_id: Pubkey::zeroed(),
            y_price_feed_id: Pubkey::zeroed(),
            reserve_x: Pubkey::zeroed(),
            reserve_y: Pubkey::zeroed(),
            reserve_x_ctoken: Pubkey::zeroed(),
            reserve_y_ctoken: Pubkey::zeroed(),
            protocol_fee_x: Pubkey::zeroed(),
            protocol_fee_y: Pubkey::zeroed(),
            bump: 0,
            mint_x: Pubkey::zeroed(),
            mint_y: Pubkey::zeroed(),
            deposit_x: 0,
            borrow_x: 0,
            deposit_y: 0,
            borrow_y: 0,
            target_y: 0,
            concentration: 0,
            big_k: 0,
            cumulative_volume: 0,
            mult_x: 0,
            mult_y: 0,
            fee_millionth: 0,
            rebate_percentage: 0,
            protocol_fee_share_thousandth: 0,
            decimals_x: 0,
            decimals_y: 0,
            volume_records: vstd::array::spec_array_fill_for_copy_type::<u64, 8>(0u64),
        }
    }

    /// Whether the pool's parameters lie in their ranges: a concentration
    /// of at least one, a fee of at most one million parts per million, a
    /// protocol share of at most one thousand parts per thousand, and a
    /// rebate of at most one hundred percent.
    pub open spec fn parameters_valid(&self) -> bool {
        &&& self.concentration >= 1
        &&& self.fee_millionth <= 1_000_000
        &&& self.protocol_fee_share_thousandth <= 1000
        &&& self.rebate_percentage <= 100
    }

    /// The net value of the pool's position: deposits less borrows, each
    /// side weighted by its multiplier.
    pub open spec fn net_value(&self) -> int {
        (self.deposit_x - self.borrow_x) * self.mult_x + (self.deposit_y - self.borrow_y)
            * self.mult_y
    }

    /// Whether the target can be computed from the flows: every weighted
    /// flow and both sums fit in 64 bits, deposits are worth at least the
    /// borrows, and `mult_y` is not zero.
    pub open spec fn flows_fit(&self) -> bool {
        &&& self.deposit_x * self.mult_x <= u64::MAX
        &&& self.borrow_x * self.mult_x <= u64::MAX
        &&& self.deposit_y * self.mult_y <= u64::MAX
        &&& self.borrow_y * self.mult_y <= u64::MAX
        &&& self.deposit_x * self.mult_x + self.deposit_y * self.mult_y <= u64::MAX
        &&& self.borrow_x * self.mult_x + self.borrow_y * self.mult_y <= u64::MAX
        &&& self.borrow_x * self.mult_x + self.borrow_y * self.mult_y <= self.deposit_x
            * self.mult_x + self.deposit_y * self.mult_y
        &&& self.mult_y > 0
    }

    /// The equilibrium reserve of Y implied by the flows: the net value in
    /// units of Y.
    pub open spec fn flow_target_y(&self) -> int {
        self.net_value() / (self.mult_y as int)
    }

    /// The curve coordinate of the equilibrium on the Y side for a target.
    pub open spec fn target_y_k_of(&self, target_y: int) -> int {
        target_y * self.concentration
    }

    /// The curve coordinate of the equilibrium on the X side for a target.
    pub open spec fn target_x_k_of(&self, target_y: int) -> int {
        self.target_y_k_of(target_y) * self.mult_y / (self.mult_x as int)
    }

    /// The invariant of the curve through the equilibrium for a target.
    pub open spec fn big_k_of(&self, target_y: int) -> int {
        self.target_x_k_of(target_y) * self.target_y_k_of(target_y)
    }

    /// Whether the invariant for a target can be computed in 128 bits.
    pub open spec fn target_fits(&self, target_y: int) -> bool {
        &&& self.mult_x > 0
        &&& self.target_y_k_of(target_y) * self.mult_y <= u128::MAX
        &&& self.big_k_of(target_y) <= u128::MAX
    }

    /// Whether the values a quote starts from can be computed in 64 bits.
    pub open spec fn quoting_values_fit(&self) -> bool {
        let target_y_k = self.target_y_k_of(self.target_y as int);
        let target_x_k = self.target_x_k_of(self.target_y as int);
        &&& target_y_k <= u64::MAX
        &&& target_y_k * self.mult_y <= u64::MAX
        &&& self.mult_x > 0
        &&& self.target_y <= target_y_k + self.deposit_y <= u64::MAX
        &&& self.borrow_x <= target_x_k + self.deposit_x <= u64::MAX
        &&& self.concentration > 0
        &&& target_x_k / (self.concentration as int) + self.deposit_x <= u64::MAX
    }

    /// The pool's Y coordinate on the curve.
    pub open spec fn current_y_k(&self) -> int {
        self.target_y_k_of(self.target_y as int) + self.deposit_y - self.target_y
    }

    /// The pool's X coordinate on the curve.
    pub open spec fn current_x_k(&self) -> int {
        self.target_x_k_of(self.target_y as int) + self.deposit_x - self.borrow_x
    }

    /// How much X a trade may take out at most.
    pub open spec fn available_x(&self) -> int {
        let held = self.target_x_k_of(self.target_y as int) / (self.concentration as int)
            + self.deposit_x;
        if held > self.borrow_x {
            held - self.borrow_x
        } else {
            0
        }
    }

    /// How much Y a trade may take out at most.
    pub open spec fn available_y(&self) -> int {
        self.deposit_y as int
    }

    /// The values a quote starts from.
    pub open spec fn pool_values(&self) -> PoolValues {
        PoolValues {
            big_k: self.current_x_k() * self.current_y_k(),
            current_x_k: self.current_x_k(),
            current_y_k: self.current_y_k(),
            available_x: self.available_x(),
            available_y: self.available_y(),
        }
    }

    /// Recomputes both multipliers from two normalized prices and the
    /// pool's decimal counts. Fails, and changes nothing, where a multiplier
    /// does not fit in 64 bits.
    pub fn update_price(&mut self, price_x: u64, price_y: u64) -> (r: Result<(), ObricError>)
        ensures
            match r {
                Ok(_) => {
                    &&& multipliers_fit(
                        price_x as int,
                        price_y as int,
                        old(self).decimals_x as int,
                        old(self).decimals_y as int,
                    )
                    &&& *final(self) == (SSTradingPair {
                        mult_x: mult_x_spec(
                            price_x as int,
                            old(self).decimals_x as int,
                            old(self).decimals_y as int,
                        ) as u64,
                        mult_y: mult_y_spec(
                            price_y as int,
                            old(self).decimals_x as int,
                            old(self).decimals_y as int,
                        ) as u64,
                        ..*old(self)
                    })
                },
                Err(e) => {
                    &&& e == ObricError::NumOverflowing
                    &&& !multipliers_fit(
                        price_x as int,
                        price_y as int,
                        old(self).decimals_x as int,
                        old(self).decimals_y as int,
                    )
                    &&& *final(self) == *old(self)
                },
            },
    {
        match compute_multipliers(price_x, price_y, self.decimals_x, self.decimals_y) {
            Some((mult_x, mult_y)) => {
                self.mult_x = mult_x;
                self.mult_y = mult_y;
                Ok(())
            },
            None => Err(ObricError::NumOverflowing),
        }
    }

    /// Sets a new target and recomputes the invariant of the curve through
    /// it. Fails, and changes nothing, where `mult_x` is zero or a product
    /// does not fit in 128 bits.
    pub fn update_target_y(&mut self, new_target_y: u64) -> (r: Result<(), ObricError>)
        ensures
            match r {
                Ok(_) => {
                    &&& old(self).target_fits(new_target_y as int)
                    &&& *final(self) == (SSTradingPair {
                        target_y: new_target_y,
                        big_k: old(self).big_k_of(new_target_y as int) as u128,
                        ..*old(self)
                    })
                },
                Err(e) => {
                    &&& e == ObricError::NumOverflowing
                    &&& !old(self).target_fits(new_target_y as int)
                    &&& *final(self) == *old(self)
                },
            },
    {
        proof {
            assert(new_target_y * self.concentration <= u128::MAX) by (nonlinear_arith)
                requires
                    new_target_y <= u64::MAX,
                    self.concentration <= u64::MAX,
            ;
        }
        let target_y_k: u128 = (new_target_y as u128) * (self.concentration as u128);
        let scaled = match target_y_k.checked_mul(self.mult_y as u128) {
            Some(v) => v,
            None => { return Err(ObricError::NumOverflowing); },
        };
        let target_x_k = match scaled.checked_div(self.mult_x as u128) {
            Some(v) => v,
            None => { return Err(ObricError::NumOverflowing); },
        };
        let big_k = match target_x_k.checked_mul(target_y_k) {
            Some(v) => v,
            None => { return Err(ObricError::NumOverflowing); },
        };
        self.target_y = new_target_y;
        self.big_k = big_k;
        Ok(())
    }

    /// Computes the target from the deposit and borrow flows: the net value
    /// of the position in units of Y. Fails where a weighted flow or a sum
    /// does not fit in 64 bits, where borrows are worth more than deposits,
    /// and where `mult_y` is zero.
    pub fn compute_target_y(&self) -> (r: Result<u64, ObricError>)
        ensures
            r is Ok <==> self.flows_fit(),
            r matches Ok(target_y) ==> target_y == self.flow_target_y(),
            r matches Err(e) ==> e == ObricError::NumOverflowing,
    {
        let deposit_x_value = match self.deposit_x.checked_mul(self.mult_x) {
            Some(v) => v,
            None => { return Err(ObricError::NumOverflowing); },
        };
        let borrow_x_value = match self.borrow_x.checked_mul(self.mult_x) {
            Some(v) => v,
            None => { return Err(ObricError::NumOverflowing); },
        };
        let deposit_y_value = match self.deposit_y.checked_mul(self.mult_y) {
            Some(v) => v,
            None => { return Err(ObricError::NumOverflowing); },
        };
        let borrow_y_value = match self.borrow_y.checked_mul(self.mult_y) {
            Some(v) => v,
            None => { return Err(ObricError::NumOverflowing); },
        };
        let deposit_value = match deposit_x_value.checked_add(deposit_y_value) {
            Some(v) => v,
            None => { return Err(ObricError::NumOverflowing); },
        };
        let borrow_value = match borrow_x_value.checked_add(borrow_y_value) {
            Some(v) => v,
            None => { return Err(ObricError::NumOverflowing); },
        };
        let net_value = match deposit_value.checked_sub(borrow_value) {
            Some(v) => v,
            None => { return Err(ObricError::NumOverflowing); },
        };
        let target_y = match net_value.checked_div(self.mult_y) {
            Some(v) => v,
            None => { return Err(ObricError::NumOverflowing); },
        };
        proof {
            let dx = self.deposit_x as int;
            let bx = self.borrow_x as int;
            let dy = self.deposit_y as int;
            let by = self.borrow_y as int;
            let mx = self.mult_x as int;
            let my = self.mult_y as int;
            assert((dx - bx) * mx + (dy - by) * my == dx * mx + dy * my - (bx * mx + by * my))
                by (nonlinear_arith);
        }
        Ok(target_y)
    }

    /// Maps the pool's position onto the curve around its target and
    /// returns `(big_k, current_x_k, current_y_k, available_x, available_y)`.
    /// The invariant returned is exactly the product of the two coordinates.
    pub fn get_pool_values_for_quoting(&self) -> (r: Result<(u128, u64, u64, u64, u64), ObricError>)
        ensures
            r is Ok <==> self.quoting_values_fit(),
            r matches Ok((big_k, current_x_k, current_y_k, available_x, available_y)) ==> {
                &&& big_k == current_x_k * current_y_k
                &&& current_x_k == self.current_x_k()
                &&& current_y_k == self.current_y_k()
                &&& available_x == self.available_x()
                &&& available_y == self.available_y()
            },
            r matches Err(e) ==> e == ObricError::NumOverflowing,
    {
        let target_y_k = match self.concentration.checked_mul(self.target_y) {
            Some(v) => v,
            None => {
                proof {
                    assert(self.target_y * self.concentration == self.concentration
                        * self.target_y) by (nonlinear_arith);
                }
                return Err(ObricError::NumOverflowing);
            },
        };
        proof {
            assert(self.target_y * self.concentration == self.concentration * self.target_y)
                by (nonlinear_arith);
        }
        let scaled = match target_y_k.checked_mul(self.mult_y) {
            Some(v) => v,
            None => { return Err(ObricError::NumOverflowing); },
        };
        let target_x_k = match scaled.checked_div(self.mult_x) {
            Some(v) => v,
            None => { return Err(ObricError::NumOverflowing); },
        };
        let lifted_y = match target_y_k.checked_add(self.deposit_y) {
            Some(v) => v,
            None => { return Err(ObricError::NumOverflowing); },
        };
        let current_y_k = match lifted_y.checked_sub(self.target_y) {
            Some(v) => v,
            None => { return Err(ObricError::NumOverflowing); },
        };
        let lifted_x = match target_x_k.checked_add(self.deposit_x) {
            Some(v) => v,
            None => { return Err(ObricError::NumOverflowing); },
        };
        let current_x_k = match lifted_x.checked_sub(self.borrow_x) {
            Some(v) => v,
            None => { return Err(ObricError::NumOverflowing); },
        };
        proof {
            assert(current_x_k * current_y_k <= u128::MAX) by (nonlinear_arith)
                requires
                    current_x_k <= u64::MAX,
                    current_y_k <= u64::MAX,
            ;
        }
        let big_k = (current_x_k as u128) * (current_y_k as u128);
        let unscaled = match target_x_k.checked_div(self.concentration) {
            Some(v) => v,
            None => { return Err(ObricError::NumOverflowing); },
        };
        let temp = match unscaled.checked_add(self.deposit_x) {
            Some(v) => v,
            None => { return Err(ObricError::NumOverflowing); },
        };
        let available_x = if temp > self.borrow_x {
            temp - self.borrow_x
        } else {
            0
        };
        let available_y = self.deposit_y;
        Ok((big_k, current_x_k, current_y_k, available_x, available_y))
    }

    /// What a trade pays out once its output before fees is known: the fee
    /// is taken from the output and split between protocol and liquidity
    /// providers.
    pub open spec fn payout(&self, output_before_fee: int) -> Result<(u64, u64, u64), ObricError> {
        if output_before_fee * self.fee_millionth > u64::MAX {
            Err(ObricError::NumOverflowing)
        } else {
            match settlement(
                output_before_fee,
                fee_of(output_before_fee, self.fee_millionth as int),
                self.protocol_fee_share_thousandth as int,
            ) {
                Some((output_after_fee, protocol_fee, lp_fee)) => Ok(
                    (output_after_fee as u64, protocol_fee as u64, lp_fee as u64),
                ),
                None => Err(ObricError::NumOverflowing),
            }
        }
    }

    /// What a trade of `input_x` units of X receives before fees.
    pub open spec fn output_before_fee_y(&self, input_x: int) -> int {
        output_before_fee(
            self.current_x_k() * self.current_y_k(),
            self.current_x_k(),
            self.current_y_k(),
            input_x,
        )
    }

    /// What a trade of `input_y` units of Y receives before fees.
    pub open spec fn output_before_fee_x(&self, input_y: int) -> int {
        output_before_fee(
            self.current_x_k() * self.current_y_k(),
            self.current_y_k(),
            self.current_x_k(),
            input_y,
        )
    }

    /// The quote for selling `input_x` units of X.
    pub open spec fn quote_x_to_y_spec(&self, input_x: int) -> Result<
        (u64, u64, u64),
        ObricError,
    > {
        if !self.quoting_values_fit() || self.current_x_k() + input_x > u64::MAX
            || self.current_x_k() + input_x == 0 {
            Err(ObricError::NumOverflowing)
        } else if self.output_before_fee_y(input_x) >= self.available_y() {
            Err(ObricError::InsufficientActiveY)
        } else {
            self.payout(self.output_before_fee_y(input_x))
        }
    }

    /// The quote for selling `input_y` units of Y.
    pub open spec fn quote_y_to_x_spec(&self, input_y: int) -> Result<
        (u64, u64, u64),
        ObricError,
    > {
        if !self.quoting_values_fit() || self.current_y_k() + input_y > u64::MAX
            || self.current_y_k() + input_y == 0 {
            Err(ObricError::NumOverflowing)
        } else if self.output_before_fee_x(input_y) >= self.available_x() {
            Err(ObricError::InsufficientActiveX)
        } else {
            self.payout(self.output_before_fee_x(input_y))
        }
    }

    /// Takes the fee out of a swap output and splits it.
    fn pay_out(&self, output_before_fee: u64) -> (r: Result<(u64, u64, u64), ObricError>)
        ensures
            r == self.payout(output_before_fee as int),
    {
        let fee = match trading_fee(output_before_fee, self.fee_millionth) {
            Some(v) => v,
            None => { return Err(ObricError::NumOverflowing); },
        };
        match settle(output_before_fee, fee, self.protocol_fee_share_thousandth) {
            Some(parts) => Ok(parts),
            None => Err(ObricError::NumOverflowing),
        }
    }

    /// Quotes a sale of `input_x` units of X for Y and returns
    /// `(output_after_fee, protocol_fee, lp_fee)`, all in Y.
    ///
    /// Fails with `InsufficientActiveY` where the output before fees would
    /// reach the Y that is available, and with `NumOverflowing` where the
    /// arithmetic leaves its range.
    pub fn quote_x_to_y(&self, input_x: u64) -> (r: Result<(u64, u64, u64), ObricError>)
        ensures
            r == self.quote_x_to_y_spec(input_x as int),
    {
        let (big_k, current_x_k, current_y_k, _available_x, available_y) =
            match self.get_pool_values_for_quoting() {
            Ok(values) => values,
            Err(e) => { return Err(e); },
        };
        let new_x_k = match current_x_k.checked_add(input_x) {
            Some(v) => v,
            None => { return Err(ObricError::NumOverflowing); },
        };
        if new_x_k == 0 {
            return Err(ObricError::NumOverflowing);
        }
        proof {
            lemma_output_within_coordinate(
                current_x_k as int,
                current_y_k as int,
                input_x as int,
            );
        }
        let output_before_fee_y = match curve_output(
            big_k,
            current_x_k as u128,
            current_y_k as u128,
            input_x,
        ) {
            Some(v) => v,
            None => { return Err(ObricError::NumOverflowing); },
        };
        if output_before_fee_y >= available_y {
            return Err(ObricError::InsufficientActiveY);
        }
        self.pay_out(output_before_fee_y)
    }

    /// Quotes a sale of `input_y` units of Y for X and returns
    /// `(output_after_fee, protocol_fee, lp_fee)`, all in X.
    ///
    /// Fails with `InsufficientActiveX` where the output before fees would
    /// reach the X that is available, and with `NumOverflowing` where the
    /// arithmetic leaves its range.
    pub fn quote_y_to_x(&self, input_y: u64) -> (r: Result<(u64, u64, u64), ObricError>)
        ensures
            r == self.quote_y_to_x_spec(input_y as int),
    {
        let (big_k, current_x_k, current_y_k, available_x, _available_y) =
            match self.get_pool_values_for_quoting() {
            Ok(values) => values,
            Err(e) => { return Err(e); },
        };
        let new_y_k = match current_y_k.checked_add(input_y) {
            Some(v) => v,
            None => { return Err(ObricError::NumOverflowing); },
        };
        if new_y_k == 0 {
            return Err(ObricError::NumOverflowing);
        }
        proof {
            lemma_output_within_coordinate(
                current_y_k as int,
                current_x_k as int,
                input_y as int,
            );
            assert(current_y_k * current_x_k == current_x_k * current_y_k) by (nonlinear_arith);
        }
        let output_before_fee_x = match curve_output(
            big_k,
            current_y_k as u128,
            current_x_k as u128,
            input_y,
        ) {
            Some(v) => v,
            None => { return Err(ObricError::NumOverflowing); },
        };
        if output_before_fee_x >= available_x {
            return Err(ObricError::InsufficientActiveX);
        }
        self.pay_out(output_before_fee_x)
    }
}

} // verus!
