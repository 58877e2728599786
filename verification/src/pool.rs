//! The solvency of a liquidity pool: its equity and its two ratios.

use vstd::prelude::*;
use crate::fixed::{clamp_parts, Fixed128};
use crate::market::{in_bound, Market};
use crate::primitives::{Balance, Error, LiquidityPoolId, Position};
use crate::protocol::{append_hypothetical, with_hypothetical, MarginProtocol};
use crate::trader::{held_in_reference_currency, ratio, ratio_of, total_held_in_reference_currency};
use crate::valuation::checked_total;

verus! {

/// The net position of a pool: the magnitude of the sum of the positions' signed
/// sizes in the reference currency, in which long and short positions cancel.
pub open spec fn net_position(positions: Seq<Position>) -> Result<Fixed128, Error> {
    match checked_total(held_in_reference_currency(positions, false)) {
        Err(e) => Err(e),
        Ok(net) => Ok(net.spec_saturating_abs()),
    }
}

impl Market {
    /// `liquidity - sum of unrealized profit and loss - sum of accrued swap` over the
    /// positions: the pool stands on the other side of each of them. The liquidity
    /// counts as the largest value that can be held where it exceeds it.
    pub open spec fn spec_pool_equity(&self, liquidity: Balance, positions: Seq<Position>) -> Result<
        Fixed128,
        Error,
    > {
        match checked_total(self.spec_unrealized_pls(positions)) {
            Err(e) => Err(e),
            Ok(unrealized) => match (Fixed128 {
                parts: clamp_parts(liquidity as int),
            }).spec_checked_sub(unrealized) {
                None => Err(Error::NumOutOfBound),
                Some(without_unrealized) => match checked_total(
                    self.spec_accumulated_swap_rates(positions),
                ) {
                    Err(e) => Err(e),
                    Ok(swap) => in_bound(without_unrealized.spec_checked_sub(swap)),
                },
            },
        }
    }

    /// The two ratios of a pool with the liquidity and the positions: its equity
    /// over its net position, and its equity over its liquidity. There is no second
    /// ratio for a pool without liquidity.
    pub open spec fn spec_enp_and_ell(&self, liquidity: Balance, positions: Seq<Position>) -> Result<
        (Fixed128, Fixed128),
        Error,
    > {
        match self.spec_pool_equity(liquidity, positions) {
            Err(e) => Err(e),
            Ok(equity) => match net_position(positions) {
                Err(e) => Err(e),
                Ok(net) => match ratio(equity, net) {
                    Err(e) => Err(e),
                    Ok(enp) => match equity.spec_checked_div(
                        Fixed128 { parts: clamp_parts(liquidity as int) },
                    ) {
                        None => Err(Error::NumOutOfBound),
                        Some(ell) => Ok((enp, ell)),
                    },
                },
            },
        }
    }

    /// The equity of a pool with the liquidity and the positions.
    pub fn pool_equity(&self, liquidity: Balance, positions: &Vec<Position>) -> (r: Result<
        Fixed128,
        Error,
    >)
        ensures
            r == self.spec_pool_equity(liquidity, positions@),
    {
        let unrealized = match self.unrealized_pl_of_positions(positions) {
            Ok(u) => u,
            Err(e) => return Err(e),
        };
        let without_unrealized = match Fixed128::saturating_from_balance(liquidity).checked_sub(
            unrealized,
        ) {
            Some(w) => w,
            None => return Err(Error::NumOutOfBound),
        };
        let swap = match self.accumulated_swap_rate_of_positions(positions) {
            Ok(s) => s,
            Err(e) => return Err(e),
        };
        match without_unrealized.checked_sub(swap) {
            Some(equity) => Ok(equity),
            None => Err(Error::NumOutOfBound),
        }
    }
}

impl MarginProtocol {
    pub open spec fn spec_equity_of_pool(&self, pool: LiquidityPoolId) -> Result<Fixed128, Error> {
        self.market.spec_pool_equity(
            self.ledger.spec_pool_liquidity(pool),
            self.ledger.spec_positions_of_pool(pool),
        )
    }

    /// The two ratios of the pool over the positions against it and the hypothetical
    /// one, if there is one.
    pub open spec fn spec_enp_and_ell(
        &self,
        pool: LiquidityPoolId,
        hypothetical: Option<Position>,
    ) -> Result<(Fixed128, Fixed128), Error> {
        self.market.spec_enp_and_ell(
            self.ledger.spec_pool_liquidity(pool),
            with_hypothetical(self.ledger.spec_positions_of_pool(pool), hypothetical),
        )
    }

    /// The equity of the pool: its liquidity less the unrealized profit and loss and
    /// the accrued swap of all positions against it.
    pub fn equity_of_pool(&self, pool: LiquidityPoolId) -> (r: Result<Fixed128, Error>)
        ensures
            r == self.spec_equity_of_pool(pool),
    {
        let positions = self.ledger.positions_of_pool(pool);
        self.market.pool_equity(self.ledger.pool_liquidity(pool), &positions)
    }

    /// The equity to net position ratio and the equity to liquidity ratio of the
    /// pool, as if the hypothetical position, where one is given, stood after those
    /// against the pool. The first is the largest value that can be held where the
    /// net position is zero. A pool without liquidity is not operating: for it the
    /// second ratio does not exist, and the result is `NumOutOfBound`.
    pub fn enp_and_ell(&self, pool: LiquidityPoolId, hypothetical: Option<Position>) -> (r: Result<
        (Fixed128, Fixed128),
        Error,
    >)
        ensures
            r == self.spec_enp_and_ell(pool, hypothetical),
    {
        let liquidity = self.ledger.pool_liquidity(pool);
        let positions = append_hypothetical(self.ledger.positions_of_pool(pool), hypothetical);
        let equity = match self.market.pool_equity(liquidity, &positions) {
            Ok(e) => e,
            Err(e) => return Err(e),
        };
        let net = match total_held_in_reference_currency(&positions, false) {
            Ok(n) => n.saturating_abs(),
            Err(e) => return Err(e),
        };
        let enp = match ratio_of(equity, net) {
            Ok(r) => r,
            Err(e) => return Err(e),
        };
        match equity.checked_div(Fixed128::saturating_from_balance(liquidity)) {
            Some(ell) => Ok((enp, ell)),
            None => Err(Error::NumOutOfBound),
        }
    }
}

} // verus!
