//! The safety gate: holds the risk ratios against the configured thresholds and
//! accepts or rejects. It changes nothing.

use vstd::prelude::*;
use crate::fixed::{Fixed128, PARTS_PER_MILLIONTH};
use crate::permill::Permill;
use crate::primitives::{AccountId, Error, LiquidityPoolId, Position};
use crate::protocol::MarginProtocol;

verus! {

/// Whether a ratio is at or under a threshold: a ratio that equals its threshold
/// is unsafe.
pub open spec fn at_or_under(level: Fixed128, threshold: Permill) -> bool {
    level@ <= threshold@ * PARTS_PER_MILLIONTH
}

/// Whether a ratio is at or under a threshold.
pub fn is_at_or_under(level: Fixed128, threshold: Permill) -> (r: bool)
    ensures
        r == at_or_under(level, threshold),
{
    level.le(Fixed128::from_permill(threshold))
}

impl MarginProtocol {
    /// What the safety gate answers for a trader: the error of the margin level where it
    /// cannot be computed; else a rejection where the margin level is at or under the
    /// margin call threshold, `TraderWouldBeUnsafe` with a hypothetical position and
    /// `UnsafeTrader` without; else acceptance.
    pub open spec fn spec_ensure_trader_safe(
        &self,
        who: AccountId,
        hypothetical: Option<Position>,
    ) -> Result<(), Error> {
        match self.spec_margin_level(who, hypothetical) {
            Err(e) => Err(e),
            Ok(level) => if at_or_under(level, self.thresholds.trader.margin_call) {
                if hypothetical is Some {
                    Err(Error::TraderWouldBeUnsafe)
                } else {
                    Err(Error::UnsafeTrader)
                }
            } else {
                Ok(())
            },
        }
    }

    /// What the safety gate answers for a pool: the error of the two ratios where they
    /// cannot be computed; else a rejection where either ratio is at or under its
    /// own margin call threshold, `PoolWouldBeUnsafe` with a hypothetical position
    /// and `UnsafePool` without; else acceptance.
    pub open spec fn spec_ensure_pool_safe(
        &self,
        pool: LiquidityPoolId,
        hypothetical: Option<Position>,
    ) -> Result<(), Error> {
        match self.spec_enp_and_ell(pool, hypothetical) {
            Err(e) => Err(e),
            Ok((enp, ell)) => if at_or_under(enp, self.thresholds.enp.margin_call) || at_or_under(
                ell,
                self.thresholds.ell.margin_call,
            ) {
                if hypothetical is Some {
                    Err(Error::PoolWouldBeUnsafe)
                } else {
                    Err(Error::UnsafePool)
                }
            } else {
                Ok(())
            },
        }
    }

    /// Accepts the trader's state, or the state with the hypothetical position,
    /// where the margin level is above the margin call threshold.
    pub fn ensure_trader_safe(&self, who: AccountId, hypothetical: Option<Position>) -> (r: Result<
        (),
        Error,
    >)
        ensures
            r == self.spec_ensure_trader_safe(who, hypothetical),
    {
        let level = match self.margin_level(who, hypothetical) {
            Ok(l) => l,
            Err(e) => return Err(e),
        };
        if is_at_or_under(level, self.thresholds.trader.margin_call) {
            if hypothetical.is_some() {
                Err(Error::TraderWouldBeUnsafe)
            } else {
                Err(Error::UnsafeTrader)
            }
        } else {
            Ok(())
        }
    }

    /// Accepts the pool's state, or the state with the hypothetical position, where
    /// both ratios are above their margin call thresholds.
    pub fn ensure_pool_safe(&self, pool: LiquidityPoolId, hypothetical: Option<Position>) -> (r:
        Result<(), Error>)
        ensures
            r == self.spec_ensure_pool_safe(pool, hypothetical),
    {
        let (enp, ell) = match self.enp_and_ell(pool, hypothetical) {
            Ok(ratios) => ratios,
            Err(e) => return Err(e),
        };
        if is_at_or_under(enp, self.thresholds.enp.margin_call) || is_at_or_under(
            ell,
            self.thresholds.ell.margin_call,
        ) {
            if hypothetical.is_some() {
                Err(Error::PoolWouldBeUnsafe)
            } else {
                Err(Error::UnsafePool)
            }
        } else {
            Ok(())
        }
    }
}

} // verus!
