//! The engine's inputs for one evaluation, held together.

use vstd::prelude::*;
use crate::ledger::Ledger;
use crate::market::Market;
use crate::permill::Permill;
use crate::primitives::{Position, RiskThreshold};

verus! {

/// The thresholds that the safety gate holds the risk ratios against.
#[derive(Clone, Copy, Debug, PartialEq, Eq, Structural)]
pub struct RiskThresholds {
    /// For the margin level of every trader.
    pub trader: RiskThreshold,
    /// For the equity to net position ratio of every pool.
    pub enp: RiskThreshold,
    /// For the equity to liquidity ratio of every pool.
    pub ell: RiskThreshold,
}

/// The margin protocol over one state of the market, the storage and the
/// configured thresholds. Every computation is a function of these alone.
pub struct MarginProtocol {
    pub market: Market,
    pub ledger: Ledger,
    pub thresholds: RiskThresholds,
}

/// The positions with the hypothetical one, if there is one, after them.
pub open spec fn with_hypothetical(positions: Seq<Position>, hypothetical: Option<Position>) -> Seq<
    Position,
> {
    match hypothetical {
        Some(position) => positions.push(position),
        None => positions,
    }
}

impl RiskThresholds {
    /// Thresholds of zero: every ratio above zero is safe.
    pub fn none() -> (r: RiskThresholds)
        ensures
            r.trader.margin_call@ == 0,
            r.trader.stop_out@ == 0,
            r.enp.margin_call@ == 0,
            r.enp.stop_out@ == 0,
            r.ell.margin_call@ == 0,
            r.ell.stop_out@ == 0,
    {
        let zero = RiskThreshold { margin_call: Permill::zero(), stop_out: Permill::zero() };
        RiskThresholds { trader: zero, enp: zero, ell: zero }
    }
}

impl MarginProtocol {
    /// The protocol over the given inputs.
    pub fn new(market: Market, ledger: Ledger, thresholds: RiskThresholds) -> (r: MarginProtocol)
        ensures
            r.market == market,
            r.ledger == ledger,
            r.thresholds == thresholds,
    {
        MarginProtocol { market, ledger, thresholds }
    }
}

/// The positions with the hypothetical one, if there is one, after them.
pub fn append_hypothetical(positions: Vec<Position>, hypothetical: Option<Position>) -> (r: Vec<
    Position,
>)
    ensures
        r@ == with_hypothetical(positions@, hypothetical),
{
    let mut all = positions;
    match hypothetical {
        Some(position) => all.push(position),
        None => {},
    }
    all
}

} // verus!
