//! A deterministic margin-trading risk engine.
//!
//! The engine values leveraged positions, follows the solvency of traders and of
//! liquidity pools, and decides whether an operation may go ahead. It reads one
//! state of the market and of the storage and changes neither.
//!
//! - [`fixed`], [`price`], [`permill`] and [`wide`]: the fixed-point numbers that
//!   everything else computes with.
//! - [`primitives`]: currencies, trading pairs, leverages, thresholds, positions.
//! - [`market`]: the price resolver.
//! - [`valuation`]: the unrealized profit and loss and the accrued swap of positions.
//! - [`table`], [`index`] and [`ledger`]: the storage that is read.
//! - [`protocol`], [`trader`], [`pool`] and [`gate`]: the margin account, the pool's
//!   solvency and the safety gate.
//! - [`laws`]: what holds of all of these, proved.

pub mod fixed;
pub mod gate;
pub mod index;
pub mod laws;
pub mod ledger;
pub mod market;
pub mod permill;
pub mod pool;
pub mod price;
pub mod primitives;
pub mod protocol;
pub mod table;
pub mod trader;
pub mod valuation;
pub mod wide;
