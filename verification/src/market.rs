//! The price resolver: oracle prices, spreads and accumulated swap rates as they
//! stand for one evaluation, and the prices that positions are valued at.

use vstd::prelude::*;
use crate::fixed::Fixed128;
use crate::permill::Permill;
use crate::price::Price;
use crate::primitives::{CurrencyId, Error, Leverage, TradingPair};
use crate::table::Table;

verus! {

/// The fractions of the price that a pool keeps on either side of a trading pair.
#[derive(Clone, Copy, Debug, PartialEq, Eq, Structural)]
pub struct Spread {
    /// Taken off the price at which the pool buys.
    pub bid: Permill,
    /// Put on the price at which the pool sells.
    pub ask: Permill,
}

/// What the price source and the pools' configuration say at one moment.
pub struct Market {
    /// The oracle's price of each currency, in the reference currency.
    pub prices: Table<CurrencyId, Price>,
    /// The spread of each trading pair; a pair without an entry has none.
    pub spreads: Table<TradingPair, Spread>,
    /// The accumulated swap rate of each trading pair; that of a pair without an
    /// entry is zero.
    pub accumulated_swap_rates: Table<TradingPair, Fixed128>,
}

/// `value`, or the error of an operation that left the range.
pub open spec fn in_bound<T>(value: Option<T>) -> Result<T, Error> {
    match value {
        Some(v) => Ok(v),
        None => Err(Error::NumOutOfBound),
    }
}

impl Market {
    /// The oracle's price of `currency` in the reference currency, which is one for
    /// the reference currency itself.
    pub open spec fn spec_oracle_price(&self, currency: CurrencyId) -> Option<Price> {
        if currency.is_reference() {
            Some(Price::spec_one())
        } else {
            self.prices.spec_get(currency)
        }
    }

    /// The amount of `pair.quote` that one unit of `pair.base` is worth, rounded
    /// down. There is none where the oracle lacks one of the two currencies, or
    /// where the ratio of their prices cannot be held.
    pub open spec fn spec_price(&self, pair: TradingPair) -> Result<Price, Error> {
        match (self.spec_oracle_price(pair.base), self.spec_oracle_price(pair.quote)) {
            (Some(base), Some(quote)) => match base.spec_checked_div(quote) {
                Some(price) => Ok(price),
                None => Err(Error::NoPrice),
            },
            _ => Err(Error::NoPrice),
        }
    }

    /// The bid spread of `pair` as a price factor.
    pub open spec fn spec_bid_spread(&self, pair: TradingPair) -> Price {
        match self.spreads.spec_get(pair) {
            Some(spread) => Price::spec_from_permill(spread.bid),
            None => Price { parts: 0 },
        }
    }

    /// The ask spread of `pair` as a price factor.
    pub open spec fn spec_ask_spread(&self, pair: TradingPair) -> Price {
        match self.spreads.spec_get(pair) {
            Some(spread) => Price::spec_from_permill(spread.ask),
            None => Price { parts: 0 },
        }
    }

    /// `price * (1 - bid spread)`: what the pool pays for one unit of the base.
    pub open spec fn spec_bid_price(&self, pair: TradingPair) -> Result<Price, Error> {
        match self.spec_price(pair) {
            Ok(price) => in_bound(
                Price::spec_one().spec_saturating_sub(self.spec_bid_spread(pair)).spec_checked_mul(
                    price,
                ),
            ),
            Err(e) => Err(e),
        }
    }

    /// `price * (1 + ask spread)`: what the pool asks for one unit of the base.
    pub open spec fn spec_ask_price(&self, pair: TradingPair) -> Result<Price, Error> {
        match self.spec_price(pair) {
            Ok(price) => match Price::spec_one().spec_checked_add(self.spec_ask_spread(pair)) {
                Some(factor) => in_bound(factor.spec_checked_mul(price)),
                None => Err(Error::NumOutOfBound),
            },
            Err(e) => Err(e),
        }
    }

    /// The price at which a position of the given direction could be closed: a long
    /// position is sold at the bid price, a short one is bought back at the ask
    /// price.
    pub open spec fn spec_closing_price(&self, pair: TradingPair, leverage: Leverage) -> Result<
        Fixed128,
        Error,
    > {
        let quoted = if leverage.is_long() {
            self.spec_bid_price(pair)
        } else {
            self.spec_ask_price(pair)
        };
        match quoted {
            Ok(price) => in_bound(price.spec_to_fixed()),
            Err(e) => Err(e),
        }
    }

    /// `amount` of `currency` in the reference currency, rounded towards zero: the
    /// amount itself for the reference currency, and else the amount times the price
    /// of the pair from `currency` to the reference currency.
    pub open spec fn spec_value_in_reference_currency(
        &self,
        currency: CurrencyId,
        amount: Fixed128,
    ) -> Result<Fixed128, Error> {
        if currency.is_reference() {
            Ok(amount)
        } else {
            match self.spec_price(TradingPair { base: currency, quote: CurrencyId::reference() }) {
                Ok(price) => match price.spec_to_fixed() {
                    Some(rate) => in_bound(amount.spec_checked_mul(rate)),
                    None => Err(Error::NumOutOfBound),
                },
                Err(e) => Err(e),
            }
        }
    }

    /// The accumulated swap rate of `pair` as it stands now.
    pub open spec fn spec_accumulated_swap_rate(&self, pair: TradingPair) -> Fixed128 {
        match self.accumulated_swap_rates.spec_get(pair) {
            Some(rate) => rate,
            None => Fixed128::spec_zero(),
        }
    }

    /// A market without prices, spreads or swap rates.
    pub fn new() -> (r: Market)
        ensures
            r.prices@ == Map::<CurrencyId, Price>::empty(),
            r.spreads@ == Map::<TradingPair, Spread>::empty(),
            r.accumulated_swap_rates@ == Map::<TradingPair, Fixed128>::empty(),
    {
        Market {
            prices: Table::new(),
            spreads: Table::new(),
            accumulated_swap_rates: Table::new(),
        }
    }

    /// The oracle's price of `currency` in the reference currency.
    pub fn oracle_price(&self, currency: CurrencyId) -> (r: Option<Price>)
        ensures
            r == self.spec_oracle_price(currency),
    {
        if currency.is_reference() {
            Some(Price::one())
        } else {
            self.prices.get(currency)
        }
    }

    /// The price of `pair`, or `NoPrice`.
    pub fn price(&self, pair: TradingPair) -> (r: Result<Price, Error>)
        ensures
            r == self.spec_price(pair),
    {
        let base = match self.oracle_price(pair.base) {
            Some(p) => p,
            None => return Err(Error::NoPrice),
        };
        let quote = match self.oracle_price(pair.quote) {
            Some(p) => p,
            None => return Err(Error::NoPrice),
        };
        match base.checked_div(quote) {
            Some(price) => Ok(price),
            None => Err(Error::NoPrice),
        }
    }

    /// The price at which the pool buys one unit of the base of `pair`.
    pub fn bid_price(&self, pair: TradingPair) -> (r: Result<Price, Error>)
        ensures
            r == self.spec_bid_price(pair),
    {
        let price = match self.price(pair) {
            Ok(p) => p,
            Err(e) => return Err(e),
        };
        let spread = match self.spreads.get(pair) {
            Some(s) => Price::from_permill(s.bid),
            None => Price::zero(),
        };
        match Price::one().saturating_sub(spread).checked_mul(price) {
            Some(bid) => Ok(bid),
            None => Err(Error::NumOutOfBound),
        }
    }

    /// The price at which the pool sells one unit of the base of `pair`.
    pub fn ask_price(&self, pair: TradingPair) -> (r: Result<Price, Error>)
        ensures
            r == self.spec_ask_price(pair),
    {
        let price = match self.price(pair) {
            Ok(p) => p,
            Err(e) => return Err(e),
        };
        let spread = match self.spreads.get(pair) {
            Some(s) => Price::from_permill(s.ask),
            None => Price::zero(),
        };
        let factor = match Price::one().checked_add(spread) {
            Some(f) => f,
            None => return Err(Error::NumOutOfBound),
        };
        match factor.checked_mul(price) {
            Some(ask) => Ok(ask),
            None => Err(Error::NumOutOfBound),
        }
    }

    /// The price at which a position on `pair` with the direction of `leverage` could
    /// be closed.
    pub fn closing_price(&self, pair: TradingPair, leverage: Leverage) -> (r: Result<
        Fixed128,
        Error,
    >)
        ensures
            r == self.spec_closing_price(pair, leverage),
    {
        let quoted = if leverage.is_long() {
            self.bid_price(pair)
        } else {
            self.ask_price(pair)
        };
        match quoted {
            Ok(price) => match price.to_fixed() {
                Some(p) => Ok(p),
                None => Err(Error::NumOutOfBound),
            },
            Err(e) => Err(e),
        }
    }

    /// `amount` of `currency` in the reference currency.
    pub fn value_in_reference_currency(&self, currency: CurrencyId, amount: Fixed128) -> (r:
        Result<Fixed128, Error>)
        ensures
            r == self.spec_value_in_reference_currency(currency, amount),
            currency.is_reference() ==> r == Ok::<Fixed128, Error>(amount),
    {
        if currency.is_reference() {
            return Ok(amount);
        }
        let price = match self.price(TradingPair { base: currency, quote: CurrencyId::AUSD }) {
            Ok(p) => p,
            Err(e) => return Err(e),
        };
        let rate = match price.to_fixed() {
            Some(r) => r,
            None => return Err(Error::NumOutOfBound),
        };
        match amount.checked_mul(rate) {
            Some(value) => Ok(value),
            None => Err(Error::NumOutOfBound),
        }
    }

    /// The accumulated swap rate of `pair` as it stands now.
    pub fn accumulated_swap_rate(&self, pair: TradingPair) -> (r: Fixed128)
        ensures
            r == self.spec_accumulated_swap_rate(pair),
    {
        match self.accumulated_swap_rates.get(pair) {
            Some(rate) => rate,
            None => Fixed128::zero(),
        }
    }
}

} // verus!
