//! The position valuer: the unrealized profit and loss of a position, the swap that
//! it has accrued, and their sums over a sequence of positions.

use vstd::prelude::*;
use crate::fixed::Fixed128;
use crate::market::{in_bound, Market};
use crate::primitives::{Error, Position};

verus! {

/// The sum so far with one more term, failing with the first error met: that of
/// the sum so far, else that of the term, else `NumOutOfBound` where the sum cannot
/// be held.
pub open spec fn accumulate(
    sum: Result<Fixed128, Error>,
    term: Result<Fixed128, Error>,
) -> Result<Fixed128, Error> {
    match sum {
        Err(e) => Err(e),
        Ok(s) => match term {
            Err(e) => Err(e),
            Ok(t) => in_bound(s.spec_checked_add(t)),
        },
    }
}

/// The sum of the terms from the first to the last. It fails with the error of the
/// first term that is an error or whose partial sum cannot be held.
pub open spec fn checked_total(terms: Seq<Result<Fixed128, Error>>) -> Result<Fixed128, Error>
    decreases terms.len(),
{
    if terms.len() == 0 {
        Ok(Fixed128::spec_zero())
    } else {
        accumulate(checked_total(terms.drop_last()), terms.last())
    }
}

/// The price at which the position was opened: the magnitude of its debits per
/// unit held, rounded towards zero. There is none for a position that holds
/// nothing, or where the ratio cannot be held.
pub open spec fn spec_open_price(position: Position) -> Option<Fixed128> {
    match position.leveraged_debits.spec_checked_div(position.leveraged_held) {
        Some(price) => Some(price.spec_saturating_abs()),
        None => None,
    }
}

/// The price at which the position was opened.
pub fn open_price(position: &Position) -> (r: Option<Fixed128>)
    ensures
        r == spec_open_price(*position),
{
    match position.leveraged_debits.checked_div(position.leveraged_held) {
        Some(price) => Some(price.saturating_abs()),
        None => None,
    }
}

impl Market {
    /// The unrealized profit and loss of a position in the reference currency:
    /// `leveraged_held * (closing price - open price)`, a value in the quote
    /// currency, brought into the reference currency. Each product is rounded
    /// towards zero.
    pub open spec fn spec_unrealized_pl_of_position(&self, position: Position) -> Result<
        Fixed128,
        Error,
    > {
        match spec_open_price(position) {
            None => Err(Error::NumOutOfBound),
            Some(open) => match self.spec_closing_price(position.pair, position.leverage) {
                Err(e) => Err(e),
                Ok(close) => match close.spec_checked_sub(open) {
                    None => Err(Error::NumOutOfBound),
                    Some(delta) => match position.leveraged_held.spec_checked_mul(delta) {
                        None => Err(Error::NumOutOfBound),
                        Some(unrealized) => self.spec_value_in_reference_currency(
                            position.pair.quote,
                            unrealized,
                        ),
                    },
                },
            },
        }
    }

    /// The swap that a position has accrued since it was opened:
    /// `(current accumulated rate - accumulated rate at open) * leveraged_held`,
    /// rounded towards zero.
    pub open spec fn spec_accumulated_swap_rate_of_position(&self, position: Position) -> Result<
        Fixed128,
        Error,
    > {
        match self.spec_accumulated_swap_rate(position.pair).spec_checked_sub(
            position.open_accumulated_swap_rate,
        ) {
            None => Err(Error::NumOutOfBound),
            Some(rate) => in_bound(position.leveraged_held.spec_checked_mul(rate)),
        }
    }

    /// The unrealized profit and loss of each position, in order.
    pub open spec fn spec_unrealized_pls(&self, positions: Seq<Position>) -> Seq<
        Result<Fixed128, Error>,
    > {
        positions.map_values(|p: Position| self.spec_unrealized_pl_of_position(p))
    }

    /// The accrued swap of each position, in order.
    pub open spec fn spec_accumulated_swap_rates(&self, positions: Seq<Position>) -> Seq<
        Result<Fixed128, Error>,
    > {
        positions.map_values(|p: Position| self.spec_accumulated_swap_rate_of_position(p))
    }

    /// The unrealized profit and loss of one position in the reference currency.
    pub fn unrealized_pl_of_position(&self, position: &Position) -> (r: Result<Fixed128, Error>)
        ensures
            r == self.spec_unrealized_pl_of_position(*position),
    {
        let open = match open_price(position) {
            Some(p) => p,
            None => return Err(Error::NumOutOfBound),
        };
        let close = match self.closing_price(position.pair, position.leverage) {
            Ok(p) => p,
            Err(e) => return Err(e),
        };
        let delta = match close.checked_sub(open) {
            Some(d) => d,
            None => return Err(Error::NumOutOfBound),
        };
        let unrealized = match position.leveraged_held.checked_mul(delta) {
            Some(u) => u,
            None => return Err(Error::NumOutOfBound),
        };
        self.value_in_reference_currency(position.pair.quote, unrealized)
    }

    /// The swap that one position has accrued since it was opened.
    pub fn accumulated_swap_rate_of_position(&self, position: &Position) -> (r: Result<
        Fixed128,
        Error,
    >)
        ensures
            r == self.spec_accumulated_swap_rate_of_position(*position),
    {
        let rate = match self.accumulated_swap_rate(position.pair).checked_sub(
            position.open_accumulated_swap_rate,
        ) {
            Some(r) => r,
            None => return Err(Error::NumOutOfBound),
        };
        match position.leveraged_held.checked_mul(rate) {
            Some(swap) => Ok(swap),
            None => Err(Error::NumOutOfBound),
        }
    }

    /// The sum of the unrealized profit and loss of the positions, taken in order.
    /// It stops at the first position that cannot be valued or whose partial sum
    /// cannot be held, and returns that error.
    pub fn unrealized_pl_of_positions(&self, positions: &Vec<Position>) -> (r: Result<
        Fixed128,
        Error,
    >)
        ensures
            r == checked_total(self.spec_unrealized_pls(positions@)),
    {
        let ghost terms = self.spec_unrealized_pls(positions@);
        let mut sum = Fixed128::zero();
        let mut i: usize = 0;
        while i < positions.len()
            invariant
                i <= positions.len(),
                terms == self.spec_unrealized_pls(positions@),
                checked_total(terms.take(i as int)) == Ok::<Fixed128, Error>(sum),
            decreases positions.len() - i,
        {
            assert(terms.take(i + 1).drop_last() == terms.take(i as int));
            let unrealized = match self.unrealized_pl_of_position(&positions[i]) {
                Ok(u) => u,
                Err(e) => {
                    proof {
                        lemma_total_fails_from(terms, i + 1);
                    }
                    return Err(e);
                },
            };
            sum = match sum.checked_add(unrealized) {
                Some(s) => s,
                None => {
                    proof {
                        lemma_total_fails_from(terms, i + 1);
                    }
                    return Err(Error::NumOutOfBound);
                },
            };
            i = i + 1;
        }
        assert(terms.take(i as int) == terms);
        Ok(sum)
    }

    /// The sum of the swap that the positions have accrued, taken in order. It stops
    /// at the first position whose swap or partial sum cannot be held, and returns
    /// that error.
    pub fn accumulated_swap_rate_of_positions(&self, positions: &Vec<Position>) -> (r: Result<
        Fixed128,
        Error,
    >)
        ensures
            r == checked_total(self.spec_accumulated_swap_rates(positions@)),
    {
        let ghost terms = self.spec_accumulated_swap_rates(positions@);
        let mut sum = Fixed128::zero();
        let mut i: usize = 0;
        while i < positions.len()
            invariant
                i <= positions.len(),
                terms == self.spec_accumulated_swap_rates(positions@),
                checked_total(terms.take(i as int)) == Ok::<Fixed128, Error>(sum),
            decreases positions.len() - i,
        {
            assert(terms.take(i + 1).drop_last() == terms.take(i as int));
            let swap = match self.accumulated_swap_rate_of_position(&positions[i]) {
                Ok(s) => s,
                Err(e) => {
                    proof {
                        lemma_total_fails_from(terms, i + 1);
                    }
                    return Err(e);
                },
            };
            sum = match sum.checked_add(swap) {
                Some(s) => s,
                None => {
                    proof {
                        lemma_total_fails_from(terms, i + 1);
                    }
                    return Err(Error::NumOutOfBound);
                },
            };
            i = i + 1;
        }
        assert(terms.take(i as int) == terms);
        Ok(sum)
    }
}

/// Once the sum of the first `n` terms has failed, the sum of all terms fails with
/// the same error.
pub proof fn lemma_total_fails_from(terms: Seq<Result<Fixed128, Error>>, n: int)
    requires
        0 <= n <= terms.len(),
        checked_total(terms.take(n)) is Err,
    ensures
        checked_total(terms) == checked_total(terms.take(n)),
    decreases terms.len() - n,
{
    if n == terms.len() {
        assert(terms.take(n) == terms);
    } else {
        assert(terms.take(n + 1).drop_last() == terms.take(n));
        lemma_total_fails_from(terms, n + 1);
    }
}

} // verus!
