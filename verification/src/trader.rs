//! The trader's margin account: margin held, free balance, equity and margin level.

use vstd::prelude::*;
use crate::fixed::{clamp_parts, Fixed128};
use crate::market::{in_bound, Market};
use crate::price::clamp_unsigned;
use crate::primitives::{AccountId, Balance, Error, Position};
use crate::protocol::{append_hypothetical, with_hypothetical, MarginProtocol};
use crate::valuation::{checked_total, lemma_total_fails_from};

verus! {

/// The sum of the open margins of the positions.
pub open spec fn total_open_margin(positions: Seq<Position>) -> nat
    decreases positions.len(),
{
    if positions.len() == 0 {
        0
    } else {
        total_open_margin(positions.drop_last()) + positions.last().open_margin as nat
    }
}

/// What is left of the balance once the margin held is set aside, and nothing where
/// the margin held exceeds the balance.
pub open spec fn free_of(balance: Balance, margin_held: nat) -> Balance {
    if margin_held <= balance {
        (balance - margin_held) as Balance
    } else {
        0
    }
}

/// The size of each position in the reference currency as filed when the position
/// was opened, in order: with its sign, or as a magnitude.
pub open spec fn held_in_reference_currency(positions: Seq<Position>, absolute: bool) -> Seq<
    Result<Fixed128, Error>,
> {
    positions.map_values(
        |p: Position|
            Ok::<Fixed128, Error>(
                if absolute {
                    p.leveraged_held_in_reference_currency.spec_saturating_abs()
                } else {
                    p.leveraged_held_in_reference_currency
                },
            ),
    )
}

/// A ratio of the equity to an exposure: the largest value that can be held where
/// there is no exposure, and else the quotient rounded towards zero.
pub open spec fn ratio(equity: Fixed128, exposure: Fixed128) -> Result<Fixed128, Error> {
    if exposure@ == 0 {
        Ok(Fixed128::spec_max_value())
    } else {
        in_bound(equity.spec_checked_div(exposure))
    }
}

impl Market {
    /// `balance + sum of unrealized profit and loss + sum of accrued swap` over the
    /// positions. The balance counts as the largest value that can be held where it
    /// exceeds it.
    pub open spec fn spec_equity(&self, balance: Balance, positions: Seq<Position>) -> Result<
        Fixed128,
        Error,
    > {
        match checked_total(self.spec_unrealized_pls(positions)) {
            Err(e) => Err(e),
            Ok(unrealized) => match (Fixed128 {
                parts: clamp_parts(balance as int),
            }).spec_checked_add(unrealized) {
                None => Err(Error::NumOutOfBound),
                Some(with_unrealized) => match checked_total(
                    self.spec_accumulated_swap_rates(positions),
                ) {
                    Err(e) => Err(e),
                    Ok(swap) => in_bound(with_unrealized.spec_checked_add(swap)),
                },
            },
        }
    }

    /// The margin level of an account with the balance and the positions: its
    /// equity over the sum of the magnitudes of the positions' sizes in the
    /// reference currency.
    pub open spec fn spec_margin_level(&self, balance: Balance, positions: Seq<Position>) -> Result<
        Fixed128,
        Error,
    > {
        match self.spec_equity(balance, positions) {
            Err(e) => Err(e),
            Ok(equity) => match checked_total(held_in_reference_currency(positions, true)) {
                Err(e) => Err(e),
                Ok(exposure) => ratio(equity, exposure),
            },
        }
    }

    /// The equity of an account with the balance and the positions.
    pub fn equity(&self, balance: Balance, positions: &Vec<Position>) -> (r: Result<
        Fixed128,
        Error,
    >)
        ensures
            r == self.spec_equity(balance, positions@),
    {
        let unrealized = match self.unrealized_pl_of_positions(positions) {
            Ok(u) => u,
            Err(e) => return Err(e),
        };
        let with_unrealized = match Fixed128::saturating_from_balance(balance).checked_add(
            unrealized,
        ) {
            Some(w) => w,
            None => return Err(Error::NumOutOfBound),
        };
        let swap = match self.accumulated_swap_rate_of_positions(positions) {
            Ok(s) => s,
            Err(e) => return Err(e),
        };
        match with_unrealized.checked_add(swap) {
            Some(equity) => Ok(equity),
            None => Err(Error::NumOutOfBound),
        }
    }
}

/// The sum of the positions' sizes in the reference currency, taken in order: with
/// their signs, or as magnitudes.
pub fn total_held_in_reference_currency(positions: &Vec<Position>, absolute: bool) -> (r: Result<
    Fixed128,
    Error,
>)
    ensures
        r == checked_total(held_in_reference_currency(positions@, absolute)),
{
    let ghost terms = held_in_reference_currency(positions@, absolute);
    let mut sum = Fixed128::zero();
    let mut i: usize = 0;
    while i < positions.len()
        invariant
            i <= positions.len(),
            terms == held_in_reference_currency(positions@, absolute),
            checked_total(terms.take(i as int)) == Ok::<Fixed128, Error>(sum),
        decreases positions.len() - i,
    {
        assert(terms.take(i + 1).drop_last() == terms.take(i as int));
        let held = if absolute {
            positions[i].leveraged_held_in_reference_currency.saturating_abs()
        } else {
            positions[i].leveraged_held_in_reference_currency
        };
        sum = match sum.checked_add(held) {
            Some(s) => s,
            None => {
                proof {
                    lemma_total_fails_from(terms, i + 1);
                }
                return Err(Error::NumOutOfBound);
            },
        };
        i = i + 1;
    }
    assert(terms.take(i as int) == terms);
    Ok(sum)
}

/// The equity over the exposure, and the largest value that can be held where the
/// exposure is zero.
pub fn ratio_of(equity: Fixed128, exposure: Fixed128) -> (r: Result<Fixed128, Error>)
    ensures
        r == ratio(equity, exposure),
{
    if exposure.parts == 0 {
        return Ok(Fixed128::max_value());
    }
    match equity.checked_div(exposure) {
        Some(level) => Ok(level),
        None => Err(Error::NumOutOfBound),
    }
}

impl MarginProtocol {
    pub open spec fn spec_unrealized_pl_of_trader(&self, who: AccountId) -> Result<
        Fixed128,
        Error,
    > {
        checked_total(self.market.spec_unrealized_pls(self.ledger.spec_positions_of_trader(who)))
    }

    pub open spec fn spec_accumulated_swap_rate_of_trader(&self, who: AccountId) -> Result<
        Fixed128,
        Error,
    > {
        checked_total(
            self.market.spec_accumulated_swap_rates(self.ledger.spec_positions_of_trader(who)),
        )
    }

    /// The sum of the open margins of the trader's positions.
    pub open spec fn spec_margin_held(&self, who: AccountId) -> nat {
        total_open_margin(self.ledger.spec_positions_of_trader(who))
    }

    pub open spec fn spec_free_balance(&self, who: AccountId) -> Balance {
        free_of(self.ledger.spec_balance(who), self.spec_margin_held(who))
    }

    pub open spec fn spec_equity_of_trader(&self, who: AccountId) -> Result<Fixed128, Error> {
        self.market.spec_equity(
            self.ledger.spec_balance(who),
            self.ledger.spec_positions_of_trader(who),
        )
    }

    /// The margin level of the trader over the trader's positions and the
    /// hypothetical one, if there is one.
    pub open spec fn spec_margin_level(
        &self,
        who: AccountId,
        hypothetical: Option<Position>,
    ) -> Result<Fixed128, Error> {
        self.market.spec_margin_level(
            self.ledger.spec_balance(who),
            with_hypothetical(self.ledger.spec_positions_of_trader(who), hypothetical),
        )
    }

    /// The sum of the unrealized profit and loss of all positions of the trader,
    /// in the reference currency. It fails with the first error met in the order of
    /// the trader's index, and sums nothing partially.
    pub fn unrealized_pl_of_trader(&self, who: AccountId) -> (r: Result<Fixed128, Error>)
        ensures
            r == self.spec_unrealized_pl_of_trader(who),
    {
        let positions = self.ledger.positions_of_trader(who);
        self.market.unrealized_pl_of_positions(&positions)
    }

    /// The sum of the swap that all positions of the trader have accrued.
    pub fn accumulated_swap_rate_of_trader(&self, who: AccountId) -> (r: Result<Fixed128, Error>)
        ensures
            r == self.spec_accumulated_swap_rate_of_trader(who),
    {
        let positions = self.ledger.positions_of_trader(who);
        self.market.accumulated_swap_rate_of_positions(&positions)
    }

    /// The sum of the open margins of the trader's positions, and the largest
    /// balance where the sum exceeds it.
    pub fn margin_held(&self, who: AccountId) -> (r: Balance)
        ensures
            r == clamp_unsigned(self.spec_margin_held(who) as int),
    {
        let positions = self.ledger.positions_of_trader(who);
        let mut sum: Balance = 0;
        let mut i: usize = 0;
        while i < positions.len()
            invariant
                i <= positions.len(),
                sum == clamp_unsigned(total_open_margin(positions@.take(i as int)) as int),
            decreases positions.len() - i,
        {
            assert(positions@.take(i + 1).drop_last() == positions@.take(i as int));
            sum = sum.saturating_add(positions[i].open_margin);
            i = i + 1;
        }
        assert(positions@.take(i as int) == positions@);
        sum
    }

    /// The balance that the trader can withdraw: the balance less the margin held,
    /// and nothing where the margin held exceeds the balance.
    pub fn free_balance(&self, who: AccountId) -> (r: Balance)
        ensures
            r == self.spec_free_balance(who),
            self.spec_margin_held(who) <= self.ledger.spec_balance(who) ==> r
                == self.ledger.spec_balance(who) - self.spec_margin_held(who),
            self.spec_margin_held(who) > self.ledger.spec_balance(who) ==> r == 0,
    {
        let balance = self.ledger.balance(who);
        let held = self.margin_held(who);
        if held <= balance {
            balance - held
        } else {
            0
        }
    }

    /// The equity of the trader: the balance, the unrealized profit and loss of all
    /// positions and the swap that they have accrued.
    pub fn equity_of_trader(&self, who: AccountId) -> (r: Result<Fixed128, Error>)
        ensures
            r == self.spec_equity_of_trader(who),
    {
        let positions = self.ledger.positions_of_trader(who);
        self.market.equity(self.ledger.balance(who), &positions)
    }

    /// The margin level of the trader, as if the hypothetical position, where one is
    /// given, stood after the trader's own. Nothing is stored.
    pub fn margin_level(&self, who: AccountId, hypothetical: Option<Position>) -> (r: Result<
        Fixed128,
        Error,
    >)
        ensures
            r == self.spec_margin_level(who, hypothetical),
    {
        let positions = append_hypothetical(self.ledger.positions_of_trader(who), hypothetical);
        let equity = match self.market.equity(self.ledger.balance(who), &positions) {
            Ok(e) => e,
            Err(e) => return Err(e),
        };
        let exposure = match total_held_in_reference_currency(&positions, true) {
            Ok(x) => x,
            Err(e) => return Err(e),
        };
        ratio_of(equity, exposure)
    }
}

} // verus!
