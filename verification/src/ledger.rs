//! The storage that the engine reads: positions by id, the two indices of position
//! ids, the traders' balances and the pools' liquidity.

use vstd::prelude::*;
use crate::index::PositionIndex;
use crate::primitives::{AccountId, Balance, LiquidityPoolId, Position, PositionId, TradingPair};
use crate::table::Table;

verus! {

/// The positions stored under the ids, in the order of the ids. An id under which
/// nothing is stored contributes nothing.
pub open spec fn resolve(positions: Map<PositionId, Position>, ids: Seq<PositionId>) -> Seq<
    Position,
>
    decreases ids.len(),
{
    if ids.len() == 0 {
        Seq::empty()
    } else if positions.contains_key(ids.last()) {
        resolve(positions, ids.drop_last()).push(positions[ids.last()])
    } else {
        resolve(positions, ids.drop_last())
    }
}

/// One state of the storage. The engine reads it and never changes it.
pub struct Ledger {
    /// The open positions by id.
    pub positions: Table<PositionId, Position>,
    /// The ids of a trader's positions, by trader and pool.
    pub positions_by_trader: PositionIndex<AccountId, LiquidityPoolId>,
    /// The ids of the positions against a pool, by pool and trading pair.
    pub positions_by_pool: PositionIndex<LiquidityPoolId, TradingPair>,
    /// The traders' balances; that of a trader without an entry is zero.
    pub balances: Table<AccountId, Balance>,
    /// The pools' liquidity; that of a pool without an entry is zero.
    pub liquidity: Table<LiquidityPoolId, Balance>,
}

impl Ledger {
    /// The positions of a trader in all pools, in the order of the trader's index.
    pub open spec fn spec_positions_of_trader(&self, who: AccountId) -> Seq<Position> {
        resolve(self.positions@, self.positions_by_trader.spec_ids_under(who))
    }

    /// The positions against a pool on all trading pairs, in the order of the pool's
    /// index.
    pub open spec fn spec_positions_of_pool(&self, pool: LiquidityPoolId) -> Seq<Position> {
        resolve(self.positions@, self.positions_by_pool.spec_ids_under(pool))
    }

    pub open spec fn spec_balance(&self, who: AccountId) -> Balance {
        match self.balances.spec_get(who) {
            Some(balance) => balance,
            None => 0,
        }
    }

    pub open spec fn spec_pool_liquidity(&self, pool: LiquidityPoolId) -> Balance {
        match self.liquidity.spec_get(pool) {
            Some(amount) => amount,
            None => 0,
        }
    }

    /// A ledger without positions, balances or liquidity.
    pub fn new() -> (r: Ledger)
        ensures
            r.positions@ == Map::<PositionId, Position>::empty(),
            r.positions_by_trader.entries@.len() == 0,
            r.positions_by_pool.entries@.len() == 0,
            r.balances@ == Map::<AccountId, Balance>::empty(),
            r.liquidity@ == Map::<LiquidityPoolId, Balance>::empty(),
    {
        Ledger {
            positions: Table::new(),
            positions_by_trader: PositionIndex::new(),
            positions_by_pool: PositionIndex::new(),
            balances: Table::new(),
            liquidity: Table::new(),
        }
    }

    /// The positions stored under `ids`, in order.
    pub fn positions_of(&self, ids: &Vec<PositionId>) -> (r: Vec<Position>)
        ensures
            r@ == resolve(self.positions@, ids@),
    {
        let mut found: Vec<Position> = Vec::new();
        let mut i: usize = 0;
        while i < ids.len()
            invariant
                i <= ids.len(),
                found@ == resolve(self.positions@, ids@.take(i as int)),
            decreases ids.len() - i,
        {
            assert(ids@.take(i + 1).drop_last() == ids@.take(i as int));
            match self.positions.get(ids[i]) {
                Some(position) => found.push(position),
                None => {},
            }
            i = i + 1;
        }
        assert(ids@.take(i as int) == ids@);
        found
    }

    /// The positions of a trader in all pools.
    pub fn positions_of_trader(&self, who: AccountId) -> (r: Vec<Position>)
        ensures
            r@ == self.spec_positions_of_trader(who),
    {
        let ids = self.positions_by_trader.ids_under(who);
        self.positions_of(&ids)
    }

    /// The positions against a pool on all trading pairs.
    pub fn positions_of_pool(&self, pool: LiquidityPoolId) -> (r: Vec<Position>)
        ensures
            r@ == self.spec_positions_of_pool(pool),
    {
        let ids = self.positions_by_pool.ids_under(pool);
        self.positions_of(&ids)
    }

    /// The balance of a trader.
    pub fn balance(&self, who: AccountId) -> (r: Balance)
        ensures
            r == self.spec_balance(who),
    {
        match self.balances.get(who) {
            Some(balance) => balance,
            None => 0,
        }
    }

    /// The liquidity of a pool.
    pub fn pool_liquidity(&self, pool: LiquidityPoolId) -> (r: Balance)
        ensures
            r == self.spec_pool_liquidity(pool),
    {
        match self.liquidity.get(pool) {
            Some(amount) => amount,
            None => 0,
        }
    }
}

} // verus!
