//! The storage relations: tables, the indices of position ids and the ledger.

use margin_protocol::fixed::Fixed128;
use margin_protocol::index::PositionIndex;
use margin_protocol::ledger::Ledger;
use margin_protocol::primitives::{
    AccountId, CurrencyId, Leverage, LiquidityPoolId, Position, TradingPair,
};
use margin_protocol::table::Table;

const EUR_USD: TradingPair = TradingPair { base: CurrencyId::FEUR, quote: CurrencyId::AUSD };
const EUR_JPY: TradingPair = TradingPair { base: CurrencyId::FEUR, quote: CurrencyId::FJPY };

fn position(owner: AccountId, pool: LiquidityPoolId, margin: u128) -> Position {
    Position {
        owner,
        pool,
        pair: EUR_USD,
        leverage: Leverage::LongTwo,
        leveraged_held: Fixed128::from_natural(1),
        leveraged_debits: Fixed128::from_natural(-1),
        leveraged_held_in_reference_currency: Fixed128::from_natural(-1),
        open_accumulated_swap_rate: Fixed128::zero(),
        open_margin: margin,
    }
}

#[test]
fn a_table_holds_the_last_value_of_each_key() {
    let mut table: Table<u64, u128> = Table::new();
    assert_eq!(table.get(1), None);
    table.insert(1, 10);
    table.insert(2, 20);
    assert_eq!(table.get(1), Some(10));
    assert_eq!(table.get(2), Some(20));
    assert_eq!(table.get(3), None);
    table.insert(1, 11);
    assert_eq!(table.get(1), Some(11));
    assert_eq!(table.get(2), Some(20));
}

#[test]
fn a_table_tells_trading_pairs_apart() {
    let mut table: Table<TradingPair, u8> = Table::new();
    table.insert(EUR_USD, 1);
    table.insert(EUR_USD.inverse(), 2);
    table.insert(EUR_JPY, 3);
    assert_eq!(table.get(EUR_USD), Some(1));
    assert_eq!(table.get(EUR_USD.inverse()), Some(2));
    assert_eq!(table.get(EUR_JPY), Some(3));
    assert_eq!(table.get(EUR_JPY.inverse()), None);
}

#[test]
fn an_index_is_traversed_by_its_major_key() {
    let mut index: PositionIndex<AccountId, LiquidityPoolId> = PositionIndex::new();
    assert_eq!(index.ids_under(1), Vec::<u64>::new());
    index.insert(1, 100, vec![0, 1]);
    index.insert(2, 100, vec![2]);
    index.insert(1, 200, vec![5, 3]);
    assert_eq!(index.ids_under(1), vec![0, 1, 5, 3]);
    assert_eq!(index.ids_under(2), vec![2]);
    assert_eq!(index.ids_under(100), Vec::<u64>::new());
}

#[test]
fn filing_under_the_same_keys_replaces() {
    let mut index: PositionIndex<AccountId, LiquidityPoolId> = PositionIndex::new();
    index.insert(1, 100, vec![0, 1]);
    index.insert(1, 200, vec![2]);
    index.insert(1, 100, vec![7]);
    assert_eq!(index.ids_under(1), vec![7, 2]);
    index.insert(1, 200, vec![]);
    assert_eq!(index.ids_under(1), vec![7]);
    assert_eq!(index.entries.len(), 2);
}

#[test]
fn the_ledger_starts_empty() {
    let ledger = Ledger::new();
    assert_eq!(ledger.balance(1), 0);
    assert_eq!(ledger.pool_liquidity(100), 0);
    assert_eq!(ledger.positions_of_trader(1), vec![]);
    assert_eq!(ledger.positions_of_pool(100), vec![]);
}

#[test]
fn the_ledger_reads_balances_and_liquidity() {
    let mut ledger = Ledger::new();
    ledger.balances.insert(1, 15);
    ledger.balances.insert(2, 25);
    ledger.liquidity.insert(1, 35);
    assert_eq!(ledger.balance(1), 15);
    assert_eq!(ledger.balance(2), 25);
    assert_eq!(ledger.balance(3), 0);
    assert_eq!(ledger.pool_liquidity(1), 35);
    assert_eq!(ledger.pool_liquidity(2), 0);
}

#[test]
fn positions_are_read_in_the_order_of_the_index() {
    let mut ledger = Ledger::new();
    ledger.positions.insert(0, position(1, 100, 10));
    ledger.positions.insert(1, position(1, 200, 11));
    ledger.positions.insert(2, position(2, 100, 12));
    ledger.positions.insert(3, position(1, 100, 13));
    ledger.positions_by_trader.insert(1, 100, vec![3, 0]);
    ledger.positions_by_trader.insert(2, 100, vec![2]);
    ledger.positions_by_trader.insert(1, 200, vec![1]);
    ledger.positions_by_pool.insert(100, EUR_USD, vec![0, 2, 3]);
    ledger.positions_by_pool.insert(200, EUR_USD, vec![1]);
    assert_eq!(
        ledger.positions_of_trader(1),
        vec![position(1, 100, 13), position(1, 100, 10), position(1, 200, 11)]
    );
    assert_eq!(ledger.positions_of_trader(2), vec![position(2, 100, 12)]);
    assert_eq!(
        ledger.positions_of_pool(100),
        vec![position(1, 100, 10), position(2, 100, 12), position(1, 100, 13)]
    );
    assert_eq!(ledger.positions_of_pool(200), vec![position(1, 200, 11)]);
    assert_eq!(ledger.positions_of_pool(300), vec![]);
}

#[test]
fn an_id_without_a_position_is_passed_over() {
    let mut ledger = Ledger::new();
    ledger.positions.insert(4, position(1, 100, 10));
    ledger.positions_by_trader.insert(1, 100, vec![9, 4, 8]);
    assert_eq!(ledger.positions_of_trader(1), vec![position(1, 100, 10)]);
    assert_eq!(ledger.positions_of(&vec![4, 4, 5]), vec![position(1, 100, 10); 2]);
}
