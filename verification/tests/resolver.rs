//! The price resolver and the valuation of single positions.

use margin_protocol::fixed::Fixed128;
use margin_protocol::market::{Market, Spread};
use margin_protocol::permill::Permill;
use margin_protocol::price::Price;
use margin_protocol::primitives::{CurrencyId, Error, Leverage, Position, TradingPair};
use margin_protocol::valuation::open_price;

const EUR_JPY: TradingPair = TradingPair { base: CurrencyId::FEUR, quote: CurrencyId::FJPY };
const EUR_USD: TradingPair = TradingPair { base: CurrencyId::FEUR, quote: CurrencyId::AUSD };

fn yen_market(spread: Permill) -> Market {
    let mut market = Market::new();
    market.prices.insert(CurrencyId::FJPY, Price::from_rational(1, 110));
    market.prices.insert(CurrencyId::FEUR, Price::from_rational(140, 110));
    market.spreads.insert(EUR_JPY, Spread { bid: spread, ask: spread });
    market
}

fn position(pair: TradingPair, leverage: Leverage, held: i128, debits: i128) -> Position {
    Position {
        owner: 7,
        pool: 1,
        pair,
        leverage,
        leveraged_held: Fixed128::from_natural(held),
        leveraged_debits: Fixed128::from_natural(debits),
        leveraged_held_in_reference_currency: Fixed128::zero(),
        open_accumulated_swap_rate: Fixed128::zero(),
        open_margin: 0,
    }
}

#[test]
fn the_reference_currency_is_worth_one() {
    let market = Market::new();
    assert_eq!(market.oracle_price(CurrencyId::AUSD), Some(Price::one()));
    assert_eq!(market.oracle_price(CurrencyId::FEUR), None);
    assert!(CurrencyId::AUSD.is_reference());
    assert!(!CurrencyId::FEUR.is_reference());
}

#[test]
fn a_later_price_replaces_an_earlier_one() {
    let mut market = Market::new();
    market.prices.insert(CurrencyId::FEUR, Price::from_natural(1));
    market.prices.insert(CurrencyId::FJPY, Price::from_natural(3));
    market.prices.insert(CurrencyId::FEUR, Price::from_natural(2));
    assert_eq!(market.oracle_price(CurrencyId::FEUR), Some(Price::from_natural(2)));
    assert_eq!(market.oracle_price(CurrencyId::FJPY), Some(Price::from_natural(3)));
}

#[test]
fn the_price_of_a_pair_is_quote_per_base() {
    let market = yen_market(Permill::zero());
    assert_eq!(market.price(EUR_JPY), Ok(Price::from_parts(140_000_000_000_000_013_970)));
    assert_eq!(market.price(EUR_JPY.inverse()), Ok(Price::from_parts(7_142_857_142_857_142)));
    assert_eq!(market.price(EUR_USD), Ok(Price::from_rational(140, 110)));
    assert_eq!(
        market.price(TradingPair { base: CurrencyId::AUSD, quote: CurrencyId::FJPY }),
        Ok(Price::from_parts(110_000_000_000_000_011_000))
    );
}

#[test]
fn the_inverse_pair_exchanges_base_and_quote() {
    let inverse = EUR_JPY.inverse();
    assert_eq!(inverse, TradingPair { base: CurrencyId::FJPY, quote: CurrencyId::FEUR });
    assert_eq!(inverse.inverse(), EUR_JPY);
    assert_ne!(inverse, EUR_JPY);
}

#[test]
fn no_price_without_a_quote_for_either_currency() {
    let mut market = Market::new();
    assert_eq!(market.price(EUR_JPY), Err(Error::NoPrice));
    market.prices.insert(CurrencyId::FEUR, Price::from_natural(1));
    assert_eq!(market.price(EUR_JPY), Err(Error::NoPrice));
    assert_eq!(market.price(EUR_JPY.inverse()), Err(Error::NoPrice));
    assert_eq!(market.bid_price(EUR_JPY), Err(Error::NoPrice));
    assert_eq!(market.ask_price(EUR_JPY), Err(Error::NoPrice));
    assert_eq!(market.closing_price(EUR_JPY, Leverage::LongTwo), Err(Error::NoPrice));
    assert_eq!(
        market.value_in_reference_currency(CurrencyId::FJPY, Fixed128::from_natural(1)),
        Err(Error::NoPrice)
    );
}

#[test]
fn no_price_against_a_worthless_quote() {
    let mut market = Market::new();
    market.prices.insert(CurrencyId::FEUR, Price::from_natural(1));
    market.prices.insert(CurrencyId::FJPY, Price::zero());
    assert_eq!(market.price(EUR_JPY), Err(Error::NoPrice));
    assert_eq!(market.price(EUR_JPY.inverse()), Ok(Price::zero()));
}

#[test]
fn the_spread_lies_around_the_price() {
    let market = yen_market(Permill::from_parts(1_000));
    assert_eq!(market.bid_price(EUR_JPY), Ok(Price::from_parts(139_860_000_000_000_013_956)));
    assert_eq!(market.ask_price(EUR_JPY), Ok(Price::from_parts(140_140_000_000_000_013_983)));
    // no spread is configured for this pair
    assert_eq!(market.bid_price(EUR_USD), Ok(Price::from_rational(140, 110)));
    assert_eq!(market.ask_price(EUR_USD), Ok(Price::from_rational(140, 110)));
}

#[test]
fn bid_and_ask_spreads_are_separate() {
    let mut market = yen_market(Permill::zero());
    market.spreads.insert(
        EUR_USD,
        Spread { bid: Permill::from_percent(50), ask: Permill::from_percent(100) },
    );
    market.prices.insert(CurrencyId::FEUR, Price::from_natural(3));
    assert_eq!(market.bid_price(EUR_USD), Ok(Price::from_rational(3, 2)));
    assert_eq!(market.ask_price(EUR_USD), Ok(Price::from_natural(6)));
    market.spreads.insert(EUR_USD, Spread { bid: Permill::one(), ask: Permill::zero() });
    assert_eq!(market.bid_price(EUR_USD), Ok(Price::zero()));
    assert_eq!(market.ask_price(EUR_USD), Ok(Price::from_natural(3)));
}

#[test]
fn a_long_position_closes_at_the_bid_and_a_short_one_at_the_ask() {
    let market = yen_market(Permill::from_parts(1_000));
    assert_eq!(
        market.closing_price(EUR_JPY, Leverage::LongFifty),
        Ok(Fixed128::from_parts(139_860_000_000_000_013_956))
    );
    assert_eq!(
        market.closing_price(EUR_JPY, Leverage::ShortTwo),
        Ok(Fixed128::from_parts(140_140_000_000_000_013_983))
    );
}

#[test]
fn prices_that_cannot_be_held_are_out_of_bound() {
    let mut market = Market::new();
    market.prices.insert(CurrencyId::FEUR, Price::from_parts(u128::MAX));
    market.spreads.insert(EUR_USD, Spread { bid: Permill::zero(), ask: Permill::one() });
    assert_eq!(market.price(EUR_USD), Ok(Price::from_parts(u128::MAX)));
    assert_eq!(market.bid_price(EUR_USD), Ok(Price::from_parts(u128::MAX)));
    assert_eq!(market.ask_price(EUR_USD), Err(Error::NumOutOfBound));
    assert_eq!(market.closing_price(EUR_USD, Leverage::LongTwo), Err(Error::NumOutOfBound));
    assert_eq!(market.closing_price(EUR_USD, Leverage::ShortTwo), Err(Error::NumOutOfBound));
    assert_eq!(
        market.value_in_reference_currency(CurrencyId::FEUR, Fixed128::from_natural(1)),
        Err(Error::NumOutOfBound)
    );
    // the ratio of the two prices is too large
    market.prices.insert(CurrencyId::FJPY, Price::from_parts(1));
    assert_eq!(market.price(EUR_JPY), Err(Error::NoPrice));
}

#[test]
fn the_reference_currency_converts_to_itself() {
    let market = Market::new();
    let amount = Fixed128::from_parts(-123_456);
    assert_eq!(market.value_in_reference_currency(CurrencyId::AUSD, amount), Ok(amount));
    assert_eq!(
        market.value_in_reference_currency(CurrencyId::AUSD, Fixed128::from_parts(i128::MIN)),
        Ok(Fixed128::from_parts(i128::MIN))
    );
}

#[test]
fn other_currencies_convert_at_their_price() {
    let market = yen_market(Permill::zero());
    assert_eq!(
        market.value_in_reference_currency(CurrencyId::FJPY, Fixed128::from_natural(110)),
        Ok(Fixed128::from_parts(999_999_999_999_999_900))
    );
    assert_eq!(
        market.value_in_reference_currency(CurrencyId::FJPY, Fixed128::from_natural(-110)),
        Ok(Fixed128::from_parts(-999_999_999_999_999_900))
    );
    assert_eq!(
        market.value_in_reference_currency(CurrencyId::FJPY, Fixed128::max_value()),
        Ok(Fixed128::from_parts(1_546_738_031_458_811_042_886_990_524_263_281_205))
    );
    assert_eq!(
        market.value_in_reference_currency(CurrencyId::FEUR, Fixed128::max_value()),
        Err(Error::NumOutOfBound)
    );
}

#[test]
fn the_accumulated_swap_rate_starts_at_zero() {
    let mut market = Market::new();
    assert_eq!(market.accumulated_swap_rate(EUR_USD), Fixed128::zero());
    market.accumulated_swap_rates.insert(EUR_USD, Fixed128::from_natural(1));
    assert_eq!(market.accumulated_swap_rate(EUR_USD), Fixed128::from_natural(1));
    assert_eq!(market.accumulated_swap_rate(EUR_JPY), Fixed128::zero());
    assert_eq!(market.accumulated_swap_rate(EUR_USD.inverse()), Fixed128::zero());
}

#[test]
fn the_open_price_is_the_magnitude_of_debits_per_unit() {
    let long = position(EUR_JPY, Leverage::LongTwenty, 100_000, -14_104_090);
    let short = position(EUR_JPY, Leverage::ShortTwenty, -100_000, 14_175_810);
    assert_eq!(open_price(&long), Some(Fixed128::from_parts(141_040_900_000_000_000_000)));
    assert_eq!(open_price(&short), Some(Fixed128::from_parts(141_758_100_000_000_000_000)));
    assert_eq!(open_price(&position(EUR_JPY, Leverage::LongTwo, 0, -1)), None);
    let mut tiny = position(EUR_JPY, Leverage::LongTwo, 0, -1_000);
    tiny.leveraged_held = Fixed128::from_parts(1);
    assert_eq!(open_price(&tiny), None);
}

#[test]
fn a_mirrored_short_position_has_the_opposite_unrealized_pl() {
    let market = yen_market(Permill::zero());
    let long = position(EUR_JPY, Leverage::LongTwenty, 100_000, -14_104_090);
    let short = position(EUR_JPY, Leverage::ShortTwenty, -100_000, 14_104_090);
    assert_eq!(
        market.unrealized_pl_of_position(&long),
        Ok(Fixed128::from_parts(-946_272_727_272_714_478_100))
    );
    assert_eq!(
        market.unrealized_pl_of_position(&short),
        Ok(Fixed128::from_parts(946_272_727_272_714_478_100))
    );
}

#[test]
fn a_long_position_gains_when_the_price_rises() {
    let mut market = Market::new();
    let long = position(EUR_USD, Leverage::LongTen, 10, -20);
    let short = position(EUR_USD, Leverage::ShortTen, -10, 20);
    market.prices.insert(CurrencyId::FEUR, Price::from_natural(3));
    assert_eq!(market.unrealized_pl_of_position(&long), Ok(Fixed128::from_natural(10)));
    assert_eq!(market.unrealized_pl_of_position(&short), Ok(Fixed128::from_natural(-10)));
    market.prices.insert(CurrencyId::FEUR, Price::from_natural(1));
    assert_eq!(market.unrealized_pl_of_position(&long), Ok(Fixed128::from_natural(-10)));
    assert_eq!(market.unrealized_pl_of_position(&short), Ok(Fixed128::from_natural(10)));
    market.prices.insert(CurrencyId::FEUR, Price::from_natural(2));
    assert_eq!(market.unrealized_pl_of_position(&long), Ok(Fixed128::zero()));
    assert_eq!(market.unrealized_pl_of_position(&short), Ok(Fixed128::zero()));
}

#[test]
fn unrealized_pl_fails_as_its_steps_fail() {
    let mut market = Market::new();
    let long = position(EUR_JPY, Leverage::LongTen, 10, -20);
    // nothing held: no open price
    assert_eq!(
        market.unrealized_pl_of_position(&position(EUR_JPY, Leverage::LongTen, 0, -20)),
        Err(Error::NumOutOfBound)
    );
    // no price for the pair
    assert_eq!(market.unrealized_pl_of_position(&long), Err(Error::NoPrice));
    market.prices.insert(CurrencyId::FEUR, Price::from_natural(3));
    assert_eq!(market.unrealized_pl_of_position(&long), Err(Error::NoPrice));
    market.prices.insert(CurrencyId::FJPY, Price::from_natural(1));
    assert_eq!(market.unrealized_pl_of_position(&long), Ok(Fixed128::from_natural(10)));
    // the value in the quote currency cannot be held
    let mut huge = long;
    huge.leveraged_held = Fixed128::max_value();
    huge.leveraged_debits = Fixed128::max_value();
    assert_eq!(market.unrealized_pl_of_position(&huge), Err(Error::NumOutOfBound));
}

#[test]
fn accrued_swap_is_the_index_delta_times_the_size_held() {
    let mut market = Market::new();
    market.accumulated_swap_rates.insert(EUR_USD, Fixed128::from_rational(3, 100));
    let mut long = position(EUR_USD, Leverage::LongTen, 1_000, -1_200);
    long.open_accumulated_swap_rate = Fixed128::from_rational(1, 100);
    let mut short = position(EUR_USD, Leverage::ShortTen, -1_000, 1_200);
    short.open_accumulated_swap_rate = Fixed128::from_rational(1, 100);
    assert_eq!(market.accumulated_swap_rate_of_position(&long), Ok(Fixed128::from_natural(20)));
    assert_eq!(market.accumulated_swap_rate_of_position(&short), Ok(Fixed128::from_natural(-20)));
    // a pair without an index has accumulated nothing
    long.pair = EUR_JPY;
    assert_eq!(market.accumulated_swap_rate_of_position(&long), Ok(Fixed128::from_natural(-10)));
}

#[test]
fn accrued_swap_that_cannot_be_held_is_out_of_bound() {
    let mut market = Market::new();
    market.accumulated_swap_rates.insert(EUR_USD, Fixed128::max_value());
    let mut long = position(EUR_USD, Leverage::LongTen, 1_000, -1_200);
    long.open_accumulated_swap_rate = Fixed128::from_parts(-1);
    assert_eq!(market.accumulated_swap_rate_of_position(&long), Err(Error::NumOutOfBound));
    long.open_accumulated_swap_rate = Fixed128::zero();
    assert_eq!(market.accumulated_swap_rate_of_position(&long), Err(Error::NumOutOfBound));
    long.leveraged_held = Fixed128::from_natural(1);
    assert_eq!(market.accumulated_swap_rate_of_position(&long), Ok(Fixed128::max_value()));
}

#[test]
fn sums_over_positions_stop_at_the_first_failure() {
    let mut market = Market::new();
    market.prices.insert(CurrencyId::FEUR, Price::from_natural(3));
    let good = position(EUR_USD, Leverage::LongTen, 10, -20);
    let unpriced = position(EUR_JPY, Leverage::LongTen, 10, -20);
    let empty = position(EUR_USD, Leverage::LongTen, 0, -20);
    assert_eq!(market.unrealized_pl_of_positions(&vec![]), Ok(Fixed128::zero()));
    assert_eq!(
        market.unrealized_pl_of_positions(&vec![good, good, good]),
        Ok(Fixed128::from_natural(30))
    );
    assert_eq!(
        market.unrealized_pl_of_positions(&vec![good, unpriced, empty]),
        Err(Error::NoPrice)
    );
    assert_eq!(
        market.unrealized_pl_of_positions(&vec![good, empty, unpriced]),
        Err(Error::NumOutOfBound)
    );
    assert_eq!(market.accumulated_swap_rate_of_positions(&vec![]), Ok(Fixed128::zero()));
    assert_eq!(
        market.accumulated_swap_rate_of_positions(&vec![good, unpriced, empty]),
        Ok(Fixed128::zero())
    );
}

#[test]
fn a_partial_sum_that_cannot_be_held_fails_the_sum() {
    let mut market = Market::new();
    market.accumulated_swap_rates.insert(EUR_USD, Fixed128::max_value());
    let mut up = position(EUR_USD, Leverage::LongTen, 1, -1);
    up.open_accumulated_swap_rate = Fixed128::zero();
    let mut down = position(EUR_USD, Leverage::ShortTen, -1, 1);
    down.open_accumulated_swap_rate = Fixed128::zero();
    assert_eq!(
        market.accumulated_swap_rate_of_positions(&vec![up, down, up]),
        Ok(Fixed128::max_value())
    );
    // the same terms in another order leave the range on the way
    assert_eq!(
        market.accumulated_swap_rate_of_positions(&vec![up, up, down]),
        Err(Error::NumOutOfBound)
    );
}

#[test]
fn leverages_have_a_direction_and_a_multiple() {
    assert!(Leverage::LongTwo.is_long());
    assert!(!Leverage::LongTwo.is_short());
    assert!(Leverage::ShortFifty.is_short());
    assert!(!Leverage::ShortFifty.is_long());
    let all = [
        (Leverage::LongTwo, Leverage::ShortTwo, 2),
        (Leverage::LongThree, Leverage::ShortThree, 3),
        (Leverage::LongFive, Leverage::ShortFive, 5),
        (Leverage::LongTen, Leverage::ShortTen, 10),
        (Leverage::LongTwenty, Leverage::ShortTwenty, 20),
        (Leverage::LongThirty, Leverage::ShortThirty, 30),
        (Leverage::LongFifty, Leverage::ShortFifty, 50),
    ];
    for (long, short, multiple) in all {
        assert!(long.is_long() && short.is_short());
        assert_eq!(long.multiplier(), multiple);
        assert_eq!(short.multiplier(), multiple);
    }
}
