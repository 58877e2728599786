//! Laws of the engine, proved from the definitions that its contracts are stated
//! over.

use vstd::prelude::*;
use crate::fixed::{fits_magnitude, product_parts, quotient_parts, Fixed128, ACCURACY};
use crate::gate::at_or_under;
use crate::market::Market;
use crate::primitives::{
    AccountId, Balance, CurrencyId, Error, LiquidityPoolId, Position, TradingPair,
};
use crate::protocol::MarginProtocol;
use crate::trader::held_in_reference_currency;
use crate::valuation::{checked_total, spec_open_price};
use crate::wide::{abs, lemma_product_magnitude, lemma_truncating_div_negated, truncating_div};

verus! {

/// Whether the two positions are a long position and the short position that is
/// its economic mirror: on the same pair, of the same size with the opposite sign,
/// and with a cost basis of the same magnitude.
pub open spec fn mirrored(long: Position, short: Position) -> bool {
    &&& long.leverage.is_long()
    &&& !short.leverage.is_long()
    &&& short.pair == long.pair
    &&& short.leveraged_held@ == -long.leveraged_held@
    &&& abs(short.leveraged_debits@) == abs(long.leveraged_debits@)
}

/// The magnitude of a quotient rounded towards zero is the quotient of the
/// magnitudes.
proof fn lemma_truncating_div_magnitude(n: int, d: int)
    requires
        d != 0,
    ensures
        abs(truncating_div(n, d)) == abs(n) / abs(d),
{
    assert(abs(n) / abs(d) >= 0) by (nonlinear_arith)
        requires
            abs(n) >= 0,
            abs(d) > 0,
    ;
}

/// Negating a factor negates the product of two fixed-point numbers.
proof fn lemma_product_parts_negated(a: int, b: int)
    ensures
        product_parts(-a, b) == -product_parts(a, b),
{
    assert((-a) * b == -(a * b)) by (nonlinear_arith);
    lemma_truncating_div_negated(a * b, ACCURACY as int);
}

/// Mirrored positions were opened at the same price.
proof fn lemma_mirrored_open_price(long: Position, short: Position)
    requires
        mirrored(long, short),
    ensures
        spec_open_price(short) == spec_open_price(long),
{
    let h = long.leveraged_held@;
    if h != 0 {
        let dl = long.leveraged_debits@;
        let ds = short.leveraged_debits@;
        lemma_product_magnitude(dl, ACCURACY as int);
        lemma_product_magnitude(ds, ACCURACY as int);
        lemma_truncating_div_magnitude(dl * ACCURACY, h);
        lemma_truncating_div_magnitude(ds * ACCURACY, -h);
        assert(abs(quotient_parts(ds, -h)) == abs(quotient_parts(dl, h)));
    }
}

/// Without a spread, the unrealized profit and loss of a long position and of the
/// short position that mirrors it are opposite: where one can be computed so can
/// the other, and they are of equal magnitude and opposite sign; where one cannot,
/// the other fails with the same error.
pub proof fn law_unrealized_pl_of_mirrored_positions(
    market: Market,
    long: Position,
    short: Position,
)
    requires
        mirrored(long, short),
        market.spec_bid_spread(long.pair)@ == 0,
        market.spec_ask_spread(long.pair)@ == 0,
    ensures
        match (
            market.spec_unrealized_pl_of_position(long),
            market.spec_unrealized_pl_of_position(short),
        ) {
            (Ok(gain), Ok(loss)) => loss@ == -gain@,
            (Err(e), Err(f)) => e == f,
            _ => false,
        },
{
    lemma_mirrored_open_price(long, short);
    assert(market.spec_bid_price(long.pair) == market.spec_ask_price(long.pair));
    assert(market.spec_closing_price(short.pair, short.leverage) == market.spec_closing_price(
        long.pair,
        long.leverage,
    ));
    match (spec_open_price(long), market.spec_closing_price(long.pair, long.leverage)) {
        (Some(open), Ok(close)) => {
            match close.spec_checked_sub(open) {
                Some(delta) => {
                    lemma_product_parts_negated(long.leveraged_held@, delta@);
                    match long.leveraged_held.spec_checked_mul(delta) {
                        Some(gain) => {
                            let loss = short.leveraged_held.spec_checked_mul(delta).unwrap();
                            assert(loss@ == -gain@);
                            lemma_value_in_reference_currency_negated(
                                market,
                                long.pair.quote,
                                gain,
                                loss,
                            );
                        },
                        None => {},
                    }
                },
                None => {},
            }
        },
        _ => {},
    }
}

/// Bringing the opposite amount into the reference currency gives the opposite
/// value.
proof fn lemma_value_in_reference_currency_negated(
    market: Market,
    currency: CurrencyId,
    amount: Fixed128,
    opposite: Fixed128,
)
    requires
        opposite@ == -amount@,
    ensures
        match (
            market.spec_value_in_reference_currency(currency, amount),
            market.spec_value_in_reference_currency(currency, opposite),
        ) {
            (Ok(value), Ok(other)) => other@ == -value@,
            (Err(e), Err(f)) => e == f,
            _ => false,
        },
{
    if !currency.is_reference() {
        match market.spec_price(TradingPair { base: currency, quote: CurrencyId::reference() }) {
            Ok(price) => {
                match price.spec_to_fixed() {
                    Some(rate) => {
                        lemma_product_parts_negated(amount@, rate@);
                        assert(fits_magnitude(product_parts(opposite@, rate@)) == fits_magnitude(
                            product_parts(amount@, rate@),
                        ));
                    },
                    None => {},
                }
            },
            Err(_) => {},
        }
    }
}

/// A trader without positions has the largest margin level that can be held,
/// whatever the balance.
pub proof fn law_margin_level_without_exposure(protocol: MarginProtocol, who: AccountId)
    requires
        protocol.ledger.spec_positions_of_trader(who).len() == 0,
    ensures
        protocol.spec_margin_level(who, None) == Ok::<Fixed128, Error>(Fixed128::spec_max_value()),
{
    let positions = protocol.ledger.spec_positions_of_trader(who);
    assert(protocol.market.spec_unrealized_pls(positions).len() == 0);
    assert(protocol.market.spec_accumulated_swap_rates(positions).len() == 0);
    assert(held_in_reference_currency(positions, true).len() == 0);
}

/// An account whose positions add up to no exposure has the largest margin level
/// that can be held, wherever its equity can be computed.
pub proof fn law_margin_level_of_zero_exposure(
    market: Market,
    balance: Balance,
    positions: Seq<Position>,
)
    requires
        market.spec_equity(balance, positions) is Ok,
        checked_total(held_in_reference_currency(positions, true)) == Ok::<Fixed128, Error>(
            Fixed128::spec_zero(),
        ),
    ensures
        market.spec_margin_level(balance, positions) == Ok::<Fixed128, Error>(
            Fixed128::spec_max_value(),
        ),
{
}

/// The free balance is never negative, and it is the balance less the margin held
/// wherever the margin held does not exceed the balance.
pub proof fn law_free_balance(protocol: MarginProtocol, who: AccountId)
    ensures
        protocol.spec_free_balance(who) >= 0,
        protocol.spec_margin_held(who) <= protocol.ledger.spec_balance(who)
            ==> protocol.spec_free_balance(who) == protocol.ledger.spec_balance(who)
            - protocol.spec_margin_held(who),
{
}

/// With a hypothetical position, the safety gate rejects the trader with
/// `TraderWouldBeUnsafe` where the margin level equals the margin call threshold or
/// lies under it, and accepts where it lies above.
pub proof fn law_trader_gate_boundary(
    protocol: MarginProtocol,
    who: AccountId,
    hypothetical: Position,
    level: Fixed128,
)
    requires
        protocol.spec_margin_level(who, Some(hypothetical)) == Ok::<Fixed128, Error>(level),
    ensures
        at_or_under(level, protocol.thresholds.trader.margin_call)
            ==> protocol.spec_ensure_trader_safe(who, Some(hypothetical)) == Err::<(), Error>(
            Error::TraderWouldBeUnsafe,
        ),
        !at_or_under(level, protocol.thresholds.trader.margin_call)
            ==> protocol.spec_ensure_trader_safe(who, Some(hypothetical)) == Ok::<(), Error>(()),
{
}

/// The safety gate rejects the pool where either of its two ratios is at or under its own
/// threshold, whatever the other ratio is.
pub proof fn law_pool_gate_either_ratio(
    protocol: MarginProtocol,
    pool: LiquidityPoolId,
    hypothetical: Option<Position>,
    enp: Fixed128,
    ell: Fixed128,
)
    requires
        protocol.spec_enp_and_ell(pool, hypothetical) == Ok::<(Fixed128, Fixed128), Error>(
            (enp, ell),
        ),
        at_or_under(enp, protocol.thresholds.enp.margin_call) || at_or_under(
            ell,
            protocol.thresholds.ell.margin_call,
        ),
    ensures
        protocol.spec_ensure_pool_safe(pool, hypothetical) == Err::<(), Error>(
            if hypothetical is Some {
                Error::PoolWouldBeUnsafe
            } else {
                Error::UnsafePool
            },
        ),
{
}

} // verus!
