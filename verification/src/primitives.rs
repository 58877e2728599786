//! The records that the engine values: currencies, trading pairs, leverages, risk
//! thresholds and positions.

use vstd::prelude::*;
use crate::fixed::Fixed128;
use crate::permill::Permill;

verus! {

/// Identifies a trader.
pub type AccountId = u64;

/// Identifies a liquidity pool.
pub type LiquidityPoolId = u32;

/// Identifies a position.
pub type PositionId = u64;

/// An amount of the reference currency, in parts of `10^-18`.
pub type Balance = u128;

/// Why a computation or a safety gate did not succeed.
#[derive(Clone, Copy, Debug, PartialEq, Eq, Structural)]
pub enum Error {
    /// A price that the computation needs is not available.
    NoPrice,
    /// A fixed-point operation left the range of values that can be held.
    NumOutOfBound,
    /// The trader would be unsafe with the new position.
    TraderWouldBeUnsafe,
    /// The trader is unsafe as it stands.
    UnsafeTrader,
    /// The pool would be unsafe with the new position.
    PoolWouldBeUnsafe,
    /// The pool is unsafe as it stands.
    UnsafePool,
}

/// A token or a synthetic fiat currency.
#[derive(Clone, Copy, Debug, PartialEq, Eq, Structural)]
pub enum CurrencyId {
    LAMI,
    AUSD,
    FEUR,
    FJPY,
    FBTC,
    FETH,
}

impl CurrencyId {
    /// The currency in which balances, margins and valuations are expressed.
    pub open spec fn reference() -> CurrencyId {
        CurrencyId::AUSD
    }

    pub open spec fn spec_is_reference(self) -> bool {
        self == CurrencyId::reference()
    }

    /// Whether this is the reference currency.
    #[verifier::when_used_as_spec(spec_is_reference)]
    pub fn is_reference(self) -> (r: bool)
        ensures
            r == self.spec_is_reference(),
    {
        self == CurrencyId::AUSD
    }
}

/// An ordered pair of currencies. Its price is the amount of `quote` that one unit
/// of `base` is worth.
#[derive(Clone, Copy, Debug, PartialEq, Eq, Structural)]
pub struct TradingPair {
    pub base: CurrencyId,
    pub quote: CurrencyId,
}

impl TradingPair {
    pub open spec fn spec_inverse(self) -> TradingPair {
        TradingPair { base: self.quote, quote: self.base }
    }

    /// The pair with base and quote exchanged.
    #[verifier::when_used_as_spec(spec_inverse)]
    pub fn inverse(self) -> (r: TradingPair)
        ensures
            r == self.spec_inverse(),
            r.spec_inverse() == self,
    {
        TradingPair { base: self.quote, quote: self.base }
    }
}

/// The direction of a position and the multiple of the margin that it controls.
#[derive(Clone, Copy, Debug, PartialEq, Eq, Structural)]
pub enum Leverage {
    LongTwo,
    LongThree,
    LongFive,
    LongTen,
    LongTwenty,
    LongThirty,
    LongFifty,
    ShortTwo,
    ShortThree,
    ShortFive,
    ShortTen,
    ShortTwenty,
    ShortThirty,
    ShortFifty,
}

impl Leverage {
    pub open spec fn spec_is_long(self) -> bool {
        match self {
            Leverage::LongTwo
            | Leverage::LongThree
            | Leverage::LongFive
            | Leverage::LongTen
            | Leverage::LongTwenty
            | Leverage::LongThirty
            | Leverage::LongFifty => true,
            _ => false,
        }
    }

    pub open spec fn spec_multiplier(self) -> u8 {
        match self {
            Leverage::LongTwo | Leverage::ShortTwo => 2,
            Leverage::LongThree | Leverage::ShortThree => 3,
            Leverage::LongFive | Leverage::ShortFive => 5,
            Leverage::LongTen | Leverage::ShortTen => 10,
            Leverage::LongTwenty | Leverage::ShortTwenty => 20,
            Leverage::LongThirty | Leverage::ShortThirty => 30,
            Leverage::LongFifty | Leverage::ShortFifty => 50,
        }
    }

    /// Whether the position gains when the price rises.
    #[verifier::when_used_as_spec(spec_is_long)]
    pub fn is_long(self) -> (r: bool)
        ensures
            r == self.spec_is_long(),
    {
        match self {
            Leverage::LongTwo
            | Leverage::LongThree
            | Leverage::LongFive
            | Leverage::LongTen
            | Leverage::LongTwenty
            | Leverage::LongThirty
            | Leverage::LongFifty => true,
            _ => false,
        }
    }

    /// Whether the position gains when the price falls.
    pub fn is_short(self) -> (r: bool)
        ensures
            r == !self.spec_is_long(),
    {
        !self.is_long()
    }

    /// The multiple of the margin that the position controls.
    #[verifier::when_used_as_spec(spec_multiplier)]
    pub fn multiplier(self) -> (r: u8)
        ensures
            r == self.spec_multiplier(),
    {
        match self {
            Leverage::LongTwo | Leverage::ShortTwo => 2,
            Leverage::LongThree | Leverage::ShortThree => 3,
            Leverage::LongFive | Leverage::ShortFive => 5,
            Leverage::LongTen | Leverage::ShortTen => 10,
            Leverage::LongTwenty | Leverage::ShortTwenty => 20,
            Leverage::LongThirty | Leverage::ShortThirty => 30,
            Leverage::LongFifty | Leverage::ShortFifty => 50,
        }
    }
}

/// The two levels of a risk ratio at which an account or a pool is acted upon.
/// Nothing here orders the two: `stop_out` is expected, not required, to be at
/// most `margin_call`.
#[derive(Clone, Copy, Debug, PartialEq, Eq, Structural)]
pub struct RiskThreshold {
    pub margin_call: Permill,
    pub stop_out: Permill,
}

impl RiskThreshold {
    /// Whether the stop out level is at most the margin call level, as a
    /// configuration should have it.
    pub fn is_ordered(&self) -> (r: bool)
        ensures
            r == (self.stop_out@ <= self.margin_call@),
    {
        self.stop_out.deconstruct() <= self.margin_call.deconstruct()
    }
}

/// An open leveraged position.
#[derive(Clone, Copy, Debug, PartialEq, Eq, Structural)]
pub struct Position {
    /// The trader who opened the position.
    pub owner: AccountId,
    /// The pool that takes the other side.
    pub pool: LiquidityPoolId,
    pub pair: TradingPair,
    pub leverage: Leverage,
    /// The quantity of the base currency that the position controls: positive for a
    /// long position, negative for a short one.
    pub leveraged_held: Fixed128,
    /// The cost basis in the quote currency when the position was opened.
    pub leveraged_debits: Fixed128,
    /// `leveraged_held` in the reference currency when the position was opened.
    pub leveraged_held_in_reference_currency: Fixed128,
    /// The pair's accumulated swap rate when the position was opened.
    pub open_accumulated_swap_rate: Fixed128,
    /// The margin locked for the position.
    pub open_margin: Balance,
}

} // verus!
