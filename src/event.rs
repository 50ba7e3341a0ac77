//! Events that reach the accounting engine: market bars and fills.
use crate::fixed::{fits, Fixed};
use uuid::Uuid;
use vstd::prelude::*;

verus! {

/// A point in time, in microseconds since the Unix epoch (UTC).
#[derive(Clone, Copy, Debug, PartialEq, Eq, Structural, Hash)]
pub struct Timestamp {
    pub micros: i64,
}

/// Amount of one kind of fee.
pub type FeeAmount = Fixed;

/// Intent of a signal, carried by the fill that executed it.
#[derive(Clone, Copy, Debug, PartialEq, Eq, Structural, Hash)]
pub enum Decision {
    Long,
    CloseLong,
    Short,
    CloseShort,
}

impl Decision {
    pub open spec fn spec_is_entry(self) -> bool {
        self is Long || self is Short
    }

    /// Whether the decision opens a position.
    pub fn is_entry(&self) -> (r: bool)
        ensures
            r == self.spec_is_entry(),
    {
        matches!(self, Decision::Long | Decision::Short)
    }
}

/// The fees that one fill incurred, item by item.
#[derive(Clone, Copy, Debug, PartialEq, Eq, Structural)]
pub struct Fees {
    pub exchange: FeeAmount,
    pub slippage: FeeAmount,
    pub network: FeeAmount,
}

impl Fees {
    /// Sum of every fee item.
    pub open spec fn total(self) -> int {
        self.exchange@ + self.slippage@ + self.network@
    }

    /// Sum of every fee item.
    pub fn calculate_total_fees(&self) -> (r: FeeAmount)
        requires
            fits(self.total()),
        ensures
            r@ == self.total(),
    {
        let sum: i128 = self.exchange.raw as i128 + self.slippage.raw as i128
            + self.network.raw as i128;
        Fixed { raw: sum as i64 }
    }

    pub open spec fn is_zero(self) -> bool {
        self.exchange@ == 0 && self.slippage@ == 0 && self.network@ == 0
    }
}

impl Default for Fees {
    fn default() -> (r: Fees)
        ensures
            r.is_zero(),
    {
        Fees { exchange: Fixed::zero(), slippage: Fixed::zero(), network: Fixed::zero() }
    }
}

/// Market data that prompted the signal behind a fill.
#[derive(Clone, Copy, Debug, PartialEq, Eq, Structural)]
pub struct MarketMeta {
    /// Close price of the bar that prompted the signal.
    pub close: Fixed,
    /// Time of that bar.
    pub timestamp: Timestamp,
}

/// Report of an executed order.
#[derive(Clone, Debug)]
pub struct FillEvent {
    /// Identifier shared by the market event, signal, order and this fill.
    pub trace_id: Uuid,
    /// Time of the fill.
    pub timestamp: Timestamp,
    pub exchange: String,
    pub symbol: String,
    pub market_meta: MarketMeta,
    pub decision: Decision,
    /// Signed number of contracts: positive to buy, negative to sell.
    pub quantity: Fixed,
    /// `|quantity| * price`, fees excluded.
    pub fill_value_gross: Fixed,
    pub fees: Fees,
}

/// One bar of market data.
#[derive(Clone, Copy, Debug, PartialEq, Eq, Structural)]
pub struct Bar {
    pub timestamp: Timestamp,
    pub open: Fixed,
    pub high: Fixed,
    pub low: Fixed,
    pub close: Fixed,
    pub volume: Fixed,
}

/// New market data for one symbol.
#[derive(Clone, Debug)]
pub struct MarketEvent {
    pub trace_id: Uuid,
    pub timestamp: Timestamp,
    pub exchange: String,
    pub symbol: String,
    pub bar: Bar,
}

} // verus!
