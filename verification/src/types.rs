//! Core data types shared across the whole library: trading pairs,
//! chart timeframes, exchange identifiers and order enumerations.

use vstd::prelude::*;

verus! {

/// A fixed-point amount (price, quantity or volume) in minor units.
pub type Decimal = i64;

/// A cryptocurrency trading pair, e.g. base `BTC` against quote `USDT`.
#[derive(Debug)]
pub struct SymbolPair {
    /// Base asset (e.g. `BTC`, `ETH`).
    pub base: String,
    /// Quote asset (e.g. `USDT`, `USD`).
    pub quote: String,
}

impl SymbolPair {
    /// Builds a pair from its two assets, stored exactly as given.
    pub fn new(base: &str, quote: &str) -> (r: SymbolPair)
        ensures
            r.base@ == base@,
            r.quote@ == quote@,
    {
        SymbolPair { base: base.to_owned(), quote: quote.to_owned() }
    }

    /// Standard notation: the two assets joined by a slash, e.g. `BTC/USDT`.
    pub fn to_string(&self) -> (r: String)
        ensures
            r@ == self.base@ + seq!['/'] + self.quote@,
    {
        proof {
            reveal_strlit("/");
        }
        let mut s = self.base.clone();
        s.append("/");
        s.append(self.quote.as_str());
        proof {
            assert(s@ =~= self.base@ + seq!['/'] + self.quote@);
        }
        s
    }
}

impl Clone for SymbolPair {
    fn clone(&self) -> (r: SymbolPair)
        ensures
            r == self,
    {
        SymbolPair { base: self.base.clone(), quote: self.quote.clone() }
    }
}

impl PartialEq for SymbolPair {
    fn eq(&self, other: &SymbolPair) -> (r: bool) {
        self.base == other.base && self.quote == other.quote
    }
}

impl Eq for SymbolPair {}

impl vstd::std_specs::cmp::PartialEqSpecImpl for SymbolPair {
    open spec fn obeys_eq_spec() -> bool {
        true
    }

    open spec fn eq_spec(&self, other: &SymbolPair) -> bool {
        self.base@ == other.base@ && self.quote@ == other.quote@
    }
}

impl SymbolPair {
    /// The mathematical key of a pair: its two asset names.
    pub open spec fn key(&self) -> (Seq<char>, Seq<char>) {
        (self.base@, self.quote@)
    }
}

/// A chart timeframe: the period one candlestick covers.
#[derive(Debug, Clone, Copy, PartialEq, Eq, Hash, Structural)]
pub enum Timeframe {
    Minute1,
    Minute5,
    Minute15,
    Minute30,
    Hour1,
    Hour4,
    Hour12,
    Day1,
    Week1,
    Month1,
}

impl Timeframe {
    /// The timeframe's length in minutes.
    pub open spec fn spec_minutes(&self) -> u32 {
        match self {
            Timeframe::Minute1 => 1,
            Timeframe::Minute5 => 5,
            Timeframe::Minute15 => 15,
            Timeframe::Minute30 => 30,
            Timeframe::Hour1 => 60,
            Timeframe::Hour4 => 240,
            Timeframe::Hour12 => 720,
            Timeframe::Day1 => 1440,
            Timeframe::Week1 => 10080,
            // a month is approximated as thirty days
            Timeframe::Month1 => 43200,
        }
    }

    /// Converts the timeframe to minutes.
    pub fn to_minutes(&self) -> (r: u32)
        ensures
            r == self.spec_minutes(),
    {
        match self {
            Timeframe::Minute1 => 1,
            Timeframe::Minute5 => 5,
            Timeframe::Minute15 => 15,
            Timeframe::Minute30 => 30,
            Timeframe::Hour1 => 60,
            Timeframe::Hour4 => 240,
            Timeframe::Hour12 => 720,
            Timeframe::Day1 => 1440,
            Timeframe::Week1 => 10080,
            Timeframe::Month1 => 43200,
        }
    }
}

/// An exchange identifier, e.g. `binance`.
#[derive(Debug, Clone, PartialEq, Eq, Hash)]
pub struct ExchangeId(pub String);

impl ExchangeId {
    /// Builds an exchange id from its name, stored exactly as given.
    pub fn new(id: &str) -> (r: ExchangeId)
        ensures
            r.0@ == id@,
    {
        ExchangeId(id.to_owned())
    }
}

/// The kind of asset a market trades.
#[derive(Debug, Clone, Copy, PartialEq, Eq, Hash, Structural)]
pub enum AssetType {
    Spot,
    Futures,
    Option,
    Margin,
}

/// The direction of an order.
#[derive(Debug, Clone, Copy, PartialEq, Eq, Hash, Structural)]
pub enum OrderSide {
    Buy,
    Sell,
}

impl OrderSide {
    /// The side's name in lower case.
    pub open spec fn spec_label(&self) -> Seq<char> {
        match self {
            OrderSide::Buy => "buy"@,
            OrderSide::Sell => "sell"@,
        }
    }

    /// Renders the side as text: `buy` or `sell`.
    pub fn to_string(&self) -> (r: String)
        ensures
            r@ == self.spec_label(),
    {
        match self {
            OrderSide::Buy => "buy".to_owned(),
            OrderSide::Sell => "sell".to_owned(),
        }
    }
}

/// The execution style of an order.
#[derive(Debug, Clone, Copy, PartialEq, Eq, Hash, Structural)]
pub enum OrderType {
    Market,
    Limit,
    StopLoss,
    StopLimit,
    TakeProfit,
    TakeProfitLimit,
}

impl OrderType {
    /// The order type's name in snake case.
    pub open spec fn spec_label(&self) -> Seq<char> {
        match self {
            OrderType::Market => "market"@,
            OrderType::Limit => "limit"@,
            OrderType::StopLoss => "stop_loss"@,
            OrderType::StopLimit => "stop_limit"@,
            OrderType::TakeProfit => "take_profit"@,
            OrderType::TakeProfitLimit => "take_profit_limit"@,
        }
    }

    /// Renders the order type as text.
    pub fn to_string(&self) -> (r: String)
        ensures
            r@ == self.spec_label(),
    {
        match self {
            OrderType::Market => "market".to_owned(),
            OrderType::Limit => "limit".to_owned(),
            OrderType::StopLoss => "stop_loss".to_owned(),
            OrderType::StopLimit => "stop_limit".to_owned(),
            OrderType::TakeProfit => "take_profit".to_owned(),
            OrderType::TakeProfitLimit => "take_profit_limit".to_owned(),
        }
    }
}

/// The lifecycle state of an order. An order is *active* while its status
/// is `Created`, `New` or `PartiallyFilled`; the other statuses are
/// terminal.
#[derive(Debug, Clone, Copy, PartialEq, Eq, Hash, Structural)]
pub enum OrderStatus {
    Created,
    New,
    PartiallyFilled,
    Filled,
    Canceled,
    Expired,
    Rejected,
}

/// An order identifier, unique per order.
#[derive(Debug, Clone, Copy, PartialEq, Eq, Hash, Structural)]
pub struct OrderId(pub u128);

impl OrderId {
    /// Draws a fresh random order identifier.
    pub fn new() -> OrderId {
        OrderId(crate::util::fresh_uuid_u128())
    }
}

} // verus!
