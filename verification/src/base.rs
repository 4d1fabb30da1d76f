//! Order-level vocabulary: sides, order types, statuses, price-event kinds,
//! and the nominal identifier types for trades and orders.

use crate::ids::Id;
use vstd::prelude::*;

verus! {

/// Identifier of one trade.  Shares the token representation with the other
/// identifier namespaces but is a distinct nominal type, so the namespaces
/// cannot be interchanged.
#[derive(Debug)]
pub struct TradeId(pub Id);

impl View for TradeId {
    type V = Seq<char>;

    closed spec fn view(&self) -> Seq<char> {
        self.0@
    }
}

impl TradeId {
    pub fn new() -> (r: Self)
        ensures
            r@.len() == 21,
    {
        TradeId(Id::new())
    }
}

impl Clone for TradeId {
    fn clone(&self) -> (r: Self)
        ensures
            r == *self,
    {
        TradeId(self.0.clone())
    }
}

/// Identifier of one order.
#[derive(Debug)]
pub struct OrderId(pub Id);

impl View for OrderId {
    type V = Seq<char>;

    closed spec fn view(&self) -> Seq<char> {
        self.0@
    }
}

impl OrderId {
    pub fn new() -> (r: Self)
        ensures
            r@.len() == 21,
    {
        OrderId(Id::new())
    }
}

impl Clone for OrderId {
    fn clone(&self) -> (r: Self)
        ensures
            r == *self,
    {
        OrderId(self.0.clone())
    }
}

/// Side of an order.
#[derive(Debug, Clone, Copy, PartialEq, Eq, Structural)]
pub enum OrderSide {
    Buy,
    Sell,
}

impl Default for OrderSide {
    fn default() -> (r: Self)
        ensures
            r == OrderSide::Buy,
    {
        OrderSide::Buy
    }
}

/// Kind of an order.  A market order is assumed to fill immediately upon
/// submission; the other kinds wait for their entry price to trigger.
#[derive(Debug, Clone, Copy, PartialEq, Eq, Structural)]
pub enum OrderType {
    Market,
    Limit,
    Stop,
    StopLimit,
}

impl Default for OrderType {
    fn default() -> (r: Self)
        ensures
            r == OrderType::Market,
    {
        OrderType::Market
    }
}

/// Execution status of an order at the broker.
#[derive(Debug, Clone, Copy, PartialEq, Eq, Structural)]
pub enum OrderStatus {
    Pending,
    Filled,
    Canceled,
    PartiallyFilled,
}

/// Semantic kind of a price event.
#[derive(Debug, Clone, Copy, PartialEq, Eq, Structural)]
pub enum PriceType {
    Trigger,
    Entry,
    Stoploss,
    Target,
    MoveSlToEntry,
    Close,
}

} // verus!
