//! Orders and their outcomes.

use vstd::prelude::*;

verus! {

/// An order to place.
#[derive(Clone, Debug, PartialEq, Eq)]
pub struct Order {
    pub symbol: String,
    pub quantity: u32,
    pub order_type: OrderType,
    /// "gtc", "ioc", etc.
    pub time_in_force: String,
}

/// Response after placing an order
#[derive(Clone, Debug, PartialEq, Eq)]
pub struct OrderResponse {
    pub id: String,
    pub status: OrderStatus,
}

#[derive(Clone, Copy, Debug, PartialEq, Eq, Structural)]
pub enum OrderType {
    Buy,
    Sell,
}

#[derive(Clone, Copy, Debug, PartialEq, Eq, Structural)]
pub enum OrderStatus {
    Filled,
    Pending,
    Cancelled,
}

} // verus!
