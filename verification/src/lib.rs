//! Lifecycle core for a single trading order ("Trade") driven by price-level
//! alerts.  The `Trade` state machine owns the order data, the lifecycle
//! state, and the set of currently active alerts, and talks to an external
//! alert engine only through the `PriceAlertHandler` dispatch boundary.

pub mod base;
pub mod commands;
pub mod ids;
pub mod market_data;
pub mod trade;
