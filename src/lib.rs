//! Accounting core of a constant-product token exchange: pricing, liquidity,
//! swaps, resting limit orders, single-hop routing and flash borrowing.
//!
//! Every operation is a function from the current records to either an error
//! (with the records left as they were) or the new records together with the
//! token transfers to perform and the event to publish. Moving tokens, reading
//! the clock and publishing events are left to the surrounding runtime.
pub mod error;
pub mod exchange;
pub mod orders;
pub mod pricing;
pub mod state;
