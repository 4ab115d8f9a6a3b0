//! Historical price bars for a ticker symbol: the request that asks a
//! chart endpoint for them, and the rows that its answer holds.
//!
//! The library decides everything but the transfer itself. It resolves the
//! two date bounds, validates the interval code against the span of days,
//! writes the request URL, and turns the decoded answer into price bars.

pub mod text;
pub mod interval;
pub mod error;
pub mod calendar;
pub mod bars;
pub mod request;
