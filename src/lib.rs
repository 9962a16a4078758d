//! Polls a chart-data quote endpoint for a fixed set of instruments.
//!
//! The library holds the logic: which instruments are polled and where,
//! how a decoded chart payload yields a price, how failures are classified
//! and worded, and the order of fetches, reports and pauses in the poll loop.
//! Network, JSON decoding, console and file output are left to the caller.
pub mod instrument;
pub mod poll;
pub mod quote;

pub use instrument::Instrument;
pub use poll::{Command, Poller, Report, POLL_INTERVAL_SECS};
pub use quote::{extract_price, Chart, ChartResult, FetchError, Meta, Price, QuoteResponse};
