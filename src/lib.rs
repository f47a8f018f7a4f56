//! A small telemetry collector: one sampling loop appends observations of a
//! block height and a price to a durable log, and a read endpoint serves the
//! most recent of them newest-first.
//!
//! This crate holds the rules of that system: which observations may be
//! stored, how stored rows become samples, how a history reply is shaped, and
//! the collector's decisions from one event to the next.

pub mod collector;
pub mod config;
pub mod history;
pub mod sample;

pub use collector::{Action, Collector, Event, FetchError, Outcome, Phase};
pub use config::{HISTORY_LIMIT, LISTEN_PORT, SAMPLE_INTERVAL_SECONDS};
pub use history::{recent, History, HistoryError, StoreError};
pub use sample::{
    is_valid_price_bits, RowError, Sample, StoredRow, MAX_FINITE_PRICE_BITS, NEGATIVE_ZERO_BITS,
};
