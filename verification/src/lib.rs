//! Rate-limit weight telemetry: reconstructs a market-data provider's
//! consumed rate-limit "weight" from intercepted log lines.
//!
//! A label line names the endpoint about to be called; the structured
//! payload line that follows carries the usage headers. The tracker
//! correlates the two, extracts the usage value, decides between a
//! window reset and incremental usage, and emits the record that the
//! caller mirrors into an external store.

pub mod json;
pub mod laws;
pub mod market;
pub mod parse;
pub mod tracker;
