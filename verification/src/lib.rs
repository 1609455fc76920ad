//! Exports the state of a Monero daemon as gauges in the Prometheus text
//! format: the gauge model and its renderer, the per-span block statistics,
//! the export cycle and the published snapshot.

pub mod client;
pub mod config;
pub mod decimal;
pub mod metrics;
pub mod prometheus;
