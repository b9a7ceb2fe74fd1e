//! The decision core of a small exchange-rate exporter: configuration,
//! the cached rate and the fetch cycle's bookkeeping, and the text of the
//! metrics endpoint. Everything here works on plain values; sockets, timers
//! and signals belong to the program around it.

pub mod cache;
pub mod config;
pub mod decimal;
pub mod fetcher;
pub mod metrics;
pub mod rate;
