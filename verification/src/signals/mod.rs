//! Signals from the price feeds.

pub mod features;
pub mod signal_engine;
