//! Logs.

pub mod trade_log;
