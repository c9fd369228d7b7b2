//! Finding markets.

pub mod discovery;
