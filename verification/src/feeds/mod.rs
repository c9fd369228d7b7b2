//! What the feeds deliver.

pub mod binance;
pub mod market_ws;
pub mod polymarket_ws;
pub mod rtds;
pub mod user_ws;
