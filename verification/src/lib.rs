//! Trading rules for short binary "Up or Down" markets.

use vstd::prelude::*;

pub mod binance_l2;
pub mod book;
pub mod bots;
pub mod btc_mint;
pub mod clock;
pub mod config_v2;
pub mod execution;
pub mod execution_v2;
pub mod extended;
pub mod feed_state;
pub mod feeds;
pub mod fixed;
pub mod inventory;
pub mod json;
pub mod ladder;
pub mod leadlag_lab;
pub mod lockprofit_xrp;
pub mod logging;
pub mod market;
pub mod market_ws;
pub mod portfolio;
pub mod random;
pub mod rtds;
pub mod signals;
pub mod sim;
pub mod state;
pub mod strategy;
pub mod strategy_v2;
pub mod telemetry;
pub mod text;
pub mod types;
pub mod types_v2;
pub mod user_ws;
pub mod vidarx;
pub mod vidarx_btc15;
pub mod vidarx_xrp;

verus! {

} // verus!
