//! What the bot holds.

pub mod position_manager;
