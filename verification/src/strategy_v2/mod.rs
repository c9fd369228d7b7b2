//! Entering on signals.

pub mod sniper;
