//! Carrying out commands.

pub mod executor;
