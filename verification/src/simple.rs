//! The buy-low, sell-high strategy: buy at one price, sell at a higher one,
//! and start over.

pub mod config;
pub mod laws;
pub mod state;
pub mod strategy;
