//! A strategy skeleton: it validates its configuration, follows the market
//! and its orders, and logs what it sees. Its trading rule is left open.

pub mod config;
pub mod laws;
pub mod state;
pub mod strategy;
