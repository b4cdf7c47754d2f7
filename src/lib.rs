//! Verified decision core of a bond-token arbitrage bot: fixed-point amount
//! arithmetic, the outbound request limiter, the trade-size search, strategy
//! selection, and bundle assembly and status handling.

pub mod math;
pub mod rate_limiter;
pub mod etherfuse;
pub mod market_data;
pub mod strategy;
pub mod trading_engine;
pub mod jito;
pub mod jupiter;
pub mod constants;
