//! Process-wide settings.
use crate::strategy::SearchConfig;
use vstd::prelude::*;

verus! {

pub const USDC_MINT: &'static str = "EPjFWdd5AufqSSqeM2qN1xzybapC8G4wEGGkZwyTDt1v";

pub const USDC_DECIMALS: u8 = 6;

pub const STABLEBOND_DECIMALS: u8 = 6;

/// Smallest trade worth making: 1 USDC.
pub const MIN_USDC_AMOUNT: u64 = 1_000_000;

/// Smallest net profit worth acting on: 1 USDC.
pub const MIN_PROFIT_USDC_AMOUNT: u64 = 1_000_000;

/// Per-trade ceiling on the wallet's USDC: 1000 USDC.
pub const MAX_USDC_AMOUNT_PER_TRADE: u64 = 1_000_000_000;

/// Per-trade ceiling on the wallet's bond tokens.
pub const MAX_STABLEBOND_AMOUNT_PER_TRADE: u64 = 20_000_000_000;

/// Smallest probed fraction of the feasible size: 1%.
pub const MIN_TRADE_FRACTION: u64 = 10_000;

/// Largest probed fraction of the feasible size: all of it.
pub const MAX_TRADE_FRACTION: u64 = 1_000_000;

pub const INITIAL_POINTS: u64 = 8;

pub const MAX_RETRIES: u32 = 3;

pub const RETRY_DELAY_MS: u64 = 60_000;

pub const SLIPPAGE_BIPS: u64 = 20;

/// Bundle status is polled every second for at most thirty seconds.
pub const BUNDLE_POLL_INTERVAL_MS: u64 = 1_000;

pub const BUNDLE_TIMEOUT_MS: u64 = 30_000;

/// The search settings made of the constants above.
pub fn default_search_config() -> (r: SearchConfig)
    ensures
        r.spec_is_valid(),
        r == (SearchConfig {
            min_trade_amount: MIN_USDC_AMOUNT,
            min_profit_amount: MIN_PROFIT_USDC_AMOUNT,
            points: INITIAL_POINTS,
            min_fraction: MIN_TRADE_FRACTION,
            max_fraction: MAX_TRADE_FRACTION,
            max_retries: MAX_RETRIES,
            retry_delay_ms: RETRY_DELAY_MS,
            slippage_bps: SLIPPAGE_BIPS,
        }),
{
    SearchConfig {
        min_trade_amount: MIN_USDC_AMOUNT,
        min_profit_amount: MIN_PROFIT_USDC_AMOUNT,
        points: INITIAL_POINTS,
        min_fraction: MIN_TRADE_FRACTION,
        max_fraction: MAX_TRADE_FRACTION,
        max_retries: MAX_RETRIES,
        retry_delay_ms: RETRY_DELAY_MS,
        slippage_bps: SLIPPAGE_BIPS,
    }
}

} // verus!
