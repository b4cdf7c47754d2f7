use stablebond_arb::constants::{BUNDLE_POLL_INTERVAL_MS, BUNDLE_TIMEOUT_MS};
use stablebond_arb::jito::{
    bundle_transactions, parse_bundle_status, strategy_transactions, BundlePoll, BundleStatusEnum,
    PollStep,
};
use stablebond_arb::jupiter::{JupiterClient, RoutePlan, SwapInfo};
use stablebond_arb::strategy::{StrategyEnum, StrategyError};
use stablebond_arb::trading_engine::{select_best, StrategyResult, TradingEngine};

fn ok(profit: i128) -> Result<StrategyResult<&'static str>, StrategyError> {
    Ok(StrategyResult { profit, txs: vec!["tx"] })
}

#[test]
fn engine_keeps_strategies_in_order() {
    let mut engine = TradingEngine::new();
    engine
        .add_strategy(StrategyEnum::BuyOnEtherfuseSellOnJupiter)
        .add_strategy(StrategyEnum::BuyOnJupiterSellOnEtherfuse);
    assert_eq!(
        engine.strategies(),
        &vec![StrategyEnum::BuyOnEtherfuseSellOnJupiter, StrategyEnum::BuyOnJupiterSellOnEtherfuse]
    );
    assert!(TradingEngine::new().strategies().is_empty());
}

#[test]
fn best_result_is_first_strictly_highest_success() {
    let results = vec![Err(StrategyError::NoHoldings), ok(5), ok(7), ok(7), Err(StrategyError::NoProfitableTrade)];
    assert_eq!(select_best(&results), Some(2));
    let losses = vec![ok(-3), ok(-1)];
    assert_eq!(select_best(&losses), Some(1));
}

#[test]
fn no_best_result_when_every_strategy_failed() {
    let results: Vec<Result<StrategyResult<&'static str>, StrategyError>> =
        vec![Err(StrategyError::NoLiquidity), Err(StrategyError::BelowThreshold)];
    assert_eq!(select_best(&results), None);
    let none: Vec<Result<StrategyResult<&'static str>, StrategyError>> = Vec::new();
    assert_eq!(select_best(&none), None);
}

#[test]
fn oracle_refresh_comes_first_then_router_then_issuer() {
    assert_eq!(strategy_transactions(Some("oracle"), "router", "issuer"), vec!["oracle", "router", "issuer"]);
    assert_eq!(strategy_transactions(None, "router", "issuer"), vec!["router", "issuer"]);
}

#[test]
fn tip_is_appended_last() {
    assert_eq!(bundle_transactions(vec!["a", "b", "c"], "tip"), vec!["a", "b", "c", "tip"]);
    assert_eq!(bundle_transactions(Vec::new(), "tip"), vec!["tip"]);
}

#[test]
fn status_words_are_read() {
    assert_eq!(parse_bundle_status(&"Landed".to_string()), BundleStatusEnum::Landed);
    assert_eq!(parse_bundle_status(&"Failed".to_string()), BundleStatusEnum::Failed);
    assert_eq!(parse_bundle_status(&"Pending".to_string()), BundleStatusEnum::Pending);
    assert_eq!(parse_bundle_status(&"Invalid".to_string()), BundleStatusEnum::Invalid);
    assert_eq!(parse_bundle_status(&"landed".to_string()), BundleStatusEnum::Unknown);
    assert_eq!(parse_bundle_status(&String::new()), BundleStatusEnum::Unknown);
}

/// Polls the given replies one second apart; returns the outcome and the
/// number of polls made.
fn poll(replies: &[Option<BundleStatusEnum>]) -> (BundleStatusEnum, usize) {
    let p = BundlePoll { interval_ms: BUNDLE_POLL_INTERVAL_MS, timeout_ms: BUNDLE_TIMEOUT_MS };
    let mut elapsed: u64 = 0;
    let mut polls = 0;
    loop {
        let reply = replies[polls.min(replies.len() - 1)];
        polls += 1;
        match p.decide(reply, elapsed) {
            PollStep::Done(status) => return (status, polls),
            PollStep::Wait(ms) => elapsed += ms,
        }
    }
}

#[test]
fn pending_pending_landed_stops_at_landed() {
    let replies = [Some(BundleStatusEnum::Pending), Some(BundleStatusEnum::Pending), Some(BundleStatusEnum::Landed)];
    assert_eq!(poll(&replies), (BundleStatusEnum::Landed, 3));
}

#[test]
fn failed_and_unknown_end_polling() {
    assert_eq!(poll(&[None, Some(BundleStatusEnum::Failed)]), (BundleStatusEnum::Failed, 2));
    assert_eq!(poll(&[Some(BundleStatusEnum::Unknown)]), (BundleStatusEnum::Unknown, 1));
}

#[test]
fn endless_pending_times_out() {
    assert_eq!(poll(&[Some(BundleStatusEnum::Invalid)]), (BundleStatusEnum::Timeout, 31));
    let p = BundlePoll { interval_ms: 1_000, timeout_ms: 30_000 };
    assert_eq!(p.decide(None, 29_999), PollStep::Wait(1_000));
    assert_eq!(p.decide(Some(BundleStatusEnum::Landed), 45_000), PollStep::Done(BundleStatusEnum::Landed));
}

#[test]
fn jupiter_client_and_route_parts() {
    let client = JupiterClient::new("https://quote.example/v6".to_string(), "/keys/id.json".to_string());
    assert_eq!(client.jupiter_quote_url, "https://quote.example/v6");
    assert_eq!(client.keypair_filepath, "/keys/id.json");
    let hop = RoutePlan {
        percent: 100,
        swap_info: SwapInfo {
            amm_key: "amm".to_string(),
            label: "pool".to_string(),
            input_mint: "in".to_string(),
            output_mint: "out".to_string(),
            in_amount: 10,
            out_amount: "9".to_string(),
            fee_amount: 1,
            fee_mint: "in".to_string(),
        },
    };
    assert_eq!(hop.percent, 100);
    assert_eq!(hop.swap_info.in_amount, 10);
}
