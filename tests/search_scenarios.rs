use stablebond_arb::constants::default_search_config;
use stablebond_arb::market_data::MarketData;
use stablebond_arb::math::PRICE_SCALE;
use stablebond_arb::strategy::{
    adjust_amount_for_slippage, issuer_leg_amount, max_trade_amount, net_profit, trade_fraction,
    Candidate, QuoteRequest, SearchConfig, StrategyEnum, StrategyError, TradeSearch,
};

const ONE: u64 = 1_000_000_000;

fn snapshot(price: u64) -> MarketData<()> {
    MarketData {
        etherfuse_price_per_token: price,
        sell_liquidity_usdc_amount: 10_000_000_000,
        purchase_liquidity_stablebond_amount: 10_000_000_000,
        stablebond_holdings_token_amount: 500_000_000,
        usdc_holdings_token_amount: 495_000_000,
        jito_tip: 10_000,
        jito_tip_usdc_amount: 100_000,
        switchboard_update_tx: None,
    }
}

/// Runs a search to the end with `quote` standing for the router; returns the
/// outcome and every request made, retries included.
fn run<F>(
    strategy: StrategyEnum,
    md: &MarketData<()>,
    config: SearchConfig,
    mut quote: F,
) -> (Result<Candidate<u64>, StrategyError>, Vec<QuoteRequest>)
where
    F: FnMut(&QuoteRequest, usize) -> Result<(u64, u64), ()>,
{
    let mut search: TradeSearch<u64> = TradeSearch::new(strategy, md, config).unwrap();
    let mut calls = Vec::new();
    while let Some(req) = search.next_request() {
        let n = calls.len();
        calls.push(req);
        match quote(&req, n) {
            Ok((in_amount, out_amount)) => search.record_quote(in_amount, out_amount, n as u64),
            Err(()) => {
                let _ = search.record_failure();
            }
        }
    }
    (search.finish(), calls)
}

/// A router that sells tokens at `num / den` quote per token and buys them
/// at the same price.
fn router(strategy: StrategyEnum, num: u64, den: u64) -> impl FnMut(&QuoteRequest, usize) -> Result<(u64, u64), ()> {
    move |req: &QuoteRequest, _n: usize| {
        let out = match strategy {
            StrategyEnum::BuyOnEtherfuseSellOnJupiter => req.amount_in * num / den,
            StrategyEnum::BuyOnJupiterSellOnEtherfuse => req.amount_in * den / num,
        };
        Ok((req.amount_in, out))
    }
}

#[test]
fn slippage_adjustment() {
    assert_eq!(adjust_amount_for_slippage(1_000_000, 20), Ok(998_000));
    assert_eq!(adjust_amount_for_slippage(10_000_000_000, 20), Ok(9_980_000_000));
    assert!(adjust_amount_for_slippage(u64::MAX, 20).is_err());
    assert!(adjust_amount_for_slippage(100, 20_000).is_err());
}

#[test]
fn probe_fractions_are_front_loaded() {
    let config = default_search_config();
    let fractions: Vec<u64> = (0..8).map(|i| trade_fraction(config, i)).collect();
    assert_eq!(fractions, vec![10_000, 63_454, 161_192, 287_759, 437_639, 607_644, 795_624, 1_000_000]);
}

#[test]
fn feasible_sizes_follow_the_bounds() {
    let config = default_search_config();
    let md = snapshot(ONE);
    // Wallet tokens are worth 500, the redemption pool holds 10000.
    assert_eq!(max_trade_amount(StrategyEnum::BuyOnEtherfuseSellOnJupiter, &md, config), Ok(500_000_000));
    // Wallet quote is 495, the purchase pool is worth 10000.
    assert_eq!(max_trade_amount(StrategyEnum::BuyOnJupiterSellOnEtherfuse, &md, config), Ok(495_000_000));
    let mut empty = snapshot(ONE);
    empty.stablebond_holdings_token_amount = 0;
    assert_eq!(max_trade_amount(StrategyEnum::BuyOnEtherfuseSellOnJupiter, &empty, config), Err(StrategyError::NoHoldings));
    let mut dry = snapshot(ONE);
    dry.purchase_liquidity_stablebond_amount = 0;
    assert_eq!(max_trade_amount(StrategyEnum::BuyOnJupiterSellOnEtherfuse, &dry, config), Err(StrategyError::NoLiquidity));
}

#[test]
fn net_profit_of_one_probe() {
    // Selling 500 tokens on the router for 525, bought at 1.00, tip 0.10.
    let p = net_profit(StrategyEnum::BuyOnEtherfuseSellOnJupiter, ONE, 100_000, 500_000_000, 500_000_000, 525_000_000);
    assert_eq!(p, Some(24_900_000 * PRICE_SCALE as i128));
    // A quote with nothing in gives no price.
    assert_eq!(net_profit(StrategyEnum::BuyOnEtherfuseSellOnJupiter, ONE, 0, 1, 0, 5), None);
}

#[test]
fn higher_router_price_selects_largest_issuer_buy() {
    let md = snapshot(ONE);
    let strategy = StrategyEnum::BuyOnEtherfuseSellOnJupiter;
    let (outcome, calls) = run(strategy, &md, default_search_config(), router(strategy, 105, 100));
    let best = outcome.unwrap();
    assert_eq!(calls.len(), 8);
    assert_eq!(best.quote_amount, 500_000_000);
    assert_eq!(best.token_amount, 500_000_000);
    // 500 * 0.05 less the 0.10 tip.
    assert_eq!(best.net_profit, 24_900_000 * PRICE_SCALE as i128);
    assert_eq!(best.quote, 7);
    assert_eq!(issuer_leg_amount(strategy, &best), 500_000_000);
}

#[test]
fn lower_router_price_favours_router_buy() {
    let md = snapshot(ONE);
    let a = StrategyEnum::BuyOnEtherfuseSellOnJupiter;
    let (outcome_a, _) = run(a, &md, default_search_config(), router(a, 99, 100));
    assert_eq!(outcome_a.err(), Some(StrategyError::NoProfitableTrade));

    let b = StrategyEnum::BuyOnJupiterSellOnEtherfuse;
    let (outcome_b, calls) = run(b, &md, default_search_config(), router(b, 99, 100));
    let best = outcome_b.unwrap();
    assert_eq!(calls.len(), 8);
    assert_eq!(best.quote_amount, 495_000_000);
    assert_eq!(best.token_amount, 495_000_000);
    assert_eq!(best.net_profit, 4_850_000_000_000_000);
    assert_eq!(issuer_leg_amount(b, &best), 495_000_000);
}

#[test]
fn small_profit_is_below_threshold() {
    let md = snapshot(ONE);
    let a = StrategyEnum::BuyOnEtherfuseSellOnJupiter;
    // 1.002 gives at most 1.00 - 0.10 on 500 tokens.
    let (outcome, _) = run(a, &md, default_search_config(), router(a, 1_002, 1_000));
    assert_eq!(outcome.err(), Some(StrategyError::BelowThreshold));
}

#[test]
fn equal_profits_keep_first_evaluated() {
    let md = snapshot(ONE);
    let a = StrategyEnum::BuyOnEtherfuseSellOnJupiter;
    let mut config = default_search_config();
    config.points = 2;
    config.min_fraction = 1_000_000;
    config.max_fraction = 1_000_000;
    let (outcome, calls) = run(a, &md, config, router(a, 105, 100));
    assert_eq!(calls.len(), 2);
    assert_eq!(calls[0].quote_amount, calls[1].quote_amount);
    assert_eq!(outcome.unwrap().quote, 0);
}

#[test]
fn sizes_under_the_floor_are_never_quoted() {
    let md = snapshot(ONE);
    let a = StrategyEnum::BuyOnEtherfuseSellOnJupiter;
    let mut config = default_search_config();
    config.min_trade_amount = 100_000_000;
    let (outcome, calls) = run(a, &md, config, router(a, 105, 100));
    assert_eq!(calls.len(), 5);
    assert!(calls.iter().all(|c| c.quote_amount >= 100_000_000));
    assert_eq!(calls.iter().map(|c| c.index).collect::<Vec<_>>(), vec![3, 4, 5, 6, 7]);
    assert!(outcome.is_ok());
}

#[test]
fn failed_quotes_are_retried_up_to_the_limit() {
    let md = snapshot(ONE);
    let a = StrategyEnum::BuyOnEtherfuseSellOnJupiter;
    let mut config = default_search_config();
    config.points = 2;
    config.min_fraction = 1_000_000;
    config.max_fraction = 1_000_000;
    let mut ok = router(a, 105, 100);
    let (outcome, calls) = run(a, &md, config, move |req, n| if n < 3 { Err(()) } else { ok(req, n) });
    // Three failures and the fourth attempt at the first point, then the second.
    assert_eq!(calls.len(), 5);
    assert!(calls[..4].iter().all(|c| c.index == 0));
    assert_eq!(calls[4].index, 1);
    assert_eq!(outcome.unwrap().quote, 3);
}

#[test]
fn point_is_skipped_after_retries_run_out() {
    let md = snapshot(ONE);
    let a = StrategyEnum::BuyOnEtherfuseSellOnJupiter;
    let mut config = default_search_config();
    config.points = 2;
    config.min_fraction = 1_000_000;
    config.max_fraction = 1_000_000;
    let mut search: TradeSearch<u64> = TradeSearch::new(a, &md, config).unwrap();
    let first = search.next_request().unwrap();
    assert_eq!(first.index, 0);
    assert_eq!(search.record_failure(), Some(60_000));
    assert_eq!(search.record_failure(), Some(60_000));
    assert_eq!(search.record_failure(), Some(60_000));
    assert_eq!(search.record_failure(), None);
    assert_eq!(search.next_request().unwrap().index, 1);
    assert_eq!(search.record_failure(), Some(60_000));
}

#[test]
fn setup_errors() {
    let md = snapshot(0);
    let a = StrategyEnum::BuyOnEtherfuseSellOnJupiter;
    assert_eq!(TradeSearch::<u64>::new(a, &md, default_search_config()).err(), Some(StrategyError::NoPrice));
    let mut config = default_search_config();
    config.points = 1;
    assert_eq!(TradeSearch::<u64>::new(a, &snapshot(ONE), config).err(), Some(StrategyError::InvalidConfig));
    assert!(!config.is_valid());
    assert!(default_search_config().is_valid());
    assert!(StrategyEnum::BuyOnEtherfuseSellOnJupiter.sells_on_router());
    assert!(!StrategyEnum::BuyOnJupiterSellOnEtherfuse.sells_on_router());
}

#[test]
fn issuer_buy_bound_is_the_full_redemption_pool() {
    let config = default_search_config();
    let mut md = snapshot(ONE);
    md.sell_liquidity_usdc_amount = 1_000_000_000;
    md.stablebond_holdings_token_amount = 5_000_000_000;
    assert_eq!(max_trade_amount(StrategyEnum::BuyOnEtherfuseSellOnJupiter, &md, config), Ok(1_000_000_000));
}

#[test]
fn no_quote_when_largest_size_is_under_the_floor() {
    let mut md = snapshot(ONE);
    md.stablebond_holdings_token_amount = 900_000;
    let a = StrategyEnum::BuyOnEtherfuseSellOnJupiter;
    let (outcome, calls) = run(a, &md, default_search_config(), router(a, 105, 100));
    assert!(calls.is_empty());
    assert_eq!(outcome.err(), Some(StrategyError::NoProfitableTrade));
}
