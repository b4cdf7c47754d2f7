//! The arbitrage search: for one of the two opposing strategies, probe a
//! front-loaded set of trade sizes up to the largest feasible one, price each
//! with a live router quote, and keep the most profitable. The caller performs
//! the quote requests and the waits between retries; this module decides what
//! to ask for next and what to keep.
//!
//! Sizes are probed on a fixed grid rather than found by bisection: bisection
//! would assume that net profit rises and then falls with size, which price
//! impact curves do not promise.
use crate::market_data::MarketData;
use crate::math::{
    integer_sqrt, isqrt, lemma_isqrt_exists, mul_div, mul_div_result, profit_from_arb, profit_result, quote_value,
    token_quantity, unit_price, MathError, PRICE_SCALE,
};
use vstd::prelude::*;

verus! {

/// Trade fractions are parts of the largest feasible trade, scaled by this.
pub const FRACTION_SCALE: u64 = 1_000_000;

/// Most probe points a search may use.
pub const MAX_POINTS: u64 = 1_000_000;

/// Basis points in one whole.
pub const BPS_SCALE: u64 = 10_000;

/// The two opposing round trips.
#[derive(Debug, Clone, Copy, PartialEq, Eq, Structural)]
pub enum StrategyEnum {
    /// Buy from the issuer, sell on the swap router: sizes are bounded by the
    /// issuer's redemption liquidity and the value of the wallet's bond tokens.
    BuyOnEtherfuseSellOnJupiter,
    /// Buy on the swap router, sell to the issuer: sizes are bounded by the
    /// wallet's quote currency and the value of the issuer's purchase liquidity.
    BuyOnJupiterSellOnEtherfuse,
}

impl StrategyEnum {
    /// Whether the router leg sells bond tokens for the quote currency (else
    /// it buys them with it).
    pub fn sells_on_router(&self) -> (r: bool)
        ensures
            r == (*self == StrategyEnum::BuyOnEtherfuseSellOnJupiter),
    {
        match self {
            StrategyEnum::BuyOnEtherfuseSellOnJupiter => true,
            StrategyEnum::BuyOnJupiterSellOnEtherfuse => false,
        }
    }
}

/// Settings of a search, read-only for the life of the process.
#[derive(Debug, Clone, Copy, PartialEq, Eq, Structural)]
pub struct SearchConfig {
    /// Smallest trade worth making, in raw quote units.
    pub min_trade_amount: u64,
    /// Smallest net profit worth acting on, in raw quote units.
    pub min_profit_amount: u64,
    /// Number of probe points.
    pub points: u64,
    /// Smallest and largest probed fraction of the feasible size, scaled by
    /// `FRACTION_SCALE`.
    pub min_fraction: u64,
    pub max_fraction: u64,
    /// Retries of a failed quote before the probe point is skipped.
    pub max_retries: u32,
    /// Wait before each retry, in milliseconds.
    pub retry_delay_ms: u64,
    /// Slippage tolerance asked of the router's quotes, in basis points.
    pub slippage_bps: u64,
}

impl SearchConfig {
    pub open spec fn spec_is_valid(&self) -> bool {
        &&& 2 <= self.points <= MAX_POINTS
        &&& self.min_fraction <= self.max_fraction <= FRACTION_SCALE
    }

    /// At least two probe points (the curve divides by `points - 1`), at most
    /// `MAX_POINTS`, and fractions ordered and at most one whole.
    pub fn is_valid(&self) -> (r: bool)
        ensures
            r == self.spec_is_valid(),
    {
        2 <= self.points && self.points <= MAX_POINTS && self.min_fraction <= self.max_fraction
            && self.max_fraction <= FRACTION_SCALE
    }
}

/// Why a strategy produced no trade.
#[derive(Debug, Clone, Copy, PartialEq, Eq, Structural)]
pub enum StrategyError {
    /// The search settings are not valid.
    InvalidConfig,
    /// The snapshot's issuer price is zero.
    NoPrice,
    /// The wallet holds nothing this strategy can trade with.
    NoHoldings,
    /// The issuer pool this strategy trades against is empty.
    NoLiquidity,
    /// Sizing the trade failed.
    Math(MathError),
    /// No probe point gave a positive net profit.
    NoProfitableTrade,
    /// The best net profit is under the configured minimum.
    BelowThreshold,
}

/// What `adjust_amount_for_slippage(amount, bips)` gives.
pub open spec fn slippage_result(amount: u64, bips: u64) -> Result<u64, MathError> {
    if amount * bips > u64::MAX {
        Err(MathError::Overflow)
    } else if (amount * bips) / (BPS_SCALE as int) > amount {
        Err(MathError::Overflow)
    } else {
        Ok((amount - (amount * bips) / (BPS_SCALE as int)) as u64)
    }
}

/// `amount` less `bips` basis points of it (the part taken off rounded down).
pub fn adjust_amount_for_slippage(amount: u64, bips: u64) -> (r: Result<u64, MathError>)
    ensures
        r == slippage_result(amount, bips),
{
    match amount.checked_mul(bips) {
        None => Err(MathError::Overflow),
        Some(product) => {
            let taken = product / BPS_SCALE;
            if taken > amount {
                Err(MathError::Overflow)
            } else {
                Ok(amount - taken)
            }
        },
    }
}

pub open spec fn min_u64(a: u64, b: u64) -> u64 {
    if a <= b {
        a
    } else {
        b
    }
}

/// The largest feasible trade, in raw quote units, for `strategy` on `md`.
pub open spec fn max_trade_result<T>(
    strategy: StrategyEnum,
    md: &MarketData<T>,
    config: SearchConfig,
) -> Result<u64, StrategyError> {
    let price = md.etherfuse_price_per_token;
    match strategy {
        StrategyEnum::BuyOnEtherfuseSellOnJupiter => {
            if md.stablebond_holdings_token_amount == 0 {
                Err(StrategyError::NoHoldings)
            } else if md.sell_liquidity_usdc_amount == 0 {
                Err(StrategyError::NoLiquidity)
            } else {
                match mul_div_result(md.stablebond_holdings_token_amount, price, PRICE_SCALE) {
                    Err(e) => Err(StrategyError::Math(e)),
                    Ok(holdings) => Ok(min_u64(md.sell_liquidity_usdc_amount, holdings)),
                }
            }
        },
        StrategyEnum::BuyOnJupiterSellOnEtherfuse => {
            if md.usdc_holdings_token_amount == 0 {
                Err(StrategyError::NoHoldings)
            } else if md.purchase_liquidity_stablebond_amount == 0 {
                Err(StrategyError::NoLiquidity)
            } else {
                match mul_div_result(md.purchase_liquidity_stablebond_amount, price, PRICE_SCALE) {
                    Err(e) => Err(StrategyError::Math(e)),
                    Ok(liquidity) => Ok(min_u64(md.usdc_holdings_token_amount, liquidity)),
                }
            }
        },
    }
}

/// The largest feasible trade for `strategy`, in raw quote units: for buying
/// from the issuer, the redemption liquidity or the value of the wallet's bond
/// tokens, whichever is less; for buying on the router,
/// the wallet's quote currency or the value of the purchase liquidity.
pub fn max_trade_amount<T>(strategy: StrategyEnum, md: &MarketData<T>, config: SearchConfig) -> (r:
    Result<u64, StrategyError>)
    ensures
        r == max_trade_result(strategy, md, config),
{
    let price = md.etherfuse_price_per_token;
    match strategy {
        StrategyEnum::BuyOnEtherfuseSellOnJupiter => {
            if md.stablebond_holdings_token_amount == 0 {
                return Err(StrategyError::NoHoldings);
            }
            if md.sell_liquidity_usdc_amount == 0 {
                return Err(StrategyError::NoLiquidity);
            }
            let liquidity = md.sell_liquidity_usdc_amount;
            let holdings = match quote_value(md.stablebond_holdings_token_amount, price) {
                Ok(v) => v,
                Err(e) => return Err(StrategyError::Math(e)),
            };
            Ok(
                if liquidity <= holdings {
                    liquidity
                } else {
                    holdings
                },
            )
        },
        StrategyEnum::BuyOnJupiterSellOnEtherfuse => {
            if md.usdc_holdings_token_amount == 0 {
                return Err(StrategyError::NoHoldings);
            }
            if md.purchase_liquidity_stablebond_amount == 0 {
                return Err(StrategyError::NoLiquidity);
            }
            let liquidity = match quote_value(md.purchase_liquidity_stablebond_amount, price) {
                Ok(v) => v,
                Err(e) => return Err(StrategyError::Math(e)),
            };
            Ok(
                if md.usdc_holdings_token_amount <= liquidity {
                    md.usdc_holdings_token_amount
                } else {
                    liquidity
                },
            )
        },
    }
}

/// `(i / (points - 1))^1.5`, scaled by `FRACTION_SCALE` and rounded down.
pub open spec fn curve_point(config: SearchConfig, i: int) -> int {
    let n = config.points - 1;
    isqrt((i * i * i * FRACTION_SCALE * FRACTION_SCALE) / (n * n * n))
}

/// The probed fraction at point `i`:
/// `min_fraction + (max_fraction - min_fraction) * (i / (points - 1))^1.5`,
/// front-loaded toward small trades.
pub open spec fn trade_fraction_spec(config: SearchConfig, i: int) -> int {
    config.min_fraction + ((config.max_fraction - config.min_fraction) * curve_point(config, i))
        / (FRACTION_SCALE as int)
}

proof fn lemma_cube_le(i: int, n: int)
    requires
        0 <= i <= n,
    ensures
        0 <= i * i * i <= n * n * n,
{
    assert(0 <= i * i * i <= n * n * n) by (nonlinear_arith)
        requires
            0 <= i <= n,
    ;
}

/// The fraction of the largest feasible trade probed at point `i`.
pub fn trade_fraction(config: SearchConfig, i: u64) -> (r: u64)
    requires
        config.spec_is_valid(),
        i < config.points,
    ensures
        r == trade_fraction_spec(config, i as int),
        config.min_fraction <= r <= config.max_fraction,
{
    let n: u64 = config.points - 1;
    let ghost fs = FRACTION_SCALE as int;
    proof {
        lemma_cube_le(i as int, n as int);
        assert(n * n * n <= MAX_POINTS * MAX_POINTS * MAX_POINTS) by (nonlinear_arith)
            requires
                n <= MAX_POINTS,
        ;
        assert(i * i * i * fs * fs <= MAX_POINTS * MAX_POINTS * MAX_POINTS * fs * fs)
            by (nonlinear_arith)
            requires
                0 <= i * i * i <= MAX_POINTS * MAX_POINTS * MAX_POINTS,
                fs == FRACTION_SCALE,
        ;
        assert(n * n * n >= 1) by (nonlinear_arith)
            requires
                n >= 1,
        ;
    }
    proof {
        assert(i * i <= MAX_POINTS * MAX_POINTS && n * n <= MAX_POINTS * MAX_POINTS)
            by (nonlinear_arith)
            requires
                i <= MAX_POINTS,
                n <= MAX_POINTS,
        ;
        assert(i * i * i * fs <= MAX_POINTS * MAX_POINTS * MAX_POINTS * fs) by (nonlinear_arith)
            requires
                0 <= i * i * i <= MAX_POINTS * MAX_POINTS * MAX_POINTS,
                fs == FRACTION_SCALE,
        ;
    }
    let ii = i as u128;
    let nn = n as u128;
    let fsc = FRACTION_SCALE as u128;
    let num: u128 = ii * ii * ii * fsc * fsc;
    let den: u128 = nn * nn * nn;
    let x: u128 = num / den;
    proof {
        assert((i * i * i * fs * fs) / (n * n * n) <= fs * fs) by (nonlinear_arith)
            requires
                0 <= i * i * i <= n * n * n,
                n * n * n >= 1,
                fs > 0,
        ;
    }
    let s = integer_sqrt(x as u64);
    proof {
        if s > FRACTION_SCALE {
            assert(s * s > fs * fs) by (nonlinear_arith)
                requires
                    s > fs,
                    fs > 0,
            ;
        }
    }
    let span: u64 = config.max_fraction - config.min_fraction;
    proof {
        assert(span * s <= fs * fs) by (nonlinear_arith)
            requires
                span <= fs,
                s <= fs,
                0 <= span,
                0 <= s,
        ;
        assert((span * s) / fs <= span) by (nonlinear_arith)
            requires
                s <= fs,
                0 <= span,
                0 <= s,
                fs > 0,
        ;
    }
    config.min_fraction + span * s / FRACTION_SCALE
}


/// Raw quote units probed at point `i`.
pub open spec fn probe_quote_amount(config: SearchConfig, max_amount: u64, i: int) -> int {
    (max_amount * trade_fraction_spec(config, i)) / (FRACTION_SCALE as int)
}

/// Raw token units that the quote amount probed at point `i` buys from the
/// issuer at `price`.
pub open spec fn probe_token_amount(config: SearchConfig, max_amount: u64, price: u64, i: int) -> int {
    (probe_quote_amount(config, max_amount, i) * PRICE_SCALE) / (price as int)
}

/// Point `i` is worth a quote: it is at least the minimum trade, and its token
/// amount fits in 64 bits.
pub open spec fn probe_usable(config: SearchConfig, max_amount: u64, price: u64, i: int) -> bool {
    &&& probe_quote_amount(config, max_amount, i) >= config.min_trade_amount
    &&& probe_token_amount(config, max_amount, price, i) <= u64::MAX
}

/// The first usable point at or after `from`, or `points` where there is none.
pub open spec fn first_usable(config: SearchConfig, max_amount: u64, price: u64, from: int) -> int
    decreases config.points - from,
{
    if from >= config.points {
        config.points as int
    } else if probe_usable(config, max_amount, price, from) {
        from
    } else {
        first_usable(config, max_amount, price, from + 1)
    }
}

/// One quote to ask the router for.
#[derive(Debug, Clone, Copy, PartialEq, Eq, Structural)]
pub struct QuoteRequest {
    /// The probe point.
    pub index: u64,
    /// Trade size in raw quote units.
    pub quote_amount: u64,
    /// Trade size in raw token units at the issuer price.
    pub token_amount: u64,
    /// What goes into the router: the tokens where they are sold there, the
    /// quote currency where tokens are bought there.
    pub amount_in: u64,
}

pub open spec fn request_at(
    strategy: StrategyEnum,
    config: SearchConfig,
    max_amount: u64,
    price: u64,
    i: int,
) -> QuoteRequest {
    let q = probe_quote_amount(config, max_amount, i) as u64;
    let t = probe_token_amount(config, max_amount, price, i) as u64;
    QuoteRequest {
        index: i as u64,
        quote_amount: q,
        token_amount: t,
        amount_in: match strategy {
            StrategyEnum::BuyOnEtherfuseSellOnJupiter => t,
            StrategyEnum::BuyOnJupiterSellOnEtherfuse => q,
        },
    }
}

/// Net profit, in raw quote units scaled by `PRICE_SCALE`, of trading
/// `token_amount` tokens where the router quoted `in_amount` in for
/// `out_amount` out: the arbitrage profit between the router's and the
/// issuer's price, less the tip. `None` where the quote gives no price or the
/// arithmetic does not fit.
pub open spec fn net_profit_spec(
    strategy: StrategyEnum,
    price: u64,
    tip_cost: u64,
    token_amount: u64,
    in_amount: u64,
    out_amount: u64,
) -> Option<i128> {
    let router_price = match strategy {
        StrategyEnum::BuyOnEtherfuseSellOnJupiter => mul_div_result(
            out_amount,
            PRICE_SCALE,
            in_amount,
        ),
        StrategyEnum::BuyOnJupiterSellOnEtherfuse => mul_div_result(
            in_amount,
            PRICE_SCALE,
            out_amount,
        ),
    };
    match router_price {
        Err(_) => None,
        Ok(rp) => {
            let profit = match strategy {
                StrategyEnum::BuyOnEtherfuseSellOnJupiter => profit_result(rp, price, token_amount),
                StrategyEnum::BuyOnJupiterSellOnEtherfuse => profit_result(price, rp, token_amount),
            };
            match profit {
                Err(_) => None,
                Ok(p) => if p - tip_cost * PRICE_SCALE >= i128::MIN {
                    Some((p - tip_cost * PRICE_SCALE) as i128)
                } else {
                    None
                },
            }
        },
    }
}

/// Prices one probe from the router's answer: the router price is what the
/// quote implies (quote units out per token in where tokens are sold, quote
/// units in per token out where they are bought), and the net profit is the
/// arbitrage profit at the issuer price less the tip cost.
pub fn net_profit(
    strategy: StrategyEnum,
    price: u64,
    tip_cost: u64,
    token_amount: u64,
    in_amount: u64,
    out_amount: u64,
) -> (r: Option<i128>)
    ensures
        r == net_profit_spec(strategy, price, tip_cost, token_amount, in_amount, out_amount),
{
    let router_price = match strategy {
        StrategyEnum::BuyOnEtherfuseSellOnJupiter => unit_price(out_amount, in_amount),
        StrategyEnum::BuyOnJupiterSellOnEtherfuse => unit_price(in_amount, out_amount),
    };
    let rp = match router_price {
        Ok(v) => v,
        Err(_) => return None,
    };
    let profit = match strategy {
        StrategyEnum::BuyOnEtherfuseSellOnJupiter => profit_from_arb(rp, price, token_amount),
        StrategyEnum::BuyOnJupiterSellOnEtherfuse => profit_from_arb(price, rp, token_amount),
    };
    match profit {
        Err(_) => None,
        Ok(p) => {
            assert(tip_cost * PRICE_SCALE <= u64::MAX * PRICE_SCALE) by (nonlinear_arith);
            let tip_scaled: i128 = (tip_cost as i128) * (PRICE_SCALE as i128);
            p.checked_sub(tip_scaled)
        },
    }
}

/// A priced probe point.
pub struct Candidate<Q> {
    pub quote_amount: u64,
    pub token_amount: u64,
    /// Net profit in raw quote units scaled by `PRICE_SCALE`.
    pub net_profit: i128,
    /// The router quote that priced it, handed back to build the swap.
    pub quote: Q,
}

/// The amount the issuer leg of `c` takes: the quote currency spent on a
/// purchase where the strategy buys from the issuer, the tokens redeemed where
/// it sells to the issuer.
pub fn issuer_leg_amount<Q>(strategy: StrategyEnum, c: &Candidate<Q>) -> (r: u64)
    ensures
        r == match strategy {
            StrategyEnum::BuyOnEtherfuseSellOnJupiter => c.quote_amount,
            StrategyEnum::BuyOnJupiterSellOnEtherfuse => c.token_amount,
        },
{
    match strategy {
        StrategyEnum::BuyOnEtherfuseSellOnJupiter => c.quote_amount,
        StrategyEnum::BuyOnJupiterSellOnEtherfuse => c.token_amount,
    }
}

/// The profit to beat: the best candidate's, or zero.
pub open spec fn profit_to_beat<Q>(best: Option<Candidate<Q>>) -> int {
    match best {
        Some(c) => c.net_profit as int,
        None => 0,
    }
}

/// The best candidate after `next` is priced: `next` replaces the incumbent
/// only where its profit is strictly greater, so of equal profits the first
/// stays.
pub open spec fn consider<Q>(best: Option<Candidate<Q>>, next: Option<Candidate<Q>>) -> Option<
    Candidate<Q>,
> {
    match next {
        Some(c) => if c.net_profit > profit_to_beat(best) {
            Some(c)
        } else {
            best
        },
        None => best,
    }
}

/// Of two candidates priced one after the other with the same profit, the
/// first one evaluated is kept.
pub proof fn lemma_first_of_equal_profits_kept<Q>(
    best: Option<Candidate<Q>>,
    first: Candidate<Q>,
    second: Candidate<Q>,
)
    requires
        first.net_profit == second.net_profit,
    ensures
        consider(consider(best, Some(first)), Some(second)) == consider(best, Some(first)),
{
}

/// The abstract state of a `TradeSearch`.
pub ghost struct TradeSearchView<Q> {
    pub strategy: StrategyEnum,
    pub config: SearchConfig,
    /// Issuer price, raw quote units per raw token unit scaled by `PRICE_SCALE`.
    pub price: u64,
    /// Tip cost in raw quote units.
    pub tip_cost: u64,
    /// Largest feasible trade in raw quote units.
    pub max_amount: u64,
    /// The probe point being worked on; `points` once all are done.
    pub next: u64,
    /// Failed quote attempts at the current point.
    pub failures: u32,
    pub best: Option<Candidate<Q>>,
}

impl<Q> TradeSearchView<Q> {
    pub open spec fn wf(&self) -> bool {
        &&& self.config.spec_is_valid()
        &&& self.price > 0
        &&& self.next <= self.config.points
    }

    pub open spec fn request(&self, i: int) -> QuoteRequest {
        request_at(self.strategy, self.config, self.max_amount, self.price, i)
    }

    pub open spec fn usable(&self, i: int) -> bool {
        probe_usable(self.config, self.max_amount, self.price, i)
    }

    /// The candidate that point `next` gives with the router's answer.
    pub open spec fn priced(&self, in_amount: u64, out_amount: u64, quote: Q) -> Option<
        Candidate<Q>,
    > {
        let req = self.request(self.next as int);
        if !self.usable(self.next as int) {
            None
        } else {
            match net_profit_spec(
                self.strategy,
                self.price,
                self.tip_cost,
                req.token_amount,
                in_amount,
                out_amount,
            ) {
                Some(p) => Some(
                    Candidate {
                        quote_amount: req.quote_amount,
                        token_amount: req.token_amount,
                        net_profit: p,
                        quote,
                    },
                ),
                None => None,
            }
        }
    }

    /// The search's outcome: the best candidate, or why there is none worth
    /// acting on.
    pub open spec fn outcome(&self) -> Result<Candidate<Q>, StrategyError> {
        match self.best {
            None => Err(StrategyError::NoProfitableTrade),
            Some(c) => if c.net_profit < self.config.min_profit_amount * PRICE_SCALE {
                Err(StrategyError::BelowThreshold)
            } else {
                Ok(c)
            },
        }
    }
}

/// What setting up a search gives: the largest feasible trade, or why the
/// strategy cannot run.
pub open spec fn setup_result<T>(
    strategy: StrategyEnum,
    md: &MarketData<T>,
    config: SearchConfig,
) -> Result<u64, StrategyError> {
    if !config.spec_is_valid() {
        Err(StrategyError::InvalidConfig)
    } else if md.etherfuse_price_per_token == 0 {
        Err(StrategyError::NoPrice)
    } else {
        max_trade_result(strategy, md, config)
    }
}

/// The search for one strategy over one snapshot. Drive it with
/// `next_request`; answer each request with `record_quote` or
/// `record_failure`; read the result with `finish`.
pub struct TradeSearch<Q> {
    strategy: StrategyEnum,
    config: SearchConfig,
    price: u64,
    tip_cost: u64,
    max_amount: u64,
    next: u64,
    failures: u32,
    best: Option<Candidate<Q>>,
}

impl<Q> View for TradeSearch<Q> {
    type V = TradeSearchView<Q>;

    closed spec fn view(&self) -> TradeSearchView<Q> {
        TradeSearchView {
            strategy: self.strategy,
            config: self.config,
            price: self.price,
            tip_cost: self.tip_cost,
            max_amount: self.max_amount,
            next: self.next,
            failures: self.failures,
            best: self.best,
        }
    }
}

impl<Q> TradeSearch<Q> {
    /// Sets up the search of `strategy` over `md`, or says why it cannot run.
    pub fn new<T>(strategy: StrategyEnum, md: &MarketData<T>, config: SearchConfig) -> (r: Result<
        Self,
        StrategyError,
    >)
        ensures
            match r {
                Ok(s) => {
                    &&& setup_result(strategy, md, config) == Ok::<u64, StrategyError>(
                        s@.max_amount,
                    )
                    &&& s@.wf()
                    &&& s@.strategy == strategy
                    &&& s@.config == config
                    &&& s@.price == md.etherfuse_price_per_token
                    &&& s@.tip_cost == md.jito_tip_usdc_amount
                    &&& s@.next == 0
                    &&& s@.failures == 0
                    &&& s@.best is None
                },
                Err(e) => setup_result(strategy, md, config) == Err::<u64, StrategyError>(e),
            },
    {
        if !config.is_valid() {
            return Err(StrategyError::InvalidConfig);
        }
        if md.etherfuse_price_per_token == 0 {
            return Err(StrategyError::NoPrice);
        }
        match max_trade_amount(strategy, md, config) {
            Err(e) => Err(e),
            Ok(max_amount) => Ok(
                TradeSearch {
                    strategy,
                    config,
                    price: md.etherfuse_price_per_token,
                    tip_cost: md.jito_tip_usdc_amount,
                    max_amount,
                    next: 0,
                    failures: 0,
                    best: None,
                },
            ),
        }
    }

    /// The quote and token amounts of point `i`, where it is usable.
    fn probe(&self, i: u64) -> (r: Option<(u64, u64)>)
        requires
            self@.wf(),
            i < self.config.points,
        ensures
            match r {
                Some((q, t)) => {
                    &&& self@.usable(i as int)
                    &&& q == probe_quote_amount(self.config, self.max_amount, i as int)
                    &&& t == probe_token_amount(self.config, self.max_amount, self.price, i as int)
                },
                None => !self@.usable(i as int),
            },
    {
        let frac = trade_fraction(self.config, i);
        proof {
            let fs = FRACTION_SCALE as int;
            assert((self.max_amount * frac) / fs <= self.max_amount) by (nonlinear_arith)
                requires
                    0 <= frac <= fs,
                    fs > 0,
                    self.max_amount >= 0,
            ;
        }
        let quote_amount = match mul_div(self.max_amount, frac, FRACTION_SCALE) {
            Ok(v) => v,
            Err(_) => return None,
        };
        if quote_amount < self.config.min_trade_amount {
            return None;
        }
        match token_quantity(quote_amount, self.price) {
            Ok(t) => Some((quote_amount, t)),
            Err(_) => None,
        }
    }

    /// The next quote to ask for, or `None` once every point is done. Points
    /// under the minimum trade are passed over and never asked for.
    pub fn next_request(&mut self) -> (r: Option<QuoteRequest>)
        requires
            old(self)@.wf(),
        ensures
            final(self)@.wf(),
            final(self)@.next == first_usable(
                old(self)@.config,
                old(self)@.max_amount,
                old(self)@.price,
                old(self)@.next as int,
            ),
            final(self)@ == (TradeSearchView {
                next: final(self)@.next,
                failures: final(self)@.failures,
                ..old(self)@
            }),
            final(self)@.failures == if final(self)@.next == old(self)@.next {
                old(self)@.failures
            } else {
                0
            },
            r == if final(self)@.next < old(self)@.config.points {
                Some(final(self)@.request(final(self)@.next as int))
            } else {
                None::<QuoteRequest>
            },
            r matches Some(q) ==> q.quote_amount >= old(self)@.config.min_trade_amount,
    {
        let ghost start = self.next as int;
        while self.next < self.config.points
            invariant
                self@.wf(),
                self@ == (TradeSearchView {
                    next: self@.next,
                    failures: self@.failures,
                    ..old(self)@
                }),
                start == old(self)@.next,
                start <= self.next,
                first_usable(self.config, self.max_amount, self.price, self.next as int)
                    == first_usable(self.config, self.max_amount, self.price, start),
                self.failures == if self.next == start {
                    old(self)@.failures
                } else {
                    0
                },
            decreases self.config.points - self.next,
        {
            match self.probe(self.next) {
                Some((q, t)) => {
                    assert(first_usable(self.config, self.max_amount, self.price, self.next as int)
                        == self.next);
                    let amount_in = match self.strategy {
                        StrategyEnum::BuyOnEtherfuseSellOnJupiter => t,
                        StrategyEnum::BuyOnJupiterSellOnEtherfuse => q,
                    };
                    return Some(
                        QuoteRequest { index: self.next, quote_amount: q, token_amount: t, amount_in },
                    );
                },
                None => {
                    self.next = self.next + 1;
                    self.failures = 0;
                },
            }
        }
        None
    }

    /// Takes the router's answer for the current point: prices it, keeps it
    /// where it beats the best so far (strictly), and moves to the next point.
    pub fn record_quote(&mut self, in_amount: u64, out_amount: u64, quote: Q)
        requires
            old(self)@.wf(),
        ensures
            final(self)@.wf(),
            final(self)@ == if old(self)@.next < old(self)@.config.points {
                TradeSearchView {
                    next: (old(self)@.next + 1) as u64,
                    failures: 0,
                    best: consider(old(self)@.best, old(self)@.priced(in_amount, out_amount, quote)),
                    ..old(self)@
                }
            } else {
                old(self)@
            },
    {
        if self.next >= self.config.points {
            return;
        }
        let ghost before = self@;
        let cand = match self.probe(self.next) {
            None => None,
            Some((q, t)) => match net_profit(
                self.strategy,
                self.price,
                self.tip_cost,
                t,
                in_amount,
                out_amount,
            ) {
                None => None,
                Some(p) => Some(Candidate { quote_amount: q, token_amount: t, net_profit: p, quote }),
            },
        };
        assert(cand == before.priced(in_amount, out_amount, quote));
        match cand {
            Some(c) => {
                let beat = match &self.best {
                    Some(b) => c.net_profit > b.net_profit,
                    None => c.net_profit > 0,
                };
                if beat {
                    self.best = Some(c);
                }
            },
            None => {},
        }
        self.next = self.next + 1;
        self.failures = 0;
    }

    /// Takes a failed quote for the current point. Within the retry budget the
    /// answer is the wait before asking again for the same point; once
    /// `max_retries` retries have failed too, the point is skipped and the
    /// answer is `None`.
    pub fn record_failure(&mut self) -> (r: Option<u64>)
        requires
            old(self)@.wf(),
        ensures
            final(self)@.wf(),
            old(self)@.next >= old(self)@.config.points ==> final(self)@ == old(self)@ && r
                is None,
            old(self)@.next < old(self)@.config.points && old(self)@.failures
                < old(self)@.config.max_retries ==> final(self)@ == (TradeSearchView {
                failures: (old(self)@.failures + 1) as u32,
                ..old(self)@
            }) && r == Some(old(self)@.config.retry_delay_ms),
            old(self)@.next < old(self)@.config.points && old(self)@.failures
                >= old(self)@.config.max_retries ==> final(self)@ == (TradeSearchView {
                next: (old(self)@.next + 1) as u64,
                failures: 0,
                ..old(self)@
            }) && r is None,
    {
        if self.next >= self.config.points {
            return None;
        }
        if self.failures < self.config.max_retries {
            self.failures = self.failures + 1;
            Some(self.config.retry_delay_ms)
        } else {
            self.next = self.next + 1;
            self.failures = 0;
            None
        }
    }

    /// The best candidate found, or `NoProfitableTrade` where none had a
    /// positive net profit, or `BelowThreshold` where the best is under the
    /// configured minimum profit.
    pub fn finish(self) -> (r: Result<Candidate<Q>, StrategyError>)
        ensures
            r == self@.outcome(),
    {
        match self.best {
            None => Err(StrategyError::NoProfitableTrade),
            Some(c) => {
                assert(self.config.min_profit_amount * PRICE_SCALE <= u64::MAX * PRICE_SCALE)
                    by (nonlinear_arith);
                let threshold: i128 = (self.config.min_profit_amount as i128) * (
                PRICE_SCALE as i128);
                if c.net_profit < threshold {
                    Err(StrategyError::BelowThreshold)
                } else {
                    Ok(c)
                }
            },
        }
    }
}


/// The best candidate after pricing `cands` in order, starting from none.
pub open spec fn best_of<Q>(cands: Seq<Option<Candidate<Q>>>) -> Option<Candidate<Q>>
    decreases cands.len(),
{
    if cands.len() == 0 {
        None
    } else {
        consider(best_of(cands.drop_last()), cands.last())
    }
}

/// Of candidates priced in order, the one kept is the earliest of those with
/// the highest net profit, where that profit is positive; none is kept where
/// no profit is positive.
pub proof fn lemma_best_is_first_of_highest<Q>(cands: Seq<Option<Candidate<Q>>>)
    ensures
        best_of(cands) is None ==> forall|i: int|
            0 <= i < cands.len() && cands[i] is Some ==> cands[i]->0.net_profit <= 0,
        best_of(cands) matches Some(c) ==> exists|k: int|
            #![trigger cands[k]]
            {
                &&& 0 <= k < cands.len()
                &&& cands[k] == Some(c)
                &&& c.net_profit > 0
                &&& forall|i: int|
                    0 <= i < cands.len() && cands[i] is Some ==> cands[i]->0.net_profit
                        <= c.net_profit
                &&& forall|i: int|
                    0 <= i < k && cands[i] is Some ==> cands[i]->0.net_profit < c.net_profit
            },
    decreases cands.len(),
{
    if cands.len() > 0 {
        let init = cands.drop_last();
        lemma_best_is_first_of_highest(init);
        let prev = best_of(init);
        let n = cands.len() - 1;
        assert(forall|i: int| 0 <= i < n ==> cands[i] == init[i]);
        match cands.last() {
            Some(l) => {
                if l.net_profit > profit_to_beat(prev) {
                    assert(best_of(cands) == Some(l));
                    assert(cands[n] == Some(l));
                } else {
                    assert(best_of(cands) == prev);
                    if let Some(c) = prev {
                        let k = choose|k: int|
                            #![trigger init[k]]
                            {
                                &&& 0 <= k < init.len()
                                &&& init[k] == Some(c)
                                &&& c.net_profit > 0
                                &&& forall|i: int|
                                    0 <= i < init.len() && init[i] is Some ==> init[i]->0.net_profit
                                        <= c.net_profit
                                &&& forall|i: int|
                                    0 <= i < k && init[i] is Some ==> init[i]->0.net_profit
                                        < c.net_profit
                            };
                        assert(cands[k] == Some(c));
                    }
                }
            },
            None => {
                assert(best_of(cands) == prev);
                if let Some(c) = prev {
                    let k = choose|k: int|
                        #![trigger init[k]]
                        {
                            &&& 0 <= k < init.len()
                            &&& init[k] == Some(c)
                            &&& c.net_profit > 0
                            &&& forall|i: int|
                                0 <= i < init.len() && init[i] is Some ==> init[i]->0.net_profit
                                    <= c.net_profit
                            &&& forall|i: int|
                                0 <= i < k && init[i] is Some ==> init[i]->0.net_profit
                                    < c.net_profit
                        };
                    assert(cands[k] == Some(c));
                }
            },
        }
    }
}

/// No probe is larger than the largest feasible trade.
proof fn lemma_probe_within_max(config: SearchConfig, max_amount: u64, i: int)
    requires
        config.spec_is_valid(),
        0 <= i < config.points,
    ensures
        0 <= probe_quote_amount(config, max_amount, i) <= max_amount,
{
    let n = config.points - 1;
    let fs = FRACTION_SCALE as int;
    lemma_cube_le(i, n);
    assert(n * n * n >= 1) by (nonlinear_arith)
        requires
            n >= 1,
    ;
    let x = (i * i * i * fs * fs) / (n * n * n);
    assert(0 <= x <= fs * fs) by (nonlinear_arith)
        requires
            0 <= i * i * i <= n * n * n,
            n * n * n >= 1,
            fs > 0,
            x == (i * i * i * fs * fs) / (n * n * n),
    ;
    lemma_isqrt_exists(x as nat);
    let r = isqrt(x);
    if r > fs {
        assert(r * r > fs * fs) by (nonlinear_arith)
            requires
                r > fs,
                fs > 0,
        ;
    }
    let span = config.max_fraction - config.min_fraction;
    assert(0 <= (span * r) / fs <= span) by (nonlinear_arith)
        requires
            0 <= r <= fs,
            0 <= span,
            fs > 0,
    ;
    let f = trade_fraction_spec(config, i);
    assert(0 <= f <= fs);
    assert(0 <= (max_amount * f) / fs <= max_amount) by (nonlinear_arith)
        requires
            0 <= f <= fs,
            fs > 0,
            max_amount >= 0,
    ;
}

/// Where the largest feasible trade is under the minimum trade, no probe point
/// is usable, so the search asks for no quote at all.
pub proof fn lemma_no_request_under_floor<Q>(v: TradeSearchView<Q>, from: int)
    requires
        v.wf(),
        v.max_amount < v.config.min_trade_amount,
        0 <= from,
    ensures
        first_usable(v.config, v.max_amount, v.price, from) == v.config.points,
    decreases v.config.points - from,
{
    if from < v.config.points {
        lemma_probe_within_max(v.config, v.max_amount, from);
        lemma_no_request_under_floor(v, from + 1);
    }
}

} // verus!
