//! The per-cycle market snapshot and the builder that assembles it from
//! fetched values.
use crate::etherfuse::PriceError;
use vstd::prelude::*;

verus! {

/// One cycle's view of the market. Amounts are raw units; the price is in raw
/// quote units per raw token unit, scaled by `PRICE_SCALE`.
pub struct MarketData<T> {
    pub etherfuse_price_per_token: u64,
    pub sell_liquidity_usdc_amount: u64,
    pub purchase_liquidity_stablebond_amount: u64,
    pub stablebond_holdings_token_amount: u64,
    pub usdc_holdings_token_amount: u64,
    /// Recommended bundle tip, in the network's smallest fee unit.
    pub jito_tip: u64,
    /// What that tip costs, in raw quote units.
    pub jito_tip_usdc_amount: u64,
    /// Transaction that refreshes the issuer's price oracle, where one is
    /// needed before trading.
    pub switchboard_update_tx: Option<T>,
}

/// Collects the fetched parts of a snapshot. Every part but the price
/// defaults to zero (or to no transaction) where its fetch failed; wallet
/// balances are clamped to the per-trade ceilings.
pub struct MarketDataBuilder<T> {
    pub max_usdc_amount_per_trade: u64,
    pub max_stablebond_amount_per_trade: u64,
    pub etherfuse_price_per_token: Result<u64, PriceError>,
    pub sell_liquidity_usdc_amount: u64,
    pub purchase_liquidity_stablebond_amount: u64,
    pub stablebond_holdings_token_amount: u64,
    pub usdc_holdings_token_amount: u64,
    pub jito_tip: u64,
    pub jito_tip_usdc_amount: u64,
    pub switchboard_update_tx: Option<T>,
}

/// `fetched`, or zero where the fetch failed.
pub open spec fn or_zero(fetched: Option<u64>) -> u64 {
    match fetched {
        Some(v) => v,
        None => 0,
    }
}

/// `fetched` (zero where the fetch failed), at most `ceiling`.
pub open spec fn clamped(fetched: Option<u64>, ceiling: u64) -> u64 {
    if or_zero(fetched) <= ceiling {
        or_zero(fetched)
    } else {
        ceiling
    }
}

fn clamp_fetched(fetched: Option<u64>, ceiling: u64) -> (r: u64)
    ensures
        r == clamped(fetched, ceiling),
{
    let v = match fetched {
        Some(v) => v,
        None => 0,
    };
    if v <= ceiling {
        v
    } else {
        ceiling
    }
}

impl<T> MarketDataBuilder<T> {
    /// An empty builder with the per-trade ceilings on wallet balances.
    pub fn new(max_usdc_amount_per_trade: u64, max_stablebond_amount_per_trade: u64) -> (r: Self)
        ensures
            r.max_usdc_amount_per_trade == max_usdc_amount_per_trade,
            r.max_stablebond_amount_per_trade == max_stablebond_amount_per_trade,
            r.etherfuse_price_per_token == Err::<u64, PriceError>(PriceError::Missing),
            r.sell_liquidity_usdc_amount == 0,
            r.purchase_liquidity_stablebond_amount == 0,
            r.stablebond_holdings_token_amount == 0,
            r.usdc_holdings_token_amount == 0,
            r.jito_tip == 0,
            r.jito_tip_usdc_amount == 0,
            r.switchboard_update_tx is None,
    {
        MarketDataBuilder {
            max_usdc_amount_per_trade,
            max_stablebond_amount_per_trade,
            etherfuse_price_per_token: Err(PriceError::Missing),
            sell_liquidity_usdc_amount: 0,
            purchase_liquidity_stablebond_amount: 0,
            stablebond_holdings_token_amount: 0,
            usdc_holdings_token_amount: 0,
            jito_tip: 0,
            jito_tip_usdc_amount: 0,
            switchboard_update_tx: None,
        }
    }

    /// Records the issuer price, or why it could not be had.
    pub fn with_etherfuse_price_per_token(self, price: Result<u64, PriceError>) -> (r: Self)
        ensures
            r == (Self { etherfuse_price_per_token: price, ..self }),
    {
        let mut s = self;
        s.etherfuse_price_per_token = price;
        s
    }

    /// Records the quote-currency liquidity of the issuer's redemption pool.
    pub fn with_sell_liquidity_usdc_amount(self, fetched: Option<u64>) -> (r: Self)
        ensures
            r == (Self { sell_liquidity_usdc_amount: or_zero(fetched), ..self }),
    {
        let mut s = self;
        s.sell_liquidity_usdc_amount = match fetched {
            Some(v) => v,
            None => 0,
        };
        s
    }

    /// Records the bond-token liquidity available for purchase from the issuer.
    pub fn with_purchase_liquidity_stablebond_amount(self, fetched: Option<u64>) -> (r: Self)
        ensures
            r == (Self { purchase_liquidity_stablebond_amount: or_zero(fetched), ..self }),
    {
        let mut s = self;
        s.purchase_liquidity_stablebond_amount = match fetched {
            Some(v) => v,
            None => 0,
        };
        s
    }

    /// Records the wallet's bond-token balance, clamped to the per-trade ceiling.
    pub fn with_stablebond_holdings_token_amount(self, fetched: Option<u64>) -> (r: Self)
        ensures
            r == (Self {
                stablebond_holdings_token_amount: clamped(
                    fetched,
                    self.max_stablebond_amount_per_trade,
                ),
                ..self
            }),
    {
        let mut s = self;
        s.stablebond_holdings_token_amount = clamp_fetched(
            fetched,
            s.max_stablebond_amount_per_trade,
        );
        s
    }

    /// Records the wallet's quote-currency balance, clamped to the per-trade
    /// ceiling.
    pub fn with_usdc_holdings_token_amount(self, fetched: Option<u64>) -> (r: Self)
        ensures
            r == (Self {
                usdc_holdings_token_amount: clamped(fetched, self.max_usdc_amount_per_trade),
                ..self
            }),
    {
        let mut s = self;
        s.usdc_holdings_token_amount = clamp_fetched(fetched, s.max_usdc_amount_per_trade);
        s
    }

    /// Records the recommended tip and its cost in raw quote units.
    pub fn with_jito_tip(self, tip: Option<u64>, tip_usdc_amount: Option<u64>) -> (r: Self)
        ensures
            r == (Self {
                jito_tip: or_zero(tip),
                jito_tip_usdc_amount: or_zero(tip_usdc_amount),
                ..self
            }),
    {
        let mut s = self;
        s.jito_tip = match tip {
            Some(v) => v,
            None => 0,
        };
        s.jito_tip_usdc_amount = match tip_usdc_amount {
            Some(v) => v,
            None => 0,
        };
        s
    }

    /// Records the oracle refresh transaction, if one is needed and was built.
    pub fn with_update_switchboard_oracle_tx(self, tx: Option<T>) -> (r: Self)
        ensures
            r == (Self { switchboard_update_tx: tx, ..self }),
    {
        let mut s = self;
        s.switchboard_update_tx = tx;
        s
    }

    /// The snapshot. Fails where no price was recorded, with the error that
    /// was recorded for it, and with `NoValidRate` where the price is zero.
    pub fn build(self) -> (r: Result<MarketData<T>, PriceError>)
        ensures
            match self.etherfuse_price_per_token {
                Err(e) => r == Err::<MarketData<T>, PriceError>(e),
                Ok(p) => if p == 0 {
                    r == Err::<MarketData<T>, PriceError>(PriceError::NoValidRate)
                } else {
                    r == Ok::<MarketData<T>, PriceError>(
                        MarketData {
                            etherfuse_price_per_token: p,
                            sell_liquidity_usdc_amount: self.sell_liquidity_usdc_amount,
                            purchase_liquidity_stablebond_amount:
                                self.purchase_liquidity_stablebond_amount,
                            stablebond_holdings_token_amount:
                                self.stablebond_holdings_token_amount,
                            usdc_holdings_token_amount: self.usdc_holdings_token_amount,
                            jito_tip: self.jito_tip,
                            jito_tip_usdc_amount: self.jito_tip_usdc_amount,
                            switchboard_update_tx: self.switchboard_update_tx,
                        },
                    )
                },
            },
    {
        match self.etherfuse_price_per_token {
            Err(e) => Err(e),
            Ok(p) => {
                if p == 0 {
                    Err(PriceError::NoValidRate)
                } else {
                    Ok(
                        MarketData {
                            etherfuse_price_per_token: p,
                            sell_liquidity_usdc_amount: self.sell_liquidity_usdc_amount,
                            purchase_liquidity_stablebond_amount:
                                self.purchase_liquidity_stablebond_amount,
                            stablebond_holdings_token_amount:
                                self.stablebond_holdings_token_amount,
                            usdc_holdings_token_amount: self.usdc_holdings_token_amount,
                            jito_tip: self.jito_tip,
                            jito_tip_usdc_amount: self.jito_tip_usdc_amount,
                            switchboard_update_tx: self.switchboard_update_tx,
                        },
                    )
                }
            },
        }
    }
}

} // verus!
