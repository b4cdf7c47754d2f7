//! Which exchange-rate source prices a bond, by the bond's mint.
use vstd::prelude::*;

verus! {

/// The settlement currency of a bond, which picks the exchange-rate source
/// that turns the issuer's quoted cost into a USD price.
#[derive(Debug, Clone, Copy, PartialEq, Eq, Structural)]
pub enum SettlementCurrency {
    Mxn,
    Usd,
    Gbp,
    Eur,
}

/// Why no issuer price could be had.
#[derive(Debug, Clone, Copy, PartialEq, Eq, Structural)]
pub enum PriceError {
    /// No price was supplied.
    Missing,
    /// The bond's settlement currency has no configured exchange-rate source.
    UnsupportedCurrency,
    /// The exchange-rate source gave no usable value.
    NoValidRate,
}

/// The settlement currency of the bond with mint address `mint` (base58).
pub open spec fn currency_of_mint(mint: Seq<char>) -> Result<SettlementCurrency, PriceError> {
    if mint == "CETES7CKqqKQizuSN6iWQwmTeFRjbJR6Vw2XRKfEDR8f"@ {
        Ok(SettlementCurrency::Mxn)
    } else if mint == "USTRYnGgcHAhdWsanv8BG6vHGd4p7UGgoB9NRd8ei7j"@ {
        Ok(SettlementCurrency::Usd)
    } else if mint == "GiLTSeSFnNse7xQVYeKdMyckGw66AoRmyggGg1NNd4yr"@ {
        Ok(SettlementCurrency::Gbp)
    } else if mint == "EuroszHk1AL7fHBBsxgeGHsamUqwBpb26oEyt9BcfZ6G"@ {
        Ok(SettlementCurrency::Eur)
    } else {
        Err(PriceError::UnsupportedCurrency)
    }
}

/// Looks up the settlement currency of a bond by its mint address; fails
/// with `UnsupportedCurrency` for a mint with no configured rate source.
pub fn exchange_rate_currency(mint: &String) -> (r: Result<SettlementCurrency, PriceError>)
    ensures
        r == currency_of_mint(mint@),
{
    if *mint == "CETES7CKqqKQizuSN6iWQwmTeFRjbJR6Vw2XRKfEDR8f".to_owned() {
        Ok(SettlementCurrency::Mxn)
    } else if *mint == "USTRYnGgcHAhdWsanv8BG6vHGd4p7UGgoB9NRd8ei7j".to_owned() {
        Ok(SettlementCurrency::Usd)
    } else if *mint == "GiLTSeSFnNse7xQVYeKdMyckGw66AoRmyggGg1NNd4yr".to_owned() {
        Ok(SettlementCurrency::Gbp)
    } else if *mint == "EuroszHk1AL7fHBBsxgeGHsamUqwBpb26oEyt9BcfZ6G".to_owned() {
        Ok(SettlementCurrency::Eur)
    } else {
        Err(PriceError::UnsupportedCurrency)
    }
}

impl SettlementCurrency {
    pub open spec fn spec_rate_path(&self) -> Seq<char> {
        match self {
            SettlementCurrency::Mxn => "usd_to_mxn"@,
            SettlementCurrency::Usd => "usd_to_usd"@,
            SettlementCurrency::Gbp => "usd_to_gbp"@,
            SettlementCurrency::Eur => "usd_to_eur"@,
        }
    }

    /// The last path segment of the exchange-rate lookup for this currency.
    pub fn rate_path(&self) -> (r: String)
        ensures
            r@ == self.spec_rate_path(),
    {
        match self {
            SettlementCurrency::Mxn => "usd_to_mxn".to_owned(),
            SettlementCurrency::Usd => "usd_to_usd".to_owned(),
            SettlementCurrency::Gbp => "usd_to_gbp".to_owned(),
            SettlementCurrency::Eur => "usd_to_eur".to_owned(),
        }
    }
}


/// The amount an instant redemption asks for: the requested amount, at most
/// what the redemption pool's token account holds.
pub fn redeem_amount(requested: u64, pool_balance: u64) -> (r: u64)
    ensures
        r == if requested <= pool_balance {
            requested
        } else {
            pool_balance
        },
{
    if requested <= pool_balance {
        requested
    } else {
        pool_balance
    }
}

/// An address that is all zero bytes: a feed that is not set.
pub open spec fn is_unset(key: [u8; 32]) -> bool {
    forall|i: int| 0 <= i < 32 ==> key@[i] == 0
}

/// The price feed the oracle refresh must update: the bond's quote-price feed
/// where it has one, else its base-price feed.
pub fn oracle_feed(base_price_feed: [u8; 32], quote_price_feed: [u8; 32]) -> (r: [u8; 32])
    ensures
        r == if is_unset(quote_price_feed) {
            base_price_feed
        } else {
            quote_price_feed
        },
{
    let mut i: usize = 0;
    while i < 32
        invariant
            i <= 32,
            forall|j: int| 0 <= j < i ==> quote_price_feed@[j] == 0,
        decreases 32 - i,
    {
        if quote_price_feed[i] != 0 {
            return quote_price_feed;
        }
        i = i + 1;
    }
    base_price_feed
}

} // verus!
