//! Settings of the swap-router client and the plain parts of its quotes.
use vstd::prelude::*;

verus! {

/// Where the swap router's quote API is and which key signs its swaps.
pub struct JupiterClient {
    pub jupiter_quote_url: String,
    pub keypair_filepath: String,
}

impl JupiterClient {
    pub fn new(jupiter_quote_url: String, keypair_filepath: String) -> (r: Self)
        ensures
            r.jupiter_quote_url == jupiter_quote_url,
            r.keypair_filepath == keypair_filepath,
    {
        JupiterClient { jupiter_quote_url, keypair_filepath }
    }
}

/// One hop of a quoted route, and the share of the input it carries.
pub struct RoutePlan {
    pub percent: u32,
    pub swap_info: SwapInfo,
}

/// The market a route hop trades on and what it exchanges there.
pub struct SwapInfo {
    pub amm_key: String,
    pub label: String,
    pub input_mint: String,
    pub output_mint: String,
    pub in_amount: u64,
    pub out_amount: String,
    pub fee_amount: u64,
    pub fee_mint: String,
}

} // verus!
