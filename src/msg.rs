use vstd::prelude::*;

use crate::state::FractionalNFT;

verus! {

/// The contract takes no configuration when it is instantiated.
#[derive(Debug, Clone, PartialEq, Eq)]
pub struct InstantiateMsg {}

/// The two transitions a caller can request.
#[derive(Debug, Clone, PartialEq, Eq)]
pub enum ExecuteMsg {
    FractionalizeNFT {
        nft_contract: String,
        token_id: String,
        total_shares: u128,
        token_name: String,
        token_symbol: String,
    },
    RedeemNFT { nft_contract: String, token_id: String },
}

/// The two read-only queries.
#[derive(Debug, Clone, PartialEq, Eq)]
pub enum QueryMsg {
    FractionalNFTInfo { nft_contract: String, token_id: String },
    FractionalTokenAddress { nft_contract: String, token_id: String },
}

/// What a query answers, one variant per query.
#[derive(Debug, Clone, PartialEq, Eq)]
pub enum QueryResponse {
    FractionalNFTInfo(FractionalNFT),
    FractionalTokenAddress(String),
}

} // verus!
