use vstd::prelude::*;

verus! {

/// Every way a transition or a query can fail. `Std` carries a message the
/// host reported (a malformed address, a storage fault).
#[derive(Debug, Clone, PartialEq, Eq)]
pub enum ContractError {
    Std(String),
    Unauthorized,
    NFTNotFound,
    FractionalNFTNotFound,
    InsufficientTokens,
    AlreadyFractionalized,
    ZeroShares,
    CW20InstantiateFailed,
    CW20HookFailed,
    IssuancePending,
    IssuanceAlreadyRecorded,
}

/// The text of each error.
pub open spec fn error_text(e: ContractError) -> Seq<char> {
    match e {
        ContractError::Std(m) => m@,
        ContractError::Unauthorized => "Unauthorized"@,
        ContractError::NFTNotFound => "NFT not found"@,
        ContractError::FractionalNFTNotFound => "Fractional NFT not found"@,
        ContractError::InsufficientTokens => "Insufficient fractional tokens"@,
        ContractError::AlreadyFractionalized => "Already fractionalized"@,
        ContractError::ZeroShares => "Cannot fractionalize zero shares"@,
        ContractError::CW20InstantiateFailed => "CW20 Instantiate Failed"@,
        ContractError::CW20HookFailed => "CW20 Hook Failed"@,
        ContractError::IssuancePending => "Fractional token not yet instantiated"@,
        ContractError::IssuanceAlreadyRecorded => "Fractional token already recorded"@,
    }
}

impl ContractError {
    /// The human-readable text of the error.
    pub fn message(&self) -> (r: String)
        ensures
            r@ == error_text(*self),
    {
        match self {
            ContractError::Std(m) => m.clone(),
            ContractError::Unauthorized => "Unauthorized".to_owned(),
            ContractError::NFTNotFound => "NFT not found".to_owned(),
            ContractError::FractionalNFTNotFound => "Fractional NFT not found".to_owned(),
            ContractError::InsufficientTokens => "Insufficient fractional tokens".to_owned(),
            ContractError::AlreadyFractionalized => "Already fractionalized".to_owned(),
            ContractError::ZeroShares => "Cannot fractionalize zero shares".to_owned(),
            ContractError::CW20InstantiateFailed => "CW20 Instantiate Failed".to_owned(),
            ContractError::CW20HookFailed => "CW20 Hook Failed".to_owned(),
            ContractError::IssuancePending => "Fractional token not yet instantiated".to_owned(),
            ContractError::IssuanceAlreadyRecorded => "Fractional token already recorded".to_owned(),
        }
    }
}

} // verus!
