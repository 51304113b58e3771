use vstd::prelude::*;

verus! {

/// An initial balance of a new claim-token issuance.
#[derive(Debug, Clone, PartialEq, Eq)]
pub struct Cw20Coin {
    pub address: String,
    pub amount: u128,
}

impl View for Cw20Coin {
    type V = (Seq<char>, u128);

    open spec fn view(&self) -> (Seq<char>, u128) {
        (self.address@, self.amount)
    }
}

/// Who may mint more of an issuance, and up to what cap.
#[derive(Debug, Clone, PartialEq, Eq)]
pub struct MinterResponse {
    pub minter: String,
    pub cap: Option<u128>,
}

impl View for MinterResponse {
    type V = (Seq<char>, Option<u128>);

    open spec fn view(&self) -> (Seq<char>, Option<u128>) {
        (self.minter@, self.cap)
    }
}

/// An outbound instruction to another contract. The host runs the effects of
/// a transition in order, together with its store mutation, or none of them.
#[derive(Debug, Clone, PartialEq, Eq)]
pub enum Effect {
    /// Move the NFT `token_id` of `nft_contract` to `recipient`.
    TransferNft { nft_contract: String, recipient: String, token_id: String },
    /// Create a claim-token issuance from the stored code `code_id`.
    InstantiateCw20 {
        admin: Option<String>,
        code_id: u64,
        label: String,
        name: String,
        symbol: String,
        decimals: u8,
        initial_balances: Vec<Cw20Coin>,
        mint: Option<MinterResponse>,
    },
    /// Burn `amount` claim-tokens of `owner`, spending this contract's allowance.
    BurnFrom { cw20_contract: String, owner: String, amount: u128 },
}

pub enum EffectView {
    TransferNft { nft_contract: Seq<char>, recipient: Seq<char>, token_id: Seq<char> },
    InstantiateCw20 {
        admin: Option<Seq<char>>,
        code_id: u64,
        label: Seq<char>,
        name: Seq<char>,
        symbol: Seq<char>,
        decimals: u8,
        initial_balances: Seq<(Seq<char>, u128)>,
        mint: Option<(Seq<char>, Option<u128>)>,
    },
    BurnFrom { cw20_contract: Seq<char>, owner: Seq<char>, amount: u128 },
}

pub open spec fn opt_view(o: Option<String>) -> Option<Seq<char>> {
    match o {
        Some(s) => Some(s@),
        None => None,
    }
}

impl View for Effect {
    type V = EffectView;

    open spec fn view(&self) -> EffectView {
        match self {
            Effect::TransferNft { nft_contract, recipient, token_id } => EffectView::TransferNft {
                nft_contract: nft_contract@,
                recipient: recipient@,
                token_id: token_id@,
            },
            Effect::InstantiateCw20 {
                admin,
                code_id,
                label,
                name,
                symbol,
                decimals,
                initial_balances,
                mint,
            } => EffectView::InstantiateCw20 {
                admin: opt_view(*admin),
                code_id: *code_id,
                label: label@,
                name: name@,
                symbol: symbol@,
                decimals: *decimals,
                initial_balances: initial_balances@.map_values(|c: Cw20Coin| c@),
                mint: match mint {
                    Some(m) => Some(m@),
                    None => None,
                },
            },
            Effect::BurnFrom { cw20_contract, owner, amount } => EffectView::BurnFrom {
                cw20_contract: cw20_contract@,
                owner: owner@,
                amount: *amount,
            },
        }
    }
}

/// The instruction that moves an NFT into the custody of `contract_addr`.
pub fn transfer_nft_to_contract(nft_contract: &String, token_id: &str, contract_addr: &String) -> (r:
    Effect)
    ensures
        r@ == (EffectView::TransferNft {
            nft_contract: nft_contract@,
            recipient: contract_addr@,
            token_id: token_id@,
        }),
{
    Effect::TransferNft {
        nft_contract: nft_contract.clone(),
        recipient: contract_addr.clone(),
        token_id: token_id.to_owned(),
    }
}

/// The instruction that hands an NFT out of custody to `recipient`.
pub fn transfer_nft_to_recipient(nft_contract: &String, token_id: &str, recipient: &String) -> (r:
    Effect)
    ensures
        r@ == (EffectView::TransferNft {
            nft_contract: nft_contract@,
            recipient: recipient@,
            token_id: token_id@,
        }),
{
    Effect::TransferNft {
        nft_contract: nft_contract.clone(),
        recipient: recipient.clone(),
        token_id: token_id.to_owned(),
    }
}

/// The instruction that creates a claim-token issuance.
pub fn instantiate_cw20(
    code_id: u64,
    name: &str,
    symbol: &str,
    decimals: u8,
    initial_balances: Vec<Cw20Coin>,
    mint: Option<MinterResponse>,
    admin: Option<String>,
    label: &str,
) -> (r: Effect)
    ensures
        r@ == (EffectView::InstantiateCw20 {
            admin: opt_view(admin),
            code_id,
            label: label@,
            name: name@,
            symbol: symbol@,
            decimals,
            initial_balances: initial_balances@.map_values(|c: Cw20Coin| c@),
            mint: match mint {
                Some(m) => Some(m@),
                None => None,
            },
        }),
{
    Effect::InstantiateCw20 {
        admin,
        code_id,
        label: label.to_owned(),
        name: name.to_owned(),
        symbol: symbol.to_owned(),
        decimals,
        initial_balances,
        mint,
    }
}

/// The instruction that burns `amount` claim-tokens of `owner` through the
/// allowance `owner` granted this contract.
pub fn burn_from(cw20_contract: &String, owner: &String, amount: u128) -> (r: Effect)
    ensures
        r@ == (EffectView::BurnFrom { cw20_contract: cw20_contract@, owner: owner@, amount }),
{
    Effect::BurnFrom { cw20_contract: cw20_contract.clone(), owner: owner.clone(), amount }
}

} // verus!
