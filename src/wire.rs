use vstd::prelude::*;

use crate::helpers::Effect;

verus! {

/// The JSON bytes of the cw721 message that transfers `token_id` to `recipient`.
pub uninterp spec fn cw721_transfer_json(recipient: Seq<char>, token_id: Seq<char>) -> Seq<u8>;

/// The JSON bytes of the cw20 message that burns `amount` tokens of `owner`
/// out of the sender's allowance.
pub uninterp spec fn cw20_burn_from_json(owner: Seq<char>, amount: u128) -> Seq<u8>;

/// Relies on `cosmwasm_std::to_json_vec` over `cw721::Cw721ExecuteMsg::TransferNft`:
/// the bytes depend on the two strings alone, and serialising a struct variant
/// of strings always succeeds, so the result is always `Some`.
#[verifier::external_body]
fn encode_transfer_nft(recipient: &String, token_id: &String) -> (r: Option<Vec<u8>>)
    ensures
        r is Some,
        r matches Some(b) ==> b@ == cw721_transfer_json(recipient@, token_id@),
{
    let msg = cw721::Cw721ExecuteMsg::TransferNft {
        recipient: recipient.clone(),
        token_id: token_id.clone(),
    };
    match cosmwasm_std::to_json_vec(&msg) {
        Ok(bytes) => Some(bytes),
        Err(_) => None,
    }
}

/// Relies on `cosmwasm_std::to_json_vec` over `cw20::Cw20ExecuteMsg::BurnFrom`,
/// with the amount as a `cosmwasm_std::Uint128`, which serialises as a decimal
/// string: the bytes depend on the owner and the amount alone, and serialising
/// always succeeds, so the result is always `Some`.
#[verifier::external_body]
fn encode_burn_from(owner: &String, amount: u128) -> (r: Option<Vec<u8>>)
    ensures
        r is Some,
        r matches Some(b) ==> b@ == cw20_burn_from_json(owner@, amount),
{
    let msg = cw20::Cw20ExecuteMsg::BurnFrom {
        owner: owner.clone(),
        amount: cosmwasm_std::Uint128::new(amount),
    };
    match cosmwasm_std::to_json_vec(&msg) {
        Ok(bytes) => Some(bytes),
        Err(_) => None,
    }
}

/// A message that executes another contract, as the host dispatches it: the
/// target contract and the JSON body, with no funds attached.
#[derive(Debug, Clone, PartialEq, Eq)]
pub struct ExecuteWire {
    pub contract_addr: String,
    pub msg: Vec<u8>,
}

/// The wire form of an effect that executes another contract. An NFT
/// transfer goes to the NFT contract with a cw721 transfer body, a burn to
/// the issuance with a cw20 burn-from body. An instantiation is no execute
/// message: `None`.
pub fn execute_wire(effect: &Effect) -> (r: Option<ExecuteWire>)
    ensures
        match effect {
            Effect::TransferNft { nft_contract, recipient, token_id } => r matches Some(w)
                && w.contract_addr@ == nft_contract@ && w.msg@ == cw721_transfer_json(
                recipient@,
                token_id@,
            ),
            Effect::BurnFrom { cw20_contract, owner, amount } => r matches Some(w)
                && w.contract_addr@ == cw20_contract@ && w.msg@ == cw20_burn_from_json(
                owner@,
                *amount,
            ),
            Effect::InstantiateCw20 { .. } => r is None,
        },
{
    match effect {
        Effect::TransferNft { nft_contract, recipient, token_id } => {
            match encode_transfer_nft(recipient, token_id) {
                Some(msg) => Some(ExecuteWire { contract_addr: nft_contract.clone(), msg }),
                None => None,
            }
        },
        Effect::BurnFrom { cw20_contract, owner, amount } => {
            match encode_burn_from(owner, *amount) {
                Some(msg) => Some(ExecuteWire { contract_addr: cw20_contract.clone(), msg }),
                None => None,
            }
        },
        Effect::InstantiateCw20 { .. } => None,
    }
}

} // verus!
