use cosmwasm_std::{from_json, Uint128};
use cw20::Cw20ExecuteMsg;
use cw721::Cw721ExecuteMsg;

use nft_fractional::contract::{fractionalize_nft, redeem_nft, ContractEnv};
use nft_fractional::helpers::{burn_from, transfer_nft_to_contract, Cw20Coin, Effect};
use nft_fractional::state::BindingStore;
use nft_fractional::wire::execute_wire;

fn s(v: &str) -> String {
    v.to_string()
}

#[test]
fn transfer_effect_encodes_cw721_transfer() {
    let effect = transfer_nft_to_contract(&s("nftcol1"), "42", &s("contract"));
    let wire = execute_wire(&effect).unwrap();
    assert_eq!(wire.contract_addr, s("nftcol1"));
    let decoded: Cw721ExecuteMsg = from_json(&wire.msg).unwrap();
    assert_eq!(decoded, Cw721ExecuteMsg::TransferNft { recipient: s("contract"), token_id: s("42") });
}

#[test]
fn burn_effect_encodes_cw20_burn_from() {
    let effect = burn_from(&s("cw20addr"), &s("alice"), 1000);
    let wire = execute_wire(&effect).unwrap();
    assert_eq!(wire.contract_addr, s("cw20addr"));
    let decoded: Cw20ExecuteMsg = from_json(&wire.msg).unwrap();
    assert_eq!(decoded, Cw20ExecuteMsg::BurnFrom { owner: s("alice"), amount: Uint128::new(1000) });
    assert_eq!(wire.msg, br#"{"burn_from":{"owner":"alice","amount":"1000"}}"#.to_vec());
}

#[test]
fn instantiate_effect_has_no_execute_form() {
    let effect = Effect::InstantiateCw20 {
        admin: None,
        code_id: 3,
        label: s("l"),
        name: s("n"),
        symbol: s("SYM"),
        decimals: 0,
        initial_balances: vec![Cw20Coin { address: s("a"), amount: 1 }],
        mint: None,
    };
    assert_eq!(execute_wire(&effect), None);
}

#[test]
fn redeem_effects_encode_in_order() {
    let mut store = BindingStore::new();
    let env = ContractEnv { contract_address: s("contract"), cw20_code_id: 7 };
    fractionalize_nft(&mut store, &env, &s("alice"), s("nftcol1"), Ok(s("nftcol1")), s("42"), 1000, s("Fractional Token"), s("FRAC")).unwrap();
    let r = redeem_nft(&mut store, &s("alice"), s("nftcol1"), Ok(s("nftcol1")), s("42")).unwrap();
    let burn = execute_wire(&r.messages[0]).unwrap();
    let burn: Cw20ExecuteMsg = from_json(&burn.msg).unwrap();
    assert_eq!(burn, Cw20ExecuteMsg::BurnFrom { owner: s("alice"), amount: Uint128::new(1000) });
    let transfer = execute_wire(&r.messages[1]).unwrap();
    assert_eq!(transfer.contract_addr, s("nftcol1"));
    let transfer: Cw721ExecuteMsg = from_json(&transfer.msg).unwrap();
    assert_eq!(transfer, Cw721ExecuteMsg::TransferNft { recipient: s("alice"), token_id: s("42") });
}
