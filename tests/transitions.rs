use nft_fractional::contract::{
    execute, fractionalize_nft, instantiate, query, query_fractional_nft_info,
    query_fractional_token_address, record_cw20_contract, redeem_nft, Attribute, ContractEnv,
    Response,
};
use nft_fractional::error::ContractError;
use nft_fractional::helpers::{Cw20Coin, Effect};
use nft_fractional::msg::{ExecuteMsg, InstantiateMsg, QueryMsg, QueryResponse};
use nft_fractional::state::{BindingStore, FractionalNFT, Issuance};

fn env() -> ContractEnv {
    ContractEnv { contract_address: "contract".to_string(), cw20_code_id: 7 }
}

fn s(v: &str) -> String {
    v.to_string()
}

fn fractionalize(store: &mut BindingStore, sender: &str, nft: &str, id: &str, shares: u128) -> Result<Response, ContractError> {
    fractionalize_nft(
        store,
        &env(),
        &s(sender),
        s(nft),
        Ok(s(nft)),
        s(id),
        shares,
        s("Fractional Token"),
        s("FRAC"),
    )
}

fn redeem(store: &mut BindingStore, sender: &str, nft: &str, id: &str) -> Result<Response, ContractError> {
    redeem_nft(store, &s(sender), s(nft), Ok(s(nft)), s(id))
}

fn info(store: &BindingStore, nft: &str, id: &str) -> Result<FractionalNFT, ContractError> {
    query_fractional_nft_info(store, Ok(s(nft)), s(id))
}

fn attrs(r: &Response) -> Vec<(String, String)> {
    r.attributes.iter().map(|a: &Attribute| (a.key.clone(), a.value.clone())).collect()
}

#[test]
fn scenario_fractionalize_redeem_alice() {
    let mut store = BindingStore::new();
    let r = fractionalize(&mut store, "alice", "nftcol1", "42", 1000).unwrap();
    assert_eq!(
        info(&store, "nftcol1", "42").unwrap(),
        FractionalNFT {
            owner: s("alice"),
            nft_contract: s("nftcol1"),
            token_id: s("42"),
            total_shares: 1000,
            cw20_contract: Issuance::Pending,
        }
    );
    assert_eq!(
        r.messages,
        vec![
            Effect::TransferNft { nft_contract: s("nftcol1"), recipient: s("contract"), token_id: s("42") },
            Effect::InstantiateCw20 {
                admin: Some(s("contract")),
                code_id: 7,
                label: s("Fractional tokens for NFT nftcol1:42"),
                name: s("Fractional Token"),
                symbol: s("FRAC"),
                decimals: 0,
                initial_balances: vec![Cw20Coin { address: s("alice"), amount: 1000 }],
                mint: None,
            },
        ]
    );
    assert_eq!(
        attrs(&r),
        vec![
            (s("action"), s("fractionalize_nft")),
            (s("nft_contract"), s("nftcol1")),
            (s("token_id"), s("42")),
            (s("owner"), s("alice")),
            (s("total_shares"), s("1000")),
            (s("token_name"), s("Fractional Token")),
            (s("token_symbol"), s("FRAC")),
        ]
    );

    let again = fractionalize(&mut store, "alice", "nftcol1", "42", 1000);
    assert_eq!(again, Err(ContractError::AlreadyFractionalized));

    let r = redeem(&mut store, "alice", "nftcol1", "42").unwrap();
    assert_eq!(
        r.messages,
        vec![
            Effect::BurnFrom { cw20_contract: s(""), owner: s("alice"), amount: 1000 },
            Effect::TransferNft { nft_contract: s("nftcol1"), recipient: s("alice"), token_id: s("42") },
        ]
    );
    assert_eq!(
        attrs(&r),
        vec![
            (s("action"), s("redeem_nft")),
            (s("nft_contract"), s("nftcol1")),
            (s("token_id"), s("42")),
            (s("owner"), s("alice")),
        ]
    );
    assert_eq!(info(&store, "nftcol1", "42"), Err(ContractError::FractionalNFTNotFound));

    let again = redeem(&mut store, "alice", "nftcol1", "42");
    assert_eq!(again, Err(ContractError::FractionalNFTNotFound));
}

#[test]
fn fractionalize_stores_binding_and_two_effects() {
    let mut store = BindingStore::new();
    let r = fractionalize(&mut store, "bob", "col", "7", 1).unwrap();
    assert_eq!(r.messages.len(), 2);
    assert!(matches!(r.messages[0], Effect::TransferNft { .. }));
    assert!(matches!(r.messages[1], Effect::InstantiateCw20 { .. }));
    assert_eq!(info(&store, "col", "7").unwrap().total_shares, 1);
}

#[test]
fn fractionalize_zero_shares_fails_without_change() {
    let mut store = BindingStore::new();
    fractionalize(&mut store, "alice", "col", "1", 5).unwrap();
    let r = fractionalize(&mut store, "alice", "col", "2", 0);
    assert_eq!(r, Err(ContractError::ZeroShares));
    assert_eq!(info(&store, "col", "2"), Err(ContractError::FractionalNFTNotFound));
    assert_eq!(info(&store, "col", "1").unwrap().total_shares, 5);
}

#[test]
fn fractionalize_zero_shares_checked_before_address() {
    let mut store = BindingStore::new();
    let r = fractionalize_nft(
        &mut store,
        &env(),
        &s("alice"),
        s("BAD"),
        Err(s("invalid address")),
        s("1"),
        0,
        s("N"),
        s("S"),
    );
    assert_eq!(r, Err(ContractError::ZeroShares));
}

#[test]
fn fractionalize_invalid_address_fails() {
    let mut store = BindingStore::new();
    let r = fractionalize_nft(
        &mut store,
        &env(),
        &s("alice"),
        s("BAD"),
        Err(s("invalid address")),
        s("1"),
        10,
        s("N"),
        s("S"),
    );
    assert_eq!(r, Err(ContractError::Std(s("invalid address"))));
    let r = redeem_nft(&mut store, &s("alice"), s("BAD"), Err(s("invalid address")), s("1"));
    assert_eq!(r, Err(ContractError::Std(s("invalid address"))));
}

#[test]
fn fractionalize_duplicate_keeps_existing_binding() {
    let mut store = BindingStore::new();
    fractionalize(&mut store, "alice", "col", "1", 10).unwrap();
    let r = fractionalize(&mut store, "mallory", "col", "1", 99);
    assert_eq!(r, Err(ContractError::AlreadyFractionalized));
    let b = info(&store, "col", "1").unwrap();
    assert_eq!(b.owner, s("alice"));
    assert_eq!(b.total_shares, 10);
}

#[test]
fn same_token_id_in_other_collection_is_distinct() {
    let mut store = BindingStore::new();
    fractionalize(&mut store, "alice", "col_a", "1", 10).unwrap();
    fractionalize(&mut store, "bob", "col_b", "1", 20).unwrap();
    assert_eq!(info(&store, "col_a", "1").unwrap().owner, s("alice"));
    assert_eq!(info(&store, "col_b", "1").unwrap().owner, s("bob"));
    redeem(&mut store, "bob", "col_b", "1").unwrap();
    assert_eq!(info(&store, "col_a", "1").unwrap().total_shares, 10);
}

#[test]
fn redeem_burns_share_supply_of_binding() {
    let mut store = BindingStore::new();
    fractionalize(&mut store, "alice", "col", "9", u128::MAX).unwrap();
    let r = fractionalize(&mut store, "alice", "col", "10", 3).unwrap();
    assert_eq!(attrs(&r)[4], (s("total_shares"), s("3")));
    let r = redeem(&mut store, "carol", "col", "9").unwrap();
    assert_eq!(
        r.messages[0],
        Effect::BurnFrom { cw20_contract: s(""), owner: s("carol"), amount: u128::MAX }
    );
    assert_eq!(
        r.messages[1],
        Effect::TransferNft { nft_contract: s("col"), recipient: s("carol"), token_id: s("9") }
    );
}

#[test]
fn redeem_missing_fails_without_effects() {
    let mut store = BindingStore::new();
    fractionalize(&mut store, "alice", "col", "1", 10).unwrap();
    let r = redeem(&mut store, "alice", "col", "2");
    assert_eq!(r, Err(ContractError::FractionalNFTNotFound));
    assert_eq!(info(&store, "col", "1").unwrap().total_shares, 10);
}

#[test]
fn round_trip_restores_store() {
    let mut store = BindingStore::new();
    fractionalize(&mut store, "alice", "col", "1", 10).unwrap();
    fractionalize(&mut store, "bob", "col", "2", 50).unwrap();
    redeem(&mut store, "bob", "col", "2").unwrap();
    assert_eq!(info(&store, "col", "2"), Err(ContractError::FractionalNFTNotFound));
    assert_eq!(info(&store, "col", "1").unwrap().owner, s("alice"));
    let r = fractionalize(&mut store, "dave", "col", "2", 8);
    assert!(r.is_ok());
}

#[test]
fn total_shares_attribute_is_decimal() {
    let mut store = BindingStore::new();
    let r = fractionalize(&mut store, "alice", "col", "1", 340282366920938463463374607431768211455).unwrap();
    assert_eq!(attrs(&r)[4].1, s("340282366920938463463374607431768211455"));
    let r = fractionalize(&mut store, "alice", "col", "2", 10).unwrap();
    assert_eq!(attrs(&r)[4].1, s("10"));
}

#[test]
fn record_issuance_activates_binding() {
    let mut store = BindingStore::new();
    fractionalize(&mut store, "alice", "col", "1", 10).unwrap();
    assert_eq!(
        query_fractional_token_address(&store, Ok(s("col")), s("1")),
        Err(ContractError::IssuancePending)
    );
    assert_eq!(record_cw20_contract(&mut store, &s("col"), &s("1"), s("cw20addr")), Ok(()));
    assert_eq!(query_fractional_token_address(&store, Ok(s("col")), s("1")), Ok(s("cw20addr")));
    let b = info(&store, "col", "1").unwrap();
    assert_eq!(b.cw20_contract, Issuance::Active { address: s("cw20addr") });
    assert_eq!(b.total_shares, 10);
    assert_eq!(
        record_cw20_contract(&mut store, &s("col"), &s("1"), s("other")),
        Err(ContractError::IssuanceAlreadyRecorded)
    );
    assert_eq!(
        record_cw20_contract(&mut store, &s("col"), &s("2"), s("other")),
        Err(ContractError::FractionalNFTNotFound)
    );
    let r = redeem(&mut store, "alice", "col", "1").unwrap();
    assert_eq!(
        r.messages[0],
        Effect::BurnFrom { cw20_contract: s("cw20addr"), owner: s("alice"), amount: 10 }
    );
}

#[test]
fn execute_and_query_dispatch() {
    let mut store = BindingStore::new();
    let r = instantiate(InstantiateMsg {}).unwrap();
    assert!(r.messages.is_empty() && r.attributes.is_empty());
    let msg = ExecuteMsg::FractionalizeNFT {
        nft_contract: s("col"),
        token_id: s("5"),
        total_shares: 100,
        token_name: s("T"),
        token_symbol: s("TT"),
    };
    let r = execute(&mut store, &env(), &s("alice"), msg, Ok(s("col"))).unwrap();
    assert_eq!(r.messages.len(), 2);
    let q = query(&store, QueryMsg::FractionalNFTInfo { nft_contract: s("col"), token_id: s("5") }, Ok(s("col")));
    match q {
        Ok(QueryResponse::FractionalNFTInfo(b)) => assert_eq!(b.total_shares, 100),
        other => panic!("unexpected {:?}", other),
    }
    let q = query(&store, QueryMsg::FractionalTokenAddress { nft_contract: s("col"), token_id: s("6") }, Ok(s("col")));
    assert_eq!(q, Err(ContractError::FractionalNFTNotFound));
    let r = execute(&mut store, &env(), &s("alice"), ExecuteMsg::RedeemNFT { nft_contract: s("col"), token_id: s("5") }, Ok(s("col"))).unwrap();
    assert_eq!(r.messages.len(), 2);
    let q = query(&store, QueryMsg::FractionalNFTInfo { nft_contract: s("col"), token_id: s("5") }, Ok(s("col")));
    assert_eq!(q, Err(ContractError::FractionalNFTNotFound));
}

#[test]
fn error_messages() {
    assert_eq!(ContractError::ZeroShares.message(), s("Cannot fractionalize zero shares"));
    assert_eq!(ContractError::AlreadyFractionalized.message(), s("Already fractionalized"));
    assert_eq!(ContractError::FractionalNFTNotFound.message(), s("Fractional NFT not found"));
    assert_eq!(ContractError::Std(s("boom")).message(), s("boom"));
}
