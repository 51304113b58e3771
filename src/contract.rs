use vstd::prelude::*;

use crate::error::ContractError;
use crate::msg::{ExecuteMsg, InstantiateMsg, QueryMsg, QueryResponse};
use crate::helpers::{
    burn_from, instantiate_cw20, transfer_nft_to_contract, transfer_nft_to_recipient, Cw20Coin,
    Effect, EffectView,
};
use crate::state::{BindingKey, BindingStore, FractionalNFT, FractionalNFTView, Issuance};

verus! {

/// Claim-tokens are whole units.
pub const DECIMALS: u8 = 0;

/// What the host tells a transition about where it runs.
#[derive(Debug, Clone, PartialEq, Eq)]
pub struct ContractEnv {
    /// This contract's own address: the custodian of locked NFTs.
    pub contract_address: String,
    /// The stored code from which claim-token issuances are instantiated.
    pub cw20_code_id: u64,
}

/// A key/value pair of the audit record of a transition.
#[derive(Debug, Clone, PartialEq, Eq)]
pub struct Attribute {
    pub key: String,
    pub value: String,
}

impl View for Attribute {
    type V = (Seq<char>, Seq<char>);

    open spec fn view(&self) -> (Seq<char>, Seq<char>) {
        (self.key@, self.value@)
    }
}

/// The outcome of a successful transition: the effects for the host to run,
/// in order, and the audit record.
#[derive(Debug, Clone, PartialEq, Eq)]
pub struct Response {
    pub messages: Vec<Effect>,
    pub attributes: Vec<Attribute>,
}

pub struct ResponseView {
    pub messages: Seq<EffectView>,
    pub attributes: Seq<(Seq<char>, Seq<char>)>,
}

impl View for Response {
    type V = ResponseView;

    open spec fn view(&self) -> ResponseView {
        ResponseView {
            messages: self.messages@.map_values(|e: Effect| e@),
            attributes: self.attributes@.map_values(|a: Attribute| a@),
        }
    }
}

pub open spec fn decimal_digit(d: nat) -> char {
    seq!['0', '1', '2', '3', '4', '5', '6', '7', '8', '9'][d as int]
}

/// The decimal notation of `n`: no sign, no leading zero.
pub open spec fn decimal(n: nat) -> Seq<char>
    decreases n,
{
    if n < 10 {
        seq![decimal_digit(n)]
    } else {
        decimal(n / 10).push(decimal_digit(n % 10))
    }
}

fn digit_string(d: u128) -> (r: String)
    requires
        d < 10,
    ensures
        r@ == seq![decimal_digit(d as nat)],
{
    match d {
        0 => {
            proof {
                reveal_strlit("0");
            }
            "0".to_owned()
        },
        1 => {
            proof {
                reveal_strlit("1");
            }
            "1".to_owned()
        },
        2 => {
            proof {
                reveal_strlit("2");
            }
            "2".to_owned()
        },
        3 => {
            proof {
                reveal_strlit("3");
            }
            "3".to_owned()
        },
        4 => {
            proof {
                reveal_strlit("4");
            }
            "4".to_owned()
        },
        5 => {
            proof {
                reveal_strlit("5");
            }
            "5".to_owned()
        },
        6 => {
            proof {
                reveal_strlit("6");
            }
            "6".to_owned()
        },
        7 => {
            proof {
                reveal_strlit("7");
            }
            "7".to_owned()
        },
        8 => {
            proof {
                reveal_strlit("8");
            }
            "8".to_owned()
        },
        _ => {
            proof {
                reveal_strlit("9");
            }
            "9".to_owned()
        },
    }
}

/// The decimal notation of `n`, built from its last digit towards its first.
fn decimal_string(n: u128) -> (r: String)
    ensures
        r@ == decimal(n as nat),
{
    let mut m: u128 = n / 10;
    let mut s = digit_string(n % 10);
    while m > 0
        invariant
            m == 0 ==> s@ == decimal(n as nat),
            m > 0 ==> decimal(n as nat) == decimal(m as nat) + s@,
        decreases m,
    {
        let ghost before = s@;
        let d = digit_string(m % 10);
        s = d.concat(s.as_str());
        proof {
            if m >= 10 {
                assert(decimal(m as nat) == decimal((m / 10) as nat).push(decimal_digit((m % 10) as nat)));
                assert(decimal((m / 10) as nat).push(decimal_digit((m % 10) as nat)) + before
                    =~= decimal((m / 10) as nat) + s@);
            } else {
                assert(decimal(m as nat) == seq![decimal_digit(m as nat)]);
                assert(s@ =~= decimal(m as nat) + before);
            }
        }
        m = m / 10;
    }
    s
}

fn attr(key: &str, value: String) -> (r: Attribute)
    ensures
        r@ == (key@, value@),
{
    Attribute { key: key.to_owned(), value }
}

/// The label of the claim-token issuance of an NFT.
pub open spec fn label_of(nft_contract: Seq<char>, token_id: Seq<char>) -> Seq<char> {
    "Fractional tokens for NFT "@ + nft_contract + ":"@ + token_id
}

/// The binding that fractionalizing stores: its issuance is pending until
/// the host reports the address of the new claim-token contract.
pub open spec fn new_binding(
    owner: Seq<char>,
    nft_contract: Seq<char>,
    token_id: Seq<char>,
    total_shares: u128,
) -> FractionalNFTView {
    FractionalNFTView { owner, nft_contract, token_id, total_shares, cw20_contract: None }
}

/// The store after a successful fractionalization.
pub open spec fn fractionalized(
    s: Map<BindingKey, FractionalNFTView>,
    owner: Seq<char>,
    nft_contract: Seq<char>,
    token_id: Seq<char>,
    total_shares: u128,
) -> Map<BindingKey, FractionalNFTView> {
    s.insert((nft_contract, token_id), new_binding(owner, nft_contract, token_id, total_shares))
}

/// The store after a successful redemption.
pub open spec fn redeemed(
    s: Map<BindingKey, FractionalNFTView>,
    nft_contract: Seq<char>,
    token_id: Seq<char>,
) -> Map<BindingKey, FractionalNFTView> {
    s.remove((nft_contract, token_id))
}

/// Lock the NFT in custody, then create the issuance that mints every share
/// to the depositor, with this contract as its admin and no minter.
pub open spec fn fractionalize_effects(
    env_address: Seq<char>,
    code_id: u64,
    owner: Seq<char>,
    raw_contract: Seq<char>,
    nft_contract: Seq<char>,
    token_id: Seq<char>,
    total_shares: u128,
    token_name: Seq<char>,
    token_symbol: Seq<char>,
) -> Seq<EffectView> {
    seq![
        EffectView::TransferNft { nft_contract, recipient: env_address, token_id },
        EffectView::InstantiateCw20 {
            admin: Some(env_address),
            code_id,
            label: label_of(raw_contract, token_id),
            name: token_name,
            symbol: token_symbol,
            decimals: DECIMALS,
            initial_balances: seq![(owner, total_shares)],
            mint: None,
        },
    ]
}

pub open spec fn fractionalize_attributes(
    raw_contract: Seq<char>,
    token_id: Seq<char>,
    owner: Seq<char>,
    total_shares: u128,
    token_name: Seq<char>,
    token_symbol: Seq<char>,
) -> Seq<(Seq<char>, Seq<char>)> {
    seq![
        ("action"@, "fractionalize_nft"@),
        ("nft_contract"@, raw_contract),
        ("token_id"@, token_id),
        ("owner"@, owner),
        ("total_shares"@, decimal(total_shares as nat)),
        ("token_name"@, token_name),
        ("token_symbol"@, token_symbol),
    ]
}

/// What fractionalizing does. `validated_contract` is the host's verdict on
/// the address `raw_contract`. In order: zero shares are refused, then a
/// malformed address, then a key that is already bound; otherwise the
/// binding is stored and the two effects are returned.
pub open spec fn fractionalize_post(
    before: Map<BindingKey, FractionalNFTView>,
    after: Map<BindingKey, FractionalNFTView>,
    env: &ContractEnv,
    sender: Seq<char>,
    raw_contract: Seq<char>,
    validated_contract: Result<String, String>,
    token_id: Seq<char>,
    total_shares: u128,
    token_name: Seq<char>,
    token_symbol: Seq<char>,
    r: Result<Response, ContractError>,
) -> bool {
    if total_shares == 0 {
        r == Err::<Response, ContractError>(ContractError::ZeroShares) && after == before
    } else {
        match validated_contract {
            Err(m) => r == Err::<Response, ContractError>(ContractError::Std(m)) && after == before,
            Ok(addr) => if before.contains_key((addr@, token_id)) {
                r == Err::<Response, ContractError>(ContractError::AlreadyFractionalized)
                    && after == before
            } else {
                &&& r is Ok
                &&& after == fractionalized(before, sender, addr@, token_id, total_shares)
                &&& r->Ok_0@ == (ResponseView {
                    messages: fractionalize_effects(
                        env.contract_address@,
                        env.cw20_code_id,
                        sender,
                        raw_contract,
                        addr@,
                        token_id,
                        total_shares,
                        token_name,
                        token_symbol,
                    ),
                    attributes: fractionalize_attributes(
                        raw_contract,
                        token_id,
                        sender,
                        total_shares,
                        token_name,
                        token_symbol,
                    ),
                })
            },
        }
    }
}

/// Locks the NFT `token_id` of `nft_contract` and issues `total_shares`
/// claim-tokens for it to `sender`.
pub fn fractionalize_nft(
    store: &mut BindingStore,
    env: &ContractEnv,
    sender: &String,
    nft_contract: String,
    validated_contract: Result<String, String>,
    token_id: String,
    total_shares: u128,
    token_name: String,
    token_symbol: String,
) -> (r: Result<Response, ContractError>)
    requires
        old(store).wf(),
    ensures
        final(store).wf(),
        fractionalize_post(
            old(store)@,
            final(store)@,
            env,
            sender@,
            nft_contract@,
            validated_contract,
            token_id@,
            total_shares,
            token_name@,
            token_symbol@,
            r,
        ),
{
    if total_shares == 0 {
        return Err(ContractError::ZeroShares);
    }
    let nft_contract_addr = match validated_contract {
        Ok(a) => a,
        Err(m) => {
            return Err(ContractError::Std(m));
        },
    };
    let owner = sender.clone();
    if store.contains(&nft_contract_addr, &token_id) {
        return Err(ContractError::AlreadyFractionalized);
    }
    let transfer_nft_msg = transfer_nft_to_contract(
        &nft_contract_addr,
        token_id.as_str(),
        &env.contract_address,
    );
    let label = "Fractional tokens for NFT ".to_owned().concat(nft_contract.as_str()).concat(
        ":",
    ).concat(token_id.as_str());
    let mut initial_balances: Vec<Cw20Coin> = Vec::new();
    initial_balances.push(Cw20Coin { address: owner.clone(), amount: total_shares });
    assert(initial_balances@.map_values(|c: Cw20Coin| c@) =~= seq![(owner@, total_shares)]);
    let cw20_instantiate_msg = instantiate_cw20(
        env.cw20_code_id,
        token_name.as_str(),
        token_symbol.as_str(),
        DECIMALS,
        initial_balances,
        None,
        Some(env.contract_address.clone()),
        label.as_str(),
    );
    store.insert(
        FractionalNFT {
            owner: owner.clone(),
            nft_contract: nft_contract_addr.clone(),
            token_id: token_id.clone(),
            total_shares,
            cw20_contract: Issuance::Pending,
        },
    );
    let mut messages: Vec<Effect> = Vec::new();
    messages.push(transfer_nft_msg);
    messages.push(cw20_instantiate_msg);
    let mut attributes: Vec<Attribute> = Vec::new();
    attributes.push(attr("action", "fractionalize_nft".to_owned()));
    attributes.push(attr("nft_contract", nft_contract));
    attributes.push(attr("token_id", token_id));
    attributes.push(attr("owner", owner));
    attributes.push(attr("total_shares", decimal_string(total_shares)));
    attributes.push(attr("token_name", token_name));
    attributes.push(attr("token_symbol", token_symbol));
    let resp = Response { messages, attributes };
    assert(resp@.messages =~= fractionalize_effects(
        env.contract_address@,
        env.cw20_code_id,
        sender@,
        nft_contract@,
        nft_contract_addr@,
        token_id@,
        total_shares,
        token_name@,
        token_symbol@,
    ));
    assert(resp@.attributes =~= fractionalize_attributes(
        nft_contract@,
        token_id@,
        sender@,
        total_shares,
        token_name@,
        token_symbol@,
    ));
    Ok(resp)
}

/// The address of an issuance; empty while it is pending.
pub open spec fn issuance_address(cw20_contract: Option<Seq<char>>) -> Seq<char> {
    match cw20_contract {
        Some(a) => a,
        None => Seq::empty(),
    }
}

/// Burn the full share supply of `b` from the redeemer, then hand the NFT
/// out of custody to the redeemer.
pub open spec fn redeem_effects(b: FractionalNFTView, sender: Seq<char>) -> Seq<EffectView> {
    seq![
        EffectView::BurnFrom {
            cw20_contract: issuance_address(b.cw20_contract),
            owner: sender,
            amount: b.total_shares,
        },
        EffectView::TransferNft { nft_contract: b.nft_contract, recipient: sender, token_id: b.token_id },
    ]
}

pub open spec fn redeem_attributes(
    raw_contract: Seq<char>,
    token_id: Seq<char>,
    sender: Seq<char>,
) -> Seq<(Seq<char>, Seq<char>)> {
    seq![
        ("action"@, "redeem_nft"@),
        ("nft_contract"@, raw_contract),
        ("token_id"@, token_id),
        ("owner"@, sender),
    ]
}

/// What redeeming does: a malformed address is refused, then a key with no
/// binding; otherwise the binding is deleted and the two effects returned.
pub open spec fn redeem_post(
    before: Map<BindingKey, FractionalNFTView>,
    after: Map<BindingKey, FractionalNFTView>,
    sender: Seq<char>,
    raw_contract: Seq<char>,
    validated_contract: Result<String, String>,
    token_id: Seq<char>,
    r: Result<Response, ContractError>,
) -> bool {
    match validated_contract {
        Err(m) => r == Err::<Response, ContractError>(ContractError::Std(m)) && after == before,
        Ok(addr) => if !before.contains_key((addr@, token_id)) {
            r == Err::<Response, ContractError>(ContractError::FractionalNFTNotFound) && after
                == before
        } else {
            &&& r is Ok
            &&& after == redeemed(before, addr@, token_id)
            &&& r->Ok_0@ == (ResponseView {
                messages: redeem_effects(before[(addr@, token_id)], sender),
                attributes: redeem_attributes(raw_contract, token_id, sender),
            })
        },
    }
}

/// Burns every claim-token of the NFT `token_id` of `nft_contract` from
/// `sender` and releases the NFT to `sender`.
pub fn redeem_nft(
    store: &mut BindingStore,
    sender: &String,
    nft_contract: String,
    validated_contract: Result<String, String>,
    token_id: String,
) -> (r: Result<Response, ContractError>)
    requires
        old(store).wf(),
    ensures
        final(store).wf(),
        redeem_post(
            old(store)@,
            final(store)@,
            sender@,
            nft_contract@,
            validated_contract,
            token_id@,
            r,
        ),
{
    let nft_contract_addr = match validated_contract {
        Ok(a) => a,
        Err(m) => {
            return Err(ContractError::Std(m));
        },
    };
    proof {
        store.lemma_valid();
    }
    let fractional_nft = match store.remove(&nft_contract_addr, &token_id) {
        Some(b) => b,
        None => {
            return Err(ContractError::FractionalNFTNotFound);
        },
    };
    let cw20_contract_addr = match &fractional_nft.cw20_contract {
        Issuance::Active { address } => address.clone(),
        Issuance::Pending => String::new(),
    };
    let burn_msg = burn_from(&cw20_contract_addr, sender, fractional_nft.total_shares);
    let transfer_nft_msg = transfer_nft_to_recipient(&nft_contract_addr, token_id.as_str(), sender);
    let mut messages: Vec<Effect> = Vec::new();
    messages.push(burn_msg);
    messages.push(transfer_nft_msg);
    let mut attributes: Vec<Attribute> = Vec::new();
    attributes.push(attr("action", "redeem_nft".to_owned()));
    attributes.push(attr("nft_contract", nft_contract));
    attributes.push(attr("token_id", token_id));
    attributes.push(attr("owner", sender.clone()));
    let resp = Response { messages, attributes };
    assert(resp@.messages =~= redeem_effects(fractional_nft@, sender@));
    assert(resp@.attributes =~= redeem_attributes(nft_contract@, token_id@, sender@));
    Ok(resp)
}

/// Second phase of fractionalizing: records the address at which the host
/// instantiated the issuance of a pending binding. A missing binding and an
/// issuance recorded before are refused; nothing else of the binding changes.
pub fn record_cw20_contract(
    store: &mut BindingStore,
    nft_contract: &String,
    token_id: &String,
    cw20_contract: String,
) -> (r: Result<(), ContractError>)
    requires
        old(store).wf(),
    ensures
        final(store).wf(),
        !old(store)@.contains_key((nft_contract@, token_id@)) ==> r == Err::<(), ContractError>(
            ContractError::FractionalNFTNotFound,
        ),
        old(store)@.contains_key((nft_contract@, token_id@)) && old(store)@[(
            nft_contract@,
            token_id@,
        )].cw20_contract is Some ==> r == Err::<(), ContractError>(
            ContractError::IssuanceAlreadyRecorded,
        ),
        old(store)@.contains_key((nft_contract@, token_id@)) && old(store)@[(
            nft_contract@,
            token_id@,
        )].cw20_contract is None ==> r is Ok,
        r is Err ==> final(store)@ == old(store)@,
        r is Ok ==> old(store)@.contains_key((nft_contract@, token_id@)) && old(store)@[(
            nft_contract@,
            token_id@,
        )].cw20_contract is None && final(store)@ == old(store)@.insert(
            (nft_contract@, token_id@),
            FractionalNFTView {
                cw20_contract: Some(cw20_contract@),
                ..old(store)@[(nft_contract@, token_id@)]
            },
        ),
{
    let pending = match store.get(nft_contract, token_id) {
        None => {
            return Err(ContractError::FractionalNFTNotFound);
        },
        Some(b) => match &b.cw20_contract {
            Issuance::Pending => true,
            Issuance::Active { .. } => false,
        },
    };
    if !pending {
        return Err(ContractError::IssuanceAlreadyRecorded);
    }
    store.set_cw20_contract(nft_contract, token_id, cw20_contract);
    Ok(())
}

/// Reads the binding of an NFT.
pub fn query_fractional_nft_info(
    store: &BindingStore,
    validated_contract: Result<String, String>,
    token_id: String,
) -> (r: Result<FractionalNFT, ContractError>)
    requires
        store.wf(),
    ensures
        match validated_contract {
            Err(m) => r == Err::<FractionalNFT, ContractError>(ContractError::Std(m)),
            Ok(addr) => if store@.contains_key((addr@, token_id@)) {
                r is Ok && r->Ok_0@ == store@[(addr@, token_id@)]
            } else {
                r == Err::<FractionalNFT, ContractError>(ContractError::FractionalNFTNotFound)
            },
        },
{
    let nft_contract_addr = match validated_contract {
        Ok(a) => a,
        Err(m) => {
            return Err(ContractError::Std(m));
        },
    };
    match store.get(&nft_contract_addr, &token_id) {
        Some(b) => Ok(b.duplicate()),
        None => Err(ContractError::FractionalNFTNotFound),
    }
}

/// Reads the address of the claim-token issuance of an NFT.
pub fn query_fractional_token_address(
    store: &BindingStore,
    validated_contract: Result<String, String>,
    token_id: String,
) -> (r: Result<String, ContractError>)
    requires
        store.wf(),
    ensures
        match validated_contract {
            Err(m) => r == Err::<String, ContractError>(ContractError::Std(m)),
            Ok(addr) => if !store@.contains_key((addr@, token_id@)) {
                r == Err::<String, ContractError>(ContractError::FractionalNFTNotFound)
            } else {
                match store@[(addr@, token_id@)].cw20_contract {
                    Some(a) => r is Ok && r->Ok_0@ == a,
                    None => r == Err::<String, ContractError>(ContractError::IssuancePending),
                }
            },
        },
{
    let nft_contract_addr = match validated_contract {
        Ok(a) => a,
        Err(m) => {
            return Err(ContractError::Std(m));
        },
    };
    match store.get(&nft_contract_addr, &token_id) {
        Some(b) => match &b.cw20_contract {
            Issuance::Active { address } => Ok(address.clone()),
            Issuance::Pending => Err(ContractError::IssuancePending),
        },
        None => Err(ContractError::FractionalNFTNotFound),
    }
}

/// Setting the contract up takes no configuration and has no effect.
pub fn instantiate(_msg: InstantiateMsg) -> (r: Result<Response, ContractError>)
    ensures
        r is Ok,
        r->Ok_0@.messages.len() == 0,
        r->Ok_0@.attributes.len() == 0,
{
    Ok(Response { messages: Vec::new(), attributes: Vec::new() })
}

/// Runs the transition that `msg` asks for. `validated_contract` is the
/// host's verdict on the NFT contract address that `msg` names.
pub fn execute(
    store: &mut BindingStore,
    env: &ContractEnv,
    sender: &String,
    msg: ExecuteMsg,
    validated_contract: Result<String, String>,
) -> (r: Result<Response, ContractError>)
    requires
        old(store).wf(),
    ensures
        final(store).wf(),
        match msg {
            ExecuteMsg::FractionalizeNFT {
                nft_contract,
                token_id,
                total_shares,
                token_name,
                token_symbol,
            } => fractionalize_post(
                old(store)@,
                final(store)@,
                env,
                sender@,
                nft_contract@,
                validated_contract,
                token_id@,
                total_shares,
                token_name@,
                token_symbol@,
                r,
            ),
            ExecuteMsg::RedeemNFT { nft_contract, token_id } => redeem_post(
                old(store)@,
                final(store)@,
                sender@,
                nft_contract@,
                validated_contract,
                token_id@,
                r,
            ),
        },
{
    match msg {
        ExecuteMsg::FractionalizeNFT {
            nft_contract,
            token_id,
            total_shares,
            token_name,
            token_symbol,
        } => fractionalize_nft(
            store,
            env,
            sender,
            nft_contract,
            validated_contract,
            token_id,
            total_shares,
            token_name,
            token_symbol,
        ),
        ExecuteMsg::RedeemNFT { nft_contract, token_id } => redeem_nft(
            store,
            sender,
            nft_contract,
            validated_contract,
            token_id,
        ),
    }
}

/// Answers `msg`. `validated_contract` is the host's verdict on the NFT
/// contract address that `msg` names.
pub fn query(store: &BindingStore, msg: QueryMsg, validated_contract: Result<String, String>) -> (r:
    Result<QueryResponse, ContractError>)
    requires
        store.wf(),
    ensures
        match validated_contract {
            Err(m) => r == Err::<QueryResponse, ContractError>(ContractError::Std(m)),
            Ok(addr) => match msg {
                QueryMsg::FractionalNFTInfo { token_id, .. } => if store@.contains_key(
                    (addr@, token_id@),
                ) {
                    r matches Ok(QueryResponse::FractionalNFTInfo(b)) && b@ == store@[(
                        addr@,
                        token_id@,
                    )]
                } else {
                    r == Err::<QueryResponse, ContractError>(
                        ContractError::FractionalNFTNotFound,
                    )
                },
                QueryMsg::FractionalTokenAddress { token_id, .. } => if !store@.contains_key(
                    (addr@, token_id@),
                ) {
                    r == Err::<QueryResponse, ContractError>(
                        ContractError::FractionalNFTNotFound,
                    )
                } else {
                    match store@[(addr@, token_id@)].cw20_contract {
                        Some(a) => r matches Ok(QueryResponse::FractionalTokenAddress(t)) && t@
                            == a,
                        None => r == Err::<QueryResponse, ContractError>(
                            ContractError::IssuancePending,
                        ),
                    }
                },
            },
        },
{
    match msg {
        QueryMsg::FractionalNFTInfo { nft_contract: _, token_id } => {
            match query_fractional_nft_info(store, validated_contract, token_id) {
                Ok(b) => Ok(QueryResponse::FractionalNFTInfo(b)),
                Err(e) => Err(e),
            }
        },
        QueryMsg::FractionalTokenAddress { nft_contract: _, token_id } => {
            match query_fractional_token_address(store, validated_contract, token_id) {
                Ok(a) => Ok(QueryResponse::FractionalTokenAddress(a)),
                Err(e) => Err(e),
            }
        },
    }
}

/// Fractionalizing an NFT that has no binding, with a positive share count
/// and a valid address, and then redeeming it at once: both succeed, the
/// store ends as it began, and the redemption burns exactly the shares that
/// were issued, from the redeemer, before it releases the NFT.
pub proof fn lemma_fractionalize_then_redeem(
    s0: Map<BindingKey, FractionalNFTView>,
    s1: Map<BindingKey, FractionalNFTView>,
    s2: Map<BindingKey, FractionalNFTView>,
    env: &ContractEnv,
    sender: Seq<char>,
    raw_contract: Seq<char>,
    validated_contract: Result<String, String>,
    token_id: Seq<char>,
    total_shares: u128,
    token_name: Seq<char>,
    token_symbol: Seq<char>,
    r1: Result<Response, ContractError>,
    r2: Result<Response, ContractError>,
)
    requires
        validated_contract is Ok,
        !s0.contains_key((validated_contract->Ok_0@, token_id)),
        total_shares > 0,
        fractionalize_post(
            s0,
            s1,
            env,
            sender,
            raw_contract,
            validated_contract,
            token_id,
            total_shares,
            token_name,
            token_symbol,
            r1,
        ),
        redeem_post(s1, s2, sender, raw_contract, validated_contract, token_id, r2),
    ensures
        r1 is Ok,
        r2 is Ok,
        s2 == s0,
        r2->Ok_0@.messages == seq![
            EffectView::BurnFrom { cw20_contract: Seq::empty(), owner: sender, amount: total_shares },
            EffectView::TransferNft {
                nft_contract: validated_contract->Ok_0@,
                recipient: sender,
                token_id,
            },
        ],
{
    let k = (validated_contract->Ok_0@, token_id);
    assert(s1.contains_key(k));
    assert(s0.insert(k, s1[k]).remove(k) =~= s0);
}

} // verus!
