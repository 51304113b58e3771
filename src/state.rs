use vstd::prelude::*;

verus! {

/// Where the claim-token issuance of a binding stands: created in the same
/// transaction as the binding, its address is only known once the host has
/// run the instantiation and reported back.
#[derive(Debug, Clone, PartialEq, Eq)]
pub enum Issuance {
    Pending,
    Active { address: String },
}

impl View for Issuance {
    type V = Option<Seq<char>>;

    open spec fn view(&self) -> Option<Seq<char>> {
        match self {
            Issuance::Pending => None,
            Issuance::Active { address } => Some(address@),
        }
    }
}

impl Issuance {
    pub fn duplicate(&self) -> (r: Issuance)
        ensures
            r@ == self@,
    {
        match self {
            Issuance::Pending => Issuance::Pending,
            Issuance::Active { address } => Issuance::Active { address: address.clone() },
        }
    }
}

/// The record that ties one custodied NFT to its claim-token issuance.
#[derive(Debug, Clone, PartialEq, Eq)]
pub struct FractionalNFT {
    pub owner: String,
    pub nft_contract: String,
    pub token_id: String,
    pub total_shares: u128,
    pub cw20_contract: Issuance,
}

pub struct FractionalNFTView {
    pub owner: Seq<char>,
    pub nft_contract: Seq<char>,
    pub token_id: Seq<char>,
    pub total_shares: u128,
    pub cw20_contract: Option<Seq<char>>,
}

/// A binding is keyed by (NFT contract address, token id).
pub type BindingKey = (Seq<char>, Seq<char>);

impl FractionalNFTView {
    pub open spec fn key(self) -> BindingKey {
        (self.nft_contract, self.token_id)
    }
}

impl View for FractionalNFT {
    type V = FractionalNFTView;

    open spec fn view(&self) -> FractionalNFTView {
        FractionalNFTView {
            owner: self.owner@,
            nft_contract: self.nft_contract@,
            token_id: self.token_id@,
            total_shares: self.total_shares,
            cw20_contract: self.cw20_contract@,
        }
    }
}

impl FractionalNFT {
    pub fn duplicate(&self) -> (r: FractionalNFT)
        ensures
            r@ == self@,
    {
        FractionalNFT {
            owner: self.owner.clone(),
            nft_contract: self.nft_contract.clone(),
            token_id: self.token_id.clone(),
            total_shares: self.total_shares,
            cw20_contract: self.cw20_contract.duplicate(),
        }
    }
}

/// What every live binding satisfies: it sits under its own key and was
/// issued a positive number of shares.
pub open spec fn valid_bindings(m: Map<BindingKey, FractionalNFTView>) -> bool {
    forall|k: BindingKey| #[trigger]
        m.contains_key(k) ==> m[k].key() == k && m[k].total_shares > 0
}

/// The store of bindings, at most one per key.
pub struct BindingStore {
    entries: Vec<FractionalNFT>,
    contents: Ghost<Map<BindingKey, FractionalNFTView>>,
}

impl View for BindingStore {
    type V = Map<BindingKey, FractionalNFTView>;

    closed spec fn view(&self) -> Map<BindingKey, FractionalNFTView> {
        self.contents@
    }
}

impl BindingStore {
    pub closed spec fn wf(&self) -> bool {
        &&& forall|i: int|
            0 <= i < self.entries@.len() ==> {
                let b = #[trigger] self.entries@[i]@;
                self.contents@.contains_key(b.key()) && self.contents@[b.key()] == b
            }
        &&& forall|k: BindingKey| #[trigger]
            self.contents@.contains_key(k) ==> exists|i: int|
                0 <= i < self.entries@.len() && #[trigger] self.entries@[i]@.key() == k
        &&& forall|i: int, j: int|
            0 <= i < j < self.entries@.len() ==> #[trigger] self.entries@[i]@.key()
                != #[trigger] self.entries@[j]@.key()
        &&& valid_bindings(self.contents@)
    }

    /// Every store that methods of this type hand out keeps its bindings valid.
    pub proof fn lemma_valid(&self)
        requires
            self.wf(),
        ensures
            valid_bindings(self@),
    {
    }

    pub fn new() -> (r: BindingStore)
        ensures
            r.wf(),
            r@ == Map::<BindingKey, FractionalNFTView>::empty(),
    {
        BindingStore { entries: Vec::new(), contents: Ghost(Map::empty()) }
    }

    fn position(&self, nft_contract: &String, token_id: &String) -> (r: Option<usize>)
        requires
            self.wf(),
        ensures
            match r {
                Some(i) => i < self.entries@.len() && self.entries@[i as int]@.key() == (
                nft_contract@,
                token_id@,
                ),
                None => !self@.contains_key((nft_contract@, token_id@)),
            },
    {
        let mut i: usize = 0;
        while i < self.entries.len()
            invariant
                i <= self.entries@.len(),
                self.wf(),
                forall|j: int|
                    0 <= j < i ==> #[trigger] self.entries@[j]@.key() != (nft_contract@, token_id@),
            decreases self.entries@.len() - i,
        {
            let b = &self.entries[i];
            if b.nft_contract == *nft_contract && b.token_id == *token_id {
                return Some(i);
            }
            i = i + 1;
        }
        None
    }

    /// Looks a binding up by its key.
    pub fn get(&self, nft_contract: &String, token_id: &String) -> (r: Option<&FractionalNFT>)
        requires
            self.wf(),
        ensures
            match r {
                Some(b) => self@.contains_key((nft_contract@, token_id@)) && b@ == self@[(
                nft_contract@,
                token_id@,
                )],
                None => !self@.contains_key((nft_contract@, token_id@)),
            },
    {
        match self.position(nft_contract, token_id) {
            Some(i) => Some(&self.entries[i]),
            None => None,
        }
    }

    /// Whether a binding is stored under the key.
    pub fn contains(&self, nft_contract: &String, token_id: &String) -> (r: bool)
        requires
            self.wf(),
        ensures
            r == self@.contains_key((nft_contract@, token_id@)),
    {
        self.position(nft_contract, token_id).is_some()
    }

    /// Stores a new binding. The key must be free: an existing binding is
    /// never overwritten.
    pub fn insert(&mut self, b: FractionalNFT)
        requires
            old(self).wf(),
            !old(self)@.contains_key(b@.key()),
            b.total_shares > 0,
        ensures
            final(self).wf(),
            final(self)@ == old(self)@.insert(b@.key(), b@),
    {
        let ghost v = b@;
        let ghost old_entries = self.entries@;
        self.entries.push(b);
        self.contents = Ghost(self.contents@.insert(v.key(), v));
        assert forall|k: BindingKey| #[trigger] self.contents@.contains_key(k) implies exists|i: int|
            0 <= i < self.entries@.len() && #[trigger] self.entries@[i]@.key() == k by {
            if k == v.key() {
                assert(self.entries@[old_entries.len() as int]@.key() == k);
            } else {
                let i = choose|i: int|
                    0 <= i < old_entries.len() && #[trigger] old_entries[i]@.key() == k;
                assert(self.entries@[i]@.key() == k);
            }
        }
        assert forall|i: int, j: int|
            0 <= i < j < self.entries@.len() implies #[trigger] self.entries@[i]@.key()
                != #[trigger] self.entries@[j]@.key() by {
            if j == old_entries.len() {
                assert(old_entries[i]@.key() != v.key());
            }
        }
    }

    /// Deletes the binding under the key and hands it back, if there is one.
    pub fn remove(&mut self, nft_contract: &String, token_id: &String) -> (r: Option<
        FractionalNFT,
    >)
        requires
            old(self).wf(),
        ensures
            final(self).wf(),
            final(self)@ == old(self)@.remove((nft_contract@, token_id@)),
            match r {
                Some(b) => old(self)@.contains_key((nft_contract@, token_id@)) && b@ == old(
                    self,
                )@[(nft_contract@, token_id@)],
                None => !old(self)@.contains_key((nft_contract@, token_id@)) && final(self)@
                    == old(self)@,
            },
    {
        match self.position(nft_contract, token_id) {
            None => {
                assert(self.contents@.remove((nft_contract@, token_id@)) =~= self.contents@);
                None
            },
            Some(p) => {
                let ghost k = (nft_contract@, token_id@);
                let ghost old_entries = self.entries@;
                let b = self.entries.remove(p);
                self.contents = Ghost(self.contents@.remove(k));
                assert forall|i: int|
                    0 <= i < self.entries@.len() implies {
                    let e = #[trigger] self.entries@[i]@;
                    self.contents@.contains_key(e.key()) && self.contents@[e.key()] == e
                } by {
                    if i < p {
                        assert(self.entries@[i] == old_entries[i]);
                    } else {
                        assert(self.entries@[i] == old_entries[i + 1]);
                    }
                }
                assert forall|k2: BindingKey| #[trigger]
                    self.contents@.contains_key(k2) implies exists|i: int|
                    0 <= i < self.entries@.len() && #[trigger] self.entries@[i]@.key() == k2 by {
                    let i = choose|i: int|
                        0 <= i < old_entries.len() && #[trigger] old_entries[i]@.key() == k2;
                    if i < p {
                        assert(self.entries@[i]@.key() == k2);
                    } else {
                        assert(i != p);
                        assert(self.entries@[i - 1]@.key() == k2);
                    }
                }
                assert forall|i: int, j: int|
                    0 <= i < j < self.entries@.len() implies #[trigger] self.entries@[i]@.key()
                        != #[trigger] self.entries@[j]@.key() by {
                    let oi = if i < p {
                        i
                    } else {
                        i + 1
                    };
                    let oj = if j < p {
                        j
                    } else {
                        j + 1
                    };
                    assert(self.entries@[i] == old_entries[oi]);
                    assert(self.entries@[j] == old_entries[oj]);
                }
                Some(b)
            },
        }
    }
    /// Records the address of the issuance of an existing binding; nothing
    /// else of the binding changes.
    pub fn set_cw20_contract(&mut self, nft_contract: &String, token_id: &String, address: String)
        requires
            old(self).wf(),
            old(self)@.contains_key((nft_contract@, token_id@)),
        ensures
            final(self).wf(),
            final(self)@ == old(self)@.insert(
                (nft_contract@, token_id@),
                FractionalNFTView {
                    cw20_contract: Some(address@),
                    ..old(self)@[(nft_contract@, token_id@)]
                },
            ),
    {
        let ghost k = (nft_contract@, token_id@);
        let ghost before = self@;
        proof {
            self.lemma_valid();
        }
        let removed = self.remove(nft_contract, token_id);
        match removed {
            Some(b) => {
                let mut b = b;
                b.cw20_contract = Issuance::Active { address };
                self.insert(b);
                assert(before.remove(k).insert(k, b@) =~= before.insert(k, b@));
            },
            None => {},
        }
    }
}

} // verus!
