use std::collections::HashMap;
use vstd::prelude::*;
use crate::ledger::Nft;
use crate::text::{concat, decimal, decimal_string};
use crate::types::{
    ActorId, DropspaceNftErr, ProgramInfo, State, StateQuery, StateReply, TokenId, TokenMetadata,
};

verus! {

broadcast use vstd::std_specs::hash::group_hash_axioms;

/// `pairs` lists the entries of `m`, one pair per key, keys ascending.
pub open spec fn lists_map<V>(pairs: Seq<(TokenId, V)>, m: Map<TokenId, V>) -> bool {
    &&& forall|k: int|
        0 <= k < pairs.len() ==> m.contains_key((#[trigger] pairs[k]).0) && m[pairs[k].0]
            == pairs[k].1
    &&& forall|t: TokenId|
        #[trigger] m.contains_key(t) ==> exists|k: int| 0 <= k < pairs.len() && (#[trigger] pairs[k]).0 == t
    &&& forall|k: int, j: int|
        0 <= k < j < pairs.len() ==> (#[trigger] pairs[k]).0 < (#[trigger] pairs[j]).0
}

/// The entries of `m`, keys ascending, each value copied by `copy`; every key
/// is below `bound`.
fn entry_pairs<V, F: Fn(&V) -> V>(m: &HashMap<TokenId, V>, bound: TokenId, copy: F) -> (r: Vec<
    (TokenId, V),
>)
    requires
        forall|t: TokenId| #[trigger] m@.contains_key(t) ==> t < bound,
        forall|v: &V| #[trigger] copy.requires((v,)),
        forall|v: &V, c: V| copy.ensures((v,), c) ==> c == *v,
    ensures
        lists_map(r@, m@),
{
    let mut r: Vec<(TokenId, V)> = Vec::new();
    let mut t: TokenId = 0;
    while t < bound
        invariant
            t <= bound,
            forall|v: &V| #[trigger] copy.requires((v,)),
            forall|v: &V, c: V| copy.ensures((v,), c) ==> c == *v,
            forall|k: int|
                0 <= k < r@.len() ==> m@.contains_key((#[trigger] r@[k]).0) && m@[r@[k].0] == r@[k].1
                    && r@[k].0 < t,
            forall|s: TokenId|
                #[trigger] m@.contains_key(s) && s < t ==> exists|k: int|
                    0 <= k < r@.len() && (#[trigger] r@[k]).0 == s,
            forall|k: int, j: int| 0 <= k < j < r@.len() ==> (#[trigger] r@[k]).0 < (#[trigger] r@[j]).0,
        decreases bound - t,
    {
        match m.get(&t) {
            Some(v) => {
                let ghost before = r@;
                let c = copy(v);
                r.push((t, c));
                proof {
                    assert(r@[r@.len() - 1].0 == t);
                    assert forall|s: TokenId|
                        #[trigger] m@.contains_key(s) && s < t + 1 implies exists|k: int|
                            0 <= k < r@.len() && (#[trigger] r@[k]).0 == s by {
                        if s < t {
                            let k = choose|k: int| 0 <= k < before.len() && (#[trigger] before[k]).0 == s;
                            assert(r@[k] == before[k]);
                        }
                    }
                }
            },
            None => {},
        }
        t = t + 1;
    }
    r
}

/// `s` is a faithful snapshot of `nft`.
pub open spec fn snapshot_of(nft: &Nft, s: State) -> bool {
    &&& lists_map(s.owner_by_id@, nft.owner_by_id@)
    &&& lists_map(s.token_approvals@, nft.token_approvals@)
    &&& lists_map(s.token_metadata_by_id@, nft.token_metadata_by_id@)
    &&& forall|o: ActorId|
        #[trigger] nft.tokens_for_owner@.contains_key(o) <==> exists|k: int|
            0 <= k < s.tokens_for_owner@.len() && (#[trigger] s.tokens_for_owner@[k]).0 == o
    &&& forall|k: int, j: int|
        0 <= k < s.tokens_for_owner@.len() && 0 <= j < s.tokens_for_owner@.len() && k != j
            ==> (#[trigger] s.tokens_for_owner@[k]).0 != (#[trigger] s.tokens_for_owner@[j]).0
    &&& forall|k: int|
        0 <= k < s.tokens_for_owner@.len() ==> (#[trigger] s.tokens_for_owner@[k]).1@.no_duplicates()
            && forall|t: TokenId|
            s.tokens_for_owner@[k].1@.contains(t) <==> nft.owns(s.tokens_for_owner@[k].0, t)
    &&& s.token_id == nft.token_id
    &&& s.owner == nft.owner
    &&& s.collection == nft.collection
    &&& s.config == nft.config
}

/// The metadata shown for a token: its stored name, and as its reference the
/// collection's base URI followed by the token's identifier.
pub open spec fn shown_metadata(nft: &Nft, token_id: TokenId, m: TokenMetadata) -> bool {
    &&& m.name == nft.token_metadata_by_id@[token_id].name
    &&& m.description@ == Seq::<char>::empty()
    &&& m.media@ == Seq::<char>::empty()
    &&& m.reference@ == nft.collection.base_uri@ + decimal(token_id as nat)
}

impl State {
    /// A snapshot of the ledger.
    pub fn from(nft: &Nft) -> (r: State)
        requires
            nft.wf(),
        ensures
            snapshot_of(nft, r),
    {
        let pairs = nft.tokens_for_owner.pairs();
        let ghost pairs_view = pairs@;
        proof {
            assert forall|t: TokenId| #[trigger] nft.token_metadata_by_id@.contains_key(t) implies t
                < nft.token_id by {
                assert(nft.owner_by_id@.contains_key(t));
            }
        }
        let r = State {
            owner_by_id: entry_pairs(&nft.owner_by_id, nft.token_id, |a: &ActorId| -> (c: ActorId) ensures c == *a { *a }),
            token_approvals: entry_pairs(&nft.token_approvals, nft.token_id, |a: &ActorId| -> (c: ActorId) ensures c == *a { *a }),
            token_metadata_by_id: entry_pairs(
                &nft.token_metadata_by_id,
                nft.token_id,
                |m: &TokenMetadata| -> (c: TokenMetadata) ensures c == *m { m.copy() },
            ),
            tokens_for_owner: pairs,
            token_id: nft.token_id,
            owner: nft.owner,
            collection: nft.collection.copy(),
            config: nft.config.copy(),
        };
        proof {
            nft.tokens_for_owner.lemma_view();
            assert forall|o: ActorId|
                #[trigger] nft.tokens_for_owner@.contains_key(o) <==> exists|k: int|
                0 <= k < r.tokens_for_owner@.len() && (#[trigger] r.tokens_for_owner@[k]).0 == o by {
                assert(nft.tokens_for_owner@.contains_key(o) == nft.tokens_for_owner.has_owner(o));
                assert(r.tokens_for_owner@ == pairs_view);
                if nft.tokens_for_owner.has_owner(o) {
                    let k = choose|k: int| 0 <= k < pairs_view.len() && (#[trigger] pairs_view[k]).0 == o;
                    assert(r.tokens_for_owner@[k].0 == o);
                }
            }
            assert forall|k: int|
                0 <= k < r.tokens_for_owner@.len() implies forall|t: TokenId|
                (#[trigger] r.tokens_for_owner@[k]).1@.contains(t) <==> nft.owns(r.tokens_for_owner@[k].0, t) by {
                assert forall|t: TokenId| r.tokens_for_owner@[k].1@.contains(t) <==> nft.owns(r.tokens_for_owner@[k].0, t) by {
                    assert(nft.tokens_for_owner.holds(r.tokens_for_owner@[k].0, t) <==> nft.owns(r.tokens_for_owner@[k].0, t));
                }
            }
        }
        r
    }
}

impl Nft {
    /// The metadata shown for `token_id`, or `NotFound`.
    pub fn token_metadata(&self, token_id: TokenId) -> (r: Result<TokenMetadata, DropspaceNftErr>)
        ensures
            !self.minted(token_id) ==> r == Err::<TokenMetadata, DropspaceNftErr>(DropspaceNftErr::NotFound),
            self.wf() && self.minted(token_id) ==> r is Ok && shown_metadata(self, token_id, r->Ok_0),
    {
        if !self.owner_by_id.contains_key(&token_id) {
            return Err(DropspaceNftErr::NotFound);
        }
        match self.token_metadata_by_id.get(&token_id) {
            Some(stored) => {
                let id = decimal_string(token_id);
                Ok(
                    TokenMetadata {
                        name: stored.name.clone(),
                        description: String::new(),
                        media: String::new(),
                        reference: concat(&self.collection.base_uri, &id),
                    },
                )
            },
            None => Err(DropspaceNftErr::NotFound),
        }
    }

    /// The aggregate summary at time `now`.
    pub fn program_info(&self, now: u64) -> (r: ProgramInfo)
        ensures
            r.collection == self.collection,
            r.config == self.config,
            r.token_id == self.token_id,
            r.sale_active == self.sale_open(now),
            r.total_supply == self.minted_count(),
    {
        ProgramInfo {
            collection: self.collection.copy(),
            config: self.config.copy(),
            token_id: self.token_id,
            sale_active: self.sale_active(now),
            total_supply: self.total_supply(),
        }
    }

    /// Answers a read-only query at time `now`.
    pub fn state(&self, now: u64, query: StateQuery) -> (r: Result<StateReply, DropspaceNftErr>)
        requires
            self.wf(),
        ensures
            match query {
                StateQuery::All => r is Ok && r->Ok_0 is All && snapshot_of(self, r->Ok_0->All_0),
                StateQuery::Config => r is Ok && r->Ok_0 == StateReply::Config(self.config),
                StateQuery::Collection => r is Ok && r->Ok_0 == StateReply::Collection(self.collection),
                StateQuery::Owner => r is Ok && r->Ok_0 == StateReply::Owner(self.owner),
                StateQuery::CurrentTokenId => r is Ok && r->Ok_0 == StateReply::CurrentTokenId(self.token_id),
                StateQuery::OwnerById { token_id } => r is Ok && r->Ok_0 == StateReply::OwnerById(
                    if self.minted(token_id) {
                        Some(self.owner_by_id@[token_id])
                    } else {
                        None
                    },
                ),
                StateQuery::TokenApprovals { token_id } => r is Ok && r->Ok_0
                    == StateReply::TokenApprovals(
                    if self.token_approvals@.contains_key(token_id) {
                        Some(self.token_approvals@[token_id])
                    } else {
                        None
                    },
                ),
                StateQuery::TokenMetadata { token_id } => if self.minted(token_id) {
                    r is Ok && r->Ok_0 is TokenMetadata && r->Ok_0->TokenMetadata_0 is Some
                        && shown_metadata(self, token_id, r->Ok_0->TokenMetadata_0->Some_0)
                } else {
                    r == Err::<StateReply, DropspaceNftErr>(DropspaceNftErr::NotFound)
                },
                StateQuery::OwnerTokens { owner } => r is Ok && r->Ok_0 is OwnerTokens && match r->Ok_0->OwnerTokens_0 {
                    Some(v) => {
                        &&& self.tokens_for_owner@.contains_key(owner)
                        &&& v@.no_duplicates()
                        &&& forall|t: TokenId| v@.contains(t) <==> self.owns(owner, t)
                    },
                    None => !self.tokens_for_owner@.contains_key(owner),
                },
                StateQuery::SaleActive => r is Ok && r->Ok_0 == StateReply::SaleActive(self.sale_open(now)),
                StateQuery::ProgramInfo => r is Ok && r->Ok_0 is ProgramInfo && {
                    let info = r->Ok_0->ProgramInfo_0;
                    &&& info.collection == self.collection
                    &&& info.config == self.config
                    &&& info.token_id == self.token_id
                    &&& info.sale_active == self.sale_open(now)
                    &&& info.total_supply == self.minted_count()
                },
            },
    {
        match query {
            StateQuery::All => Ok(StateReply::All(State::from(self))),
            StateQuery::Config => Ok(StateReply::Config(self.config.copy())),
            StateQuery::Collection => Ok(StateReply::Collection(self.collection.copy())),
            StateQuery::Owner => Ok(StateReply::Owner(self.owner)),
            StateQuery::CurrentTokenId => Ok(StateReply::CurrentTokenId(self.token_id)),
            StateQuery::OwnerById { token_id } => {
                let o = match self.owner_by_id.get(&token_id) {
                    Some(o) => Some(*o),
                    None => None,
                };
                Ok(StateReply::OwnerById(o))
            },
            StateQuery::TokenApprovals { token_id } => {
                let a = match self.token_approvals.get(&token_id) {
                    Some(a) => Some(*a),
                    None => None,
                };
                Ok(StateReply::TokenApprovals(a))
            },
            StateQuery::TokenMetadata { token_id } => match self.token_metadata(token_id) {
                Ok(m) => Ok(StateReply::TokenMetadata(Some(m))),
                Err(e) => Err(e),
            },
            StateQuery::OwnerTokens { owner } => {
                proof {
                    self.tokens_for_owner.lemma_view();
                }
                Ok(StateReply::OwnerTokens(self.tokens_for_owner.tokens_of(owner)))
            },
            StateQuery::SaleActive => Ok(StateReply::SaleActive(self.sale_active(now))),
            StateQuery::ProgramInfo => Ok(StateReply::ProgramInfo(self.program_info(now))),
        }
    }
}

} // verus!
