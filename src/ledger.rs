use std::collections::HashMap;
use vstd::prelude::*;
use crate::outcome::{
    approval_check_outcome, approve_outcome, approved, burn_outcome, burnt, owner_outcome,
    transfer_outcome, transferred,
};
use crate::laws::{lemma_index_is_inverse, owner_sets};
use crate::owner_index::OwnerIndex;
use crate::text::{decimal, decimal_string};
use crate::types::{
    zero_id, ActorId, Collection, Config, DropspaceNftErr, InitNft, NftEvent, TokenId,
    TokenMetadata,
};

verus! {

broadcast use vstd::std_specs::hash::group_hash_axioms;

/// The ledger: ownership, approval and metadata indexes, the per-owner token
/// sets, the identifier counter, the administrator and the collection and
/// sale configuration.
#[derive(Debug)]
pub struct Nft {
    pub owner_by_id: HashMap<TokenId, ActorId>,
    pub token_approvals: HashMap<TokenId, ActorId>,
    pub token_metadata_by_id: HashMap<TokenId, TokenMetadata>,
    pub tokens_for_owner: OwnerIndex,
    pub token_id: TokenId,
    pub owner: ActorId,
    pub collection: Collection,
    pub config: Config,
}

/// The metadata a freshly minted token gets: its identifier as its name and
/// nothing else.
pub open spec fn fresh_metadata(m: TokenMetadata, id: TokenId) -> bool {
    &&& m.name@ == decimal(id as nat)
    &&& m.description@ == Seq::<char>::empty()
    &&& m.media@ == Seq::<char>::empty()
    &&& m.reference@ == Seq::<char>::empty()
}

impl Nft {
    /// Whether `o` owns the minted token `t`.
    pub open spec fn owns(&self, o: ActorId, t: TokenId) -> bool {
        self.owner_by_id@.contains_key(t) && self.owner_by_id@[t] == o
    }

    /// Whether `t` is currently minted.
    pub open spec fn minted(&self, t: TokenId) -> bool {
        self.owner_by_id@.contains_key(t)
    }

    /// The number of tokens currently minted.
    pub open spec fn minted_count(&self) -> nat {
        self.token_metadata_by_id@.len()
    }

    /// Whether the sale is open at time `now` (seconds).
    pub open spec fn sale_open(&self, now: u64) -> bool {
        self.config.sale_time <= now
    }

    /// The invariant that ties the indexes together.
    pub open spec fn wf(&self) -> bool {
        &&& self.tokens_for_owner.wf()
        &&& forall|t: TokenId|
            #[trigger] self.owner_by_id@.contains_key(t)
                <==> #[trigger] self.token_metadata_by_id@.contains_key(t)
        &&& forall|t: TokenId|
            #[trigger] self.token_approvals@.contains_key(t) ==> self.owner_by_id@.contains_key(t)
        &&& forall|t: TokenId| #[trigger] self.owner_by_id@.contains_key(t) ==> t < self.token_id
        &&& self.minted_count() <= self.token_id
        &&& forall|o: ActorId, t: TokenId|
            #![trigger self.tokens_for_owner.holds(o, t)]
            #![trigger self.owns(o, t)]
            self.tokens_for_owner.holds(o, t) <==> self.owns(o, t)
    }

    /// The indexes and the identifier counter are as in `other`.
    pub open spec fn same_tokens(&self, other: &Nft) -> bool {
        &&& self.owner_by_id@ == other.owner_by_id@
        &&& self.token_approvals@ == other.token_approvals@
        &&& self.token_metadata_by_id@ == other.token_metadata_by_id@
        &&& self.tokens_for_owner == other.tokens_for_owner
        &&& self.token_id == other.token_id
    }

    /// The same ledger but for the indexes.
    pub open spec fn same_settings(&self, other: &Nft) -> bool {
        &&& self.token_id == other.token_id
        &&& self.owner == other.owner
        &&& self.collection == other.collection
        &&& self.config == other.config
    }

    /// A new ledger with no tokens, administered by `caller`.
    pub fn new(init: InitNft, caller: ActorId) -> (r: Nft)
        ensures
            r.wf(),
            r.owner_by_id@ == Map::<TokenId, ActorId>::empty(),
            r.token_approvals@ == Map::<TokenId, ActorId>::empty(),
            r.token_metadata_by_id@ == Map::<TokenId, TokenMetadata>::empty(),
            r.tokens_for_owner@ == Map::<ActorId, Set<TokenId>>::empty(),
            r.token_id == 0,
            r.owner == caller,
            r.collection == init.collection,
            r.config == init.config,
    {
        Nft {
            owner_by_id: HashMap::new(),
            token_approvals: HashMap::new(),
            token_metadata_by_id: HashMap::new(),
            tokens_for_owner: OwnerIndex::new(),
            token_id: 0,
            owner: caller,
            collection: init.collection,
            config: init.config,
        }
    }

    /// The number of tokens currently minted.
    pub fn total_supply(&self) -> (r: u128)
        ensures
            r == self.minted_count(),
    {
        proof {
            vstd::std_specs::hash::axiom_spec_hash_map_len(&self.token_metadata_by_id);
        }
        self.token_metadata_by_id.len() as u128
    }

    /// Mints the next token to `to`, with metadata that names it by its
    /// identifier.
    pub(crate) fn mint_single(&mut self, to: &ActorId) -> (r: NftEvent)
        requires
            old(self).wf(),
            old(self).token_id < u128::MAX,
        ensures
            final(self).wf(),
            final(self).token_id == old(self).token_id + 1,
            final(self).owner_by_id@ == old(self).owner_by_id@.insert(old(self).token_id, *to),
            final(self).token_approvals@ == old(self).token_approvals@,
            final(self).token_metadata_by_id@.dom() == old(self).token_metadata_by_id@.dom().insert(
                old(self).token_id,
            ),
            fresh_metadata(final(self).token_metadata_by_id@[old(self).token_id], old(self).token_id),
            forall|t: TokenId|
                #[trigger] old(self).token_metadata_by_id@.contains_key(t)
                    ==> final(self).token_metadata_by_id@[t] == old(self).token_metadata_by_id@[t],
            final(self).minted_count() == old(self).minted_count() + 1,
            final(self).tokens_for_owner@ == old(self).tokens_for_owner@.insert(
                *to,
                (if old(self).tokens_for_owner@.contains_key(*to) {
                    old(self).tokens_for_owner@[*to]
                } else {
                    Set::<TokenId>::empty()
                }).insert(old(self).token_id),
            ),
            final(self).owner == old(self).owner,
            final(self).collection == old(self).collection,
            final(self).config == old(self).config,
            match r {
                NftEvent::Minted { to: t, token_metadata: m } => t == *to && fresh_metadata(
                    m,
                    old(self).token_id,
                ),
                _ => false,
            },
    {
        let id = self.token_id;
        proof {
            assert(!self.owner_by_id@.contains_key(id));
            assert(!self.token_metadata_by_id@.contains_key(id));
            assert forall|p: ActorId| !self.tokens_for_owner.holds(p, id) by {
                assert(!self.owns(p, id));
            }
        }
        self.owner_by_id.insert(id, *to);
        self.tokens_for_owner.add(*to, id);
        let token_metadata = TokenMetadata {
            name: decimal_string(id),
            description: String::new(),
            media: String::new(),
            reference: String::new(),
        };
        self.token_metadata_by_id.insert(id, token_metadata.copy());
        self.token_id = id + 1;
        proof {
            assert forall|o: ActorId, t: TokenId|
                #![trigger self.tokens_for_owner.holds(o, t)]
                #![trigger self.owns(o, t)]
                self.tokens_for_owner.holds(o, t) <==> self.owns(o, t) by {
                assert(old(self).tokens_for_owner.holds(o, t) <==> old(self).owns(o, t));
            }
            lemma_index_is_inverse(old(self));
            lemma_index_is_inverse(self);
            let om = old(self).owner_by_id@;
            let nm = self.owner_by_id@;
            let prev = if old(self).tokens_for_owner@.contains_key(*to) {
                old(self).tokens_for_owner@[*to]
            } else {
                Set::<TokenId>::empty()
            };
            assert(nm == om.insert(id, *to));
            assert(nm.contains_key(id) && nm[id] == *to);
            assert(owner_sets(nm).contains_key(*to));
            assert forall|t: TokenId| #[trigger] prev.insert(id).contains(t) <==> (nm.contains_key(t)
                && nm[t] == *to) by {
                if t != id && om.contains_key(t) && om[t] == *to {
                    assert(owner_sets(om).contains_key(*to));
                }
            }
            assert(owner_sets(nm)[*to] =~= prev.insert(id));
            assert forall|o: ActorId| o != *to implies owner_sets(nm).contains_key(o)
                == owner_sets(om).contains_key(o) by {
                if owner_sets(om).contains_key(o) {
                    let t = choose|t: TokenId| om.contains_key(t) && om[t] == o;
                    assert(nm.contains_key(t) && nm[t] == o);
                }
                if owner_sets(nm).contains_key(o) {
                    let t = choose|t: TokenId| nm.contains_key(t) && nm[t] == o;
                    assert(om.contains_key(t) && om[t] == o);
                }
            }
            assert forall|o: ActorId| o != *to && #[trigger] owner_sets(om).contains_key(o) implies
                owner_sets(nm)[o] == owner_sets(om)[o] by {
                assert(owner_sets(nm)[o] =~= owner_sets(om)[o]);
            }
            assert(owner_sets(nm) =~= owner_sets(om).insert(*to, prev.insert(id)));
        }
        NftEvent::Minted { to: *to, token_metadata }
    }

    /// Fails with `Unauthorized` unless `caller` is `owner`.
    pub(crate) fn check_owner(owner: &ActorId, caller: &ActorId) -> (r: Result<(), DropspaceNftErr>)
        ensures
            r == (if *owner == *caller {
                Ok::<(), DropspaceNftErr>(())
            } else {
                Err(DropspaceNftErr::Unauthorized)
            }),
    {
        if *owner != *caller {
            return Err(DropspaceNftErr::Unauthorized);
        }
        Ok(())
    }

    /// Fails with `err` when `account` is the zero identity.
    pub(crate) fn check_zero_address(account: &ActorId, err: DropspaceNftErr) -> (r: Result<
        (),
        DropspaceNftErr,
    >)
        ensures
            r == (if *account == zero_id() {
                Err(err)
            } else {
                Ok::<(), DropspaceNftErr>(())
            }),
    {
        if account.is_zero() {
            return Err(err);
        }
        Ok(())
    }

    /// Fails with `Unauthorized` unless `caller` is the administrator.
    pub(crate) fn check_collection_owner(&self, caller: &ActorId) -> (r: Result<(), DropspaceNftErr>)
        ensures
            r == (if self.owner == *caller {
                Ok::<(), DropspaceNftErr>(())
            } else {
                Err(DropspaceNftErr::Unauthorized)
            }),
    {
        Self::check_owner(&self.owner, caller)
    }

    /// Whether `caller` may move `token_id`, owned by `owner`: it is the
    /// owner or the token's approved spender.
    pub open spec fn may_transfer(&self, caller: ActorId, token_id: TokenId, owner: ActorId) -> bool {
        owner == caller || (self.token_approvals@.contains_key(token_id)
            && self.token_approvals@[token_id] == caller)
    }

    /// Fails with `Unauthorized` unless `caller` may move `token_id`.
    fn can_transfer(&self, token_id: TokenId, owner: &ActorId, caller: &ActorId) -> (r: Result<
        (),
        DropspaceNftErr,
    >)
        ensures
            r == (if self.may_transfer(*caller, token_id, *owner) {
                Ok::<(), DropspaceNftErr>(())
            } else {
                Err(DropspaceNftErr::Unauthorized)
            }),
    {
        match self.token_approvals.get(&token_id) {
            Some(approved) => {
                if *approved == *caller {
                    return Ok(());
                }
            },
            None => {},
        }
        Self::check_owner(owner, caller)
    }

    /// Fails with `ApprovalExists` when `token_id` already has an approved
    /// spender.
    fn check_approve(&self, token_id: TokenId) -> (r: Result<(), DropspaceNftErr>)
        ensures
            r == (if self.token_approvals@.contains_key(token_id) {
                Err(DropspaceNftErr::ApprovalExists)
            } else {
                Ok::<(), DropspaceNftErr>(())
            }),
    {
        if self.token_approvals.contains_key(&token_id) {
            return Err(DropspaceNftErr::ApprovalExists);
        }
        Ok(())
    }

    /// Destroys `token_id`, which `caller` must own, with its approval and
    /// metadata.
    pub fn burn(&mut self, caller: ActorId, token_id: TokenId) -> (r: Result<NftEvent, DropspaceNftErr>)
        requires
            old(self).wf(),
        ensures
            final(self).wf(),
            r is Err ==> *final(self) == *old(self),
            r == burn_outcome(old(self), caller, token_id),
            r is Ok ==> burnt(old(self), final(self), token_id),
    {
        let owner = match self.owner_by_id.get(&token_id) {
            Some(o) => *o,
            None => {
                return Err(DropspaceNftErr::NotFound);
            },
        };
        match Self::check_owner(&owner, &caller) {
            Ok(()) => {},
            Err(e) => {
                return Err(e);
            },
        }
        proof {
            assert(self.owns(owner, token_id));
        }
        self.owner_by_id.remove(&token_id);
        self.token_metadata_by_id.remove(&token_id);
        self.tokens_for_owner.remove(owner, token_id);
        self.token_approvals.remove(&token_id);
        proof {
            assert forall|o: ActorId, t: TokenId|
                #![trigger self.tokens_for_owner.holds(o, t)]
                #![trigger self.owns(o, t)]
                self.tokens_for_owner.holds(o, t) <==> self.owns(o, t) by {
                assert(old(self).tokens_for_owner.holds(o, t) <==> old(self).owns(o, t));
            }
        }
        Ok(NftEvent::Burnt { token_id })
    }

    /// Moves `token_id` to `to`. The caller must be its owner or its approved
    /// spender; any approval is cleared.
    pub fn transfer(&mut self, caller: ActorId, to: &ActorId, token_id: TokenId) -> (r: Result<
        NftEvent,
        DropspaceNftErr,
    >)
        requires
            old(self).wf(),
        ensures
            final(self).wf(),
            r is Err ==> *final(self) == *old(self),
            r == transfer_outcome(old(self), caller, *to, token_id),
            r is Ok ==> transferred(old(self), final(self), *to, token_id),
    {
        let owner = match self.owner_by_id.get(&token_id) {
            Some(o) => *o,
            None => {
                return Err(DropspaceNftErr::NotFound);
            },
        };
        match self.can_transfer(token_id, &owner, &caller) {
            Ok(()) => {},
            Err(e) => {
                return Err(e);
            },
        }
        match Self::check_zero_address(to, DropspaceNftErr::InvalidRecipient) {
            Ok(()) => {},
            Err(e) => {
                return Err(e);
            },
        }
        proof {
            assert(self.owns(owner, token_id));
        }
        self.owner_by_id.insert(token_id, *to);
        self.tokens_for_owner.remove(owner, token_id);
        proof {
            assert forall|p: ActorId| !self.tokens_for_owner.holds(p, token_id) by {
                assert(old(self).tokens_for_owner.holds(p, token_id) <==> old(self).owns(p, token_id));
            }
        }
        self.tokens_for_owner.add(*to, token_id);
        self.token_approvals.remove(&token_id);
        proof {
            assert forall|o: ActorId, t: TokenId|
                #![trigger self.tokens_for_owner.holds(o, t)]
                #![trigger self.owns(o, t)]
                self.tokens_for_owner.holds(o, t) <==> self.owns(o, t) by {
                assert(old(self).tokens_for_owner.holds(o, t) <==> old(self).owns(o, t));
            }
        }
        Ok(NftEvent::Transferred { from: owner, to: *to, token_id })
    }

    /// Lets `to` move `token_id` once. The caller must own the token, and no
    /// other approval may be outstanding.
    pub fn approve(&mut self, caller: ActorId, to: &ActorId, token_id: TokenId) -> (r: Result<
        NftEvent,
        DropspaceNftErr,
    >)
        requires
            old(self).wf(),
        ensures
            final(self).wf(),
            r is Err ==> *final(self) == *old(self),
            r == approve_outcome(old(self), caller, *to, token_id),
            r is Ok ==> approved(old(self), final(self), *to, token_id),
    {
        let owner = match self.owner_by_id.get(&token_id) {
            Some(o) => *o,
            None => {
                return Err(DropspaceNftErr::NotFound);
            },
        };
        match Self::check_owner(&owner, &caller) {
            Ok(()) => {},
            Err(e) => {
                return Err(e);
            },
        }
        match Self::check_zero_address(to, DropspaceNftErr::InvalidRecipient) {
            Ok(()) => {},
            Err(e) => {
                return Err(e);
            },
        }
        match self.check_approve(token_id) {
            Ok(()) => {},
            Err(e) => {
                return Err(e);
            },
        }
        self.token_approvals.insert(token_id, *to);
        Ok(NftEvent::Approved { owner, approved_account: *to, token_id })
    }

    /// The owner of `token_id`.
    pub fn owner(&self, token_id: TokenId) -> (r: Result<NftEvent, DropspaceNftErr>)
        ensures
            r == owner_outcome(self, token_id),
    {
        match self.owner_by_id.get(&token_id) {
            Some(o) => Ok(NftEvent::Owner { owner: *o, token_id }),
            None => Err(DropspaceNftErr::NotFound),
        }
    }

    /// Whether `to` is the approved spender of `token_id`.
    pub fn is_approved_to(&self, to: &ActorId, token_id: TokenId) -> (r: Result<
        NftEvent,
        DropspaceNftErr,
    >)
        ensures
            r == approval_check_outcome(self, *to, token_id),
    {
        if !self.owner_by_id.contains_key(&token_id) {
            return Err(DropspaceNftErr::NotFound);
        }
        match self.token_approvals.get(&token_id) {
            Some(approved) => Ok(
                NftEvent::CheckIfApproved { to: *to, token_id, approved: *approved == *to },
            ),
            None => Ok(NftEvent::CheckIfApproved { to: *to, token_id, approved: false }),
        }
    }
}

} // verus!
