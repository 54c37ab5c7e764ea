use vstd::prelude::*;
use crate::outcome::{buy_outcome, event_of, reserve_outcome};
use crate::ledger::{fresh_metadata, Nft};
use crate::types::{zero_id, ActorId, Config, DropspaceNftErr, NftEvent, Payout, Reply, TokenId};

verus! {

broadcast use vstd::std_specs::hash::group_hash_axioms;

/// `x` clamped to the largest `u128`.
pub open spec fn sat(x: int) -> int {
    if x > u128::MAX {
        u128::MAX as int
    } else {
        x
    }
}

/// What a purchase of `amount` tokens costs: price and fee, each multiplied
/// and then added with clamping.
pub open spec fn required_payment(price: u128, fee: u128, amount: u128) -> int {
    sat(sat(price * amount) + sat(fee * amount))
}

/// The product of `a` and `b`, clamped to the largest `u128`.
pub fn saturating_mul(a: u128, b: u128) -> (r: u128)
    ensures
        r == sat(a * b),
{
    match a.checked_mul(b) {
        Some(p) => p,
        None => u128::MAX,
    }
}

/// `m` with the tokens `start .. start + n` given to `to`.
pub open spec fn with_batch(m: Map<TokenId, ActorId>, start: int, n: int, to: ActorId) -> Map<
    TokenId,
    ActorId,
> {
    Map::new(
        |t: TokenId| m.contains_key(t) || (start <= t < start + n),
        |t: TokenId|
            if m.contains_key(t) {
                m[t]
            } else {
                to
            },
    )
}


/// The value transfers a purchase of `amount` tokens by `caller`, who
/// attached `value`, calls for: the price to the withdrawal wallet and the fee
/// to the developer wallet (each only when its rate is not zero), then what is
/// left of `value` back to the caller (only when something is left).
pub open spec fn purchase_payouts(cfg: Config, caller: ActorId, value: u128, amount: u128) -> Seq<
    Payout,
> {
    let price_part = sat(cfg.mint_price * amount);
    let fee_part = sat(cfg.mint_fee * amount);
    let refund = value - required_payment(cfg.mint_price, cfg.mint_fee, amount);
    (if cfg.mint_price > 0 {
        seq![Payout { to: cfg.withdraw_wallet, value: price_part as u128 }]
    } else {
        Seq::<Payout>::empty()
    }) + (if cfg.mint_fee > 0 {
        seq![Payout { to: cfg.dev_wallet, value: fee_part as u128 }]
    } else {
        Seq::<Payout>::empty()
    }) + (if refund > 0 {
        seq![Payout { to: caller, value: refund as u128 }]
    } else {
        Seq::<Payout>::empty()
    })
}

/// `new` is `old` after `amount` tokens were minted to `to`: the next
/// identifiers, in order, each with its fresh metadata; nothing else moved.
pub open spec fn minted_batch(old: &Nft, new: &Nft, to: ActorId, amount: u128) -> bool {
    &&& new.token_id == old.token_id + amount
    &&& new.owner_by_id@ == with_batch(old.owner_by_id@, old.token_id as int, amount as int, to)
    &&& new.token_approvals@ == old.token_approvals@
    &&& forall|t: TokenId|
        #[trigger] old.token_metadata_by_id@.contains_key(t) ==> new.token_metadata_by_id@.contains_key(t)
            && new.token_metadata_by_id@[t] == old.token_metadata_by_id@[t]
    &&& forall|t: TokenId|
        old.token_id <= t < old.token_id + amount ==> fresh_metadata(
            #[trigger] new.token_metadata_by_id@[t],
            t,
        )
    &&& new.minted_count() == old.minted_count() + amount
    &&& new.owner == old.owner
    &&& new.collection == old.collection
    &&& new.config == old.config
}

impl Nft {
    /// Why a request to mint `amount` tokens for `caller` at time `now` is
    /// turned down, checked in this order; `None` when it may go ahead.
    pub open spec fn mint_rejection(&self, caller: ActorId, now: u64, amount: u128) -> Option<
        DropspaceNftErr,
    > {
        if self.config.supply_limit <= self.minted_count() {
            Some(DropspaceNftErr::MintClosed)
        } else if caller == zero_id() {
            Some(DropspaceNftErr::InvalidCaller)
        } else if !self.sale_open(now) {
            Some(DropspaceNftErr::SaleInactive)
        } else if amount == 0 {
            Some(DropspaceNftErr::InvalidAmount)
        } else if amount > self.config.mint_limit {
            Some(DropspaceNftErr::MintLimitExceeded)
        } else if sat(self.minted_count() + amount) > self.config.supply_limit
            || self.token_id + amount > u128::MAX {
            // the second test: the identifiers left cannot number the batch
            Some(DropspaceNftErr::SupplyLimitExceeded)
        } else {
            None
        }
    }

    /// Whether the sale is open at time `now` (seconds).
    pub fn sale_active(&self, now: u64) -> (r: bool)
        ensures
            r == self.sale_open(now),
    {
        self.config.sale_time <= now
    }

    /// Fails with `MintClosed` once the supply limit has been reached.
    fn check_config(&self) -> (r: Result<(), DropspaceNftErr>)
        ensures
            r == (if self.config.supply_limit <= self.minted_count() {
                Err(DropspaceNftErr::MintClosed)
            } else {
                Ok::<(), DropspaceNftErr>(())
            }),
    {
        if self.config.supply_limit <= self.total_supply() {
            return Err(DropspaceNftErr::MintClosed);
        }
        Ok(())
    }

    /// Checks a request to mint `amount` tokens for `caller` at `now`, in the
    /// order `mint_rejection` gives.
    fn check_mint_request(&self, caller: &ActorId, now: u64, amount: u128) -> (r: Result<
        (),
        DropspaceNftErr,
    >)
        requires
            self.wf(),
        ensures
            match self.mint_rejection(*caller, now, amount) {
                Some(e) => r == Err::<(), DropspaceNftErr>(e),
                None => r == Ok::<(), DropspaceNftErr>(()),
            },
    {
        match self.check_config() {
            Ok(()) => {},
            Err(e) => {
                return Err(e);
            },
        }
        let total_supply = self.total_supply();
        match Nft::check_zero_address(caller, DropspaceNftErr::InvalidCaller) {
            Ok(()) => {},
            Err(e) => {
                return Err(e);
            },
        }
        if !self.sale_active(now) {
            return Err(DropspaceNftErr::SaleInactive);
        }
        if amount == 0 {
            return Err(DropspaceNftErr::InvalidAmount);
        }
        if amount > self.config.mint_limit {
            return Err(DropspaceNftErr::MintLimitExceeded);
        }
        if total_supply.saturating_add(amount) > self.config.supply_limit {
            return Err(DropspaceNftErr::SupplyLimitExceeded);
        }
        if self.token_id.checked_add(amount).is_none() {
            return Err(DropspaceNftErr::SupplyLimitExceeded);
        }
        Ok(())
    }

    /// Mints `amount` tokens to `to`, one after the other.
    fn mint_batch(&mut self, to: &ActorId, amount: u128)
        requires
            old(self).wf(),
            old(self).token_id + amount <= u128::MAX,
        ensures
            final(self).wf(),
            final(self).token_id == old(self).token_id + amount,
            final(self).owner_by_id@ == with_batch(
                old(self).owner_by_id@,
                old(self).token_id as int,
                amount as int,
                *to,
            ),
            final(self).token_approvals@ == old(self).token_approvals@,
            forall|t: TokenId|
                #[trigger] old(self).token_metadata_by_id@.contains_key(t)
                    ==> final(self).token_metadata_by_id@.contains_key(t)
                    && final(self).token_metadata_by_id@[t] == old(self).token_metadata_by_id@[t],
            forall|t: TokenId|
                old(self).token_id <= t < old(self).token_id + amount ==> fresh_metadata(
                    #[trigger] final(self).token_metadata_by_id@[t],
                    t,
                ),
            final(self).minted_count() == old(self).minted_count() + amount,
            final(self).owner == old(self).owner,
            final(self).collection == old(self).collection,
            final(self).config == old(self).config,
    {
        let ghost start = self.token_id as int;
        let mut i: u128 = 0;
        proof {
            assert(self.owner_by_id@ =~= with_batch(old(self).owner_by_id@, start, 0, *to));
        }
        while i < amount
            invariant
                self.wf(),
                i <= amount,
                start == old(self).token_id,
                start + amount <= u128::MAX,
                self.token_id == start + i,
                self.owner_by_id@ == with_batch(old(self).owner_by_id@, start, i as int, *to),
                self.token_approvals@ == old(self).token_approvals@,
                forall|t: TokenId|
                    #[trigger] old(self).owner_by_id@.contains_key(t) ==> t < start,
                forall|t: TokenId|
                    #[trigger] old(self).token_metadata_by_id@.contains_key(t)
                        ==> self.token_metadata_by_id@.contains_key(t)
                        && self.token_metadata_by_id@[t] == old(self).token_metadata_by_id@[t],
                forall|t: TokenId|
                    #![trigger self.token_metadata_by_id@[t]]
                    start <= t && t < start + i ==> fresh_metadata(self.token_metadata_by_id@[t], t),
                self.minted_count() == old(self).minted_count() + i,
                self.owner == old(self).owner,
                self.collection == old(self).collection,
                self.config == old(self).config,
            decreases amount - i,
        {
            let ghost before = self.token_metadata_by_id@;
            self.mint_single(to);
            i = i + 1;
            proof {
                assert(self.owner_by_id@ =~= with_batch(old(self).owner_by_id@, start, i as int, *to));
                assert forall|t: TokenId|
                    #[trigger] old(self).token_metadata_by_id@.contains_key(t)
                        implies self.token_metadata_by_id@.contains_key(t)
                        && self.token_metadata_by_id@[t] == old(self).token_metadata_by_id@[t] by {
                    assert(before.contains_key(t));
                }
                assert forall|t: TokenId|
                    #![trigger self.token_metadata_by_id@[t]]
                    start <= t && t < start + i implies fresh_metadata(self.token_metadata_by_id@[t], t) by {
                    if t < start + i - 1 {
                        assert(fresh_metadata(before[t], t));
                        assert(with_batch(old(self).owner_by_id@, start, i - 1, *to).contains_key(t));
                        assert(before.contains_key(t));
                    } else {
                        assert(t == start + i - 1);
                        assert(self.token_metadata_by_id@.dom().contains(t));
                        assert(fresh_metadata(self.token_metadata_by_id@[t], t));
                    }
                }
            }
        }
    }

    /// Sells `amount` new tokens to `caller`, who attached `value`.
    pub fn buy(&mut self, caller: ActorId, value: u128, now: u64, amount: u128) -> (r: Result<
        Reply,
        DropspaceNftErr,
    >)
        requires
            old(self).wf(),
        ensures
            final(self).wf(),
            r is Err ==> *final(self) == *old(self),
            event_of(r) == buy_outcome(old(self), caller, value, now, amount),
            r is Ok ==> {
                &&& r->Ok_0.payouts@ == purchase_payouts(old(self).config, caller, value, amount)
                &&& minted_batch(old(self), final(self), caller, amount)
            },
    {
        match self.check_mint_request(&caller, now, amount) {
            Ok(()) => {},
            Err(e) => {
                return Err(e);
            },
        }
        let price_part = saturating_mul(self.config.mint_price, amount);
        let fee_part = saturating_mul(self.config.mint_fee, amount);
        let required_value = price_part.saturating_add(fee_part);
        if required_value > value {
            return Err(DropspaceNftErr::InsufficientFunds);
        }
        let mut payouts: Vec<Payout> = Vec::new();
        if self.config.mint_price > 0 {
            payouts.push(Payout { to: self.config.withdraw_wallet, value: price_part });
        }
        if self.config.mint_fee > 0 {
            payouts.push(Payout { to: self.config.dev_wallet, value: fee_part });
        }
        let remainder = value - required_value;
        if remainder > 0 {
            payouts.push(Payout { to: caller, value: remainder });
        }
        proof {
            assert(payouts@ =~= purchase_payouts(self.config, caller, value, amount));
        }
        self.mint_batch(&caller, amount);
        Ok(Reply { event: NftEvent::Bought { to: caller, amount }, payouts })
    }

    /// Mints `amount` new tokens to the administrator, free of charge.
    pub fn reserve(&mut self, caller: ActorId, now: u64, amount: u128) -> (r: Result<
        NftEvent,
        DropspaceNftErr,
    >)
        requires
            old(self).wf(),
        ensures
            final(self).wf(),
            r is Err ==> *final(self) == *old(self),
            r == reserve_outcome(old(self), caller, now, amount),
            r is Ok ==> minted_batch(old(self), final(self), caller, amount),
    {
        match self.check_collection_owner(&caller) {
            Ok(()) => {},
            Err(e) => {
                return Err(e);
            },
        }
        match self.check_mint_request(&caller, now, amount) {
            Ok(()) => {},
            Err(e) => {
                return Err(e);
            },
        }
        self.mint_batch(&caller, amount);
        Ok(NftEvent::Reserved { to: caller, amount })
    }
}

} // verus!
