use vstd::prelude::*;
use crate::ledger::Nft;
use crate::sale::{minted_batch, purchase_payouts, required_payment, with_batch};
use crate::types::{ActorId, Config, Payout, TokenId};

verus! {

/// The sum of the values that `ps` hands out.
pub open spec fn payout_total(ps: Seq<Payout>) -> int
    decreases ps.len(),
{
    if ps.len() == 0 {
        0
    } else {
        payout_total(ps.drop_last()) + ps.last().value
    }
}

/// A minted token has one owner: the ownership index maps it to one identity,
/// and the owner-tokens index lists it under that identity and no other.
pub proof fn lemma_unique_owner(nft: &Nft, t: TokenId, a: ActorId, b: ActorId)
    requires
        nft.wf(),
        nft.tokens_for_owner@.contains_key(a),
        nft.tokens_for_owner@[a].contains(t),
        nft.tokens_for_owner@.contains_key(b),
        nft.tokens_for_owner@[b].contains(t),
    ensures
        a == b,
        nft.minted(t),
        nft.owner_by_id@[t] == a,
{
    nft.tokens_for_owner.lemma_view();
    assert(nft.tokens_for_owner.holds(a, t) && nft.tokens_for_owner.holds(b, t));
}

/// The owner-tokens index is the exact inverse of the ownership index, and
/// holds no owner without tokens.
pub proof fn lemma_index_duality(nft: &Nft, o: ActorId, t: TokenId)
    requires
        nft.wf(),
    ensures
        (nft.tokens_for_owner@.contains_key(o) && nft.tokens_for_owner@[o].contains(t)) <==> (
        nft.owner_by_id@.contains_key(t) && nft.owner_by_id@[t] == o),
        nft.tokens_for_owner@.contains_key(o) ==> exists|s: TokenId|
            nft.tokens_for_owner@[o].contains(s),
{
    nft.tokens_for_owner.lemma_view();
    assert(nft.tokens_for_owner.holds(o, t) <==> nft.owns(o, t));
    if nft.tokens_for_owner@.contains_key(o) {
        let s = choose|s: TokenId| nft.tokens_for_owner.holds(o, s);
        assert(nft.tokens_for_owner@[o].contains(s));
    }
}

/// The tokens each owner holds according to the ownership map `m`, for every
/// owner that holds at least one.
pub open spec fn owner_sets(m: Map<TokenId, ActorId>) -> Map<ActorId, Set<TokenId>> {
    Map::new(
        |o: ActorId| exists|t: TokenId| m.contains_key(t) && m[t] == o,
        |o: ActorId| Set::new(|t: TokenId| m.contains_key(t) && m[t] == o),
    )
}

/// The owner-tokens index is exactly the inverse of the ownership index.
pub proof fn lemma_index_is_inverse(nft: &Nft)
    requires
        nft.wf(),
    ensures
        nft.tokens_for_owner@ == owner_sets(nft.owner_by_id@),
{
    nft.tokens_for_owner.lemma_view();
    let m = nft.owner_by_id@;
    assert forall|o: ActorId|
        nft.tokens_for_owner@.contains_key(o) <==> owner_sets(m).contains_key(o) by {
        if nft.tokens_for_owner@.contains_key(o) {
            let t = choose|t: TokenId| nft.tokens_for_owner.holds(o, t);
            assert(nft.owns(o, t));
        }
        if owner_sets(m).contains_key(o) {
            let t = choose|t: TokenId| m.contains_key(t) && m[t] == o;
            assert(nft.owns(o, t));
            assert(nft.tokens_for_owner.holds(o, t));
            assert(nft.tokens_for_owner@[o].contains(t));
        }
    }
    assert forall|o: ActorId| #[trigger] nft.tokens_for_owner@.contains_key(o) implies
        nft.tokens_for_owner@[o] == owner_sets(m)[o] by {
        assert forall|t: TokenId| nft.tokens_for_owner@[o].contains(t) <==> owner_sets(m)[o].contains(t) by {
            assert(nft.tokens_for_owner.holds(o, t) <==> nft.owns(o, t));
        }
        assert(nft.tokens_for_owner@[o] =~= owner_sets(m)[o]);
    }
    assert(nft.tokens_for_owner@ =~= owner_sets(m));
}

/// After `amount` tokens were minted to `to`, the index lists for `to` what it
/// held before and the new identifiers, and lists every other owner as before.
pub proof fn lemma_batch_index(old: &Nft, new: &Nft, to: ActorId, amount: u128)
    requires
        old.wf(),
        new.wf(),
        amount > 0,
        minted_batch(old, new, to, amount),
    ensures
        new.tokens_for_owner@.contains_key(to),
        forall|t: TokenId|
            #[trigger] new.tokens_for_owner@[to].contains(t) <==> ((old.tokens_for_owner@.contains_key(to)
                && old.tokens_for_owner@[to].contains(t)) || (old.token_id <= t < old.token_id
                + amount)),
        forall|o: ActorId|
            o != to ==> #[trigger] new.tokens_for_owner@.contains_key(o)
                == old.tokens_for_owner@.contains_key(o) && (new.tokens_for_owner@.contains_key(o)
                ==> new.tokens_for_owner@[o] == old.tokens_for_owner@[o]),
{
    lemma_index_is_inverse(old);
    lemma_index_is_inverse(new);
    let om = old.owner_by_id@;
    let nm = new.owner_by_id@;
    assert(nm == with_batch(om, old.token_id as int, amount as int, to));
    assert forall|t: TokenId| #[trigger] om.contains_key(t) implies t < old.token_id by {
        assert(old.minted(t));
    }
    let k = old.token_id;
    assert(nm.contains_key(k) && nm[k] == to);
    assert forall|o: ActorId| o != to implies #[trigger] new.tokens_for_owner@.contains_key(o)
        == old.tokens_for_owner@.contains_key(o) && (new.tokens_for_owner@.contains_key(o)
        ==> new.tokens_for_owner@[o] == old.tokens_for_owner@[o]) by {
        if owner_sets(om).contains_key(o) {
            let t = choose|t: TokenId| om.contains_key(t) && om[t] == o;
            assert(nm.contains_key(t) && nm[t] == o);
        }
        if owner_sets(nm).contains_key(o) {
            let t = choose|t: TokenId| nm.contains_key(t) && nm[t] == o;
            assert(om.contains_key(t) && om[t] == o);
        }
        assert forall|t: TokenId| (nm.contains_key(t) && nm[t] == o) <==> (om.contains_key(t)
            && om[t] == o) by {
            if nm.contains_key(t) && nm[t] == o && !om.contains_key(t) {
                assert(nm[t] == to);
            }
        }
        if owner_sets(nm).contains_key(o) {
            assert(owner_sets(nm)[o] =~= owner_sets(om)[o]);
        }
    }
}

/// Every minted token, live or since burnt, has an identifier below the
/// counter, and the counter only grows: the next identifier is new.
pub proof fn lemma_fresh_identifiers(nft: &Nft, t: TokenId)
    requires
        nft.wf(),
        nft.minted(t),
    ensures
        t < nft.token_id,
{
}

/// A purchase whose price and fee do not reach the clamp hands out exactly
/// the attached value: `price * amount` to the withdrawal wallet, `fee *
/// amount` to the developer wallet and the rest back to the buyer.
pub proof fn lemma_fee_conservation(cfg: Config, caller: ActorId, value: u128, amount: u128)
    requires
        cfg.mint_price * amount + cfg.mint_fee * amount <= u128::MAX,
        cfg.mint_price * amount + cfg.mint_fee * amount <= value,
    ensures
        required_payment(cfg.mint_price, cfg.mint_fee, amount) == cfg.mint_price * amount
            + cfg.mint_fee * amount,
        purchase_payouts(cfg, caller, value, amount) == (if cfg.mint_price > 0 {
            seq![Payout { to: cfg.withdraw_wallet, value: (cfg.mint_price * amount) as u128 }]
        } else {
            Seq::<Payout>::empty()
        }) + (if cfg.mint_fee > 0 {
            seq![Payout { to: cfg.dev_wallet, value: (cfg.mint_fee * amount) as u128 }]
        } else {
            Seq::<Payout>::empty()
        }) + (if value - cfg.mint_price * amount - cfg.mint_fee * amount > 0 {
            seq![
                Payout {
                    to: caller,
                    value: (value - cfg.mint_price * amount - cfg.mint_fee * amount) as u128,
                },
            ]
        } else {
            Seq::<Payout>::empty()
        }),
        payout_total(purchase_payouts(cfg, caller, value, amount)) == value,
{
    assert(cfg.mint_price * amount >= 0) by (nonlinear_arith);
    assert(cfg.mint_fee * amount >= 0) by (nonlinear_arith);
    let p = cfg.mint_price * amount;
    let f = cfg.mint_fee * amount;
    let rest = value - p - f;
    let a = if cfg.mint_price > 0 {
        seq![Payout { to: cfg.withdraw_wallet, value: p as u128 }]
    } else {
        Seq::<Payout>::empty()
    };
    let b = if cfg.mint_fee > 0 {
        seq![Payout { to: cfg.dev_wallet, value: f as u128 }]
    } else {
        Seq::<Payout>::empty()
    };
    let c = if rest > 0 {
        seq![Payout { to: caller, value: rest as u128 }]
    } else {
        Seq::<Payout>::empty()
    };
    assert(cfg.mint_price == 0 ==> p == 0) by (nonlinear_arith)
        requires p == cfg.mint_price * amount;
    assert(cfg.mint_fee == 0 ==> f == 0) by (nonlinear_arith)
        requires f == cfg.mint_fee * amount;
    lemma_total_append(a + b, c);
    lemma_total_append(a, b);
    reveal_with_fuel(payout_total, 2);
}

proof fn lemma_total_append(x: Seq<Payout>, y: Seq<Payout>)
    ensures
        payout_total(x + y) == payout_total(x) + payout_total(y),
    decreases y.len(),
{
    if y.len() == 0 {
        assert(x + y =~= x);
    } else {
        lemma_total_append(x, y.drop_last());
        assert((x + y).drop_last() =~= x + y.drop_last());
    }
}

} // verus!
