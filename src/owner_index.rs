use vstd::prelude::*;
use crate::types::{ActorId, TokenId};

verus! {

/// The tokens held by one owner.
#[derive(Debug)]
pub struct OwnerTokens {
    pub owner: ActorId,
    pub tokens: Vec<TokenId>,
}

/// For each owner that holds at least one token, the tokens it holds. An
/// owner whose last token leaves is dropped from the index.
#[derive(Debug)]
pub struct OwnerIndex {
    pub entries: Vec<OwnerTokens>,
}

proof fn lemma_push_contains(sq: Seq<TokenId>, x: TokenId, y: TokenId)
    ensures
        sq.push(x).contains(y) <==> (sq.contains(y) || y == x),
{
    if sq.contains(y) {
        let k = choose|k: int| 0 <= k < sq.len() && sq[k] == y;
        assert(sq.push(x)[k] == y);
    }
    if y == x {
        assert(sq.push(x)[sq.len() as int] == x);
    }
    if sq.push(x).contains(y) {
        let k = choose|k: int| 0 <= k < sq.len() + 1 && sq.push(x)[k] == y;
        if k < sq.len() {
            assert(sq[k] == y);
        }
    }
}

proof fn lemma_push_no_duplicates(sq: Seq<TokenId>, x: TokenId)
    requires
        sq.no_duplicates(),
        !sq.contains(x),
    ensures
        sq.push(x).no_duplicates(),
{
    let p = sq.push(x);
    assert forall|i: int, j: int| 0 <= i < p.len() && 0 <= j < p.len() && i != j implies p[i]
        != p[j] by {
        if i < sq.len() && j < sq.len() {
            assert(p[i] == sq[i] && p[j] == sq[j]);
        } else if i < sq.len() {
            assert(p[i] == sq[i]);
        } else {
            assert(p[j] == sq[j]);
        }
    }
}

proof fn lemma_remove_at(sq: Seq<TokenId>, pos: int, y: TokenId)
    requires
        sq.no_duplicates(),
        0 <= pos < sq.len(),
    ensures
        sq.remove(pos).no_duplicates(),
        sq.remove(pos).contains(y) <==> (sq.contains(y) && y != sq[pos]),
{
    let r = sq.remove(pos);
    assert forall|i: int, j: int| 0 <= i < r.len() && 0 <= j < r.len() && i != j implies r[i]
        != r[j] by {
        let a = if i < pos { i } else { i + 1 };
        let b = if j < pos { j } else { j + 1 };
        assert(r[i] == sq[a] && r[j] == sq[b]);
    }
    if r.contains(y) {
        let k = choose|k: int| 0 <= k < r.len() && r[k] == y;
        let a = if k < pos { k } else { k + 1 };
        assert(sq[a] == y);
    }
    if sq.contains(y) && y != sq[pos] {
        let k = choose|k: int| 0 <= k < sq.len() && sq[k] == y;
        if k < pos {
            assert(r[k] == y);
        } else {
            assert(r[k - 1] == y);
        }
    }
}

impl OwnerIndex {
    /// Whether the index holds an entry for `o`.
    pub open spec fn has_owner(&self, o: ActorId) -> bool {
        exists|i: int| 0 <= i < self.entries@.len() && (#[trigger] self.entries@[i]).owner == o
    }

    /// Whether the index records `t` as held by `o`.
    pub open spec fn holds(&self, o: ActorId, t: TokenId) -> bool {
        exists|i: int|
            0 <= i < self.entries@.len() && (#[trigger] self.entries@[i]).owner == o
                && self.entries@[i].tokens@.contains(t)
    }

    /// Owners are distinct; each entry is non-empty and lists a token once.
    pub open spec fn wf(&self) -> bool {
        &&& forall|i: int, j: int|
            0 <= i < self.entries@.len() && 0 <= j < self.entries@.len() && i != j
                ==> (#[trigger] self.entries@[i]).owner != (#[trigger] self.entries@[j]).owner
        &&& forall|i: int|
            0 <= i < self.entries@.len() ==> (#[trigger] self.entries@[i]).tokens@.len() > 0
                && self.entries@[i].tokens@.no_duplicates()
    }

    pub fn new() -> (r: OwnerIndex)
        ensures
            r.wf(),
            r@ == Map::<ActorId, Set<TokenId>>::empty(),
            forall|p: ActorId, s: TokenId| !r.holds(p, s),
    {
        let r = OwnerIndex { entries: Vec::new() };
        assert(r@ =~= Map::<ActorId, Set<TokenId>>::empty());
        r
    }

    /// In a well-formed index the view and `holds` agree, and every owner
    /// present holds at least one token.
    pub proof fn lemma_view(&self)
        requires
            self.wf(),
        ensures
            forall|o: ActorId, t: TokenId|
                (self@.contains_key(o) && #[trigger] self@[o].contains(t)) <==> self.holds(o, t),
            forall|o: ActorId|
                #[trigger] self@.contains_key(o) ==> exists|t: TokenId| self.holds(o, t),
    {
        assert forall|o: ActorId| #[trigger] self@.contains_key(o) implies exists|t: TokenId|
            self.holds(o, t) by {
            let i = choose|i: int| 0 <= i < self.entries@.len() && (#[trigger] self.entries@[i]).owner == o;
            let t = self.entries@[i].tokens@[0];
            assert(self.entries@[i].tokens@.contains(t));
            assert(self.holds(o, t));
        }
    }

    fn find(&self, o: ActorId) -> (r: Option<usize>)
        ensures
            match r {
                Some(i) => i < self.entries@.len() && self.entries@[i as int].owner == o,
                None => !self.has_owner(o),
            },
    {
        let mut i: usize = 0;
        while i < self.entries.len()
            invariant
                i <= self.entries@.len(),
                forall|k: int| 0 <= k < i ==> (#[trigger] self.entries@[k]).owner != o,
            decreases self.entries@.len() - i,
        {
            if self.entries[i].owner == o {
                return Some(i);
            }
            i = i + 1;
        }
        None
    }
}

impl OwnerIndex {
    /// Records `t` as held by `o`.
    pub fn add(&mut self, o: ActorId, t: TokenId)
        requires
            old(self).wf(),
            forall|p: ActorId| !old(self).holds(p, t),
        ensures
            final(self).wf(),
            forall|p: ActorId, s: TokenId|
                #[trigger] final(self).holds(p, s) <==> (old(self).holds(p, s) || (p == o && s
                    == t)),
    {
        match self.find(o) {
            Some(i) => {
                let ghost before = self.entries@;
                let mut entry = OwnerTokens { owner: o, tokens: Vec::new() };
                self.entries.set_and_swap(i, &mut entry);
                proof {
                    assert(before[i as int].owner == o);
                    if before[i as int].tokens@.contains(t) {
                        assert(old(self).holds(o, t));
                    }
                    lemma_push_no_duplicates(entry.tokens@, t);
                }
                entry.tokens.push(t);
                self.entries.set(i, entry);
                proof {
                    assert(self.entries@ == before.update(i as int, entry));
                    assert forall|p: ActorId, s: TokenId| #[trigger]
                        self.holds(p, s) <==> (old(self).holds(p, s) || (p == o && s == t)) by {
                        lemma_push_contains(before[i as int].tokens@, t, s);
                        if self.holds(p, s) {
                            let k = choose|k: int|
                                0 <= k < self.entries@.len() && (#[trigger] self.entries@[k]).owner
                                    == p && self.entries@[k].tokens@.contains(s);
                            if k != i && !(p == o && s == t) {
                                assert(before[k] == self.entries@[k]);
                            }
                        }
                        if old(self).holds(p, s) {
                            let k = choose|k: int|
                                0 <= k < before.len() && (#[trigger] before[k]).owner == p
                                    && before[k].tokens@.contains(s);
                            assert(self.entries@[k].owner == p);
                            assert(self.entries@[k].tokens@.contains(s));
                        }
                        if p == o && s == t {
                            assert(self.entries@[i as int].tokens@.contains(t));
                        }
                    }
                }
            },
            None => {
                let ghost before = self.entries@;
                let mut tokens: Vec<TokenId> = Vec::new();
                tokens.push(t);
                proof {
                    assert(tokens@[0] == t);
                    assert(tokens@.contains(t));
                }
                self.entries.push(OwnerTokens { owner: o, tokens });
                proof {
                    let n = before.len() as int;
                    assert forall|p: ActorId, s: TokenId| #[trigger]
                        self.holds(p, s) <==> (old(self).holds(p, s) || (p == o && s == t)) by {
                        if self.holds(p, s) {
                            let k = choose|k: int|
                                0 <= k < self.entries@.len() && (#[trigger] self.entries@[k]).owner
                                    == p && self.entries@[k].tokens@.contains(s);
                            if k < n {
                                assert(before[k] == self.entries@[k]);
                            } else {
                                let j = choose|j: int| 0 <= j < 1 && self.entries@[k].tokens@[j] == s;
                                assert(self.entries@[k].tokens@[j] == t);
                            }
                        }
                        if old(self).holds(p, s) {
                            let k = choose|k: int|
                                0 <= k < before.len() && (#[trigger] before[k]).owner == p
                                    && before[k].tokens@.contains(s);
                            assert(self.entries@[k] == before[k]);
                        }
                        if p == o && s == t {
                            assert(self.entries@[n].tokens@.contains(t));
                        }
                    }
                }
            },
        }
    }

    /// Forgets that `o` holds `t`; drops `o`'s entry if that was its last
    /// token.
    pub fn remove(&mut self, o: ActorId, t: TokenId)
        requires
            old(self).wf(),
            old(self).holds(o, t),
        ensures
            final(self).wf(),
            forall|p: ActorId, s: TokenId|
                #[trigger] final(self).holds(p, s) <==> (old(self).holds(p, s) && !(p == o && s
                    == t)),
    {
        let ghost before = self.entries@;
        let ghost k0 = choose|k: int|
            0 <= k < before.len() && (#[trigger] before[k]).owner == o && before[k].tokens@.contains(t);
        let i = match self.find(o) {
            Some(i) => i,
            None => {
                proof {
                    assert(before[k0].owner == o);
                }
                0
            },
        };
        proof {
            assert(k0 == i as int);
        }
        let mut entry = OwnerTokens { owner: o, tokens: Vec::new() };
        self.entries.set_and_swap(i, &mut entry);
        let mut pos: usize = 0;
        while pos < entry.tokens.len() && entry.tokens[pos] != t
            invariant
                i < before.len(),
                entry == before[i as int],
                entry.tokens@.contains(t),
                pos <= entry.tokens@.len(),
                forall|q: int| 0 <= q < pos ==> entry.tokens@[q] != t,
            decreases entry.tokens@.len() - pos,
        {
            pos = pos + 1;
        }
        proof {
            if pos == entry.tokens@.len() {
                let q = choose|q: int| 0 <= q < entry.tokens@.len() && entry.tokens@[q] == t;
                assert(entry.tokens@[q] != t);
            }
        }
        let ghost old_tokens = entry.tokens@;
        entry.tokens.remove(pos);
        proof {
            assert forall|s: TokenId| entry.tokens@.contains(s) <==> (old_tokens.contains(s)
                && s != t) by {
                lemma_remove_at(old_tokens, pos as int, s);
            }
            lemma_remove_at(old_tokens, pos as int, t);
        }
        if entry.tokens.len() == 0 {
            self.entries.remove(i);
            proof {
                assert(self.entries@ == before.remove(i as int));
                assert forall|s: TokenId| old_tokens.contains(s) implies s == t by {
                    if s != t {
                        assert(entry.tokens@.contains(s));
                    }
                }
                assert forall|p: ActorId, s: TokenId| #[trigger]
                    self.holds(p, s) <==> (old(self).holds(p, s) && !(p == o && s == t)) by {
                    if self.holds(p, s) {
                        let k = choose|k: int|
                            0 <= k < self.entries@.len() && (#[trigger] self.entries@[k]).owner == p
                                && self.entries@[k].tokens@.contains(s);
                        let a = if k < i { k } else { k + 1 };
                        assert(before[a] == self.entries@[k]);
                        assert(a != i);
                    }
                    if old(self).holds(p, s) && !(p == o && s == t) {
                        let k = choose|k: int|
                            0 <= k < before.len() && (#[trigger] before[k]).owner == p
                                && before[k].tokens@.contains(s);
                        if k == i {
                            assert(s == t);
                        } else if k < i {
                            assert(self.entries@[k] == before[k]);
                        } else {
                            assert(self.entries@[k - 1] == before[k]);
                        }
                    }
                }
            }
        } else {
            self.entries.set(i, entry);
            proof {
                assert(self.entries@ == before.update(i as int, entry));
                assert forall|p: ActorId, s: TokenId| #[trigger]
                    self.holds(p, s) <==> (old(self).holds(p, s) && !(p == o && s == t)) by {
                    if self.holds(p, s) {
                        let k = choose|k: int|
                            0 <= k < self.entries@.len() && (#[trigger] self.entries@[k]).owner == p
                                && self.entries@[k].tokens@.contains(s);
                        if k != i {
                            assert(before[k] == self.entries@[k]);
                        }
                    }
                    if old(self).holds(p, s) && !(p == o && s == t) {
                        let k = choose|k: int|
                            0 <= k < before.len() && (#[trigger] before[k]).owner == p
                                && before[k].tokens@.contains(s);
                        if k == i {
                            assert(self.entries@[k].tokens@.contains(s));
                        } else {
                            assert(self.entries@[k] == before[k]);
                        }
                    }
                }
            }
        }
    }

    /// Each owner with the tokens it holds, as pairs.
    pub fn pairs(&self) -> (r: Vec<(ActorId, Vec<TokenId>)>)
        requires
            self.wf(),
        ensures
            forall|o: ActorId|
                #[trigger] self.has_owner(o) <==> exists|k: int| 0 <= k < r@.len() && (#[trigger] r@[k]).0 == o,
            forall|k: int, j: int|
                0 <= k < r@.len() && 0 <= j < r@.len() && k != j ==> (#[trigger] r@[k]).0 != (#[trigger] r@[j]).0,
            forall|k: int|
                0 <= k < r@.len() ==> (#[trigger] r@[k]).1@.no_duplicates() && forall|t: TokenId|
                    r@[k].1@.contains(t) <==> self.holds(r@[k].0, t),
    {
        let mut r: Vec<(ActorId, Vec<TokenId>)> = Vec::new();
        let mut i: usize = 0;
        while i < self.entries.len()
            invariant
                self.wf(),
                i <= self.entries@.len(),
                r@.len() == i,
                forall|k: int| 0 <= k < i ==> (#[trigger] r@[k]).0 == self.entries@[k].owner,
                forall|k: int|
                    0 <= k < i ==> (#[trigger] r@[k]).1@.no_duplicates() && forall|t: TokenId|
                        r@[k].1@.contains(t) <==> self.holds(r@[k].0, t),
            decreases self.entries@.len() - i,
        {
            let o = self.entries[i].owner;
            let tokens = match self.tokens_of(o) {
                Some(v) => v,
                None => {
                    proof {
                        assert(self.entries@[i as int].owner == o);
                        assert(self.has_owner(o));
                    }
                    Vec::new()
                },
            };
            r.push((o, tokens));
            i = i + 1;
        }
        proof {
            assert forall|o: ActorId|
                self.has_owner(o) implies exists|k: int| 0 <= k < r@.len() && (#[trigger] r@[k]).0 == o by {
                let k = choose|k: int| 0 <= k < self.entries@.len() && (#[trigger] self.entries@[k]).owner == o;
                assert(r@[k].0 == o);
            }
            assert forall|o: ActorId|
                (exists|k: int| 0 <= k < r@.len() && (#[trigger] r@[k]).0 == o) implies self.has_owner(o) by {
                let k = choose|k: int| 0 <= k < r@.len() && (#[trigger] r@[k]).0 == o;
                assert(self.entries@[k].owner == o);
            }
        }
        r
    }

    /// The tokens `o` holds, or `None` when it holds none.
    pub fn tokens_of(&self, o: ActorId) -> (r: Option<Vec<TokenId>>)
        requires
            self.wf(),
        ensures
            match r {
                Some(v) => {
                    &&& self@.contains_key(o)
                    &&& v@.no_duplicates()
                    &&& forall|t: TokenId| v@.contains(t) <==> self.holds(o, t)
                },
                None => !self@.contains_key(o),
            },
    {
        match self.find(o) {
            None => None,
            Some(i) => {
                let src = &self.entries[i].tokens;
                let mut v: Vec<TokenId> = Vec::new();
                let mut k: usize = 0;
                while k < src.len()
                    invariant
                        k <= src@.len(),
                        v@ == src@.subrange(0, k as int),
                    decreases src@.len() - k,
                {
                    v.push(src[k]);
                    k = k + 1;
                    proof {
                        assert(v@ =~= src@.subrange(0, k as int));
                    }
                }
                proof {
                    assert(v@ =~= src@);
                    assert forall|t: TokenId| v@.contains(t) <==> self.holds(o, t) by {
                        if self.holds(o, t) {
                            let k = choose|k: int|
                                0 <= k < self.entries@.len() && (#[trigger] self.entries@[k]).owner
                                    == o && self.entries@[k].tokens@.contains(t);
                            assert(k == i);
                        }
                        if v@.contains(t) {
                            assert(self.entries@[i as int].owner == o);
                        }
                    }
                }
                Some(v)
            },
        }
    }
}

impl View for OwnerIndex {
    type V = Map<ActorId, Set<TokenId>>;

    open spec fn view(&self) -> Map<ActorId, Set<TokenId>> {
        Map::new(|o: ActorId| self.has_owner(o), |o: ActorId| Set::new(|t: TokenId| self.holds(o, t)))
    }
}

} // verus!
