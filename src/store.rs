//! The shared store: the current shortage reports, the accumulated letters
//! keyed by their detail-page address, and a readiness flag for each.
use vstd::prelude::*;
use crate::feed::{parse_feed, csv_table_of, valid_rows};
use crate::letters::Brief;
use crate::shortage::Lieferengpass;
use crate::text::str_eq;

verus! {

/// The answer of a query: not loaded yet, or the data.
pub enum ApiResponse<T> {
    NotReady,
    Success(T),
}

/// Some letter of `s` has the key `k`.
pub open spec fn has_key(s: Seq<Brief>, k: Seq<char>) -> bool {
    exists|i: int| 0 <= i < s.len() && (#[trigger] s[i]).key() == k
}

/// The candidates, in order, whose key no letter of `s` has.
pub open spec fn unseen(s: Seq<Brief>, cands: Seq<Brief>) -> Seq<Brief>
    decreases cands.len(),
{
    if cands.len() == 0 {
        Seq::empty()
    } else {
        let rest = unseen(s, cands.drop_first());
        if has_key(s, cands[0].key()) {
            rest
        } else {
            seq![cands[0]] + rest
        }
    }
}

/// The addresses, in order, that no letter of `s` has as key.
pub open spec fn unseen_links(s: Seq<Brief>, links: Seq<Seq<char>>) -> Seq<Seq<char>>
    decreases links.len(),
{
    if links.len() == 0 {
        Seq::empty()
    } else {
        let rest = unseen_links(s, links.drop_first());
        if has_key(s, links[0]) {
            rest
        } else {
            seq![links[0]] + rest
        }
    }
}

/// Some result of the batch is a letter with the key `k`.
pub open spec fn yields_key(results: Seq<Option<Brief>>, k: Seq<char>) -> bool {
    exists|i: int| 0 <= i < results.len() && #[trigger] yields_at(results, i, k)
}

/// The result at position `i` is a letter with the key `k`.
pub open spec fn yields_at(results: Seq<Option<Brief>>, i: int, k: Seq<char>) -> bool {
    results[i] is Some && results[i]->0.key() == k
}

/// The candidates that go on to be fetched are exactly those whose key the
/// store does not hold: a letter already stored is never fetched again, and
/// every new one is.
pub proof fn lemma_unseen_exact(s: Seq<Brief>, cands: Seq<Brief>)
    ensures
        forall|i: int| 0 <= i < unseen(s, cands).len() ==> !has_key(s, (#[trigger] unseen(s, cands)[i]).key()),
        forall|i: int| 0 <= i < unseen(s, cands).len() ==> cands.contains(#[trigger] unseen(s, cands)[i]),
        forall|i: int| 0 <= i < cands.len() && !has_key(s, (#[trigger] cands[i]).key()) ==> unseen(s, cands).contains(cands[i]),
    decreases cands.len(),
{
    if cands.len() > 0 {
        let rest = cands.drop_first();
        lemma_unseen_exact(s, rest);
        let u = unseen(s, cands);
        let ur = unseen(s, rest);
        assert forall|i: int| 0 <= i < u.len() implies !has_key(s, (#[trigger] u[i]).key()) && cands.contains(u[i]) by {
            if has_key(s, cands[0].key()) {
                assert(u[i] == ur[i]);
                assert(rest.contains(ur[i]));
                let j = choose|j: int| 0 <= j < rest.len() && rest[j] == ur[i];
                assert(cands[j + 1] == rest[j]);
            } else if i == 0 {
                assert(u[0] == cands[0]);
                assert(cands[0] == cands[0]);
            } else {
                assert(u[i] == ur[i - 1]);
                assert(rest.contains(ur[i - 1]));
                let j = choose|j: int| 0 <= j < rest.len() && rest[j] == ur[i - 1];
                assert(cands[j + 1] == rest[j]);
            }
        }
        assert forall|i: int| 0 <= i < cands.len() && !has_key(s, (#[trigger] cands[i]).key()) implies u.contains(cands[i]) by {
            if i == 0 {
                assert(u[0] == cands[0]);
            } else {
                assert(rest[i - 1] == cands[i]);
                assert(ur.contains(rest[i - 1]));
                let j = choose|j: int| 0 <= j < ur.len() && ur[j] == rest[i - 1];
                if has_key(s, cands[0].key()) {
                    assert(u[j] == ur[j]);
                } else {
                    assert(u[j + 1] == ur[j]);
                }
            }
        }
    }
}

/// The store's contents.
pub struct InnerStorage {
    pub lieferengpaesse: Vec<Lieferengpass>,
    pub briefe: Vec<Brief>,
    pub lieferengpaesse_loaded_initially: bool,
    pub briefe_loaded_initially: bool,
}

impl InnerStorage {
    /// No two letters share a key.
    pub open spec fn wf(&self) -> bool {
        forall|i: int, j: int|
            0 <= i < self.briefe@.len() && 0 <= j < self.briefe@.len() && i != j ==> (
            #[trigger] self.briefe@[i]).key() != (#[trigger] self.briefe@[j]).key()
    }

    /// An empty store; neither collection is ready.
    pub fn new() -> (r: InnerStorage)
        ensures
            r.wf(),
            r.lieferengpaesse@.len() == 0,
            r.briefe@.len() == 0,
            !r.lieferengpaesse_loaded_initially,
            !r.briefe_loaded_initially,
    {
        InnerStorage {
            lieferengpaesse: Vec::new(),
            briefe: Vec::new(),
            lieferengpaesse_loaded_initially: false,
            briefe_loaded_initially: false,
        }
    }

    /// Position of the letter with key `key`.
    pub fn find(&self, key: &str) -> (r: Option<usize>)
        ensures
            match r {
                Some(i) => i < self.briefe@.len() && self.briefe@[i as int].key() == key@,
                None => !has_key(self.briefe@, key@),
            },
    {
        let mut i: usize = 0;
        while i < self.briefe.len()
            invariant
                i <= self.briefe@.len(),
                forall|k: int| 0 <= k < i ==> (#[trigger] self.briefe@[k]).key() != key@,
            decreases self.briefe@.len() - i,
        {
            if str_eq(self.briefe[i].link_to_html.as_str(), key) {
                return Some(i);
            }
            i = i + 1;
        }
        None
    }

    /// Whether a letter with key `key` is stored.
    pub fn contains_key(&self, key: &str) -> (r: bool)
        ensures
            r == has_key(self.briefe@, key@),
    {
        self.find(key).is_some()
    }

    /// Stores a letter under its key, in place of any letter with that key.
    pub fn insert_letter(&mut self, b: Brief)
        requires
            old(self).wf(),
        ensures
            final(self).wf(),
            final(self).lieferengpaesse == old(self).lieferengpaesse,
            final(self).lieferengpaesse_loaded_initially == old(self).lieferengpaesse_loaded_initially,
            final(self).briefe_loaded_initially == old(self).briefe_loaded_initially,
            final(self).briefe@.contains(b),
            forall|k: Seq<char>| has_key(final(self).briefe@, k) <==> (has_key(old(self).briefe@, k) || k == b.key()),
            forall|i: int| 0 <= i < old(self).briefe@.len() && (#[trigger] old(self).briefe@[i]).key() != b.key()
                ==> final(self).briefe@.contains(old(self).briefe@[i]),
            final(self).briefe@.len() == old(self).briefe@.len() + if has_key(old(self).briefe@, b.key()) { 0int } else { 1int },
    {
        let ghost old_s = self.briefe@;
        match self.find(b.link_to_html.as_str()) {
            Some(i) => {
                self.briefe.set(i, b);
                assert(self.briefe@[i as int] == b);
                assert forall|k: Seq<char>| has_key(self.briefe@, k) <==> (has_key(old_s, k) || k == b.key()) by {
                    if has_key(old_s, k) {
                        let j = choose|j: int| 0 <= j < old_s.len() && (#[trigger] old_s[j]).key() == k;
                        if j == i {
                            assert(self.briefe@[i as int].key() == k);
                        } else {
                            assert(self.briefe@[j] == old_s[j]);
                        }
                    }
                    if has_key(self.briefe@, k) {
                        let j = choose|j: int| 0 <= j < self.briefe@.len() && (#[trigger] self.briefe@[j]).key() == k;
                        if j != i {
                            assert(old_s[j] == self.briefe@[j]);
                        }
                    }
                }
                assert forall|j: int| 0 <= j < old_s.len() && (#[trigger] old_s[j]).key() != b.key()
                    implies self.briefe@.contains(old_s[j]) by {
                    assert(j != i);
                    assert(self.briefe@[j] == old_s[j]);
                }
            },
            None => {
                self.briefe.push(b);
                assert(self.briefe@[old_s.len() as int] == b);
                assert forall|k: Seq<char>| has_key(self.briefe@, k) <==> (has_key(old_s, k) || k == b.key()) by {
                    if has_key(old_s, k) {
                        let j = choose|j: int| 0 <= j < old_s.len() && (#[trigger] old_s[j]).key() == k;
                        assert(self.briefe@[j] == old_s[j]);
                    }
                    if has_key(self.briefe@, k) {
                        let j = choose|j: int| 0 <= j < self.briefe@.len() && (#[trigger] self.briefe@[j]).key() == k;
                        if j < old_s.len() {
                            assert(old_s[j] == self.briefe@[j]);
                        }
                    }
                }
                assert forall|j: int| 0 <= j < old_s.len() && (#[trigger] old_s[j]).key() != b.key()
                    implies self.briefe@.contains(old_s[j]) by {
                    assert(self.briefe@[j] == old_s[j]);
                }
            },
        }
    }

    /// The candidates whose letters are not stored yet, in order: a letter
    /// already stored is never fetched again.
    pub fn new_candidates(&self, candidates: Vec<Brief>) -> (r: Vec<Brief>)
        ensures
            r@ == unseen(self.briefe@, candidates@),
    {
        let ghost all = candidates@;
        let mut cands = candidates;
        let mut out: Vec<Brief> = Vec::new();
        while cands.len() > 0
            invariant
                unseen(self.briefe@, all) == out@ + unseen(self.briefe@, cands@),
            decreases cands@.len(),
        {
            let ghost before = cands@;
            let c = cands.remove(0);
            assert(before.drop_first() =~= cands@);
            if !self.contains_key(c.link_to_html.as_str()) {
                out.push(c);
                assert(unseen(self.briefe@, all) =~= out@ + unseen(self.briefe@, cands@));
            } else {
                assert(unseen(self.briefe@, all) =~= out@ + unseen(self.briefe@, cands@));
            }
        }
        assert(unseen(self.briefe@, all) =~= out@);
        out
    }

    /// The addresses whose letters are not stored yet, in order.
    pub fn new_links(&self, links: Vec<String>) -> (r: Vec<String>)
        ensures
            r.deep_view() == unseen_links(self.briefe@, links.deep_view()),
    {
        let ghost all = links.deep_view();
        let mut i: usize = 0;
        let mut out: Vec<String> = Vec::new();
        assert(all.subrange(0, 0) =~= Seq::<Seq<char>>::empty());
        assert(all.subrange(0, all.len() as int) =~= all);
        while i < links.len()
            invariant
                i <= links@.len(),
                all == links.deep_view(),
                unseen_links(self.briefe@, all) == out.deep_view() + unseen_links(
                    self.briefe@,
                    all.subrange(i as int, all.len() as int),
                ),
            decreases links@.len() - i,
        {
            let ghost rest = all.subrange(i as int, all.len() as int);
            assert(rest.drop_first() =~= all.subrange(i + 1, all.len() as int));
            assert(rest[0] == links@[i as int]@);
            if !self.contains_key(links[i].as_str()) {
                let ghost old_dv = out.deep_view();
                out.push(links[i].clone());
                assert(out.deep_view() =~= old_dv.push(links@[i as int]@));
            }
            assert(unseen_links(self.briefe@, all) =~= out.deep_view() + unseen_links(
                self.briefe@,
                all.subrange(i + 1, all.len() as int),
            ));
            i = i + 1;
        }
        assert(all.subrange(i as int, all.len() as int) =~= Seq::<Seq<char>>::empty());
        assert(unseen_links(self.briefe@, all) =~= out.deep_view());
        out
    }

    /// Stores every letter of a finished batch, one by one, skipping the
    /// items that failed, and marks the letters as loaded.
    pub fn merge_letters(&mut self, results: Vec<Option<Brief>>)
        requires
            old(self).wf(),
        ensures
            final(self).wf(),
            final(self).briefe_loaded_initially,
            final(self).lieferengpaesse == old(self).lieferengpaesse,
            final(self).lieferengpaesse_loaded_initially == old(self).lieferengpaesse_loaded_initially,
            forall|k: Seq<char>| has_key(final(self).briefe@, k) <==> (has_key(old(self).briefe@, k)
                || yields_key(results@, k)),
            forall|i: int| 0 <= i < old(self).briefe@.len() && !yields_key(results@, (#[trigger] old(self).briefe@[i]).key())
                ==> final(self).briefe@.contains(old(self).briefe@[i]),
    {
        let ghost all = results@;
        let ghost old_s = self.briefe@;
        assert(all.subrange(0, 0) =~= Seq::<Option<Brief>>::empty());
        assert forall|i: int| 0 <= i < old_s.len() implies old_s.contains(#[trigger] old_s[i]) by {}
        let mut rest = results;
        let mut done: Ghost<int> = Ghost(0);
        while rest.len() > 0
            invariant
                self.wf(),
                self.lieferengpaesse == old(self).lieferengpaesse,
                self.lieferengpaesse_loaded_initially == old(self).lieferengpaesse_loaded_initially,
                0 <= done@ <= all.len(),
                rest@ == all.subrange(done@, all.len() as int),
                forall|k: Seq<char>| has_key(self.briefe@, k) <==> (has_key(old_s, k)
                    || yields_key(all.subrange(0, done@), k)),
                forall|i: int| 0 <= i < old_s.len() && !yields_key(all.subrange(0, done@), (#[trigger] old_s[i]).key())
                    ==> self.briefe@.contains(old_s[i]),
            decreases rest@.len(),
        {
            let ghost before = self.briefe@;
            let item = rest.remove(0);
            assert(item == all[done@]);
            let ghost pre = all.subrange(0, done@);
            let ghost nxt = all.subrange(0, done@ + 1);
            assert(nxt =~= pre.push(all[done@]));
            assert(forall|k: Seq<char>| has_key(before, k) <==> (has_key(old_s, k) || yields_key(pre, k)));
            match item {
                Some(b) => {
                    assert forall|k: Seq<char>| yields_key(nxt, k) <==> (yields_key(pre, k) || k == b.key()) by {
                        if yields_key(nxt, k) && k != b.key() {
                            let j = choose|j: int| 0 <= j < nxt.len() && #[trigger] yields_at(nxt, j, k);
                            assert(pre[j] == nxt[j]);
                            assert(yields_at(pre, j, k));
                        }
                        if yields_key(pre, k) {
                            let j = choose|j: int| 0 <= j < pre.len() && #[trigger] yields_at(pre, j, k);
                            assert(nxt[j] == pre[j]);
                            assert(yields_at(nxt, j, k));
                        }
                        if k == b.key() {
                            assert(nxt[done@] == Some(b));
                            assert(yields_at(nxt, done@, k));
                        }
                    }
                    self.insert_letter(b);
                    assert forall|i: int| 0 <= i < old_s.len() && !yields_key(nxt, (#[trigger] old_s[i]).key())
                        implies self.briefe@.contains(old_s[i]) by {
                        assert(!yields_key(pre, old_s[i].key()));
                        assert(before.contains(old_s[i]));
                        let j = choose|j: int| 0 <= j < before.len() && before[j] == old_s[i];
                        assert(before[j].key() != b.key());
                    }
                },
                None => {
                    assert forall|k: Seq<char>| yields_key(nxt, k) <==> yields_key(pre, k) by {
                        if yields_key(nxt, k) {
                            let j = choose|j: int| 0 <= j < nxt.len() && #[trigger] yields_at(nxt, j, k);
                            assert(pre[j] == nxt[j]);
                            assert(yields_at(pre, j, k));
                        }
                        if yields_key(pre, k) {
                            let j = choose|j: int| 0 <= j < pre.len() && #[trigger] yields_at(pre, j, k);
                            assert(nxt[j] == pre[j]);
                            assert(yields_at(nxt, j, k));
                        }
                    }
                },
            }
            assert(rest@ =~= all.subrange(done@ + 1, all.len() as int));
            done = Ghost(done@ + 1);
        }
        assert(all.subrange(0, done@) =~= all);
        self.briefe_loaded_initially = true;
    }

    /// Replaces the shortage reports with a complete new set and marks them as
    /// loaded.
    pub fn replace_lieferengpaesse(&mut self, reports: Vec<Lieferengpass>)
        ensures
            final(self).lieferengpaesse == reports,
            final(self).lieferengpaesse_loaded_initially,
            final(self).briefe == old(self).briefe,
            final(self).briefe_loaded_initially == old(self).briefe_loaded_initially,
    {
        self.lieferengpaesse = reports;
        self.lieferengpaesse_loaded_initially = true;
    }

    /// Ingests a fetched feed document: its valid reports replace the stored
    /// set, as one step.
    pub fn apply_feed(&mut self, text: &str)
        requires
            old(self).wf(),
        ensures
            final(self).wf(),
            final(self).lieferengpaesse_loaded_initially,
            final(self).briefe == old(self).briefe,
            final(self).briefe_loaded_initially == old(self).briefe_loaded_initially,
            ({
                let (h, rows) = csv_table_of(text@);
                &&& final(self).lieferengpaesse@.len() == valid_rows(h, rows).len()
                &&& forall|k: int| 0 <= k < final(self).lieferengpaesse@.len()
                    ==> (#[trigger] final(self).lieferengpaesse@[k]).reads(h, valid_rows(h, rows)[k])
            }),
    {
        let reports = parse_feed(text);
        self.replace_lieferengpaesse(reports);
    }

    /// The shortage reports, once they have been loaded.
    pub fn lieferengpaesse(&self) -> (r: ApiResponse<&Vec<Lieferengpass>>)
        ensures
            match r {
                ApiResponse::NotReady => !self.lieferengpaesse_loaded_initially,
                ApiResponse::Success(v) => self.lieferengpaesse_loaded_initially && *v == self.lieferengpaesse,
            },
    {
        if !self.lieferengpaesse_loaded_initially {
            return ApiResponse::NotReady;
        }
        ApiResponse::Success(&self.lieferengpaesse)
    }

    /// The letters, once they have been loaded.
    pub fn briefe(&self) -> (r: ApiResponse<&Vec<Brief>>)
        ensures
            match r {
                ApiResponse::NotReady => !self.briefe_loaded_initially,
                ApiResponse::Success(v) => self.briefe_loaded_initially && *v == self.briefe,
            },
    {
        if !self.briefe_loaded_initially {
            return ApiResponse::NotReady;
        }
        ApiResponse::Success(&self.briefe)
    }
}

} // verus!
