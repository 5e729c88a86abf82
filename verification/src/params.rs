//! An ordered mapping from parameter names to values.
//!
//! The iteration order is canonical (sorted by the UTF-8 bytes of the
//! key) and load-bearing: the same parameter set must serialize to the
//! same canonical query string when it is signed and when it is sent,
//! or the remote signature check fails.  The representation is an
//! association vector kept strictly sorted by key, so two parameter
//! sets that hold the same associations are bit-for-bit identical, no
//! matter in which order the parameters were inserted.

use vstd::prelude::*;
use vstd::map::*;
use crate::ascii::{lex_lt, lemma_lex_lt_connected, lemma_lex_lt_irrefl, lemma_lex_lt_trans,
    bytes_lt, chars_of_bytes};

verus! {

use vstd::string::StringSliceAdditionalSpecFns;

/// One stored pair, as byte strings.
pub type PairSeq = (Seq<u8>, Seq<u8>);

/// Keys strictly increase along the sequence.
pub open spec fn sorted_keys(s: Seq<PairSeq>) -> bool {
    forall|i: int, j: int| 0 <= i < j < s.len() ==> lex_lt(#[trigger] s[i].0, #[trigger] s[j].0)
}

/// The mapping an association sequence denotes.  An earlier entry
/// shadows a later one with the same key; with sorted keys no two
/// entries share a key, so the order of shadowing is irrelevant.
pub open spec fn assoc_map(s: Seq<PairSeq>) -> Map<Seq<u8>, Seq<u8>>
    decreases s.len(),
{
    if s.len() == 0 {
        Map::empty()
    } else {
        assoc_map(s.drop_first()).insert(s.first().0, s.first().1)
    }
}

/// A key is in the denoted map exactly when some entry carries it.
pub proof fn lemma_assoc_dom(s: Seq<PairSeq>)
    ensures
        forall|k: Seq<u8>|
            assoc_map(s).dom().contains(k) <==> exists|j: int|
                0 <= j < s.len() && (#[trigger] s[j]).0 == k,
    decreases s.len(),
{
    if s.len() > 0 {
        lemma_assoc_dom(s.drop_first());
        assert forall|k: Seq<u8>| assoc_map(s).dom().contains(k) implies exists|j: int|
            0 <= j < s.len() && (#[trigger] s[j]).0 == k by {
            if k == s.first().0 {
                assert(s[0].0 == k);
            } else {
                assert(assoc_map(s.drop_first()).dom().contains(k));
                let j = choose|j: int|
                    0 <= j < s.drop_first().len() && (#[trigger] s.drop_first()[j]).0 == k;
                assert(s.drop_first()[j] == s[j + 1]);
                assert(s[j + 1].0 == k);
            }
        }
        assert forall|k: Seq<u8>|
            (exists|j: int| 0 <= j < s.len() && (#[trigger] s[j]).0 == k) implies assoc_map(
            s,
        ).dom().contains(k) by {
            let j = choose|j: int| 0 <= j < s.len() && (#[trigger] s[j]).0 == k;
            if j == 0 {
                assert(k == s.first().0);
            } else {
                assert(s.drop_first()[j - 1] == s[j]);
                assert(s.drop_first()[j - 1].0 == k);
                assert(assoc_map(s.drop_first()).dom().contains(k));
            }
        }
    }
}

/// The value the denoted map gives a key is the value of the first
/// entry carrying that key.
pub proof fn lemma_assoc_value(s: Seq<PairSeq>, i: int)
    requires
        0 <= i < s.len(),
        forall|j: int| 0 <= j < i ==> (#[trigger] s[j]).0 != s[i].0,
    ensures
        assoc_map(s).dom().contains(s[i].0),
        assoc_map(s)[s[i].0] == s[i].1,
    decreases s.len(),
{
    if i == 0 {
    } else {
        assert forall|j: int| 0 <= j < i - 1 implies (#[trigger] s.drop_first()[j]).0 != s.drop_first()[i
            - 1].0 by {
            assert(s.drop_first()[j] == s[j + 1]);
        }
        lemma_assoc_value(s.drop_first(), i - 1);
        assert(s[0].0 != s[i].0);
    }
}

/// Inserting a fresh key at position `i` denotes a map insertion,
/// provided no earlier entry carries that key.
pub proof fn lemma_assoc_insert_at(s: Seq<PairSeq>, i: int, k: Seq<u8>, v: Seq<u8>)
    requires
        0 <= i <= s.len(),
        forall|j: int| 0 <= j < i ==> (#[trigger] s[j]).0 != k,
    ensures
        assoc_map(s.take(i) + seq![(k, v)] + s.skip(i)) == assoc_map(s).insert(k, v),
    decreases i,
{
    let n = s.take(i) + seq![(k, v)] + s.skip(i);
    if i == 0 {
        assert(n.drop_first() =~= s);
        assert(n.first() == (k, v));
        assert(assoc_map(n) == assoc_map(s).insert(k, v));
    } else {
        let t = s.drop_first();
        lemma_assoc_insert_at(t, i - 1, k, v);
        let inner = t.take(i - 1) + seq![(k, v)] + t.skip(i - 1);
        assert(n.first() == s.first());
        assert(n.drop_first() =~= inner);
        assert(assoc_map(n) == assoc_map(inner).insert(s.first().0, s.first().1));
        assert(assoc_map(inner) == assoc_map(t).insert(k, v));
        assert(s.first().0 != k);
        assert(assoc_map(t).insert(k, v).insert(s.first().0, s.first().1) =~= assoc_map(t).insert(
            s.first().0,
            s.first().1,
        ).insert(k, v));
        assert(assoc_map(s) == assoc_map(t).insert(s.first().0, s.first().1));
    }
}

/// Overwriting the value at position `i` denotes a map insertion on
/// that entry's key, provided no earlier entry carries the key.
pub proof fn lemma_assoc_update_at(s: Seq<PairSeq>, i: int, v: Seq<u8>)
    requires
        0 <= i < s.len(),
        forall|j: int| 0 <= j < i ==> (#[trigger] s[j]).0 != s[i].0,
    ensures
        assoc_map(s.update(i, (s[i].0, v))) == assoc_map(s).insert(s[i].0, v),
    decreases i,
{
    let n = s.update(i, (s[i].0, v));
    if i == 0 {
        assert(n.drop_first() =~= s.drop_first());
        assert(n.first() == (s[0].0, v));
        assert(assoc_map(n) == assoc_map(s.drop_first()).insert(s[0].0, v));
        assert(assoc_map(s.drop_first()).insert(s[0].0, s[0].1).insert(s[0].0, v)
            =~= assoc_map(s.drop_first()).insert(s[0].0, v));
    } else {
        let t = s.drop_first();
        assert forall|j: int| 0 <= j < i - 1 implies (#[trigger] t[j]).0 != t[i - 1].0 by {
            assert(t[j] == s[j + 1]);
        }
        lemma_assoc_update_at(t, i - 1, v);
        assert(n.drop_first() =~= t.update(i - 1, (t[i - 1].0, v)));
        assert(n.first() == s.first());
        assert(s.first().0 != s[i].0);
        assert(assoc_map(t).insert(s[i].0, v).insert(s.first().0, s.first().1) =~= assoc_map(
            t,
        ).insert(s.first().0, s.first().1).insert(s[i].0, v));
    }
}

/// Two association sequences with strictly sorted keys that denote the
/// same map are identical: the sorted representation is canonical.
pub proof fn lemma_sorted_assoc_unique(p: Seq<PairSeq>, q: Seq<PairSeq>)
    requires
        sorted_keys(p),
        sorted_keys(q),
        assoc_map(p) == assoc_map(q),
    ensures
        p =~= q,
    decreases p.len(),
{
    lemma_assoc_dom(p);
    lemma_assoc_dom(q);
    if p.len() == 0 {
        if q.len() > 0 {
            assert(assoc_map(q).dom().contains(q[0].0));
        }
    } else {
        assert(assoc_map(p).dom().contains(p[0].0));
        assert(assoc_map(q).dom().contains(q[0].0));
        let ip = choose|j: int| 0 <= j < q.len() && (#[trigger] q[j]).0 == p[0].0;
        let iq = choose|j: int| 0 <= j < p.len() && (#[trigger] p[j]).0 == q[0].0;
        if ip > 0 {
            assert(lex_lt(q[0].0, q[ip].0));
        }
        if iq > 0 {
            assert(lex_lt(p[0].0, p[iq].0));
        }
        if p[0].0 != q[0].0 {
            // each head key is minimal in the shared domain, so the
            // two heads would have to precede each other
            if ip > 0 && iq > 0 {
                lemma_lex_lt_trans(q[0].0, p[0].0, q[0].0);
                lemma_lex_lt_irrefl(q[0].0);
            } else if ip == 0 {
                assert(q[0].0 == p[0].0);
            } else {
                assert(p[0].0 == q[0].0);
            }
        }
        assert(p[0].0 == q[0].0);
        lemma_assoc_value(p, 0);
        lemma_assoc_value(q, 0);
        assert(p[0].1 == q[0].1);
        // the tails denote the same map: the head key occurs in
        // neither tail, and every other key keeps its value
        let pt = p.drop_first();
        let qt = q.drop_first();
        lemma_assoc_dom(pt);
        lemma_assoc_dom(qt);
        assert forall|j: int| 0 <= j < pt.len() implies (#[trigger] pt[j]).0 != p[0].0 by {
            assert(pt[j] == p[j + 1]);
            assert(lex_lt(p[0].0, p[j + 1].0));
            lemma_lex_lt_irrefl(p[0].0);
        }
        assert forall|j: int| 0 <= j < qt.len() implies (#[trigger] qt[j]).0 != q[0].0 by {
            assert(qt[j] == q[j + 1]);
            assert(lex_lt(q[0].0, q[j + 1].0));
            lemma_lex_lt_irrefl(q[0].0);
        }
        assert forall|k: Seq<u8>|
            assoc_map(pt).dom().contains(k) <==> assoc_map(qt).dom().contains(k) by {
            if assoc_map(pt).dom().contains(k) {
                lemma_assoc_lookup_through_head(p, q, k);
            }
            if assoc_map(qt).dom().contains(k) {
                lemma_assoc_lookup_through_head(q, p, k);
            }
        }
        assert(assoc_map(pt).dom() =~= assoc_map(qt).dom());
        assert forall|k: Seq<u8>| assoc_map(pt).dom().contains(k) implies #[trigger] assoc_map(
            pt,
        )[k] == assoc_map(qt)[k] by {
            lemma_assoc_lookup_through_head(p, q, k);
        }
        assert(assoc_map(pt) =~= assoc_map(qt));
        assert forall|i: int, j: int| 0 <= i < j < pt.len() implies lex_lt(
            #[trigger] pt[i].0,
            #[trigger] pt[j].0,
        ) by {
            assert(pt[i] == p[i + 1] && pt[j] == p[j + 1]);
        }
        assert forall|i: int, j: int| 0 <= i < j < qt.len() implies lex_lt(
            #[trigger] qt[i].0,
            #[trigger] qt[j].0,
        ) by {
            assert(qt[i] == q[i + 1] && qt[j] == q[j + 1]);
        }
        lemma_sorted_assoc_unique(pt, qt);
        assert(p =~= seq![p[0]] + pt);
        assert(q =~= seq![q[0]] + qt);
    }
}

/// An ordered mapping from parameter names to parameter values, both
/// held as UTF-8 byte strings.  Entries are kept strictly sorted by
/// key, so the stored sequence is a canonical function of the mapping
/// it denotes.
#[derive(Debug, Clone)]
pub struct Params {
    pairs: Vec<(Vec<u8>, Vec<u8>)>,
}

impl View for Params {
    type V = Map<Seq<u8>, Seq<u8>>;

    open spec fn view(&self) -> Map<Seq<u8>, Seq<u8>> {
        assoc_map(self.pairs_view())
    }
}

impl Params {
    /// The stored entries, in storage order.
    pub closed spec fn pairs_view(&self) -> Seq<PairSeq> {
        self.pairs@.map_values(|p: (Vec<u8>, Vec<u8>)| (p.0@, p.1@))
    }

    /// Entries are strictly sorted by key.
    pub open spec fn wf(&self) -> bool {
        sorted_keys(self.pairs_view())
    }

    /// An empty parameter set.
    pub fn new() -> (r: Params)
        ensures
            r.wf(),
            r@ == Map::<Seq<u8>, Seq<u8>>::empty(),
            r.pairs_view() =~= Seq::<PairSeq>::empty(),
    {
        let r = Params { pairs: Vec::new() };
        proof {
            assert(r.pairs_view() =~= Seq::<PairSeq>::empty());
        }
        r
    }

    /// How many distinct parameters are stored.
    pub fn len(&self) -> (n: usize)
        ensures
            n == self.pairs_view().len(),
    {
        self.pairs.len()
    }

    /// Whether no parameter is stored.
    pub fn is_empty(&self) -> (r: bool)
        ensures
            r == (self.pairs_view().len() == 0),
    {
        self.pairs.len() == 0
    }

    /// Inserts a parameter, replacing the value of an equal key: the
    /// denoted mapping gains exactly this association, and the storage
    /// stays canonical.
    pub fn insert_bytes(&mut self, key: Vec<u8>, value: Vec<u8>)
        requires
            old(self).wf(),
        ensures
            final(self).wf(),
            final(self)@ == old(self)@.insert(key@, value@),
    {
        let ghost s = self.pairs_view();
        let n = self.pairs.len();
        let mut i: usize = 0;
        while i < n && bytes_lt(&self.pairs[i].0, &key)
            invariant
                0 <= i <= n,
                n == self.pairs@.len(),
                s == self.pairs_view(),
                sorted_keys(s),
                forall|j: int| 0 <= j < i ==> lex_lt((#[trigger] s[j]).0, key@),
            decreases n - i,
        {
            assert(s[i as int].0 == self.pairs@[i as int].0@);
            i = i + 1;
        }
        proof {
            if i < n {
                assert(s[i as int].0 == self.pairs@[i as int].0@);
            }
            assert forall|j: int| 0 <= j < i implies (#[trigger] s[j]).0 != key@ by {
                lemma_lex_lt_irrefl(key@);
                if s[j].0 == key@ {
                    assert(lex_lt(key@, key@));
                }
            }
        }
        if i < n && self.pairs[i].0 == key {
            proof {
                assert(s[i as int].0 =~= key@);
                lemma_assoc_update_at(s, i as int, value@);
            }
            self.pairs.remove(i);
            self.pairs.insert(i, (key, value));
            assert(self.pairs_view() =~= s.update(i as int, (s[i as int].0, value@))) by {
                let ns = self.pairs_view();
                assert forall|j: int| 0 <= j < ns.len() implies ns[j] == s.update(
                    i as int,
                    (s[i as int].0, value@),
                )[j] by {
                    if j < i as int {
                        assert(self.pairs@[j] == old(self).pairs@[j]);
                    } else if j > i as int {
                        assert(self.pairs@[j] == old(self).pairs@[j]);
                    }
                }
            }
            assert forall|a: int, b: int|
                0 <= a < b < self.pairs_view().len() implies lex_lt(
                (#[trigger] self.pairs_view()[a]).0,
                (#[trigger] self.pairs_view()[b]).0,
            ) by {
                assert(self.pairs_view()[a].0 == s[a].0);
                assert(self.pairs_view()[b].0 == s[b].0);
            }
        } else {
            proof {
                if i < n {
                    if !lex_lt(key@, s[i as int].0) {
                        lemma_lex_lt_connected(s[i as int].0, key@);
                        assert(self.pairs@[i as int].0@ =~= key@);
                        assert(false);
                    }
                    assert(lex_lt(key@, s[i as int].0));
                }
                lemma_assoc_insert_at(s, i as int, key@, value@);
            }
            self.pairs.insert(i, (key, value));
            assert(self.pairs_view() =~= s.take(i as int) + seq![(key@, value@)] + s.skip(
                i as int,
            )) by {
                let ns = self.pairs_view();
                assert forall|j: int| 0 <= j < ns.len() implies ns[j] == (s.take(i as int) + seq![
                    (key@, value@),
                ] + s.skip(i as int))[j] by {
                    if j < i as int {
                        assert(self.pairs@[j] == old(self).pairs@[j]);
                    } else if j > i as int {
                        assert(self.pairs@[j] == old(self).pairs@[j - 1]);
                    }
                }
            }
            assert forall|a: int, b: int|
                0 <= a < b < self.pairs_view().len() implies lex_lt(
                (#[trigger] self.pairs_view()[a]).0,
                (#[trigger] self.pairs_view()[b]).0,
            ) by {
                let ns = self.pairs_view();
                let ii = i as int;
                if b < ii {
                    assert(ns[a] == s[a] && ns[b] == s[b]);
                } else if a > ii {
                    assert(ns[a] == s[a - 1] && ns[b] == s[b - 1]);
                } else if a == ii {
                    assert(ns[a].0 == key@ && ns[b] == s[b - 1]);
                    assert(ii < s.len() ==> !lex_lt(s[ii].0, key@));
                    if b - 1 == ii {
                        assert(lex_lt(key@, s[ii].0));
                    } else {
                        assert(lex_lt(key@, s[ii].0));
                        assert(lex_lt(s[ii].0, s[b - 1].0));
                        lemma_lex_lt_trans(key@, s[ii].0, s[b - 1].0);
                    }
                } else if b == ii {
                    assert(ns[a] == s[a] && ns[b].0 == key@);
                    assert(lex_lt(s[a].0, key@));
                } else {
                    assert(ns[a] == s[a] && ns[b] == s[b - 1]);
                    if a == b - 1 {
                        assert(lex_lt(s[a].0, key@));
                        assert(lex_lt(key@, s[a].0) || s[a].0 =~= key@ || lex_lt(s[a].0, key@));
                    }
                    assert(ns[a].0 == s[a].0 && ns[b].0 == s[b - 1].0);
                    if a <= b - 1 && a < s.len() && b - 1 < s.len() {
                        if a == b - 1 {
                            assert(lex_lt(key@, s[b - 1].0));
                            assert(lex_lt(s[a].0, key@));
                            lemma_lex_lt_trans(s[a].0, key@, s[b - 1].0);
                        }
                    }
                }
            }
        }
    }

    /// Inserts a parameter given as string slices.
    pub fn insert(&mut self, key: &str, value: &str)
        requires
            old(self).wf(),
        ensures
            final(self).wf(),
            final(self)@ == old(self)@.insert(key.spec_bytes(), value.spec_bytes()),
    {
        let k = crate::ascii::str_to_bytes(key);
        let v = crate::ascii::str_to_bytes(value);
        self.insert_bytes(k, v);
    }

    /// Builder-style insertion.
    pub fn add(self, key: &str, value: &str) -> (r: Params)
        requires
            self.wf(),
        ensures
            r.wf(),
            r@ == self@.insert(key.spec_bytes(), value.spec_bytes()),
    {
        let mut p = self;
        p.insert(key, value);
        p
    }

    /// Looks a parameter up by its key.  Returns the stored value
    /// exactly when the key is present.
    pub fn get(&self, key: &str) -> (r: Option<&Vec<u8>>)
        requires
            self.wf(),
        ensures
            match r {
                Some(v) => self@.dom().contains(key.spec_bytes()) && v@ == self@[key.spec_bytes()],
                None => !self@.dom().contains(key.spec_bytes()),
            },
    {
        let ghost s = self.pairs_view();
        proof {
            lemma_assoc_dom(s);
        }
        let kb = crate::ascii::str_to_bytes(key);
        let n = self.pairs.len();
        let mut i: usize = 0;
        while i < n
            invariant
                0 <= i <= n,
                n == self.pairs@.len(),
                s == self.pairs_view(),
                sorted_keys(s),
                kb@ == key.spec_bytes(),
                forall|j: int| 0 <= j < i ==> (#[trigger] s[j]).0 != kb@,
            decreases n - i,
        {
            assert(s[i as int] == (self.pairs@[i as int].0@, self.pairs@[i as int].1@));
            if self.pairs[i].0 == kb {
                assert(s[i as int].0 =~= kb@);
                proof {
                    lemma_assoc_value(s, i as int);
                }
                return Some(&self.pairs[i].1);
            }
            proof {
                if s[i as int].0 =~= kb@ {
                    assert(false);
                }
            }
            i = i + 1;
        }
        None
    }

    /// The canonical query string: each entry percent-encoded as
    /// `key=value`, tokens sorted by their own bytes, joined with `&`.
    /// Two parameter sets that denote the same mapping produce the
    /// same string, whatever order their entries were inserted in.
    pub fn to_query(&self) -> (r: String)
        ensures
            r@ == chars_of_bytes(crate::canon::canonical_query(self.pairs_view())),
    {
        let q = crate::canon::canonical_query_bytes(&self.pairs);
        proof {
            crate::canon::lemma_canonical_query_ascii(self.pairs_view());
        }
        crate::ascii::ascii_to_string(&q)
    }
}

/// The canonical (sorted) association sequence denoting a map, where
/// one exists.  By `lemma_sorted_assoc_unique` it is unique.
pub open spec fn canonical_pairs(m: Map<Seq<u8>, Seq<u8>>) -> Seq<PairSeq> {
    choose|s: Seq<PairSeq>| sorted_keys(s) && assoc_map(s) == m
}

/// A well-formed parameter set stores exactly the canonical
/// association sequence of the mapping it denotes: its storage, and
/// with it its canonical query string, is a function of the mapping
/// alone.
pub proof fn lemma_pairs_canonical(p: &Params)
    requires
        p.wf(),
    ensures
        p.pairs_view() == canonical_pairs(p@),
{
    let s = p.pairs_view();
    assert(sorted_keys(s) && assoc_map(s) == p@);
    let w = canonical_pairs(p@);
    assert(sorted_keys(w) && assoc_map(w) == p@);
    lemma_sorted_assoc_unique(s, w);
}

/// Canonicalization is deterministic: two well-formed parameter sets
/// that denote the same mapping - whatever order their entries were
/// inserted in - canonicalize to the same query string.
pub proof fn lemma_canonicalize_deterministic(p: &Params, q: &Params)
    requires
        p.wf(),
        q.wf(),
        p@ == q@,
    ensures
        crate::canon::canonical_query(p.pairs_view()) == crate::canon::canonical_query(
            q.pairs_view(),
        ),
{
    lemma_sorted_assoc_unique(p.pairs_view(), q.pairs_view());
}

/// Helper for the canonicity proof: a key other than the head's is
/// looked up in the tail, on both sides.
proof fn lemma_assoc_lookup_through_head(p: Seq<PairSeq>, q: Seq<PairSeq>, k: Seq<u8>)
    requires
        p.len() > 0,
        q.len() > 0,
        p[0].0 == q[0].0,
        assoc_map(p) == assoc_map(q),
        assoc_map(p.drop_first()).dom().contains(k),
        forall|j: int| 0 <= j < p.drop_first().len() ==> (#[trigger] p.drop_first()[j]).0 != p[0].0,
        forall|j: int| 0 <= j < q.drop_first().len() ==> (#[trigger] q.drop_first()[j]).0 != q[0].0,
    ensures
        assoc_map(q.drop_first()).dom().contains(k),
        assoc_map(p.drop_first())[k] == assoc_map(q.drop_first())[k],
{
    lemma_assoc_dom(p.drop_first());
    lemma_assoc_dom(q.drop_first());
    let j = choose|j: int|
        0 <= j < p.drop_first().len() && (#[trigger] p.drop_first()[j]).0 == k;
    assert(k != p[0].0);
    assert(assoc_map(p) == assoc_map(p.drop_first()).insert(p[0].0, p[0].1));
    assert(assoc_map(q) == assoc_map(q.drop_first()).insert(q[0].0, q[0].1));
    assert(assoc_map(p).dom().contains(k));
    assert(assoc_map(q).dom().contains(k));
    assert(assoc_map(p)[k] == assoc_map(p.drop_first())[k]);
    assert(assoc_map(q)[k] == assoc_map(q.drop_first())[k]);
}

} // verus!
