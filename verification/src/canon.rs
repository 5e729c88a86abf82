//! Assembly of the canonical query string.
//!
//! Each parameter becomes a token `encode(key)=encode(value)`; the
//! tokens are sorted by their own bytes in ascending lexicographic
//! order and joined with `&`.  The whole pipeline is a function of the
//! parameter sequence alone, which is what makes the signature
//! reproducible.

use vstd::prelude::*;
use crate::ascii::{lex_lt, bytes_lt};
use crate::codec::{encoded, encode_bytes, lemma_encoded_ascii};
use crate::params::PairSeq;

verus! {

/// Every byte of the string is ASCII.
pub open spec fn all_ascii(t: Seq<u8>) -> bool {
    forall|i: int| 0 <= i < t.len() ==> #[trigger] t[i] < 0x80
}

/// Every token in the sequence is ASCII.
pub open spec fn all_tokens_ascii(s: Seq<Seq<u8>>) -> bool {
    forall|i: int| 0 <= i < s.len() ==> all_ascii(#[trigger] s[i])
}

/// The token one parameter contributes: encoded key, `=`, encoded
/// value.
pub open spec fn token_of(p: PairSeq) -> Seq<u8> {
    encoded(p.0) + seq![0x3Du8] + encoded(p.1)
}

/// The tokens of a parameter sequence, in storage order.
pub open spec fn tokens_of(s: Seq<PairSeq>) -> Seq<Seq<u8>> {
    s.map_values(|p: PairSeq| token_of(p))
}

/// Inserts a token in front of the first stored token it does not
/// exceed.
pub open spec fn sorted_insert(x: Seq<u8>, s: Seq<Seq<u8>>) -> Seq<Seq<u8>>
    decreases s.len(),
{
    if s.len() == 0 {
        seq![x]
    } else if !lex_lt(s.first(), x) {
        seq![x] + s
    } else {
        seq![s.first()] + sorted_insert(x, s.drop_first())
    }
}

/// Insertion-sorts the tokens of `s` into the accumulator `acc`, in
/// storage order.
pub open spec fn sort_into(acc: Seq<Seq<u8>>, s: Seq<Seq<u8>>) -> Seq<Seq<u8>>
    decreases s.len(),
{
    if s.len() == 0 {
        acc
    } else {
        sort_into(sorted_insert(s.first(), acc), s.drop_first())
    }
}

/// The tokens sorted in ascending lexicographic order.
pub open spec fn sort_tokens(s: Seq<Seq<u8>>) -> Seq<Seq<u8>> {
    sort_into(Seq::empty(), s)
}

/// Joins tokens with `&`.  An empty token sequence yields the empty
/// string.
pub open spec fn join_amp(s: Seq<Seq<u8>>) -> Seq<u8>
    decreases s.len(),
{
    if s.len() == 0 {
        Seq::empty()
    } else if s.len() == 1 {
        s.first()
    } else {
        s.first() + seq![0x26u8] + join_amp(s.drop_first())
    }
}

/// The canonical query string of a parameter sequence, as bytes.
pub open spec fn canonical_query(pairs: Seq<PairSeq>) -> Seq<u8> {
    join_amp(sort_tokens(tokens_of(pairs)))
}

/// Tokens never decrease along the sequence: ascending
/// lexicographic order.
pub open spec fn tokens_sorted(s: Seq<Seq<u8>>) -> bool {
    forall|i: int, j: int| 0 <= i < j < s.len() ==> !lex_lt(#[trigger] s[j], #[trigger] s[i])
}

/// Every element of an insertion is the inserted token or one of the
/// stored ones.
proof fn lemma_sorted_insert_elems(x: Seq<u8>, s: Seq<Seq<u8>>)
    ensures
        forall|k: int|
            0 <= k < sorted_insert(x, s).len() ==> #[trigger] sorted_insert(x, s)[k] == x
                || exists|j: int| 0 <= j < s.len() && sorted_insert(x, s)[k] == #[trigger] s[j],
    decreases s.len(),
{
    if s.len() > 0 && lex_lt(s.first(), x) {
        lemma_sorted_insert_elems(x, s.drop_first());
        assert forall|k: int|
            0 <= k < sorted_insert(x, s).len() implies #[trigger] sorted_insert(x, s)[k] == x
            || exists|j: int| 0 <= j < s.len() && sorted_insert(x, s)[k] == #[trigger] s[j] by {
            if k == 0 {
                assert(sorted_insert(x, s)[0] == s[0]);
            } else {
                let inner = sorted_insert(x, s.drop_first());
                assert(sorted_insert(x, s)[k] == inner[k - 1]);
                if inner[k - 1] != x {
                    let j = choose|j: int|
                        0 <= j < s.drop_first().len() && inner[k - 1] == #[trigger] s.drop_first()[j];
                    assert(s.drop_first()[j] == s[j + 1]);
                }
            }
        }
    } else {
        assert forall|k: int|
            0 <= k < sorted_insert(x, s).len() implies #[trigger] sorted_insert(x, s)[k] == x
            || exists|j: int| 0 <= j < s.len() && sorted_insert(x, s)[k] == #[trigger] s[j] by {
            if k > 0 {
                assert(sorted_insert(x, s)[k] == s[k - 1]);
            }
        }
    }
}

/// Insertion keeps the sequence sorted.
proof fn lemma_sorted_insert_sorted(x: Seq<u8>, s: Seq<Seq<u8>>)
    requires
        tokens_sorted(s),
    ensures
        tokens_sorted(sorted_insert(x, s)),
    decreases s.len(),
{
    if s.len() == 0 {
    } else if !lex_lt(s.first(), x) {
        let r = sorted_insert(x, s);
        assert(r =~= seq![x] + s);
        assert forall|i: int, j: int| 0 <= i < j < r.len() implies !lex_lt(
            #[trigger] r[j],
            #[trigger] r[i],
        ) by {
            if i == 0 {
                assert(r[0] == x);
                assert(r[j] == s[j - 1]);
                if lex_lt(s[j - 1], x) {
                    // the later token would undercut the head of the
                    // stored sequence as well
                    if j - 1 > 0 {
                        assert(!lex_lt(s[j - 1], s[0]));
                        if !lex_lt(s[0], s[j - 1]) {
                            crate::ascii::lemma_lex_lt_connected(s[j - 1], s[0]);
                            assert(lex_lt(s[0], x));
                        } else {
                            crate::ascii::lemma_lex_lt_trans(s[0], s[j - 1], x);
                        }
                        assert(false);
                    } else {
                        assert(false);
                    }
                }
            } else {
                assert(r[i] == s[i - 1] && r[j] == s[j - 1]);
            }
        }
    } else {
        let t = s.drop_first();
        assert forall|i: int, j: int| 0 <= i < j < t.len() implies !lex_lt(
            #[trigger] t[j],
            #[trigger] t[i],
        ) by {
            assert(t[i] == s[i + 1] && t[j] == s[j + 1]);
        }
        lemma_sorted_insert_sorted(x, t);
        lemma_sorted_insert_elems(x, t);
        let inner = sorted_insert(x, t);
        let r = sorted_insert(x, s);
        assert(r =~= seq![s.first()] + inner);
        assert forall|i: int, j: int| 0 <= i < j < r.len() implies !lex_lt(
            #[trigger] r[j],
            #[trigger] r[i],
        ) by {
            if i == 0 {
                assert(r[0] == s[0]);
                assert(r[j] == inner[j - 1]);
                if lex_lt(inner[j - 1], s[0]) {
                    if inner[j - 1] == x {
                        crate::ascii::lemma_lex_lt_trans(x, s[0], x);
                        crate::ascii::lemma_lex_lt_irrefl(x);
                    } else {
                        let w = choose|w: int|
                            0 <= w < t.len() && inner[j - 1] == #[trigger] t[w];
                        assert(t[w] == s[w + 1]);
                        assert(!lex_lt(s[w + 1], s[0]));
                    }
                    assert(false);
                }
            } else {
                assert(r[i] == inner[i - 1] && r[j] == inner[j - 1]);
            }
        }
    }
}

/// The insertion sort produces a sorted sequence.
pub proof fn lemma_sort_tokens_sorted(acc: Seq<Seq<u8>>, s: Seq<Seq<u8>>)
    requires
        tokens_sorted(acc),
    ensures
        tokens_sorted(sort_into(acc, s)),
    decreases s.len(),
{
    if s.len() > 0 {
        lemma_sorted_insert_sorted(s.first(), acc);
        lemma_sort_tokens_sorted(sorted_insert(s.first(), acc), s.drop_first());
    }
}

/// The canonical query string joins its tokens in ascending
/// lexicographic order of their own bytes.
pub proof fn lemma_canonical_query_sorted(pairs: Seq<PairSeq>)
    ensures
        tokens_sorted(sort_tokens(tokens_of(pairs))),
{
    assert(tokens_sorted(Seq::<Seq<u8>>::empty()));
    lemma_sort_tokens_sorted(Seq::empty(), tokens_of(pairs));
}

/// Where the scan of an insertion stops, the spec insertion splits the
/// sequence.
proof fn lemma_sorted_insert_at(s: Seq<Seq<u8>>, x: Seq<u8>, i: int)
    requires
        0 <= i <= s.len(),
        forall|j: int| 0 <= j < i ==> lex_lt(#[trigger] s[j], x),
        i < s.len() ==> !lex_lt(s[i], x),
    ensures
        sorted_insert(x, s) =~= s.take(i) + seq![x] + s.skip(i),
    decreases i,
{
    if i == 0 {
        if s.len() > 0 {
            assert(!lex_lt(s.first(), x));
        }
        assert(s.take(0) + seq![x] + s.skip(0) =~= seq![x] + s);
    } else {
        assert(lex_lt(s[0], x));
        let t = s.drop_first();
        assert forall|j: int| 0 <= j < i - 1 implies lex_lt(#[trigger] t[j], x) by {
            assert(t[j] == s[j + 1]);
        }
        lemma_sorted_insert_at(t, x, i - 1);
        assert(s.take(i) =~= seq![s.first()] + t.take(i - 1));
        assert(s.skip(i) =~= t.skip(i - 1));
        assert(seq![s.first()] + (t.take(i - 1) + seq![x] + t.skip(i - 1)) =~= s.take(i) + seq![x]
            + s.skip(i));
    }
}

/// Insertion keeps every token ASCII.
proof fn lemma_sorted_insert_ascii(x: Seq<u8>, s: Seq<Seq<u8>>)
    requires
        all_ascii(x),
        all_tokens_ascii(s),
    ensures
        all_tokens_ascii(sorted_insert(x, s)),
    decreases s.len(),
{
    if s.len() == 0 {
        assert forall|i: int| 0 <= i < sorted_insert(x, s).len() implies all_ascii(
            #[trigger] sorted_insert(x, s)[i],
        ) by {
            assert(sorted_insert(x, s)[i] == x);
        }
    } else if !lex_lt(s.first(), x) {
        assert forall|i: int| 0 <= i < sorted_insert(x, s).len() implies all_ascii(
            #[trigger] sorted_insert(x, s)[i],
        ) by {
            if i == 0 {
                assert(sorted_insert(x, s)[i] == x);
            } else {
                assert(sorted_insert(x, s)[i] == s[i - 1]);
            }
        }
    } else {
        assert(all_tokens_ascii(s.drop_first())) by {
            assert forall|i: int| 0 <= i < s.drop_first().len() implies all_ascii(
                #[trigger] s.drop_first()[i],
            ) by {
                assert(s.drop_first()[i] == s[i + 1]);
            }
        }
        lemma_sorted_insert_ascii(x, s.drop_first());
        assert forall|i: int| 0 <= i < sorted_insert(x, s).len() implies all_ascii(
            #[trigger] sorted_insert(x, s)[i],
        ) by {
            if i == 0 {
                assert(sorted_insert(x, s)[i] == s.first());
                assert(all_ascii(s[0]));
            } else {
                assert(sorted_insert(x, s)[i] == sorted_insert(x, s.drop_first())[i - 1]);
            }
        }
    }
}

/// Sorting keeps every token ASCII.
proof fn lemma_sort_into_ascii(acc: Seq<Seq<u8>>, s: Seq<Seq<u8>>)
    requires
        all_tokens_ascii(acc),
        all_tokens_ascii(s),
    ensures
        all_tokens_ascii(sort_into(acc, s)),
    decreases s.len(),
{
    if s.len() > 0 {
        assert(all_ascii(s[0]));
        lemma_sorted_insert_ascii(s.first(), acc);
        assert(all_tokens_ascii(s.drop_first())) by {
            assert forall|i: int| 0 <= i < s.drop_first().len() implies all_ascii(
                #[trigger] s.drop_first()[i],
            ) by {
                assert(s.drop_first()[i] == s[i + 1]);
            }
        }
        lemma_sort_into_ascii(sorted_insert(s.first(), acc), s.drop_first());
    }
}

/// Joining ASCII tokens with `&` yields an ASCII string.
proof fn lemma_join_amp_ascii(s: Seq<Seq<u8>>)
    requires
        all_tokens_ascii(s),
    ensures
        all_ascii(join_amp(s)),
    decreases s.len(),
{
    if s.len() == 1 {
        assert(all_ascii(s[0]));
    } else if s.len() > 1 {
        assert(all_tokens_ascii(s.drop_first())) by {
            assert forall|i: int| 0 <= i < s.drop_first().len() implies all_ascii(
                #[trigger] s.drop_first()[i],
            ) by {
                assert(s.drop_first()[i] == s[i + 1]);
            }
        }
        lemma_join_amp_ascii(s.drop_first());
        assert(all_ascii(s[0]));
        let head = s.first() + seq![0x26u8];
        assert forall|i: int| 0 <= i < join_amp(s).len() implies #[trigger] join_amp(s)[i]
            < 0x80 by {
            if i < head.len() {
                assert(join_amp(s)[i] == head[i]);
                if i < s.first().len() {
                    assert(head[i] == s[0][i]);
                }
            } else {
                assert(join_amp(s)[i] == join_amp(s.drop_first())[i - head.len()]);
            }
        }
    }
}

/// A token contains only ASCII bytes.
proof fn lemma_token_ascii(p: PairSeq)
    ensures
        all_ascii(token_of(p)),
{
    lemma_encoded_ascii(p.0);
    lemma_encoded_ascii(p.1);
    let ek = encoded(p.0);
    let ev = encoded(p.1);
    assert forall|i: int| 0 <= i < token_of(p).len() implies #[trigger] token_of(p)[i] < 0x80 by {
        if i < ek.len() {
            assert(token_of(p)[i] == ek[i]);
        } else if i == ek.len() {
            assert(token_of(p)[i] == 0x3Du8);
        } else {
            assert(token_of(p)[i] == ev[i - ek.len() - 1]);
        }
    }
}

/// The canonical query string is ASCII.
pub proof fn lemma_canonical_query_ascii(pairs: Seq<PairSeq>)
    ensures
        all_ascii(canonical_query(pairs)),
{
    assert(all_tokens_ascii(tokens_of(pairs))) by {
        assert forall|i: int| 0 <= i < tokens_of(pairs).len() implies all_ascii(
            #[trigger] tokens_of(pairs)[i],
        ) by {
            assert(tokens_of(pairs)[i] == token_of(pairs[i]));
            lemma_token_ascii(pairs[i]);
        }
    }
    lemma_sort_into_ascii(Seq::empty(), tokens_of(pairs));
    lemma_join_amp_ascii(sort_tokens(tokens_of(pairs)));
}

/// Appending a token to the end of the join.
pub proof fn lemma_join_amp_push(s: Seq<Seq<u8>>, x: Seq<u8>)
    ensures
        join_amp(s.push(x)) =~= if s.len() == 0 {
            x
        } else {
            join_amp(s) + seq![0x26u8] + x
        },
    decreases s.len(),
{
    let n = s.push(x);
    if s.len() == 0 {
        assert(n.len() == 1);
        assert(n.first() == x);
    } else {
        assert(n.drop_first() =~= s.drop_first().push(x));
        lemma_join_amp_push(s.drop_first(), x);
        if s.len() == 1 {
            assert(join_amp(n) =~= n.first() + seq![0x26u8] + join_amp(n.drop_first()));
            assert(join_amp(n.drop_first()) =~= x);
            assert(join_amp(s) == s.first());
        }
    }
}

/// Inserts one token into an already sorted vector of tokens.
fn insert_token_sorted(sorted: &mut Vec<Vec<u8>>, x: Vec<u8>)
    ensures
        final(sorted)@.map_values(|t: Vec<u8>| t@) == sorted_insert(
            x@,
            old(sorted)@.map_values(|t: Vec<u8>| t@),
        ),
{
    let ghost s = sorted@.map_values(|t: Vec<u8>| t@);
    let n = sorted.len();
    let mut i: usize = 0;
    while i < n && bytes_lt(&sorted[i], &x)
        invariant
            0 <= i <= n,
            n == sorted@.len(),
            s == sorted@.map_values(|t: Vec<u8>| t@),
            forall|j: int| 0 <= j < i ==> lex_lt(#[trigger] s[j], x@),
        decreases n - i,
    {
        assert(s[i as int] == sorted@[i as int]@);
        i = i + 1;
    }
    proof {
        if i < n {
            assert(s[i as int] == sorted@[i as int]@);
        }
        lemma_sorted_insert_at(s, x@, i as int);
    }
    sorted.insert(i, x);
    assert(final(sorted)@.map_values(|t: Vec<u8>| t@) =~= s.take(i as int) + seq![x@] + s.skip(
        i as int,
    )) by {
        let ns = final(sorted)@.map_values(|t: Vec<u8>| t@);
        assert forall|j: int| 0 <= j < ns.len() implies ns[j] == (s.take(i as int) + seq![x@]
            + s.skip(i as int))[j] by {
            if j < i as int {
                assert(final(sorted)@[j] == old(sorted)@[j]);
            } else if j > i as int {
                assert(final(sorted)@[j] == old(sorted)@[j - 1]);
            }
        }
    }
}

/// Sorts the tokens in ascending lexicographic byte order.
fn sort_token_vec(mut toks: Vec<Vec<u8>>) -> (r: Vec<Vec<u8>>)
    ensures
        r@.map_values(|t: Vec<u8>| t@) == sort_tokens(toks@.map_values(|t: Vec<u8>| t@)),
{
    let ghost orig = toks@.map_values(|t: Vec<u8>| t@);
    let mut sorted: Vec<Vec<u8>> = Vec::new();
    assert(sorted@.map_values(|t: Vec<u8>| t@) =~= Seq::<Seq<u8>>::empty());
    while toks.len() > 0
        invariant
            sort_into(
                sorted@.map_values(|t: Vec<u8>| t@),
                toks@.map_values(|t: Vec<u8>| t@),
            ) == sort_tokens(orig),
        decreases toks@.len(),
    {
        let ghost pre = toks@.map_values(|t: Vec<u8>| t@);
        let ghost acc = sorted@.map_values(|t: Vec<u8>| t@);
        let t = toks.remove(0);
        assert(toks@.map_values(|tt: Vec<u8>| tt@) =~= pre.drop_first());
        assert(pre.first() == t@);
        insert_token_sorted(&mut sorted, t);
    }
    assert(toks@.map_values(|t: Vec<u8>| t@).len() == 0);
    sorted
}

/// Builds the canonical query string of a parameter sequence: encoded
/// `key=value` tokens, sorted by their own bytes, joined with `&`.
pub fn canonical_query_bytes(pairs: &Vec<(Vec<u8>, Vec<u8>)>) -> (r: Vec<u8>)
    ensures
        r@ == canonical_query(pairs@.map_values(|p: (Vec<u8>, Vec<u8>)| (p.0@, p.1@))),
{
    let ghost pv = pairs@.map_values(|p: (Vec<u8>, Vec<u8>)| (p.0@, p.1@));
    let mut toks: Vec<Vec<u8>> = Vec::new();
    let n = pairs.len();
    let mut i: usize = 0;
    while i < n
        invariant
            0 <= i <= n,
            n == pairs@.len(),
            pv == pairs@.map_values(|p: (Vec<u8>, Vec<u8>)| (p.0@, p.1@)),
            toks@.map_values(|t: Vec<u8>| t@) =~= tokens_of(pv.take(i as int)),
        decreases n - i,
    {
        let pair = &pairs[i];
        let mut t = encode_bytes(&pair.0);
        t.push(0x3D);
        let mut ev = encode_bytes(&pair.1);
        t.append(&mut ev);
        assert(t@ =~= token_of(pv[i as int]));
        toks.push(t);
        assert(toks@.map_values(|tt: Vec<u8>| tt@) =~= tokens_of(pv.take(i + 1))) by {
            assert(pv.take(i + 1) =~= pv.take(i as int).push(pv[i as int]));
            assert(tokens_of(pv.take(i as int).push(pv[i as int])) =~= tokens_of(
                pv.take(i as int),
            ).push(token_of(pv[i as int])));
        }
        i = i + 1;
    }
    assert(pv.take(n as int) =~= pv);
    let sorted = sort_token_vec(toks);
    let ghost sv = sorted@.map_values(|t: Vec<u8>| t@);
    let mut out: Vec<u8> = Vec::new();
    let m = sorted.len();
    let mut j: usize = 0;
    while j < m
        invariant
            0 <= j <= m,
            m == sorted@.len(),
            sv == sorted@.map_values(|t: Vec<u8>| t@),
            out@ =~= join_amp(sv.take(j as int)),
        decreases m - j,
    {
        if j > 0 {
            out.push(0x26);
        }
        let mut piece = sorted[j].clone();
        assert(piece@ == sv[j as int]);
        out.append(&mut piece);
        proof {
            lemma_join_amp_push(sv.take(j as int), sv[j as int]);
            assert(sv.take(j + 1) =~= sv.take(j as int).push(sv[j as int]));
        }
        j = j + 1;
    }
    assert(sv.take(m as int) =~= sv);
    out
}

} // verus!
