//! Parsing of `&`-separated `key=value` response bodies.
//!
//! The OAuth token endpoints answer with bodies of this shape.  A
//! segment with more than one `=` or with an empty key is malformed;
//! a completely empty segment (from a leading, trailing or doubled
//! `&`) is tolerated and skipped; a later binding of a key replaces
//! an earlier one.

use vstd::prelude::*;
use vstd::map::*;
use crate::ascii::str_to_bytes;
use crate::errors::AppError;
use crate::params::{Params, PairSeq, assoc_map, lemma_assoc_insert_at};
use crate::canon::join_amp;

verus! {

use vstd::string::StringSliceAdditionalSpecFns;

/// Splits a byte string at every `&`.  Splitting the empty string
/// gives one empty segment, exactly as `str::split` does.
pub open spec fn split_amp(s: Seq<u8>) -> Seq<Seq<u8>>
    decreases s.len(),
{
    if s.len() == 0 {
        seq![Seq::empty()]
    } else if s.first() == 0x26u8 {
        seq![Seq::<u8>::empty()] + split_amp(s.drop_first())
    } else {
        let rest = split_amp(s.drop_first());
        seq![seq![s.first()] + rest.first()] + rest.drop_first()
    }
}

/// Splitting always yields at least one segment.
pub proof fn lemma_split_amp_nonempty(s: Seq<u8>)
    ensures
        split_amp(s).len() >= 1,
    decreases s.len(),
{
    if s.len() > 0 {
        lemma_split_amp_nonempty(s.drop_first());
    }
}

/// Splits a segment at its first `=`: the key is everything before,
/// the value everything after.  `None` when the segment has no `=`.
pub open spec fn split_first_eq(seg: Seq<u8>) -> Option<(Seq<u8>, Seq<u8>)>
    decreases seg.len(),
{
    if seg.len() == 0 {
        None
    } else if seg.first() == 0x3Du8 {
        Some((Seq::empty(), seg.drop_first()))
    } else {
        match split_first_eq(seg.drop_first()) {
            None => None,
            Some(kv) => Some((seq![seg.first()] + kv.0, kv.1)),
        }
    }
}

/// A segment is acceptable: empty, or `key=value` with a non-empty
/// key and no further `=` inside the value.
pub open spec fn seg_ok(seg: Seq<u8>) -> bool {
    if seg.len() == 0 {
        true
    } else {
        match split_first_eq(seg) {
            None => false,
            Some(kv) => kv.0.len() > 0 && split_first_eq(kv.1) is None,
        }
    }
}

/// Folds the segments into a mapping, left to right, a later binding
/// replacing an earlier one.  `None` as soon as any segment is
/// malformed.
pub open spec fn parse_segs(segs: Seq<Seq<u8>>) -> Option<Map<Seq<u8>, Seq<u8>>>
    decreases segs.len(),
{
    if segs.len() == 0 {
        Some(Map::empty())
    } else {
        match parse_segs(segs.drop_last()) {
            None => None,
            Some(m) => if !seg_ok(segs.last()) {
                None
            } else if segs.last().len() == 0 {
                Some(m)
            } else {
                match split_first_eq(segs.last()) {
                    Some(kv) => Some(m.insert(kv.0, kv.1)),
                    None => None,
                }
            },
        }
    }
}

/// The mapping an `&`-separated `key=value` body denotes, or `None`
/// when some segment is malformed.
pub open spec fn parse_amp(s: Seq<u8>) -> Option<Map<Seq<u8>, Seq<u8>>> {
    parse_segs(split_amp(s))
}

/// Where the scan finds the first `=`, the spec split cuts the
/// segment.
proof fn lemma_split_first_eq_at(s: Seq<u8>, j: int)
    requires
        0 <= j < s.len(),
        s[j] == 0x3Du8,
        forall|i: int| 0 <= i < j ==> s[i] != 0x3Du8,
    ensures
        split_first_eq(s) == Some((s.take(j), s.skip(j + 1))),
    decreases j,
{
    if j == 0 {
        assert(s.take(0) =~= Seq::<u8>::empty());
        assert(s.skip(1) =~= s.drop_first());
    } else {
        let t = s.drop_first();
        assert forall|i: int| 0 <= i < j - 1 implies t[i] != 0x3Du8 by {
            assert(t[i] == s[i + 1]);
        }
        assert(t[j - 1] == s[j]);
        lemma_split_first_eq_at(t, j - 1);
        assert(seq![s.first()] + t.take(j - 1) =~= s.take(j));
        assert(t.skip(j) =~= s.skip(j + 1));
    }
}

/// A segment without any `=` does not split.
proof fn lemma_split_first_eq_none(s: Seq<u8>)
    requires
        forall|i: int| 0 <= i < s.len() ==> s[i] != 0x3Du8,
    ensures
        split_first_eq(s) is None,
    decreases s.len(),
{
    if s.len() > 0 {
        let t = s.drop_first();
        assert forall|i: int| 0 <= i < t.len() implies t[i] != 0x3Du8 by {
            assert(t[i] == s[i + 1]);
        }
        lemma_split_first_eq_none(t);
    }
}

/// Splits one segment, as bytes: the key before the first `=`, the
/// value after it.
fn split_segment(seg: &Vec<u8>) -> (r: Option<(Vec<u8>, Vec<u8>)>)
    ensures
        match r {
            Some(kv) => split_first_eq(seg@) == Some((kv.0@, kv.1@)),
            None => split_first_eq(seg@) is None,
        },
{
    let n = seg.len();
    let mut j: usize = 0;
    while j < n && seg[j] != 0x3D
        invariant
            0 <= j <= n,
            n == seg@.len(),
            forall|i: int| 0 <= i < j ==> seg@[i] != 0x3Du8,
        decreases n - j,
    {
        j = j + 1;
    }
    if j >= n {
        proof {
            lemma_split_first_eq_none(seg@);
        }
        return None;
    }
    let mut key: Vec<u8> = Vec::new();
    let mut i: usize = 0;
    while i < j
        invariant
            0 <= i <= j <= n,
            n == seg@.len(),
            key@ =~= seg@.take(i as int),
        decreases j - i,
    {
        key.push(seg[i]);
        assert(seg@.take(i + 1) =~= seg@.take(i as int).push(seg@[i as int]));
        i = i + 1;
    }
    let mut value: Vec<u8> = Vec::new();
    let mut k: usize = j + 1;
    while k < n
        invariant
            j < k <= n || k == j + 1,
            k >= j + 1,
            n == seg@.len(),
            value@ =~= seg@.subrange(j + 1, k as int),
        decreases n - k,
    {
        value.push(seg[k]);
        assert(seg@.subrange(j + 1, k + 1) =~= seg@.subrange(j + 1, k as int).push(
            seg@[k as int],
        ));
        k = k + 1;
    }
    proof {
        lemma_split_first_eq_at(seg@, j as int);
        assert(value@ =~= seg@.skip(j + 1));
    }
    Some((key, value))
}

/// Parses an `&`-separated `key=value` body into a parameter set.
///
/// Succeeds exactly when every segment is either empty or a
/// `key=value` pair with a non-empty key and a single `=`; a later
/// binding of a key replaces an earlier one.  On a malformed body the
/// parse error carries a diagnostic.
pub fn parse_ampersand_params(text: &str) -> (r: Result<Params, AppError>)
    ensures
        match r {
            Ok(p) => p.wf() && parse_amp(text.spec_bytes()) == Some(p@),
            Err(e) => parse_amp(text.spec_bytes()) is None && e matches AppError::Parse { .. },
        },
{
    let bytes = str_to_bytes(text);
    let n = bytes.len();
    let mut params = Params::new();
    let ghost mut segs_done: Seq<Seq<u8>> = Seq::empty();
    let mut cur: Vec<u8> = Vec::new();
    let mut i: usize = 0;
    proof {
        assert(bytes@.take(0) =~= Seq::<u8>::empty());
        assert(split_amp(bytes@.take(0)) =~~= segs_done + seq![cur@]);
    }
    while i < n
        invariant
            0 <= i <= n,
            n == bytes@.len(),
            bytes@ == text.spec_bytes(),
            split_amp(bytes@.take(i as int)) =~~= segs_done + seq![cur@],
            parse_segs(segs_done) == Some(params@),
            params.wf(),
        decreases n - i,
    {
        let b = bytes[i];
        proof {
            lemma_split_amp_push(bytes@.take(i as int), b);
            assert(bytes@.take(i + 1) =~= bytes@.take(i as int).push(b));
        }
        if b == 0x26 {
            let ghost closed = cur@;
            match process_segment(&mut params, &cur) {
                Ok(()) => {},
                Err(e) => {
                    proof {
                        assert(bytes@ =~= bytes@.take(i as int) + seq![0x26u8] + bytes@.skip(
                            i + 1,
                        ));
                        lemma_split_amp_concat(bytes@.take(i as int), bytes@.skip(i + 1));
                        let whole = split_amp(bytes@);
                        assert(whole =~~= (segs_done + seq![closed]) + split_amp(
                            bytes@.skip(i + 1),
                        ));
                        assert(whole[segs_done.len() as int] =~= closed);
                        lemma_parse_segs_bad_at(whole, segs_done.len() as int);
                    }
                    return Err(e);
                },
            }
            proof {
                let nd = segs_done + seq![closed];
                assert(nd.drop_last() =~~= segs_done);
                assert(nd.last() == closed);
                segs_done = nd;
            }
            cur = Vec::new();
            proof {
                assert(split_amp(bytes@.take(i + 1)) =~~= segs_done + seq![cur@]);
            }
        } else {
            cur.push(b);
            proof {
                assert(split_amp(bytes@.take(i + 1)) =~~= segs_done + seq![cur@]);
            }
        }
        i = i + 1;
    }
    proof {
        assert(bytes@.take(n as int) =~= bytes@);
    }
    let ghost closed = cur@;
    let ghost whole = segs_done + seq![closed];
    proof {
        assert(split_amp(bytes@) =~~= whole);
        assert(whole.drop_last() =~~= segs_done);
        assert(whole.last() == closed);
    }
    match process_segment(&mut params, &cur) {
        Ok(()) => {
            proof {
                assert(parse_segs(whole) == Some(params@));
            }
            Ok(params)
        },
        Err(e) => {
            proof {
                lemma_parse_segs_bad_at(whole, whole.len() - 1);
            }
            Err(e)
        },
    }
}

/// Feeds one complete segment into the parameter set: skips an empty
/// segment, inserts a well-formed binding, rejects anything else.
fn process_segment(params: &mut Params, seg: &Vec<u8>) -> (r: Result<(), AppError>)
    requires
        old(params).wf(),
    ensures
        final(params).wf(),
        match r {
            Ok(()) => seg_ok(seg@) && final(params)@ == (
            if seg@.len() == 0 {
                old(params)@
            } else {
                old(params)@.insert(split_first_eq(seg@).unwrap().0, split_first_eq(
                    seg@,
                ).unwrap().1)
            }),
            Err(e) => !seg_ok(seg@) && final(params)@ == old(params)@ && e matches AppError::Parse {
                ..
            },
        },
{
    if seg.len() == 0 {
        return Ok(());
    }
    match split_segment(seg) {
        None => Err(
            AppError::Parse { detail: "invalid ampersand params syntax: no separator".to_owned() },
        ),
        Some((key, value)) => {
            if key.len() == 0 {
                return Err(
                    AppError::Parse { detail: "invalid ampersand params syntax: empty key".to_owned() },
                );
            }
            match split_segment(&value) {
                Some(_) => Err(
                    AppError::Parse {
                        detail: "invalid ampersand params syntax: repeated separator".to_owned(),
                    },
                ),
                None => {
                    params.insert_bytes(key, value);
                    Ok(())
                },
            }
        },
    }
}

/// Extending the input by one byte either extends the last segment or
/// opens a new one.
proof fn lemma_split_amp_push(s: Seq<u8>, b: u8)
    ensures
        split_amp(s.push(b)) =~~= if b == 0x26u8 {
            split_amp(s).push(Seq::<u8>::empty())
        } else {
            split_amp(s).update(
                split_amp(s).len() - 1,
                split_amp(s).last().push(b),
            )
        },
    decreases s.len(),
{
    lemma_split_amp_nonempty(s);
    let sp = s.push(b);
    assert(sp.len() == s.len() + 1);
    if s.len() == 0 {
        assert(sp.first() == b);
        assert(sp.drop_first() =~= Seq::<u8>::empty());
        assert(split_amp(s) =~= seq![Seq::<u8>::empty()]);
        if b == 0x26u8 {
            assert(split_amp(sp) =~= seq![Seq::<u8>::empty()] + split_amp(Seq::<u8>::empty()));
            assert(split_amp(sp) =~~= split_amp(s).push(Seq::<u8>::empty()));
        } else {
            let rest = split_amp(sp.drop_first());
            assert(rest =~= seq![Seq::<u8>::empty()]);
            assert(split_amp(sp) =~= seq![seq![b] + rest.first()] + rest.drop_first());
            assert(split_amp(sp) =~~= split_amp(s).update(0, split_amp(s).last().push(b)));
        }
    } else {
        assert(sp.first() == s.first());
        assert(sp.drop_first() =~= s.drop_first().push(b));
        lemma_split_amp_push(s.drop_first(), b);
        lemma_split_amp_nonempty(s.drop_first());
        let rd = split_amp(s.drop_first());
        let inner = split_amp(s.drop_first().push(b));
        if s.first() == 0x26u8 {
            assert(split_amp(sp) =~~= seq![Seq::<u8>::empty()] + inner);
            assert(split_amp(s) =~~= seq![Seq::<u8>::empty()] + rd);
            if b == 0x26u8 {
                assert(seq![Seq::<u8>::empty()] + rd.push(Seq::<u8>::empty()) =~~= (seq![
                    Seq::<u8>::empty(),
                ] + rd).push(Seq::<u8>::empty()));
            } else {
                assert(inner =~~= rd.update(rd.len() - 1, rd.last().push(b)));
                assert(split_amp(s).last() == rd.last());
                assert(seq![Seq::<u8>::empty()] + rd.update(rd.len() - 1, rd.last().push(b))
                    =~~= (seq![Seq::<u8>::empty()] + rd).update(rd.len() as int, rd.last().push(b)));
            }
        } else {
            assert(split_amp(sp) =~~= seq![seq![s.first()] + inner.first()]
                + inner.drop_first());
            assert(split_amp(s) =~~= seq![seq![s.first()] + rd.first()] + rd.drop_first());
            if b == 0x26u8 {
                assert(inner =~~= rd.push(Seq::<u8>::empty()));
                assert(inner.first() == rd.first());
                assert(inner.drop_first() =~~= rd.drop_first().push(Seq::<u8>::empty()));
                assert(seq![seq![s.first()] + rd.first()] + rd.drop_first().push(
                    Seq::<u8>::empty(),
                ) =~~= (seq![seq![s.first()] + rd.first()] + rd.drop_first()).push(
                    Seq::<u8>::empty(),
                ));
            } else {
                assert(inner =~~= rd.update(rd.len() - 1, rd.last().push(b)));
                if rd.len() == 1 {
                    assert(inner.first() == rd.last().push(b));
                    assert(inner.drop_first() =~~= rd.drop_first());
                    assert(split_amp(s).last() == seq![s.first()] + rd.first());
                    assert(split_amp(sp) =~~= split_amp(s).update(
                        split_amp(s).len() - 1,
                        split_amp(s).last().push(b),
                    ));
                } else {
                    assert(inner.first() == rd.first());
                    assert(inner.drop_first() =~~= rd.drop_first().update(
                        rd.len() - 2,
                        rd.last().push(b),
                    ));
                    assert(split_amp(s).last() == rd.last());
                    assert(split_amp(sp) =~~= split_amp(s).update(
                        split_amp(s).len() - 1,
                        split_amp(s).last().push(b),
                    ));
                }
            }
        }
    }
}

/// The raw `key=value` rendering of one pair, with no encoding.
pub open spec fn raw_token(p: PairSeq) -> Seq<u8> {
    p.0 + seq![0x3Du8] + p.1
}

/// The raw tokens of a parameter sequence, in storage order.
pub open spec fn raw_tokens(pairs: Seq<PairSeq>) -> Seq<Seq<u8>> {
    pairs.map_values(|p: PairSeq| raw_token(p))
}

/// Free of both separators: no `&` and no `=` anywhere.
pub open spec fn separator_free(s: Seq<u8>) -> bool {
    forall|i: int| 0 <= i < s.len() ==> #[trigger] s[i] != 0x26u8 && s[i] != 0x3Du8
}

/// A byte string without `&` is a single segment.
proof fn lemma_split_amp_no_sep(t: Seq<u8>)
    requires
        forall|i: int| 0 <= i < t.len() ==> #[trigger] t[i] != 0x26u8,
    ensures
        split_amp(t) =~~= seq![t],
    decreases t.len(),
{
    if t.len() > 0 {
        assert(t[0] != 0x26u8);
        let d = t.drop_first();
        assert forall|i: int| 0 <= i < d.len() implies #[trigger] d[i] != 0x26u8 by {
            assert(d[i] == t[i + 1]);
        }
        lemma_split_amp_no_sep(d);
        assert(split_amp(t) =~~= seq![seq![t.first()] + d] + split_amp(d).drop_first());
        assert(seq![t.first()] + d =~= t);
    }
}

/// A well-formed raw token splits into exactly its key and value.
proof fn lemma_raw_token_splits(p: PairSeq)
    requires
        separator_free(p.0),
        separator_free(p.1),
    ensures
        split_first_eq(raw_token(p)) == Some((p.0, p.1)),
    decreases p.0.len(),
{
    let t = raw_token(p);
    assert(t[p.0.len() as int] == 0x3Du8);
    assert forall|i: int| 0 <= i < p.0.len() implies t[i] != 0x3Du8 by {
        assert(t[i] == p.0[i]);
    }
    lemma_split_first_eq_at(t, p.0.len() as int);
    assert(t.take(p.0.len() as int) =~= p.0);
    assert(t.skip(p.0.len() + 1 as int) =~= p.1);
}

/// Serializing a parameter sequence as `k1=v1&k2=v2&...` and parsing
/// the result recovers exactly the original mapping, provided keys
/// are non-empty and distinct and neither keys nor values contain `&`
/// or `=`.
pub proof fn lemma_ampersand_round_trip(pairs: Seq<PairSeq>)
    requires
        forall|i: int|
            0 <= i < pairs.len() ==> (#[trigger] pairs[i]).0.len() > 0 && separator_free(
                pairs[i].0,
            ) && separator_free(pairs[i].1),
        forall|i: int, j: int|
            0 <= i < j < pairs.len() ==> (#[trigger] pairs[i]).0 != (#[trigger] pairs[j]).0,
    ensures
        parse_amp(join_amp(raw_tokens(pairs))) == Some(assoc_map(pairs)),
    decreases pairs.len(),
{
    if pairs.len() == 0 {
        assert(raw_tokens(pairs) =~= Seq::<Seq<u8>>::empty());
        assert(join_amp(raw_tokens(pairs)) =~= Seq::<u8>::empty());
        assert(split_amp(Seq::<u8>::empty()) =~= seq![Seq::<u8>::empty()]);
        let segs = seq![Seq::<u8>::empty()];
        assert(segs.drop_last() =~= Seq::<Seq<u8>>::empty());
        assert(segs.last() =~= Seq::<u8>::empty());
        assert(seg_ok(segs.last()));
        assert(parse_segs(Seq::<Seq<u8>>::empty()) == Some(Map::<Seq<u8>, Seq<u8>>::empty()));
        assert(parse_segs(segs.drop_last()) == Some(Map::<Seq<u8>, Seq<u8>>::empty()));
        assert(parse_segs(segs) == Some(Map::<Seq<u8>, Seq<u8>>::empty()));
        assert(assoc_map(pairs) =~= Map::<Seq<u8>, Seq<u8>>::empty());
    } else if pairs.len() == 1 {
        let p = pairs[0];
        let t = raw_token(p);
        assert(raw_tokens(pairs) =~= seq![t]);
        assert(join_amp(seq![t]) == t);
        assert forall|i: int| 0 <= i < t.len() implies #[trigger] t[i] != 0x26u8 by {
            if i < p.0.len() {
                assert(t[i] == p.0[i]);
            } else if i == p.0.len() {
                assert(t[i] == 0x3Du8);
            } else {
                assert(t[i] == p.1[i - p.0.len() - 1]);
            }
        }
        lemma_split_amp_no_sep(t);
        assert(pairs[0] == p);
        lemma_raw_token_splits(p);
        lemma_split_first_eq_none(p.1);
        let segs = seq![t];
        assert(segs.drop_last() =~= Seq::<Seq<u8>>::empty());
        assert(segs.last() == t);
        assert(t.len() == p.0.len() + 1 + p.1.len());
        assert(seg_ok(t));
        assert(t.len() > 0);
        assert(parse_segs(Seq::<Seq<u8>>::empty()) == Some(Map::<Seq<u8>, Seq<u8>>::empty()));
        assert(parse_segs(segs.drop_last()) == Some(Map::<Seq<u8>, Seq<u8>>::empty()));
        assert(parse_segs(segs) == Some(Map::<Seq<u8>, Seq<u8>>::empty().insert(p.0, p.1)));
        assert(assoc_map(pairs) == assoc_map(pairs.drop_first()).insert(p.0, p.1));
        assert(pairs.drop_first() =~= Seq::<PairSeq>::empty());
    } else {
        let init = pairs.drop_last();
        let p = pairs.last();
        let t = raw_token(p);
        assert forall|i: int|
            0 <= i < init.len() implies (#[trigger] init[i]).0.len() > 0 && separator_free(
            init[i].0,
        ) && separator_free(init[i].1) by {
            assert(init[i] == pairs[i]);
        }
        assert forall|i: int, j: int|
            0 <= i < j < init.len() implies (#[trigger] init[i]).0 != (#[trigger] init[j]).0 by {
            assert(init[i] == pairs[i] && init[j] == pairs[j]);
        }
        lemma_ampersand_round_trip(init);
        assert(raw_tokens(pairs) =~= raw_tokens(init).push(t));
        crate::canon::lemma_join_amp_push(raw_tokens(init), t);
        assert(raw_tokens(init).len() == init.len());
        assert(init.len() > 0);
        let u = join_amp(raw_tokens(init));
        assert(join_amp(raw_tokens(pairs)) =~= u + seq![0x26u8] + t);
        lemma_split_amp_concat(u, t);
        assert forall|i: int| 0 <= i < t.len() implies #[trigger] t[i] != 0x26u8 by {
            if i < p.0.len() {
                assert(t[i] == p.0[i]);
            } else if i == p.0.len() {
                assert(t[i] == 0x3Du8);
            } else {
                assert(t[i] == p.1[i - p.0.len() - 1]);
            }
        }
        lemma_split_amp_no_sep(t);
        let segs = split_amp(u) + seq![t];
        assert(split_amp(join_amp(raw_tokens(pairs))) =~~= segs);
        assert(segs.drop_last() =~~= split_amp(u));
        assert(segs.last() == t);
        assert(p == pairs[pairs.len() - 1]);
        lemma_raw_token_splits(p);
        lemma_split_first_eq_none(p.1);
        assert(t.len() == p.0.len() + 1 + p.1.len());
        assert(seg_ok(t));
        assert(t.len() > 0);
        assert(parse_segs(segs) == Some(assoc_map(init).insert(p.0, p.1)));
        assert forall|j: int| 0 <= j < init.len() implies (#[trigger] init[j]).0 != p.0 by {
            assert(init[j] == pairs[j] && p == pairs[pairs.len() - 1]);
        }
        lemma_assoc_insert_at(init, init.len() as int, p.0, p.1);
        assert(init.take(init.len() as int) + seq![(p.0, p.1)] + init.skip(init.len() as int)
            =~= pairs);
    }
}

/// One bad segment anywhere makes the whole parse bad.
proof fn lemma_parse_segs_bad_at(segs: Seq<Seq<u8>>, i: int)
    requires
        0 <= i < segs.len(),
        !seg_ok(segs[i]),
    ensures
        parse_segs(segs) is None,
    decreases segs.len(),
{
    if i < segs.len() - 1 {
        assert(segs.drop_last()[i] == segs[i]);
        lemma_parse_segs_bad_at(segs.drop_last(), i);
    }
}

/// A separator splits the split: the segments of `u & w` are the
/// segments of `u` followed by the segments of `w`.
proof fn lemma_split_amp_concat(u: Seq<u8>, w: Seq<u8>)
    ensures
        split_amp(u + seq![0x26u8] + w) =~~= split_amp(u) + split_amp(w),
    decreases u.len(),
{
    lemma_split_amp_nonempty(u);
    let s = u + seq![0x26u8] + w;
    if u.len() == 0 {
        assert(s.first() == 0x26u8);
        assert(s.drop_first() =~= w);
        assert(split_amp(s) =~= seq![Seq::<u8>::empty()] + split_amp(w));
        assert(split_amp(u) =~= seq![Seq::<u8>::empty()]);
    } else {
        assert(s.first() == u.first());
        assert(s.drop_first() =~= u.drop_first() + seq![0x26u8] + w);
        lemma_split_amp_concat(u.drop_first(), w);
        lemma_split_amp_nonempty(u.drop_first());
        lemma_split_amp_nonempty(w);
        let inner = split_amp(u.drop_first()) + split_amp(w);
        if u.first() == 0x26u8 {
            assert(split_amp(s) =~~= seq![Seq::<u8>::empty()] + inner);
            assert(split_amp(u) =~~= seq![Seq::<u8>::empty()] + split_amp(u.drop_first()));
        } else {
            assert(split_amp(s.drop_first()) =~~= inner);
            assert(inner.first() == split_amp(u.drop_first()).first());
            assert(split_amp(s) =~~= seq![seq![u.first()] + inner.first()] + inner.drop_first());
            assert(inner.drop_first() =~~= split_amp(u.drop_first()).drop_first() + split_amp(w));
            assert(split_amp(u) =~~= seq![seq![u.first()] + split_amp(u.drop_first()).first()]
                + split_amp(u.drop_first()).drop_first());
        }
    }
}

} // verus!
