//! Byte-string helpers shared by the signing pipeline.
//!
//! The OAuth signing rules are stated over the UTF-8 bytes of the
//! participating strings, so the core of this crate works on byte
//! strings and only converts back to `String` once the bytes are known
//! to be ASCII.

use vstd::prelude::*;

verus! {

use vstd::string::StringSliceAdditionalSpecFns;

/// The sequence of characters that a pure-ASCII byte string denotes.
pub open spec fn chars_of_bytes(s: Seq<u8>) -> Seq<char> {
    s.map(|i: int, b: u8| b as char)
}

/// Strict lexicographic order on byte strings, byte by byte, shorter
/// prefixes first.  This is the order `str::cmp` induces on the UTF-8
/// bytes of two strings.
pub open spec fn lex_lt(a: Seq<u8>, b: Seq<u8>) -> bool
    decreases a.len(),
{
    if b.len() == 0 {
        false
    } else if a.len() == 0 {
        true
    } else if a.first() < b.first() {
        true
    } else if a.first() > b.first() {
        false
    } else {
        lex_lt(a.drop_first(), b.drop_first())
    }
}

/// Dropping an equal prefix from both operands does not change how two
/// byte strings compare.
pub proof fn lemma_lex_lt_skip(a: Seq<u8>, b: Seq<u8>, i: int)
    requires
        0 <= i <= a.len(),
        i <= b.len(),
        forall|j: int| 0 <= j < i ==> a[j] == b[j],
    ensures
        lex_lt(a, b) == lex_lt(a.skip(i), b.skip(i)),
    decreases i,
{
    if i > 0 {
        assert(a.len() > 0 && b.len() > 0);
        assert(a.first() == b.first());
        assert(a.drop_first().skip(i - 1) =~= a.skip(i));
        assert(b.drop_first().skip(i - 1) =~= b.skip(i));
        lemma_lex_lt_skip(a.drop_first(), b.drop_first(), i - 1);
    } else {
        assert(a.skip(0) =~= a);
        assert(b.skip(0) =~= b);
    }
}

/// The order is total: byte strings that compare in neither direction
/// are equal.
pub proof fn lemma_lex_lt_connected(a: Seq<u8>, b: Seq<u8>)
    requires
        !lex_lt(a, b),
        !lex_lt(b, a),
    ensures
        a =~= b,
    decreases a.len(),
{
    if a.len() > 0 && b.len() > 0 {
        lemma_lex_lt_connected(a.drop_first(), b.drop_first());
        assert(a =~= seq![a.first()] + a.drop_first());
        assert(b =~= seq![b.first()] + b.drop_first());
    }
}

/// The order is irreflexive.
pub proof fn lemma_lex_lt_irrefl(a: Seq<u8>)
    ensures
        !lex_lt(a, a),
    decreases a.len(),
{
    if a.len() > 0 {
        lemma_lex_lt_irrefl(a.drop_first());
    }
}

/// The order is transitive.
pub proof fn lemma_lex_lt_trans(a: Seq<u8>, b: Seq<u8>, c: Seq<u8>)
    requires
        lex_lt(a, b),
        lex_lt(b, c),
    ensures
        lex_lt(a, c),
    decreases a.len(),
{
    if a.len() > 0 && b.len() > 0 && c.len() > 0 && a.first() == b.first() && b.first()
        == c.first() {
        lemma_lex_lt_trans(a.drop_first(), b.drop_first(), c.drop_first());
    }
}

/// Decides `lex_lt` on byte vectors.
pub fn bytes_lt(a: &Vec<u8>, b: &Vec<u8>) -> (r: bool)
    ensures
        r == lex_lt(a@, b@),
{
    let mut i: usize = 0;
    let a_len = a.len();
    let b_len = b.len();
    loop
        invariant
            0 <= i <= a_len,
            i <= b_len,
            a_len == a@.len(),
            b_len == b@.len(),
            forall|j: int| 0 <= j < i ==> a@[j] == b@[j],
        decreases a_len - i,
    {
        if i >= a_len || i >= b_len {
            proof {
                lemma_lex_lt_skip(a@, b@, i as int);
            }
            return a_len < b_len;
        }
        if a[i] != b[i] {
            proof {
                lemma_lex_lt_skip(a@, b@, i as int);
            }
            return a[i] < b[i];
        }
        i = i + 1;
    }
}

/// The decimal digits of `n`, most significant first, as ASCII bytes.
pub open spec fn spec_decimal(n: nat) -> Seq<u8>
    decreases n,
{
    if n < 10 {
        seq![(n + 0x30) as u8]
    } else {
        spec_decimal(n / 10) + seq![(n % 10 + 0x30) as u8]
    }
}

/// Every byte of a decimal rendering is an ASCII digit.
pub proof fn lemma_decimal_ascii(n: nat)
    ensures
        forall|i: int|
            0 <= i < spec_decimal(n).len() ==> 0x30 <= #[trigger] spec_decimal(n)[i] <= 0x39,
    decreases n,
{
    if n < 10 {
        assert(spec_decimal(n) =~= seq![(n + 0x30) as u8]);
    } else {
        lemma_decimal_ascii(n / 10);
        assert forall|i: int| 0 <= i < spec_decimal(n).len() implies 0x30 <= #[trigger] spec_decimal(
            n,
        )[i] <= 0x39 by {
            let prefix = spec_decimal(n / 10);
            if i < prefix.len() {
                assert(spec_decimal(n)[i] == prefix[i]);
            } else {
                assert(spec_decimal(n)[i] == (n % 10 + 0x30) as u8);
            }
        }
    }
}

/// Renders an unsigned integer in decimal, as ASCII bytes.
pub fn u64_to_decimal(n: u64) -> (r: Vec<u8>)
    ensures
        r@ == spec_decimal(n as nat),
    decreases n,
{
    if n < 10 {
        let mut one: Vec<u8> = Vec::new();
        one.push((n as u8) + 0x30);
        assert(one@ =~= spec_decimal(n as nat));
        one
    } else {
        let mut r = u64_to_decimal(n / 10);
        r.push(((n % 10) as u8) + 0x30);
        assert(r@ =~= spec_decimal(n as nat));
        r
    }
}

/// Appends one character to a string.
///
/// Relies on `String::push` from std: the character is appended at the
/// end and the rest of the string is unchanged.
#[verifier::external_body]
fn string_push(s: &mut String, c: char)
    ensures
        final(s)@ == old(s)@ + seq![c],
{
    s.push(c)
}

/// Converts a pure-ASCII byte string into a `String`, one character per
/// byte.
pub fn ascii_to_string(bytes: &Vec<u8>) -> (r: String)
    requires
        forall|i: int| 0 <= i < bytes@.len() ==> bytes@[i] < 0x80,
    ensures
        r@ == chars_of_bytes(bytes@),
{
    let mut r = String::new();
    let n = bytes.len();
    let mut i: usize = 0;
    while i < n
        invariant
            0 <= i <= n,
            n == bytes@.len(),
            forall|j: int| 0 <= j < bytes@.len() ==> bytes@[j] < 0x80,
            r@ == chars_of_bytes(bytes@.take(i as int)),
        decreases n - i,
    {
        string_push(&mut r, bytes[i] as char);
        assert(chars_of_bytes(bytes@.take(i + 1)) =~= chars_of_bytes(bytes@.take(i as int))
            + seq![bytes@[i as int] as char]);
        i = i + 1;
    }
    assert(bytes@.take(n as int) =~= bytes@);
    r
}

/// Reading a pure-ASCII byte string as characters and encoding those
/// characters back as UTF-8 recovers the bytes.
pub proof fn lemma_ascii_bytes_roundtrip(q: Seq<u8>)
    requires
        forall|i: int| 0 <= i < q.len() ==> #[trigger] q[i] < 0x80,
    ensures
        vstd::utf8::encode_utf8(chars_of_bytes(q)) =~= q,
{
    let chars = chars_of_bytes(q);
    assert(vstd::utf8::is_ascii_chars(chars)) by {
        assert forall|i: int| 0 <= i < chars.len() implies '\0' <= #[trigger] chars[i]
            <= '\u{7f}' by {
            assert(chars[i] == q[i] as char);
        }
    }
    vstd::utf8::is_ascii_chars_encode_utf8(chars);
    assert forall|i: int| 0 <= i < q.len() implies vstd::utf8::encode_utf8(chars)[i] == q[i] by {
        assert(chars[i] as u8 == vstd::utf8::encode_utf8(chars)[i]);
        assert(chars[i] == q[i] as char);
    }
}

/// The UTF-8 bytes of a character sequence.
pub open spec fn bytes_of_chars(s: Seq<char>) -> Seq<u8> {
    vstd::utf8::encode_utf8(s)
}

/// A byte that is an ASCII letter or digit.
pub open spec fn is_alnum_byte(b: u8) -> bool {
    ||| 0x41 <= b <= 0x5A
    ||| 0x61 <= b <= 0x7A
    ||| 0x30 <= b <= 0x39
}

/// Compares two string slices for equality of their character
/// sequences.
pub fn str_eq(a: &str, b: &str) -> (r: bool)
    ensures
        r == (a@ == b@),
{
    let va = str_to_bytes(a);
    let vb = str_to_bytes(b);
    let r = va == vb;
    proof {
        vstd::utf8::encode_utf8_decode_utf8(a@);
        vstd::utf8::encode_utf8_decode_utf8(b@);
        if va@ =~= vb@ {
            assert(a@ == b@);
        }
        if a@ == b@ {
            assert(va@ =~= vb@);
        }
    }
    r
}

/// Copies the UTF-8 bytes of a string slice into a vector.
pub fn str_to_bytes(s: &str) -> (r: Vec<u8>)
    ensures
        r@ == s.spec_bytes(),
{
    vstd::slice::slice_to_vec(s.as_bytes())
}

} // verus!
