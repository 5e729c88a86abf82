//! The strict percent-encoding codec required by the signing rules.
//!
//! Every byte of the UTF-8 representation of a string is encoded,
//! except ASCII letters, digits and `-`, `.`, `_`, `~`, which pass
//! through unchanged.  Every other byte becomes `%XX` with two
//! uppercase hexadecimal digits.  This set is strictly narrower than
//! what general-purpose URL encoders escape, on purpose: the remote
//! protocol mandates it for signature computation.

use vstd::prelude::*;
use crate::ascii::chars_of_bytes;

verus! {

use vstd::string::StringSliceAdditionalSpecFns;

/// The bytes that pass through the codec unchanged: ASCII letters,
/// digits, and `-`, `.`, `_`, `~`.
pub open spec fn is_unreserved(b: u8) -> bool {
    ||| 0x41 <= b <= 0x5A
    ||| 0x61 <= b <= 0x7A
    ||| 0x30 <= b <= 0x39
    ||| b == 0x2D
    ||| b == 0x2E
    ||| b == 0x5F
    ||| b == 0x7E
}

/// The uppercase hexadecimal digit of a value below 16, as an ASCII
/// byte.
pub open spec fn spec_hex_upper(v: u8) -> u8
    recommends
        v < 16,
{
    if v < 10 {
        (v + 0x30) as u8
    } else {
        (v + 0x37) as u8
    }
}

/// What one input byte contributes to the encoded output: itself if it
/// is unreserved, otherwise `%` followed by its two uppercase
/// hexadecimal digits.
pub open spec fn encoded_byte(b: u8) -> Seq<u8> {
    if is_unreserved(b) {
        seq![b]
    } else {
        seq![0x25u8, spec_hex_upper(b / 16), spec_hex_upper(b % 16)]
    }
}

/// The percent-encoding of a byte string.
pub open spec fn encoded(s: Seq<u8>) -> Seq<u8>
    decreases s.len(),
{
    if s.len() == 0 {
        Seq::empty()
    } else {
        encoded_byte(s.first()) + encoded(s.drop_first())
    }
}

/// The encoding distributes over concatenation.
pub proof fn lemma_encoded_append(a: Seq<u8>, b: Seq<u8>)
    ensures
        encoded(a + b) =~= encoded(a) + encoded(b),
    decreases a.len(),
{
    if a.len() == 0 {
        assert(a + b =~= b);
        assert(encoded(a) =~= Seq::<u8>::empty());
    } else {
        assert((a + b).drop_first() =~= a.drop_first() + b);
        lemma_encoded_append(a.drop_first(), b);
    }
}

/// Every byte the codec emits is printable ASCII.
pub proof fn lemma_encoded_ascii(s: Seq<u8>)
    ensures
        forall|i: int| 0 <= i < encoded(s).len() ==> 0x25 <= #[trigger] encoded(s)[i] < 0x7F,
    decreases s.len(),
{
    if s.len() > 0 {
        lemma_encoded_ascii(s.drop_first());
        let head = encoded_byte(s.first());
        assert forall|i: int| 0 <= i < encoded(s).len() implies 0x25 <= #[trigger] encoded(s)[i]
            < 0x7F by {
            if i < head.len() {
                assert(encoded(s)[i] == head[i]);
            } else {
                assert(encoded(s)[i] == encoded(s.drop_first())[i - head.len()]);
            }
        }
    }
}

/// The codec never emits the separator bytes `&` and `=` that the
/// canonical query string is assembled with.
pub proof fn lemma_encoded_no_separators(s: Seq<u8>)
    ensures
        forall|i: int|
            0 <= i < encoded(s).len() ==> #[trigger] encoded(s)[i] != 0x26 && encoded(s)[i] != 0x3D,
    decreases s.len(),
{
    if s.len() > 0 {
        lemma_encoded_no_separators(s.drop_first());
        let head = encoded_byte(s.first());
        assert forall|i: int| 0 <= i < encoded(s).len() implies #[trigger] encoded(s)[i] != 0x26
            && encoded(s)[i] != 0x3D by {
            if i < head.len() {
                assert(encoded(s)[i] == head[i]);
            } else {
                assert(encoded(s)[i] == encoded(s.drop_first())[i - head.len()]);
            }
        }
    }
}

/// The codec is the identity on byte strings made solely of unreserved
/// bytes: ASCII letters, digits, `-`, `.`, `_`, `~`.
pub proof fn lemma_encoded_identity_on_unreserved(s: Seq<u8>)
    requires
        forall|i: int| 0 <= i < s.len() ==> is_unreserved(#[trigger] s[i]),
    ensures
        encoded(s) =~= s,
    decreases s.len(),
{
    if s.len() > 0 {
        assert(is_unreserved(s[0]));
        lemma_encoded_identity_on_unreserved(s.drop_first());
        assert(encoded(s) =~= seq![s.first()] + s.drop_first());
        assert(seq![s.first()] + s.drop_first() =~= s);
    }
}

/// Every byte outside the unreserved set encodes to exactly `%`
/// followed by the two uppercase hexadecimal digits of its value.
pub proof fn lemma_encoded_escapes_reserved(b: u8)
    requires
        !is_unreserved(b),
    ensures
        encoded(seq![b]) =~= seq![0x25u8, spec_hex_upper(b / 16), spec_hex_upper(b % 16)],
        0x30 <= spec_hex_upper(b / 16) <= 0x39 || 0x41 <= spec_hex_upper(b / 16) <= 0x46,
        0x30 <= spec_hex_upper(b % 16) <= 0x39 || 0x41 <= spec_hex_upper(b % 16) <= 0x46,
{
    lemma_encoded_single(b);
}

/// Unfolds the encoding of a one-byte string.
pub proof fn lemma_encoded_single(b: u8)
    ensures
        encoded(seq![b]) =~= encoded_byte(b),
{
    let s = seq![b];
    assert(s.first() == b);
    assert(s.drop_first() =~= Seq::<u8>::empty());
    assert(encoded(s.drop_first()) =~= Seq::<u8>::empty());
    assert(encoded(s) =~= encoded_byte(b) + encoded(s.drop_first()));
}

/// Distinct nibbles have distinct hexadecimal digits.
proof fn lemma_hex_upper_injective(a: u8, b: u8)
    requires
        a < 16,
        b < 16,
        spec_hex_upper(a) == spec_hex_upper(b),
    ensures
        a == b,
{
}

/// The codec is injective: distinct byte strings have distinct
/// encodings, so nothing is lost by encoding.
pub proof fn lemma_encoded_injective(a: Seq<u8>, b: Seq<u8>)
    requires
        encoded(a) == encoded(b),
    ensures
        a =~= b,
    decreases a.len(),
{
    if a.len() == 0 {
        if b.len() > 0 {
            assert(encoded(b).len() >= encoded_byte(b.first()).len()) by {
                assert(encoded(b) == encoded_byte(b.first()) + encoded(b.drop_first()));
            }
        }
    } else if b.len() == 0 {
        assert(encoded(a).len() >= encoded_byte(a.first()).len()) by {
            assert(encoded(a) == encoded_byte(a.first()) + encoded(a.drop_first()));
        }
    } else {
        let ha = encoded_byte(a.first());
        let hb = encoded_byte(b.first());
        assert(encoded(a) == ha + encoded(a.drop_first()));
        assert(encoded(b) == hb + encoded(b.drop_first()));
        assert(encoded(a)[0] == ha[0]);
        assert(encoded(b)[0] == hb[0]);
        if is_unreserved(a.first()) != is_unreserved(b.first()) {
            // one head is emitted verbatim, the other starts with `%`,
            // and `%` is not an unreserved byte
            assert(false);
        } else if is_unreserved(a.first()) {
            assert(a.first() == b.first());
            assert(encoded(a.drop_first()) =~= encoded(b.drop_first())) by {
                assert(encoded(a.drop_first()) =~= encoded(a).skip(1));
                assert(encoded(b.drop_first()) =~= encoded(b).skip(1));
            }
            lemma_encoded_injective(a.drop_first(), b.drop_first());
            assert(a =~= seq![a.first()] + a.drop_first());
            assert(b =~= seq![b.first()] + b.drop_first());
        } else {
            assert(encoded(a)[1] == ha[1] && encoded(a)[2] == ha[2]);
            assert(encoded(b)[1] == hb[1] && encoded(b)[2] == hb[2]);
            lemma_hex_upper_injective(a.first() / 16, b.first() / 16);
            lemma_hex_upper_injective(a.first() % 16, b.first() % 16);
            assert(a.first() == b.first());
            assert(encoded(a.drop_first()) =~= encoded(b.drop_first())) by {
                assert(encoded(a.drop_first()) =~= encoded(a).skip(3));
                assert(encoded(b.drop_first()) =~= encoded(b).skip(3));
            }
            lemma_encoded_injective(a.drop_first(), b.drop_first());
            assert(a =~= seq![a.first()] + a.drop_first());
            assert(b =~= seq![b.first()] + b.drop_first());
        }
    }
}

/// Maps a value below 16 to its uppercase hexadecimal digit.
fn hex_upper(v: u8) -> (d: u8)
    requires
        v < 16,
    ensures
        d == spec_hex_upper(v),
{
    if v < 10 {
        v + 0x30
    } else {
        v + 0x37
    }
}

/// Decides membership in the unreserved set.
pub fn is_unreserved_byte(b: u8) -> (r: bool)
    ensures
        r == is_unreserved(b),
{
    (0x41 <= b && b <= 0x5A) || (0x61 <= b && b <= 0x7A) || (0x30 <= b && b <= 0x39) || b == 0x2D
        || b == 0x2E || b == 0x5F || b == 0x7E
}

/// Percent-encodes a byte string.  Total: every byte string has an
/// encoding, and no input is rejected.
pub fn encode_bytes(data: &Vec<u8>) -> (r: Vec<u8>)
    ensures
        r@ == encoded(data@),
{
    let mut r: Vec<u8> = Vec::new();
    let n = data.len();
    let mut i: usize = 0;
    while i < n
        invariant
            0 <= i <= n,
            n == data@.len(),
            r@ =~= encoded(data@.take(i as int)),
        decreases n - i,
    {
        let b = data[i];
        if is_unreserved_byte(b) {
            r.push(b);
        } else {
            r.push(0x25);
            r.push(hex_upper(b / 16));
            r.push(hex_upper(b % 16));
        }
        proof {
            assert(data@.take(i + 1) =~= data@.take(i as int) + seq![data@[i as int]]);
            lemma_encoded_append(data@.take(i as int), seq![data@[i as int]]);
            lemma_encoded_single(data@[i as int]);
        }
        i = i + 1;
    }
    assert(data@.take(n as int) =~= data@);
    r
}

/// The encoding of the UTF-8 bytes of a string, as characters.
pub open spec fn encoded_str(s: &str) -> Seq<char> {
    chars_of_bytes(encoded(s.spec_bytes()))
}

/// Percent-encodes a string: every byte of its UTF-8 representation is
/// encoded except the unreserved ones.
pub fn encode(s: &str) -> (r: String)
    ensures
        r@ == encoded_str(s),
{
    let bytes = crate::ascii::str_to_bytes(s);
    let enc = encode_bytes(&bytes);
    proof {
        lemma_encoded_ascii(s.spec_bytes());
    }
    crate::ascii::ascii_to_string(&enc)
}

} // verus!
