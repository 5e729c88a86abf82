//! The HMAC-SHA1 signature generator.
//!
//! The signature base string is `encode(method)&encode(uri)&
//! encode(canonical_query)`, the signing key is
//! `encode(consumer_secret)&encode(token_secret_or_empty)` - the
//! trailing `&` stays even when no token secret exists yet.  The
//! signature is the base64 rendering (standard alphabet, padded) of
//! the HMAC-SHA1 of the base string under the signing key.  HMAC-SHA1
//! is mandated by the remote protocol; it is not a security choice
//! made by this crate.

use vstd::prelude::*;
use crate::codec::{encoded, encode_bytes, lemma_encoded_no_separators, lemma_encoded_injective};

verus! {

use vstd::string::StringSliceAdditionalSpecFns;

/// The HMAC-SHA1 tag of a message under a key.  The tag is a function
/// of the two arguments alone; its value is stated nowhere in this
/// crate and everything proved about signatures goes through this
/// name.
pub uninterp spec fn hmac_sha1(key: Seq<u8>, message: Seq<u8>) -> Seq<u8>;

/// Relies on `ring::hmac::sign` with `HMAC_SHA1_FOR_LEGACY_USE_ONLY`:
/// the returned tag depends on the key and the message alone.  The
/// underlying digest rejects only messages beyond two exabytes, far
/// past what a vector in memory can hold.
#[verifier::external_body]
fn hmac_sha1_sign(key: &Vec<u8>, message: &Vec<u8>) -> (r: Vec<u8>)
    ensures
        r@ == hmac_sha1(key@, message@),
{
    let k = ring::hmac::Key::new(ring::hmac::HMAC_SHA1_FOR_LEGACY_USE_ONLY, key.as_slice());
    ring::hmac::sign(&k, message.as_slice()).as_ref().to_vec()
}

/// The base64 rendering of a byte string in the standard alphabet,
/// with padding.  A function of the input bytes alone.
pub uninterp spec fn base64_standard(data: Seq<u8>) -> Seq<char>;

/// Relies on the `base64` crate's `STANDARD` engine: standard
/// alphabet, padded output, a function of the input bytes alone.
/// The engine refuses only inputs whose rendering would overflow the
/// address space, far past what a tag can be.
#[verifier::external_body]
fn base64_encode(data: &Vec<u8>) -> (r: String)
    ensures
        r@ == base64_standard(data@),
{
    base64::Engine::encode(&base64::engine::general_purpose::STANDARD, data.as_slice())
}

/// The signature base string over which the MAC is computed.
pub open spec fn signature_base(method: Seq<u8>, uri: Seq<u8>, query: Seq<u8>) -> Seq<u8> {
    encoded(method) + seq![0x26u8] + encoded(uri) + seq![0x26u8] + encoded(query)
}

/// The MAC key: encoded consumer secret, `&`, encoded token secret.
/// Without a token secret the second half is empty and the `&` stays.
pub open spec fn signing_key(consumer_secret: Seq<u8>, token_secret: Option<Seq<u8>>) -> Seq<u8> {
    encoded(consumer_secret) + seq![0x26u8] + encoded(
        match token_secret {
            Some(t) => t,
            None => Seq::empty(),
        },
    )
}

/// The complete signature: base64 of the HMAC-SHA1 of the base string
/// under the signing key.
pub open spec fn spec_signature(
    method: Seq<u8>,
    uri: Seq<u8>,
    query: Seq<u8>,
    consumer_secret: Seq<u8>,
    token_secret: Option<Seq<u8>>,
) -> Seq<char> {
    base64_standard(
        hmac_sha1(signing_key(consumer_secret, token_secret), signature_base(method, uri, query)),
    )
}

/// Computes the OAuth signature of a request.  A pure function: no
/// I/O, no randomness; equal inputs give equal signatures.
pub fn gen_signature(
    method: &str,
    uri: &str,
    query: &str,
    consumer_secret: &str,
    token_secret: Option<&str>,
) -> (r: String)
    ensures
        r@ == spec_signature(
            method.spec_bytes(),
            uri.spec_bytes(),
            query.spec_bytes(),
            consumer_secret.spec_bytes(),
            match token_secret {
                Some(t) => Some(t.spec_bytes()),
                None => None,
            },
        ),
{
    let mut base = encode_bytes(&crate::ascii::str_to_bytes(method));
    base.push(0x26);
    let mut enc_uri = encode_bytes(&crate::ascii::str_to_bytes(uri));
    base.append(&mut enc_uri);
    base.push(0x26);
    let mut enc_query = encode_bytes(&crate::ascii::str_to_bytes(query));
    base.append(&mut enc_query);
    assert(base@ =~= signature_base(method.spec_bytes(), uri.spec_bytes(), query.spec_bytes()));

    let mut key = encode_bytes(&crate::ascii::str_to_bytes(consumer_secret));
    key.push(0x26);
    match token_secret {
        Some(t) => {
            let mut enc_t = encode_bytes(&crate::ascii::str_to_bytes(t));
            key.append(&mut enc_t);
            assert(key@ =~= signing_key(consumer_secret.spec_bytes(), Some(t.spec_bytes())));
        },
        None => {
            proof {
                let empty = Seq::<u8>::empty();
                assert(encoded(empty) =~= Seq::<u8>::empty());
                assert(key@ =~= signing_key(consumer_secret.spec_bytes(), None));
            }
        },
    }

    let tag = hmac_sha1_sign(&key, &base);
    base64_encode(&tag)
}

/// Signature stability: the signature is a function of the method,
/// the URI, the canonical query and the two secrets alone.  Two
/// computations over equal inputs yield equal signatures; there is no
/// hidden state.
pub proof fn lemma_signature_deterministic(
    method: Seq<u8>,
    uri: Seq<u8>,
    query: Seq<u8>,
    consumer_secret: Seq<u8>,
    token_secret: Option<Seq<u8>>,
    method2: Seq<u8>,
    uri2: Seq<u8>,
    query2: Seq<u8>,
    consumer_secret2: Seq<u8>,
    token_secret2: Option<Seq<u8>>,
)
    requires
        method == method2,
        uri == uri2,
        query == query2,
        consumer_secret == consumer_secret2,
        token_secret == token_secret2,
    ensures
        spec_signature(method, uri, query, consumer_secret, token_secret) == spec_signature(
            method2,
            uri2,
            query2,
            consumer_secret2,
            token_secret2,
        ),
{
}

/// Splitting at a separator that occurs in neither left part is
/// unambiguous.
proof fn lemma_separated_unambiguous(a1: Seq<u8>, b1: Seq<u8>, a2: Seq<u8>, b2: Seq<u8>, sep: u8)
    requires
        a1 + seq![sep] + b1 == a2 + seq![sep] + b2,
        forall|i: int| 0 <= i < a1.len() ==> a1[i] != sep,
        forall|i: int| 0 <= i < a2.len() ==> a2[i] != sep,
    ensures
        a1 =~= a2,
        b1 =~= b2,
{
    let s = a1 + seq![sep] + b1;
    let t = a2 + seq![sep] + b2;
    assert(s == t);
    assert(s.len() == a1.len() + 1 + b1.len());
    assert(t.len() == a2.len() + 1 + b2.len());
    assert(s[a1.len() as int] == sep);
    assert(t[a2.len() as int] == sep);
    assert(s[a2.len() as int] == sep);
    if a1.len() < a2.len() {
        assert(s[a1.len() as int] == a2[a1.len() as int]);
        assert(false);
    }
    if a2.len() < a1.len() {
        assert(s[a2.len() as int] == a1[a2.len() as int]);
        assert(false);
    }
    assert(a1.len() == a2.len());
    assert forall|i: int| 0 <= i < a1.len() implies a1[i] == a2[i] by {
        assert(s[i] == a1[i]);
        assert(s[i] == a2[i]);
    }
    assert(b1.len() == b2.len());
    assert forall|i: int| 0 <= i < b1.len() implies b1[i] == b2[i] by {
        assert(s[a1.len() + 1 + i] == b1[i]);
        assert(t[a2.len() + 1 + i] == b2[i]);
    }
}

/// There are no trivial signature collisions: two requests have the
/// same signature base string only if method, URI and canonical query
/// all agree byte for byte.  Together with the injectivity of the
/// codec, changing any input byte changes the MAC input.
pub proof fn lemma_signature_base_injective(
    m1: Seq<u8>,
    u1: Seq<u8>,
    q1: Seq<u8>,
    m2: Seq<u8>,
    u2: Seq<u8>,
    q2: Seq<u8>,
)
    requires
        signature_base(m1, u1, q1) == signature_base(m2, u2, q2),
    ensures
        m1 =~= m2,
        u1 =~= u2,
        q1 =~= q2,
{
    lemma_encoded_no_separators(m1);
    lemma_encoded_no_separators(m2);
    lemma_encoded_no_separators(u1);
    lemma_encoded_no_separators(u2);
    let rest1 = encoded(u1) + seq![0x26u8] + encoded(q1);
    let rest2 = encoded(u2) + seq![0x26u8] + encoded(q2);
    assert(encoded(m1) + seq![0x26u8] + rest1 =~= signature_base(m1, u1, q1));
    assert(encoded(m2) + seq![0x26u8] + rest2 =~= signature_base(m2, u2, q2));
    lemma_separated_unambiguous(encoded(m1), rest1, encoded(m2), rest2, 0x26u8);
    lemma_encoded_injective(m1, m2);
    lemma_separated_unambiguous(encoded(u1), encoded(q1), encoded(u2), encoded(q2), 0x26u8);
    lemma_encoded_injective(u1, u2);
    lemma_encoded_injective(q1, q2);
}

/// The two halves of the signing key are likewise unambiguous: the
/// consumer secret and the token secret can be recovered from the key.
pub proof fn lemma_signing_key_injective(
    c1: Seq<u8>,
    t1: Option<Seq<u8>>,
    c2: Seq<u8>,
    t2: Option<Seq<u8>>,
)
    requires
        signing_key(c1, t1) == signing_key(c2, t2),
    ensures
        c1 =~= c2,
        spec_token_or_empty(t1) =~= spec_token_or_empty(t2),
{
    lemma_encoded_no_separators(c1);
    lemma_encoded_no_separators(c2);
    lemma_separated_unambiguous(
        encoded(c1),
        encoded(spec_token_or_empty(t1)),
        encoded(c2),
        encoded(spec_token_or_empty(t2)),
        0x26u8,
    );
    lemma_encoded_injective(c1, c2);
    lemma_encoded_injective(spec_token_or_empty(t1), spec_token_or_empty(t2));
}

/// The token secret that actually enters the signing key.
pub open spec fn spec_token_or_empty(t: Option<Seq<u8>>) -> Seq<u8> {
    match t {
        Some(s) => s,
        None => Seq::empty(),
    }
}

/// No trivial collision: whenever two signature computations differ
/// in any byte of the method, the URI, the canonical query, the
/// consumer secret or the effective token secret, they feed the MAC
/// a different message or a different key.  Whether the MAC itself
/// ever collides is a property of the outside digest, stated
/// nowhere in this crate.
pub proof fn lemma_no_trivial_collision(
    m1: Seq<u8>,
    u1: Seq<u8>,
    q1: Seq<u8>,
    c1: Seq<u8>,
    t1: Option<Seq<u8>>,
    m2: Seq<u8>,
    u2: Seq<u8>,
    q2: Seq<u8>,
    c2: Seq<u8>,
    t2: Option<Seq<u8>>,
)
    requires
        m1 != m2 || u1 != u2 || q1 != q2 || c1 != c2 || spec_token_or_empty(t1)
            != spec_token_or_empty(t2),
    ensures
        signature_base(m1, u1, q1) != signature_base(m2, u2, q2) || signing_key(c1, t1)
            != signing_key(c2, t2),
{
    if signature_base(m1, u1, q1) == signature_base(m2, u2, q2) && signing_key(c1, t1)
        == signing_key(c2, t2) {
        lemma_signature_base_injective(m1, u1, q1, m2, u2, q2);
        lemma_signing_key_injective(c1, t1, c2, t2);
        assert(false);
    }
}

} // verus!
