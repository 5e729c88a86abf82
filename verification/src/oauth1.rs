//! The OAuth 1.0a authorization engine.
//!
//! `authorize` takes the caller's parameters, adds the protocol
//! metadata (consumer key, nonce, signature method, timestamp,
//! optional token, version), canonicalizes the whole set, signs it,
//! and adds the signature as the final parameter.  The signature is
//! always computed last, over every other parameter of the set, and
//! is never part of its own input.

use vstd::prelude::*;
use rand::distributions::Distribution;
use crate::ascii::{ascii_to_string, bytes_of_chars, chars_of_bytes, is_alnum_byte,
    lemma_ascii_bytes_roundtrip, spec_decimal, str_to_bytes, u64_to_decimal};
use crate::auth::AccessToken;
use crate::canon::{canonical_query, lemma_canonical_query_ascii};
use crate::keys::{ConsumerKey, expose_secret, secret_chars};
use crate::params::{Params, canonical_pairs, lemma_pairs_canonical};
use crate::sign::{gen_signature, spec_signature};

verus! {

use vstd::string::StringSliceAdditionalSpecFns;

/// Length of the random nonce attached to every signed request.
pub const NONCE_LENGTH: usize = 32;

/// A plain public/secret string pair.
#[derive(Clone)]
pub struct KeyPair {
    pub key: String,
    pub secret: String,
}

impl KeyPair {
    /// Pairs a key with its secret.
    pub fn new(key: String, secret: String) -> (r: KeyPair)
        ensures
            r.key == key,
            r.secret == secret,
    {
        KeyPair { key, secret }
    }
}

/// The token value a borrowed optional token denotes.
pub open spec fn opt_token(token: Option<&AccessToken>) -> Option<AccessToken> {
    match token {
        Some(t) => Some(*t),
        None => None,
    }
}

/// A nonce of the expected shape: thirty-two ASCII letters or digits.
pub open spec fn spec_nonce_ok(nonce: Seq<u8>) -> bool {
    &&& nonce.len() == NONCE_LENGTH
    &&& forall|i: int| 0 <= i < nonce.len() ==> is_alnum_byte(#[trigger] nonce[i])
}

/// Relies on rand's `Alphanumeric` distribution: every sampled byte
/// is an ASCII letter or digit, and exactly `len` of them are taken.
/// Which bytes come back depends on the thread's generator, so
/// nothing more is promised.
#[verifier::external_body]
fn sample_alphanumeric(len: usize) -> (r: Vec<u8>)
    ensures
        r@.len() == len,
        forall|i: int| 0 <= i < r@.len() ==> is_alnum_byte(#[trigger] r@[i]),
{
    rand::distributions::Alphanumeric.sample_iter(rand::thread_rng()).take(len).collect()
}

/// Relies on std's `SystemTime`: seconds since the Unix epoch, zero
/// in the degenerate case of a clock reading before the epoch.  The
/// value depends on the wall clock, so nothing is promised about it.
#[verifier::external_body]
fn unix_timestamp_seconds() -> u64 {
    match std::time::SystemTime::now().duration_since(std::time::UNIX_EPOCH) {
        Ok(d) => d.as_secs(),
        Err(_) => 0,
    }
}

/// A fresh random alphanumeric string, as used for nonces.
pub fn rand_alphanumeric_string(target_len: usize) -> (r: String)
    ensures
        exists|b: Seq<u8>|
            b.len() == target_len && (forall|i: int|
                0 <= i < b.len() ==> is_alnum_byte(#[trigger] b[i])) && r@ == #[trigger]
                chars_of_bytes(b),
{
    let bytes = sample_alphanumeric(target_len);
    let r = ascii_to_string(&bytes);
    proof {
        assert(r@ == chars_of_bytes(bytes@));
    }
    r
}

/// The parameter set after the protocol metadata is added: consumer
/// key, nonce, signature method, timestamp, the token when one is
/// used, and the protocol version.
pub open spec fn oauth_metadata_params(
    base: Map<Seq<u8>, Seq<u8>>,
    consumer: ConsumerKey,
    token: Option<AccessToken>,
    nonce: Seq<u8>,
    timestamp: u64,
) -> Map<Seq<u8>, Seq<u8>> {
    let m = base.insert("oauth_consumer_key".spec_bytes(), bytes_of_chars(consumer.key@)).insert(
        "oauth_nonce".spec_bytes(),
        nonce,
    ).insert("oauth_signature_method".spec_bytes(), "HMAC-SHA1".spec_bytes()).insert(
        "oauth_timestamp".spec_bytes(),
        spec_decimal(timestamp as nat),
    );
    let m2 = match token {
        Some(t) => m.insert("oauth_token".spec_bytes(), bytes_of_chars(t.token@)),
        None => m,
    };
    m2.insert("oauth_version".spec_bytes(), "1.0".spec_bytes())
}

/// The fully authorized parameter set: the metadata parameters plus
/// the signature, computed over the canonical query of every other
/// parameter.
pub open spec fn spec_authorized(
    base: Map<Seq<u8>, Seq<u8>>,
    method: Seq<char>,
    uri: Seq<char>,
    consumer: ConsumerKey,
    token: Option<AccessToken>,
    nonce: Seq<u8>,
    timestamp: u64,
) -> Map<Seq<u8>, Seq<u8>> {
    let m = oauth_metadata_params(base, consumer, token, nonce, timestamp);
    let q = canonical_query(canonical_pairs(m));
    let sig = spec_signature(
        bytes_of_chars(method),
        bytes_of_chars(uri),
        q,
        bytes_of_chars(secret_chars(consumer.secret)),
        match token {
            Some(t) => Some(bytes_of_chars(secret_chars(t.secret))),
            None => None,
        },
    );
    m.insert("oauth_signature".spec_bytes(), bytes_of_chars(sig))
}

/// The deterministic core of the engine: authorizes a parameter set
/// with a caller-supplied nonce and timestamp.
pub fn authorize_with_nonce(
    method: &str,
    uri: &str,
    consumer: &ConsumerKey,
    token: Option<&AccessToken>,
    params: Params,
    nonce: &str,
    timestamp: u64,
) -> (r: Params)
    requires
        params.wf(),
    ensures
        r.wf(),
        r@ == spec_authorized(
            params@,
            method@,
            uri@,
            *consumer,
            opt_token(token),
            nonce.spec_bytes(),
            timestamp,
        ),
{
    let mut p = params;
    p.insert("oauth_consumer_key", consumer.key.as_str());
    p.insert("oauth_nonce", nonce);
    p.insert("oauth_signature_method", "HMAC-SHA1");
    p.insert_bytes(str_to_bytes("oauth_timestamp"), u64_to_decimal(timestamp));
    match token {
        Some(t) => {
            p.insert("oauth_token", t.token.as_str());
        },
        None => {},
    }
    p.insert("oauth_version", "1.0");
    let ghost m = oauth_metadata_params(
        params@,
        *consumer,
        opt_token(token),
        nonce.spec_bytes(),
        timestamp,
    );
    assert(p@ == m);

    let query = p.to_query();
    proof {
        lemma_pairs_canonical(&p);
        lemma_canonical_query_ascii(p.pairs_view());
        lemma_ascii_bytes_roundtrip(canonical_query(canonical_pairs(m)));
    }
    let token_secret: Option<&str> = match token {
        Some(t) => Some(expose_secret(&t.secret)),
        None => None,
    };
    let signature = gen_signature(
        method,
        uri,
        query.as_str(),
        expose_secret(&consumer.secret),
        token_secret,
    );
    p.insert("oauth_signature", signature.as_str());
    p
}

/// Generates OAuth 1.0a authorization parameters for a request: the
/// caller's parameters plus the protocol metadata and the signature.
/// The nonce is drawn fresh and the timestamp read from the clock,
/// per call; everything else is a function of the inputs.
pub fn authorize(
    method: &str,
    uri: &str,
    consumer: &ConsumerKey,
    token: Option<&AccessToken>,
    params: Params,
) -> (r: Params)
    requires
        params.wf(),
    ensures
        r.wf(),
        exists|nonce: Seq<u8>, timestamp: u64|
            spec_nonce_ok(nonce) && r@ == #[trigger] spec_authorized(
                params@,
                method@,
                uri@,
                *consumer,
                opt_token(token),
                nonce,
                timestamp,
            ),
{
    let nonce_bytes = sample_alphanumeric(NONCE_LENGTH);
    let nonce = ascii_to_string(&nonce_bytes);
    let timestamp = unix_timestamp_seconds();
    proof {
        lemma_ascii_bytes_roundtrip(nonce_bytes@);
    }
    let nonce_str = nonce.as_str();
    let r = authorize_with_nonce(method, uri, consumer, token, params, nonce_str, timestamp);
    proof {
        assert(nonce_str@ == chars_of_bytes(nonce_bytes@));
        assert(nonce_str.spec_bytes() =~= nonce_bytes@);
        assert(spec_nonce_ok(nonce_bytes@));
    }
    r
}

} // verus!
