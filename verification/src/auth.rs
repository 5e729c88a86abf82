//! The two-step token acquisition flow.
//!
//! A fresh run first trades a signed request for a short-lived
//! request token, then - once the user has authorized and a verifier
//! code exists - trades the request token for the access token.
//! There is no transition back; the request token is consumed exactly
//! once.  The transport itself lives outside the verified core: this
//! module builds the payloads that are signed and sent, and decodes
//! the `&`-separated bodies that come back.

use vstd::prelude::*;
use crate::ascii::chars_of_bytes;
use crate::canon::all_ascii;
use crate::errors::AppError;
use crate::keys::{SecretString, secret_chars, secret_string_new};
use crate::params::Params;
use crate::scopes::{Scopes, spec_scopes_value};
use crate::util::parse_amp;

verus! {

use vstd::string::StringSliceAdditionalSpecFns;
use vstd::string::StringExecFns;

/// Token used once to request an access token.
///
/// It has the same shape as [`AccessToken`] but a distinct type: it
/// may only sign the access-token exchange and build the
/// user-authorization URL, never ordinary API calls.  It is consumed
/// by the exchange and then discarded.
#[derive(Debug)]
pub struct OAuthRequestToken {
    /// Public token value.
    pub token: String,
    /// Confidential token secret.
    pub secret: SecretString,
}

/// Token that identifies an authorized application user.
///
/// Obtained through the two-step flow; the remote service alone
/// controls its lifetime, and the caller must store it.
#[derive(Debug)]
pub struct AccessToken {
    /// Public token value.
    pub token: String,
    /// Confidential token secret.
    pub secret: SecretString,
}

impl AccessToken {
    /// Wraps explicit token values.  Ordinary operation only ever
    /// builds one from the exchange; explicit values exist for
    /// negative testing.
    pub fn new(token: String, secret: SecretString) -> (r: AccessToken)
        ensures
            r.token == token,
            r.secret == secret,
    {
        AccessToken { token, secret }
    }
}

/// The access token under its full protocol name.
pub type OAuthAccessToken = AccessToken;

/// The payload of the request-token step: the callback URL - the
/// literal `oob` (out-of-band) when none is supplied - and the
/// requested scopes, `|`-joined.
pub fn request_token_payload(callback: Option<String>, scopes: &Scopes) -> (r: Params)
    ensures
        r.wf(),
        r@ == Map::<Seq<u8>, Seq<u8>>::empty().insert(
            "oauth_callback".spec_bytes(),
            vstd::utf8::encode_utf8(
                match callback {
                    Some(c) => c@,
                    None => "oob"@,
                },
            ),
        ).insert(
            "scopes".spec_bytes(),
            vstd::utf8::encode_utf8(spec_scopes_value(scopes.spec_scopes())),
        ),
{
    let mut p = Params::new();
    match callback {
        Some(c) => {
            p.insert("oauth_callback", c.as_str());
        },
        None => {
            p.insert("oauth_callback", "oob");
        },
    }
    let scope_value = scopes.to_param_value();
    p.insert("scopes", scope_value.as_str());
    p
}

/// The payload of the access-token step: the verifier obtained out of
/// band, either through the callback or typed in by the user.
pub fn access_token_payload(verifier: &str) -> (r: Params)
    ensures
        r.wf(),
        r@ == Map::<Seq<u8>, Seq<u8>>::empty().insert(
            "oauth_verifier".spec_bytes(),
            verifier.spec_bytes(),
        ),
{
    let mut p = Params::new();
    p.insert("oauth_verifier", verifier);
    p
}

/// The URL at which the user authorizes a request token.
pub fn authorize_url(base_url: &str, request_token: &OAuthRequestToken) -> (r: String)
    ensures
        r@ == base_url@ + "services/oauth/authorize?oauth_token="@ + request_token.token@,
{
    let mut out = String::new();
    out.append(base_url);
    out.append("services/oauth/authorize?oauth_token=");
    out.append(request_token.token.as_str());
    out
}

/// The field of a token response body holds a usable value: present,
/// and plain ASCII as the wire format promises.
pub open spec fn usable_field(m: Map<Seq<u8>, Seq<u8>>, name: Seq<u8>) -> bool {
    m.contains_key(name) && all_ascii(m[name])
}

/// A request-token response body is complete: `oauth_token`,
/// `oauth_token_secret` and `oauth_callback_confirmed` are all
/// present.
pub open spec fn request_token_response_ok(m: Map<Seq<u8>, Seq<u8>>) -> bool {
    &&& usable_field(m, "oauth_token".spec_bytes())
    &&& usable_field(m, "oauth_token_secret".spec_bytes())
    &&& m.contains_key("oauth_callback_confirmed".spec_bytes())
}

/// An access-token response body is complete: `oauth_token` and
/// `oauth_token_secret` are present.
pub open spec fn access_token_response_ok(m: Map<Seq<u8>, Seq<u8>>) -> bool {
    &&& usable_field(m, "oauth_token".spec_bytes())
    &&& usable_field(m, "oauth_token_secret".spec_bytes())
}

/// The diagnostic a token-response field failure carries: it names
/// the key that was absent, or the key whose value was not plain
/// ASCII.
pub open spec fn spec_field_diagnostic(
    m: Map<Seq<u8>, Seq<u8>>,
    key_bytes: Seq<u8>,
    key_chars: Seq<char>,
) -> Seq<char> {
    if !m.contains_key(key_bytes) {
        "missing expected response key: "@ + key_chars
    } else {
        "response value is not plain ASCII: "@ + key_chars
    }
}

/// Builds the diagnostic for a missing response key.
fn missing_key_detail(name: &str) -> (r: String)
    ensures
        r@ == "missing expected response key: "@ + name@,
{
    let mut out = String::new();
    out.append("missing expected response key: ");
    out.append(name);
    out
}

/// Builds the diagnostic for a response value that is not ASCII.
fn non_ascii_detail(name: &str) -> (r: String)
    ensures
        r@ == "response value is not plain ASCII: "@ + name@,
{
    let mut out = String::new();
    out.append("response value is not plain ASCII: ");
    out.append(name);
    out
}

/// Reads one required field of a token response.  A failure names
/// the key in its diagnostic.
fn read_field<'a>(params: &'a Params, name: &str) -> (r: Result<&'a Vec<u8>, AppError>)
    requires
        params.wf(),
    ensures
        match r {
            Ok(v) => usable_field(params@, name.spec_bytes()) && v@ == params@[name.spec_bytes()],
            Err(e) => !usable_field(params@, name.spec_bytes()) && (e matches AppError::Parse {
                detail,
            } && detail@ == spec_field_diagnostic(params@, name.spec_bytes(), name@)),
        },
{
    match params.get(name) {
        None => Err(AppError::Parse { detail: missing_key_detail(name) }),
        Some(v) => {
            let n = v.len();
            let mut i: usize = 0;
            while i < n
                invariant
                    0 <= i <= n,
                    n == v@.len(),
                    params@.contains_key(name.spec_bytes()),
                    v@ == params@[name.spec_bytes()],
                    forall|j: int| 0 <= j < i ==> #[trigger] v@[j] < 0x80,
                decreases n - i,
            {
                if v[i] >= 0x80 {
                    proof {
                        assert(params@[name.spec_bytes()][i as int] >= 0x80);
                        assert(!all_ascii(params@[name.spec_bytes()]));
                    }
                    return Err(AppError::Parse { detail: non_ascii_detail(name) });
                }
                i = i + 1;
            }
            Ok(v)
        },
    }
}

/// The diagnostic a failing request-token body earns: it names the
/// first expected key that is absent or unusable.
pub open spec fn spec_request_token_diagnostic(m: Map<Seq<u8>, Seq<u8>>) -> Seq<char> {
    if !usable_field(m, "oauth_token".spec_bytes()) {
        spec_field_diagnostic(m, "oauth_token".spec_bytes(), "oauth_token"@)
    } else if !usable_field(m, "oauth_token_secret".spec_bytes()) {
        spec_field_diagnostic(m, "oauth_token_secret".spec_bytes(), "oauth_token_secret"@)
    } else {
        "missing expected response key: "@ + "oauth_callback_confirmed"@
    }
}

/// The diagnostic a failing access-token body earns: it names the
/// first expected key that is absent or unusable.
pub open spec fn spec_access_token_diagnostic(m: Map<Seq<u8>, Seq<u8>>) -> Seq<char> {
    if !usable_field(m, "oauth_token".spec_bytes()) {
        spec_field_diagnostic(m, "oauth_token".spec_bytes(), "oauth_token"@)
    } else {
        spec_field_diagnostic(m, "oauth_token_secret".spec_bytes(), "oauth_token_secret"@)
    }
}

/// Decodes the body of the request-token step.
///
/// Succeeds exactly when the body parses as `&`-separated `key=value`
/// pairs holding usable `oauth_token` and `oauth_token_secret` fields
/// and an `oauth_callback_confirmed` field; everything else is a
/// protocol-format error naming the failing key, never a panic.
pub fn parse_request_token_response(body: &str) -> (r: Result<OAuthRequestToken, AppError>)
    ensures
        match r {
            Ok(tok) => {
                &&& parse_amp(body.spec_bytes()) is Some
                &&& request_token_response_ok(parse_amp(body.spec_bytes()).unwrap())
                &&& tok.token@ == chars_of_bytes(
                    parse_amp(body.spec_bytes()).unwrap()["oauth_token".spec_bytes()],
                )
                &&& secret_chars(tok.secret) == chars_of_bytes(
                    parse_amp(body.spec_bytes()).unwrap()["oauth_token_secret".spec_bytes()],
                )
            },
            Err(e) => {
                &&& (parse_amp(body.spec_bytes()) is None || !request_token_response_ok(
                    parse_amp(body.spec_bytes()).unwrap(),
                ))
                &&& match parse_amp(body.spec_bytes()) {
                    Some(m) => e matches AppError::Parse { detail } && detail@
                        == spec_request_token_diagnostic(m),
                    None => e matches AppError::Parse { .. },
                }
            },
        },
{
    let params = crate::util::parse_ampersand_params(body)?;
    let token = read_field(&params, "oauth_token")?;
    let token_str = crate::ascii::ascii_to_string(token);
    let secret = read_field(&params, "oauth_token_secret")?;
    let secret_str = crate::ascii::ascii_to_string(secret);
    match params.get("oauth_callback_confirmed") {
        None => Err(AppError::Parse { detail: missing_key_detail("oauth_callback_confirmed") }),
        Some(_) => Ok(
            OAuthRequestToken { token: token_str, secret: secret_string_new(secret_str) },
        ),
    }
}

/// Decodes the body of the access-token step.
///
/// Succeeds exactly when the body parses and holds usable
/// `oauth_token` and `oauth_token_secret` fields; the resulting
/// access token carries the values of this response and no other.
pub fn parse_access_token_response(body: &str) -> (r: Result<AccessToken, AppError>)
    ensures
        match r {
            Ok(tok) => {
                &&& parse_amp(body.spec_bytes()) is Some
                &&& access_token_response_ok(parse_amp(body.spec_bytes()).unwrap())
                &&& tok.token@ == chars_of_bytes(
                    parse_amp(body.spec_bytes()).unwrap()["oauth_token".spec_bytes()],
                )
                &&& secret_chars(tok.secret) == chars_of_bytes(
                    parse_amp(body.spec_bytes()).unwrap()["oauth_token_secret".spec_bytes()],
                )
            },
            Err(e) => {
                &&& (parse_amp(body.spec_bytes()) is None || !access_token_response_ok(
                    parse_amp(body.spec_bytes()).unwrap(),
                ))
                &&& match parse_amp(body.spec_bytes()) {
                    Some(m) => e matches AppError::Parse { detail } && detail@
                        == spec_access_token_diagnostic(m),
                    None => e matches AppError::Parse { .. },
                }
            },
        },
{
    let params = crate::util::parse_ampersand_params(body)?;
    let token = read_field(&params, "oauth_token")?;
    let token_str = crate::ascii::ascii_to_string(token);
    let secret = read_field(&params, "oauth_token_secret")?;
    let secret_str = crate::ascii::ascii_to_string(secret);
    Ok(AccessToken { token: token_str, secret: secret_string_new(secret_str) })
}

/// The access-token exchange signs with the request token's values:
/// the request token is consumed here and can be used for nothing
/// else afterwards.
pub fn exchange_token(request_token: OAuthRequestToken) -> (r: AccessToken)
    ensures
        r.token == request_token.token,
        r.secret == request_token.secret,
{
    AccessToken { token: request_token.token, secret: request_token.secret }
}

} // verus!
