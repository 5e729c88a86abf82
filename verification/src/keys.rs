//! The credential model: the consumer identity an application signs
//! with.
//!
//! Confidential material (the consumer secret, token secrets) is held
//! in `secrecy`'s wrapper type, which is never printed by default
//! formatting and must be exposed explicitly; the core exposes it only
//! at the two places that need the raw value, MAC computation and the
//! explicit key-file export.

use vstd::prelude::*;
use crate::errors::AppError;

verus! {

use vstd::string::StringExecFns;

/// The name of the environment variable holding the consumer key.
pub const CONSUMER_KEY_NAME: &'static str = "USOS_CONSUMER_KEY";

/// The name of the environment variable holding the consumer secret.
pub const CONSUMER_SECRET_NAME: &'static str = "USOS_CONSUMER_SECRET";

/// The name of the environment variable holding the owner's email.
pub const CONSUMER_KEY_OWNER: &'static str = "USOS_CONSUMER_EMAIL";

/// A confidential string, held in `secrecy`'s wrapper: it is wiped
/// on drop, never printed by default formatting, and read only
/// through [`expose_secret`].  The wrapper's trait bounds keep the
/// type itself from being declared to the verifier, so it lives in a
/// hidden field here.
#[verifier::external_body]
#[derive(Debug)]
pub struct SecretString {
    inner: secrecy::SecretString,
}

/// The characters a wrapped secret string holds.
pub uninterp spec fn secret_chars(s: SecretString) -> Seq<char>;

/// Relies on `secrecy::Secret::new`: the wrapper stores exactly the
/// given value.
#[verifier::external_body]
pub fn secret_string_new(value: String) -> (r: SecretString)
    ensures
        secret_chars(r) == value@,
{
    SecretString { inner: secrecy::Secret::new(value) }
}

/// Relies on `secrecy::ExposeSecret::expose_secret`: returns a
/// reference to the stored value, unchanged.
#[verifier::external_body]
pub fn expose_secret(s: &SecretString) -> (r: &str)
    ensures
        r@ == secret_chars(*s),
{
    secrecy::ExposeSecret::expose_secret(&s.inner).as_str()
}

/// The consumer identity of a single application using the remote
/// API.  Immutable after construction and read by every signing call.
#[derive(Debug)]
pub struct ConsumerKey {
    /// Public identifier of the application.
    pub key: String,
    /// Confidential signing material; never serialized in the clear
    /// except through the explicit export below.
    pub secret: SecretString,
    /// Developer email.  Informational only.
    pub owner: Option<String>,
}

impl ConsumerKey {
    /// Builds a consumer identity from explicit values.
    pub fn new(key: String, secret: SecretString, owner: Option<String>) -> (r:
        ConsumerKey)
        ensures
            r.key == key,
            r.secret == secret,
            r.owner == owner,
    {
        ConsumerKey { key, secret, owner }
    }

    /// Builds a consumer identity from the values read out of the
    /// environment.  Fails with a configuration error naming the
    /// first missing required variable; the owner is optional.
    pub fn from_env_values(key: Option<String>, secret: Option<String>, owner: Option<String>)
        -> (r: Result<ConsumerKey, AppError>)
        ensures
            match r {
                Ok(ck) => key matches Some(k) && ck.key == k && (secret matches Some(s)
                    && secret_chars(ck.secret) == s@) && ck.owner == owner,
                Err(e) => {
                    &&& key is None || secret is None
                    &&& e matches AppError::Configuration { variable } && variable@ == (
                    if key is None {
                        CONSUMER_KEY_NAME@
                    } else {
                        CONSUMER_SECRET_NAME@
                    })
                },
            },
    {
        match (key, secret) {
            (Some(k), Some(s)) => Ok(
                ConsumerKey { key: k, secret: secret_string_new(s), owner },
            ),
            (None, _) => Err(AppError::Configuration { variable: CONSUMER_KEY_NAME.to_owned() }),
            (_, None) => Err(
                AppError::Configuration { variable: CONSUMER_SECRET_NAME.to_owned() },
            ),
        }
    }

    /// The `KEY=value` lines of the explicit key-file export, exactly
    /// as they are written to disk.  This is the one place besides MAC
    /// computation where the secret is read in the clear.
    pub fn export_env_lines(&self) -> (r: String)
        ensures
            r@ == CONSUMER_KEY_NAME@ + "="@ + self.key@ + "\n"@ + CONSUMER_SECRET_NAME@ + "="@
                + secret_chars(self.secret) + "\n"@ + CONSUMER_KEY_OWNER@ + "="@ + (
            match self.owner {
                Some(o) => o@,
                None => Seq::<char>::empty(),
            }) + "\n"@,
    {
        let mut out = String::new();
        out.append(CONSUMER_KEY_NAME);
        out.append("=");
        out.append(self.key.as_str());
        out.append("\n");
        out.append(CONSUMER_SECRET_NAME);
        out.append("=");
        out.append(expose_secret(&self.secret));
        out.append("\n");
        out.append(CONSUMER_KEY_OWNER);
        out.append("=");
        match &self.owner {
            Some(o) => {
                out.append(o.as_str());
            },
            None => {},
        }
        out.append("\n");
        out
    }
}

/// The form submitted to register a new consumer key with the remote
/// service.
pub struct RegistrationForm {
    pub app_name: String,
    pub website_url: Option<String>,
    pub email: String,
}

impl RegistrationForm {
    /// Assembles the registration form.
    pub fn new(app_name: String, website_url: Option<String>, email: String) -> (r:
        RegistrationForm)
        ensures
            r.app_name == app_name,
            r.website_url == website_url,
            r.email == email,
    {
        RegistrationForm { app_name, website_url, email }
    }
}

/// The form submitted to revoke a consumer key.
pub struct RevokeForm {
    pub consumer_key: String,
    pub consumer_secret: String,
}

impl RevokeForm {
    /// Assembles the revocation form.
    pub fn new(consumer_key: String, consumer_secret: String) -> (r: RevokeForm)
        ensures
            r.consumer_key == consumer_key,
            r.consumer_secret == consumer_secret,
    {
        RevokeForm { consumer_key, consumer_secret }
    }
}

/// Whether a registration answer reports success: the remote service
/// answers with a status string, and only the literal `success`
/// counts.
pub fn registration_succeeded(status: &str) -> (r: bool)
    ensures
        r == (status@ == "success"@),
{
    crate::ascii::str_eq(status, "success")
}

/// What the remote service answers to a registration request: a
/// status string and, on success, the freshly issued key pair.
pub struct RegistrationResponse {
    pub status: String,
    pub consumer_key: String,
    pub consumer_secret: String,
}

impl RegistrationResponse {
    /// Wraps a registration answer.
    pub fn new(status: String, consumer_key: String, consumer_secret: String) -> (r:
        RegistrationResponse)
        ensures
            r.status == status,
            r.consumer_key == consumer_key,
            r.consumer_secret == consumer_secret,
    {
        RegistrationResponse { status, consumer_key, consumer_secret }
    }
}

/// Composes the outcome of the remote key-registration call.
///
/// A client or server error status is a remote rejection; a body
/// that did not decode, or a status string other than the literal
/// `success`, fails likewise.  Only then does the answer's key pair
/// become a consumer identity, owned by the registering email.
pub fn registration_outcome(status_code: u16, response: Option<RegistrationResponse>, email: &str)
    -> (r: Result<ConsumerKey, AppError>)
    ensures
        match r {
            Ok(ck) => {
                &&& !(400 <= status_code <= 599)
                &&& response matches Some(resp) && resp.status@ == "success"@ && ck.key
                    == resp.consumer_key && secret_chars(ck.secret) == resp.consumer_secret@
                &&& ck.owner matches Some(o) && o@ == email@
            },
            Err(e) => {
                &&& e matches AppError::Unexpected { detail } && detail@ == (
                if 400 <= status_code <= 599 {
                    "consumer key registration was refused by the service"@
                } else if response is None {
                    "consumer key registration answer did not decode"@
                } else {
                    "consumer key registration status was not success"@
                })
                &&& (400 <= status_code <= 599 || response is None
                    || response.unwrap().status@ != "success"@)
            },
        },
{
    if 400 <= status_code && status_code <= 599 {
        return Err(
            AppError::Unexpected {
                detail: "consumer key registration was refused by the service".to_owned(),
            },
        );
    }
    match response {
        None => Err(
            AppError::Unexpected {
                detail: "consumer key registration answer did not decode".to_owned(),
            },
        ),
        Some(resp) => {
            if registration_succeeded(resp.status.as_str()) {
                Ok(
                    ConsumerKey {
                        key: resp.consumer_key,
                        secret: secret_string_new(resp.consumer_secret),
                        owner: Some(email.to_owned()),
                    },
                )
            } else {
                Err(
                    AppError::Unexpected {
                        detail: "consumer key registration status was not success".to_owned(),
                    },
                )
            }
        },
    }
}

/// Composes the outcome of the remote key-revocation call: any
/// client or server error status fails, carrying whatever structured
/// error the body held; every other status means the key is on its
/// way out.
pub fn revocation_outcome(
    status_code: u16,
    error_body: Option<crate::api_errors::UsosError>,
) -> (r: Result<(), AppError>)
    ensures
        match r {
            Ok(()) => !(400 <= status_code <= 599),
            Err(e) => e matches AppError::Http { code, message } && code == status_code
                && message == error_body,
        },
        r is Err <==> 400 <= status_code <= 599,
{
    if 400 <= status_code && status_code <= 599 {
        Err(AppError::Http { code: status_code, message: error_body })
    } else {
        Ok(())
    }
}

} // verus!
