//! A verified client core for a university information system's REST API.
//!
//! The heart of the crate is the OAuth 1.0a request-signing pipeline:
//! a strict percent-encoding codec, a deterministic parameter
//! canonicalizer, an HMAC-SHA1 signature generator, and the
//! authorization engine that ties them together.  Around it stand the
//! credential model, the two-step token-acquisition flow, the response
//! classifier, the error taxonomy, and the generator that emits client
//! stubs from the remote API's self-describing reference.

pub mod api_errors;
pub mod api_types;
pub mod ascii;
pub mod auth;
pub mod canon;
pub mod cli;
pub mod client;
pub mod code;
pub mod codec;
pub mod emit;
pub mod endpoint;
pub mod errors;
pub mod keys;
pub mod module_system;
pub mod oauth1;
pub mod params;
pub mod paths;
pub mod reference;
pub mod scopes;
pub mod selector;
pub mod sign;
pub mod times;
pub mod user_messages;
pub mod util;
