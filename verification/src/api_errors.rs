//! The remote service's structured error envelope.
//!
//! A failing call answers with a JSON object holding a required
//! `message`, an optional error kind with kind-specific detail, an
//! optional reason code, optional localized user messages, and the
//! scopes that were missing.  This module models that envelope with
//! plain values; decoding the JSON itself happens outside the
//! verified core.

use vstd::prelude::*;
use crate::ascii::str_eq;
use crate::scopes::Scope;
use crate::user_messages::UserMessages;

verus! {

use vstd::string::StringExecFns;

/// Why access was denied, as the remote service reports it.
#[derive(Debug)]
pub enum Reason {
    /// The consumer signature is missing.
    ConsumerMissing,
    /// A user access token is required.
    UserMissing,
    /// A secure connection is required.
    SecureRequired,
    /// Only administrative consumers are allowed.
    TrustedRequired,
    /// The access token lacks some required scopes.
    ScopeMissing,
    /// Impersonation was requested without administrative access.
    ImpersonateRequired,
    /// A method-specific reason code, kept verbatim.
    Custom(String),
}

impl Reason {
    /// The standard reason a wire code denotes; `None` for a
    /// method-specific code.
    pub open spec fn spec_known_of_code(s: Seq<char>) -> Option<Reason> {
        if s == "consumer_missing"@ {
            Some(Reason::ConsumerMissing)
        } else if s == "user_missing"@ {
            Some(Reason::UserMissing)
        } else if s == "secure_required"@ {
            Some(Reason::SecureRequired)
        } else if s == "trusted_required"@ {
            Some(Reason::TrustedRequired)
        } else if s == "scope_missing"@ {
            Some(Reason::ScopeMissing)
        } else if s == "impersonate_required"@ {
            Some(Reason::ImpersonateRequired)
        } else {
            None
        }
    }

    /// Parses a wire code.  Never fails: a code that is not one of
    /// the standard reasons is kept verbatim as a custom reason.
    pub fn from_code(s: &str) -> (r: Reason)
        ensures
            match Reason::spec_known_of_code(s@) {
                Some(k) => r == k,
                None => r matches Reason::Custom(c) && c@ == s@,
            },
    {
        if str_eq(s, "consumer_missing") {
            Reason::ConsumerMissing
        } else if str_eq(s, "user_missing") {
            Reason::UserMissing
        } else if str_eq(s, "secure_required") {
            Reason::SecureRequired
        } else if str_eq(s, "trusted_required") {
            Reason::TrustedRequired
        } else if str_eq(s, "scope_missing") {
            Reason::ScopeMissing
        } else if str_eq(s, "impersonate_required") {
            Reason::ImpersonateRequired
        } else {
            Reason::Custom(s.to_owned())
        }
    }
}

impl Reason {
    /// The human-readable description of the reason.
    pub open spec fn spec_description(self) -> Seq<char> {
        match self {
            Reason::ConsumerMissing => "consumer signature is missing"@,
            Reason::UserMissing => "user's access token is required"@,
            Reason::SecureRequired => "secure connection (SSL) is required"@,
            Reason::TrustedRequired => "only administrative consumers are allowed"@,
            Reason::ScopeMissing => "access token does not contain some of the required scopes"@,
            Reason::ImpersonateRequired => "impersonation was requested without administrative access"@,
            Reason::Custom(s) => s@,
        }
    }

    /// Renders the reason for a diagnostic.
    pub fn describe(&self) -> (r: String)
        ensures
            r@ == self.spec_description(),
    {
        match self {
            Reason::ConsumerMissing => "consumer signature is missing".to_owned(),
            Reason::UserMissing => "user's access token is required".to_owned(),
            Reason::SecureRequired => "secure connection (SSL) is required".to_owned(),
            Reason::TrustedRequired => "only administrative consumers are allowed".to_owned(),
            Reason::ScopeMissing => "access token does not contain some of the required scopes".to_owned(),
            Reason::ImpersonateRequired => "impersonation was requested without administrative access".to_owned(),
            Reason::Custom(s) => s.as_str().to_owned(),
        }
    }
}

/// The bare error codes of the remote protocol, without their
/// kind-specific detail.
#[derive(Debug)]
pub enum ErrorKind {
    MethodForbidden,
    ParamMissing,
    ParamInvalid,
    ParamForbidden,
    FieldNotFound,
    FieldInvalid,
    FieldForbidden,
    ObjectNotFound,
    ObjectInvalid,
    ObjectForbidden,
}

impl ErrorKind {
    /// The kind a wire code denotes, if any.
    pub open spec fn spec_of_code(s: Seq<char>) -> Option<ErrorKind> {
        if s == "method_forbidden"@ {
            Some(ErrorKind::MethodForbidden)
        } else if s == "param_missing"@ {
            Some(ErrorKind::ParamMissing)
        } else if s == "param_invalid"@ {
            Some(ErrorKind::ParamInvalid)
        } else if s == "param_forbidden"@ {
            Some(ErrorKind::ParamForbidden)
        } else if s == "field_not_found"@ {
            Some(ErrorKind::FieldNotFound)
        } else if s == "field_invalid"@ {
            Some(ErrorKind::FieldInvalid)
        } else if s == "field_forbidden"@ {
            Some(ErrorKind::FieldForbidden)
        } else if s == "object_not_found"@ {
            Some(ErrorKind::ObjectNotFound)
        } else if s == "object_invalid"@ {
            Some(ErrorKind::ObjectInvalid)
        } else if s == "object_forbidden"@ {
            Some(ErrorKind::ObjectForbidden)
        } else {
            None
        }
    }

    /// Parses a wire code.  Succeeds exactly on the ten codes of the
    /// protocol.
    pub fn from_code(s: &str) -> (r: Option<ErrorKind>)
        ensures
            r == ErrorKind::spec_of_code(s@),
    {
        if str_eq(s, "method_forbidden") {
            Some(ErrorKind::MethodForbidden)
        } else if str_eq(s, "param_missing") {
            Some(ErrorKind::ParamMissing)
        } else if str_eq(s, "param_invalid") {
            Some(ErrorKind::ParamInvalid)
        } else if str_eq(s, "param_forbidden") {
            Some(ErrorKind::ParamForbidden)
        } else if str_eq(s, "field_not_found") {
            Some(ErrorKind::FieldNotFound)
        } else if str_eq(s, "field_invalid") {
            Some(ErrorKind::FieldInvalid)
        } else if str_eq(s, "field_forbidden") {
            Some(ErrorKind::FieldForbidden)
        } else if str_eq(s, "object_not_found") {
            Some(ErrorKind::ObjectNotFound)
        } else if str_eq(s, "object_invalid") {
            Some(ErrorKind::ObjectInvalid)
        } else if str_eq(s, "object_forbidden") {
            Some(ErrorKind::ObjectForbidden)
        } else {
            None
        }
    }
}

/// An error code together with its kind-specific detail.
#[derive(Debug)]
pub enum UsosErrorKind {
    /// Access to the method is denied.
    MethodForbidden { reason: Reason },
    /// A required parameter is not provided.
    ParamMissing { param_name: String },
    /// The value of a parameter is invalid.
    ParamInvalid { param_name: String },
    /// The caller is not allowed to use a parameter.
    ParamForbidden { param_name: String, reason: Reason },
    /// A requested field does not exist.
    FieldNotFound { field_name: String, method_name: String },
    /// A requested field is invalid for this method.
    FieldInvalid { field_name: String, method_name: String },
    /// Access to a requested field was denied.
    FieldForbidden { field_name: String, method_name: String, reason: Reason },
    /// A referenced object does not exist.
    ObjectNotFound { param_name: String, method_name: String },
    /// The referenced object is in a state that prevents execution.
    ObjectInvalid,
    /// Access to the referenced object was denied.
    ObjectForbidden,
}

impl UsosErrorKind {
    /// The human-readable description of the code and its detail.
    pub open spec fn spec_description(self) -> Seq<char> {
        match self {
            UsosErrorKind::MethodForbidden { reason } => "Method is forbidden - "@
                + reason.spec_description(),
            UsosErrorKind::ParamMissing { param_name } => "Parameter is missing: '"@ + param_name@
                + "'"@,
            UsosErrorKind::ParamInvalid { param_name } => "Parameter is invalid: '"@ + param_name@
                + "'"@,
            UsosErrorKind::ParamForbidden { param_name, reason } => "Parameter is forbidden: '"@
                + param_name@ + "' Reason: "@ + reason.spec_description(),
            UsosErrorKind::FieldNotFound { field_name, method_name } => "Field not found: '"@
                + field_name@ + "' Method: '"@ + method_name@ + "'"@,
            UsosErrorKind::FieldInvalid { field_name, method_name } => "Field is invalid: '"@
                + field_name@ + "' Method: '"@ + method_name@ + "'"@,
            UsosErrorKind::FieldForbidden { field_name, method_name, reason } => "Field is forbidden: '"@
                + field_name@ + "' Method: '"@ + method_name@ + "' Reason: "@
                + reason.spec_description(),
            UsosErrorKind::ObjectNotFound { param_name, method_name } => "Object not found: '"@
                + param_name@ + "' Method: '"@ + method_name@ + "'"@,
            UsosErrorKind::ObjectInvalid => "Object is invalid"@,
            UsosErrorKind::ObjectForbidden => "Object is forbidden"@,
        }
    }

    /// Renders the code and its detail for a diagnostic.
    pub fn describe(&self) -> (r: String)
        ensures
            r@ == self.spec_description(),
    {
        let mut out = String::new();
        match self {
            UsosErrorKind::MethodForbidden { reason } => {
                out.append("Method is forbidden - ");
                let d = reason.describe();
                out.append(d.as_str());
            },
            UsosErrorKind::ParamMissing { param_name } => {
                out.append("Parameter is missing: '");
                out.append(param_name.as_str());
                out.append("'");
            },
            UsosErrorKind::ParamInvalid { param_name } => {
                out.append("Parameter is invalid: '");
                out.append(param_name.as_str());
                out.append("'");
            },
            UsosErrorKind::ParamForbidden { param_name, reason } => {
                out.append("Parameter is forbidden: '");
                out.append(param_name.as_str());
                out.append("' Reason: ");
                let d = reason.describe();
                out.append(d.as_str());
            },
            UsosErrorKind::FieldNotFound { field_name, method_name } => {
                out.append("Field not found: '");
                out.append(field_name.as_str());
                out.append("' Method: '");
                out.append(method_name.as_str());
                out.append("'");
            },
            UsosErrorKind::FieldInvalid { field_name, method_name } => {
                out.append("Field is invalid: '");
                out.append(field_name.as_str());
                out.append("' Method: '");
                out.append(method_name.as_str());
                out.append("'");
            },
            UsosErrorKind::FieldForbidden { field_name, method_name, reason } => {
                out.append("Field is forbidden: '");
                out.append(field_name.as_str());
                out.append("' Method: '");
                out.append(method_name.as_str());
                out.append("' Reason: ");
                let d = reason.describe();
                out.append(d.as_str());
            },
            UsosErrorKind::ObjectNotFound { param_name, method_name } => {
                out.append("Object not found: '");
                out.append(param_name.as_str());
                out.append("' Method: '");
                out.append(method_name.as_str());
                out.append("'");
            },
            UsosErrorKind::ObjectInvalid => {
                out.append("Object is invalid");
            },
            UsosErrorKind::ObjectForbidden => {
                out.append("Object is forbidden");
            },
        }
        out
    }
}

/// A representation of the standardized error objects the remote API
/// sends with failing responses.
#[derive(Debug)]
pub struct UsosError {
    /// Error description for the developer.
    pub message: String,
    /// The error code and its detail, when one was sent.
    pub kind: Option<UsosErrorKind>,
    /// Error description designed to be user-friendly.
    pub user_messages: Option<UserMessages>,
    /// Required scopes that are missing.
    pub missing_scopes: Option<Vec<Scope>>,
}

impl UsosError {
    /// Builds an error envelope.
    pub fn new(
        message: String,
        kind: Option<UsosErrorKind>,
        user_messages: Option<UserMessages>,
        missing_scopes: Option<Vec<Scope>>,
    ) -> (r: UsosError)
        ensures
            r.message == message,
            r.kind == kind,
            r.user_messages == user_messages,
            r.missing_scopes == missing_scopes,
    {
        UsosError { message, kind, user_messages, missing_scopes }
    }

    /// The developer-facing message.
    pub fn message(&self) -> (r: &str)
        ensures
            r@ == self.message@,
    {
        self.message.as_str()
    }

    /// The error code and detail, when one was sent.
    pub fn kind(&self) -> (r: &Option<UsosErrorKind>)
        ensures
            r == self.kind,
    {
        &self.kind
    }

    /// The diagnostic rendering of the envelope: the message, the
    /// described kind when one was sent, and the missing scopes when
    /// the service named them.
    pub open spec fn spec_description(self) -> Seq<char> {
        self.message@ + (
        match self.kind {
            Some(k) => "\nKind: "@ + k.spec_description(),
            None => Seq::<char>::empty(),
        }) + (
        match self.missing_scopes {
            Some(scopes) => "\nMissing scopes: "@ + spec_quoted_scopes(scopes@),
            None => Seq::<char>::empty(),
        })
    }

    /// Renders the envelope for a diagnostic.
    pub fn describe(&self) -> (r: String)
        ensures
            r@ == self.spec_description(),
    {
        let mut out = String::new();
        out.append(self.message.as_str());
        match &self.kind {
            Some(k) => {
                out.append("\nKind: ");
                let d = k.describe();
                out.append(d.as_str());
            },
            None => {},
        }
        match &self.missing_scopes {
            Some(scopes) => {
                out.append("\nMissing scopes: ");
                let q = quoted_scopes(scopes);
                out.append(q.as_str());
            },
            None => {},
        }
        out
    }
}

/// The missing scopes, each quoted, joined with a comma.
pub open spec fn spec_quoted_scopes(s: Seq<Scope>) -> Seq<char>
    decreases s.len(),
{
    if s.len() == 0 {
        Seq::empty()
    } else if s.len() == 1 {
        "'"@ + s.first().spec_code() + "'"@
    } else {
        "'"@ + s.first().spec_code() + "'"@ + ", "@ + spec_quoted_scopes(s.drop_first())
    }
}

/// Renders the missing scopes, each quoted, joined with a comma.
fn quoted_scopes(scopes: &Vec<Scope>) -> (r: String)
    ensures
        r@ == spec_quoted_scopes(scopes@),
{
    let mut out = String::new();
    let n = scopes.len();
    let mut i: usize = 0;
    while i < n
        invariant
            0 <= i <= n,
            n == scopes@.len(),
            out@ =~= spec_quoted_scopes(scopes@.take(i as int)),
        decreases n - i,
    {
        if i > 0 {
            out.append(", ");
        }
        out.append("'");
        out.append(scopes[i].as_code());
        out.append("'");
        proof {
            lemma_quoted_scopes_push(scopes@.take(i as int), scopes@[i as int]);
            assert(scopes@.take(i + 1) =~= scopes@.take(i as int).push(scopes@[i as int]));
        }
        i = i + 1;
    }
    assert(scopes@.take(n as int) =~= scopes@);
    out
}

/// Appending one scope to the end of the quoted join.
#[verifier::rlimit(60)]
proof fn lemma_quoted_scopes_push(s: Seq<Scope>, x: Scope)
    ensures
        spec_quoted_scopes(s.push(x)) =~= if s.len() == 0 {
            "'"@ + x.spec_code() + "'"@
        } else {
            spec_quoted_scopes(s) + ", "@ + "'"@ + x.spec_code() + "'"@
        },
    decreases s.len(),
{
    let n = s.push(x);
    if s.len() == 0 {
        assert(n.len() == 1);
        assert(n.first() == x);
    } else {
        assert(n.drop_first() =~= s.drop_first().push(x));
        lemma_quoted_scopes_push(s.drop_first(), x);
        if s.len() == 1 {
            assert(spec_quoted_scopes(n) =~= "'"@ + n.first().spec_code() + "'"@ + ", "@
                + spec_quoted_scopes(n.drop_first()));
            assert(spec_quoted_scopes(n.drop_first()) =~= "'"@ + x.spec_code() + "'"@);
            assert(spec_quoted_scopes(s) == "'"@ + s.first().spec_code() + "'"@);
        }
    }
}

} // verus!
