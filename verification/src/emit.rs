//! Small text-assembly helpers for emitted stub code.

use vstd::prelude::*;

verus! {

use vstd::string::StringExecFns;

/// Whether the remote method requires, accepts or ignores a signature
/// element (the consumer key or the user token).
#[derive(Clone, Copy, PartialEq, Eq, Structural)]
pub enum SignatureRequirement {
    Required,
    Optional,
    Ignored,
}

impl SignatureRequirement {
    /// The requirement's rendering in the reference documentation.
    pub open spec fn spec_code(self) -> Seq<char> {
        match self {
            SignatureRequirement::Required => "required"@,
            SignatureRequirement::Optional => "optional"@,
            SignatureRequirement::Ignored => "ignored"@,
        }
    }

    /// Renders the requirement.
    pub fn as_code(&self) -> (r: &'static str)
        ensures
            r@ == self.spec_code(),
    {
        match self {
            SignatureRequirement::Required => "required",
            SignatureRequirement::Optional => "optional",
            SignatureRequirement::Ignored => "ignored",
        }
    }

    /// Whether the element is ignored.
    pub fn is_ignored(&self) -> (r: bool)
        ensures
            r == (self is Ignored),
    {
        match self {
            SignatureRequirement::Ignored => true,
            _ => false,
        }
    }

    /// Whether the element is optional.
    pub fn is_optional(&self) -> (r: bool)
        ensures
            r == (self is Optional),
    {
        match self {
            SignatureRequirement::Optional => true,
            _ => false,
        }
    }

    /// Whether the element is required.
    pub fn is_required(&self) -> (r: bool)
        ensures
            r == (self is Required),
    {
        match self {
            SignatureRequirement::Required => true,
            _ => false,
        }
    }
}

/// Wraps a type name in `Option<...>`.
pub fn option(inner: &str) -> (r: String)
    ensures
        r@ == "Option<"@ + inner@ + ">"@,
{
    let mut out = String::new();
    out.append("Option<");
    out.append(inner);
    out.append(">");
    out
}

/// Renders one argument line of an emitted function signature.
pub struct ArgLine;

impl ArgLine {
    /// `name: Option<type>,` - an argument the caller may omit.
    pub fn optional(arg_name: &str, arg_type: &str) -> (r: String)
        ensures
            r@ == arg_name@ + ": "@ + "Option<"@ + arg_type@ + ">"@ + ","@,
    {
        let mut out = String::new();
        out.append(arg_name);
        out.append(": ");
        let opt = option(arg_type);
        out.append(opt.as_str());
        out.append(",");
        out
    }

    /// `name: type,` - an argument the caller must supply.
    pub fn required(arg_name: &str, arg_type: &str) -> (r: String)
        ensures
            r@ == arg_name@ + ": "@ + arg_type@ + ","@,
    {
        let mut out = String::new();
        out.append(arg_name);
        out.append(": ");
        out.append(arg_type);
        out.append(",");
        out
    }

    /// The characters `with_requirement` emits.
    pub open spec fn requirement_shape(
        arg_name: Seq<char>,
        arg_type: Seq<char>,
        requirement: SignatureRequirement,
    ) -> Seq<char> {
        match requirement {
            SignatureRequirement::Ignored => Seq::<char>::empty(),
            SignatureRequirement::Optional => arg_name + ": "@ + "Option<"@ + arg_type + ">"@
                + ","@,
            SignatureRequirement::Required => arg_name + ": "@ + arg_type + ","@,
        }
    }

    /// The argument line a requirement calls for: nothing when the
    /// element is ignored, otherwise the optional or required form.
    pub fn with_requirement(arg_name: &str, arg_type: &str, requirement: SignatureRequirement)
        -> (r: String)
        ensures
            r@ == ArgLine::requirement_shape(arg_name@, arg_type@, requirement),
    {
        match requirement {
            SignatureRequirement::Ignored => String::new(),
            SignatureRequirement::Optional => ArgLine::optional(arg_name, arg_type),
            SignatureRequirement::Required => ArgLine::required(arg_name, arg_type),
        }
    }
}

} // verus!
