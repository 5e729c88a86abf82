//! Emission of one endpoint's client stub.
//!
//! From a method's reference description this module assembles the
//! stub source: imports, a documentation header, the function
//! signature with one line per argument, parameter collection and
//! signing, and the dispatch of the request.  Types that the
//! reference cannot supply are left as placeholders for the
//! maintainer.

use vstd::prelude::*;
use crate::code::{Code, ItemV};
use crate::emit::SignatureRequirement;
use crate::reference::{Argument, MethodReference};
use crate::scopes::{Scope, spec_scopes_value};

verus! {

use vstd::string::StringExecFns;

/// Arguments the emitted stubs never surface: the wire-format and
/// JSONP arguments are fixed by the client itself.
pub open spec fn omitted_arg(name: Seq<char>) -> bool {
    name == "format"@ || name == "callback"@
}

/// Decides whether an argument is omitted from the stub.
pub fn is_omitted_arg(name: &str) -> (r: bool)
    ensures
        r == omitted_arg(name@),
{
    crate::ascii::str_eq(name, "format") || crate::ascii::str_eq(name, "callback")
}

/// The import block of every stub.
pub open spec fn imports_shape() -> Seq<ItemV> {
    seq![
        ItemV::Line("use crate::{"@),
        ItemV::Indent,
        ItemV::Line("api::{params::Params, util::{Process, Selector}},"@),
        ItemV::Line("client::{UsosUri, CLIENT},"@),
        ItemV::Line("keys::ConsumerKey,"@),
        ItemV::StopIndent,
        ItemV::Line("};"@),
        ItemV::Line("use serde_json::Value;"@),
        ItemV::Line(""@),
    ]
}

/// Emits the import block.
pub fn generate_imports() -> (r: Code)
    ensures
        r.shape() =~= imports_shape(),
{
    Code::new().line("use crate::{").indent().line(
        "api::{params::Params, util::{Process, Selector}},",
    ).line("client::{UsosUri, CLIENT},").line("keys::ConsumerKey,").stop_indent().line(
        "};",
    ).line("use serde_json::Value;").line("")
}

/// The signature line of one argument, with a placeholder type.
pub open spec fn function_arg_shape(arg: Argument) -> Seq<ItemV> {
    if arg.is_required {
        seq![ItemV::Line(arg.name@ + ": "@ + "(type here)"@ + ","@)]
    } else {
        seq![ItemV::Line(arg.name@ + ": "@ + "Option<"@ + "(type here)"@ + ">"@ + ","@)]
    }
}

/// Emits the signature line of one argument.
pub fn generate_function_argument(arg: &Argument) -> (r: Code)
    ensures
        r.shape() =~= function_arg_shape(*arg),
{
    let line = if arg.is_required {
        crate::emit::ArgLine::required(arg.name.as_str(), "(type here)")
    } else {
        crate::emit::ArgLine::optional(arg.name.as_str(), "(type here)")
    };
    Code::new().line(line.as_str())
}

/// The signature lines of all surfaced arguments, in order.
pub open spec fn signature_args_shape(args: Seq<Argument>) -> Seq<ItemV>
    decreases args.len(),
{
    if args.len() == 0 {
        Seq::empty()
    } else {
        signature_args_shape(args.drop_last()) + (
        if omitted_arg(args.last().name@) {
            Seq::<ItemV>::empty()
        } else {
            function_arg_shape(args.last())
        })
    }
}

/// Emits the signature lines of all surfaced arguments.
pub fn generate_arguments(args: &Vec<Argument>) -> (r: Code)
    ensures
        r.shape() =~= signature_args_shape(args@),
{
    let mut acc = Code::new();
    let n = args.len();
    let mut i: usize = 0;
    while i < n
        invariant
            0 <= i <= n,
            n == args@.len(),
            acc.shape() =~= signature_args_shape(args@.take(i as int)),
        decreases n - i,
    {
        if !is_omitted_arg(args[i].name.as_str()) {
            acc = acc.merge(generate_function_argument(&args[i]));
        }
        proof {
            assert(args@.take(i + 1).drop_last() =~= args@.take(i as int));
            assert(args@.take(i + 1).last() == args@[i as int]);
        }
        i = i + 1;
    }
    assert(args@.take(n as int) =~= args@);
    acc
}

/// The line that feeds one argument into the parameter set.
pub open spec fn add_arg_shape(arg: Argument) -> Seq<ItemV> {
    seq![
        ItemV::Line(
            "params = params.add(\""@ + arg.name@ + "\", "@ + arg.name@ + ");"@,
        ),
    ]
}

/// Emits the line that feeds one argument into the parameter set.
pub fn generate_add_to_params_map(arg: &Argument) -> (r: Code)
    ensures
        r.shape() =~= add_arg_shape(*arg),
{
    let mut line = String::new();
    line.append("params = params.add(\"");
    line.append(arg.name.as_str());
    line.append("\", ");
    line.append(arg.name.as_str());
    line.append(");");
    Code::new().line(line.as_str())
}

/// The feed lines of all surfaced arguments, in order.
pub open spec fn add_args_shape(args: Seq<Argument>) -> Seq<ItemV>
    decreases args.len(),
{
    if args.len() == 0 {
        Seq::empty()
    } else {
        add_args_shape(args.drop_last()) + (
        if omitted_arg(args.last().name@) {
            Seq::<ItemV>::empty()
        } else {
            add_arg_shape(args.last())
        })
    }
}

/// The signing block: nothing when the method ignores the consumer,
/// otherwise a `sign` call passing the consumer and the token in the
/// shape their requirements call for.
pub open spec fn params_sign_shape(
    consumer: SignatureRequirement,
    token: SignatureRequirement,
) -> Seq<ItemV> {
    if consumer is Ignored {
        Seq::empty()
    } else {
        seq![
            ItemV::Line("params = params.sign("@),
            ItemV::Indent,
            ItemV::Line("\"GET\","@),
            ItemV::Line("&url,"@),
            ItemV::Line(
                if consumer is Optional {
                    "consumer_key,"@
                } else {
                    "Some(consumer_key),"@
                },
            ),
            ItemV::Line(
                match token {
                    SignatureRequirement::Ignored => "None,"@,
                    SignatureRequirement::Optional => "token,"@,
                    SignatureRequirement::Required => "Some(token),"@,
                },
            ),
            ItemV::StopIndent,
            ItemV::Line(");"@),
            ItemV::Line(""@),
        ]
    }
}

/// Emits the signing block.
pub fn generate_params_sign(consumer: SignatureRequirement, token: SignatureRequirement) -> (r:
    Code)
    ensures
        r.shape() =~= params_sign_shape(consumer, token),
{
    if consumer.is_ignored() {
        return Code::new();
    }
    let consumer_key_line = if consumer.is_optional() {
        "consumer_key,"
    } else {
        "Some(consumer_key),"
    };
    let token_key_line = match token {
        SignatureRequirement::Ignored => "None,",
        SignatureRequirement::Optional => "token,",
        SignatureRequirement::Required => "Some(token),",
    };
    Code::new().line("params = params.sign(").indent().line("\"GET\",").line("&url,").line(
        consumer_key_line,
    ).line(token_key_line).stop_indent().line(");").line("")
}

/// The parameter block: a fresh set, one feed line per surfaced
/// argument, a blank line, and the signing block.
pub open spec fn param_handling_shape(
    args: Seq<Argument>,
    consumer: SignatureRequirement,
    token: SignatureRequirement,
) -> Seq<ItemV> {
    seq![ItemV::Line("let mut params = Params::new();"@)] + add_args_shape(args) + seq![
        ItemV::Line(""@),
    ] + params_sign_shape(consumer, token)
}

/// Emits the parameter block.
pub fn generate_param_handling(
    args: &Vec<Argument>,
    consumer: SignatureRequirement,
    token: SignatureRequirement,
) -> (r: Code)
    ensures
        r.shape() =~= param_handling_shape(args@, consumer, token),
{
    let mut acc = Code::new().line("let mut params = Params::new();");
    let n = args.len();
    let mut i: usize = 0;
    while i < n
        invariant
            0 <= i <= n,
            n == args@.len(),
            acc.shape() =~= seq![ItemV::Line("let mut params = Params::new();"@)]
                + add_args_shape(args@.take(i as int)),
        decreases n - i,
    {
        if !is_omitted_arg(args[i].name.as_str()) {
            acc = acc.merge(generate_add_to_params_map(&args[i]));
        }
        proof {
            assert(args@.take(i + 1).drop_last() =~= args@.take(i as int));
            assert(args@.take(i + 1).last() == args@[i as int]);
        }
        i = i + 1;
    }
    assert(args@.take(n as int) =~= args@);
    acc.line("").merge(generate_params_sign(consumer, token))
}

/// The dispatch block: issue the request and hand the JSON body back.
pub open spec fn result_shape() -> Seq<ItemV> {
    seq![
        ItemV::Line("let body = CLIENT"@),
        ItemV::Indent,
        ItemV::Line(".get(&url)"@),
        ItemV::Line(".query(&params)"@),
        ItemV::Line(".process_as_json()"@),
        ItemV::Line(".await?;"@),
        ItemV::StopIndent,
        ItemV::Line("Ok(body)"@),
    ]
}

/// Emits the dispatch block.
pub fn generate_result() -> (r: Code)
    ensures
        r.shape() =~= result_shape(),
{
    Code::new().line("let body = CLIENT").indent().line(".get(&url)").line(".query(&params)").line(
        ".process_as_json()",
    ).line(".await?;").stop_indent().line("Ok(body)")
}

/// The argument the emitted health check passes for one parameter: a
/// required argument by name, an optional one as absent.
pub open spec fn arg_variable_shape(arg: Argument) -> Seq<ItemV> {
    if arg.is_required {
        seq![ItemV::Line(arg.name@ + ","@)]
    } else {
        seq![ItemV::Line("None,"@)]
    }
}

/// Emits the health-check argument of one parameter.
pub fn generate_arg_variable(arg: &Argument) -> (r: Code)
    ensures
        r.shape() =~= arg_variable_shape(*arg),
{
    if arg.is_required {
        let mut line = String::new();
        line.append(arg.name.as_str());
        line.append(",");
        Code::new().line(line.as_str())
    } else {
        Code::new().line("None,")
    }
}

/// The health-check arguments of all surfaced parameters, in order.
pub open spec fn arg_variables_shape(args: Seq<Argument>) -> Seq<ItemV>
    decreases args.len(),
{
    if args.len() == 0 {
        Seq::empty()
    } else {
        arg_variables_shape(args.drop_last()) + (
        if omitted_arg(args.last().name@) {
            Seq::<ItemV>::empty()
        } else {
            arg_variable_shape(args.last())
        })
    }
}

/// Emits the health-check arguments of all surfaced parameters.
pub fn generate_arg_variables(args: &Vec<Argument>) -> (r: Code)
    ensures
        r.shape() =~= arg_variables_shape(args@),
{
    let mut acc = Code::new();
    let n = args.len();
    let mut i: usize = 0;
    while i < n
        invariant
            0 <= i <= n,
            n == args@.len(),
            acc.shape() =~= arg_variables_shape(args@.take(i as int)),
        decreases n - i,
    {
        if !is_omitted_arg(args[i].name.as_str()) {
            acc = acc.merge(generate_arg_variable(&args[i]));
        }
        proof {
            assert(args@.take(i + 1).drop_last() =~= args@.take(i as int));
            assert(args@.take(i + 1).last() == args@[i as int]);
        }
        i = i + 1;
    }
    assert(args@.take(n as int) =~= args@);
    acc
}

/// The struct field one result field contributes, with a placeholder
/// type.
pub open spec fn output_field_shape(field: crate::reference::RefField) -> Seq<ItemV> {
    seq![ItemV::Line(field.name@ + ": "@ + "(type here)"@ + ","@)]
}

/// The struct fields of all result fields, in order.
pub open spec fn output_fields_shape(fields: Seq<crate::reference::RefField>) -> Seq<ItemV>
    decreases fields.len(),
{
    if fields.len() == 0 {
        Seq::empty()
    } else {
        output_fields_shape(fields.drop_last()) + output_field_shape(fields.last())
    }
}

/// Emits the fields of the response struct of one endpoint.
pub fn generate_output_struct_fields(fields: &Vec<crate::reference::RefField>) -> (r: Code)
    ensures
        r.shape() =~= output_fields_shape(fields@),
{
    let mut acc = Code::new();
    let n = fields.len();
    let mut i: usize = 0;
    while i < n
        invariant
            0 <= i <= n,
            n == fields@.len(),
            acc.shape() =~= output_fields_shape(fields@.take(i as int)),
        decreases n - i,
    {
        let mut line = String::new();
        line.append(fields[i].name.as_str());
        line.append(": ");
        line.append("(type here)");
        line.append(",");
        acc = acc.line(line.as_str());
        proof {
            assert(fields@.take(i + 1).drop_last() =~= fields@.take(i as int));
            assert(fields@.take(i + 1).last() == fields@[i as int]);
        }
        i = i + 1;
    }
    assert(fields@.take(n as int) =~= fields@);
    acc
}

/// `true` or `false`, as emitted text.
pub fn bool_code(b: bool) -> (r: &'static str)
    ensures
        r@ == if b {
            "true"@
        } else {
            "false"@
        },
{
    if b {
        "true"
    } else {
        "false"
    }
}

/// The documentation header of a stub: the method name, its
/// signature requirements, the scopes it needs, and whether it
/// demands a secure connection.
pub open spec fn doc_header_shape(docs: MethodReference) -> Seq<ItemV> {
    seq![
        ItemV::Line("/// "@ + docs.name@),
        ItemV::Line("///"@),
        ItemV::Line("/// Consumer: "@ + docs.auth_options.consumer.spec_code()),
        ItemV::Line("///"@),
        ItemV::Line("/// Token: "@ + docs.auth_options.token.spec_code()),
        ItemV::Line("///"@),
        ItemV::Line("/// Scopes: "@ + spec_scopes_value(docs.auth_options.scopes@)),
        ItemV::Line("///"@),
        ItemV::Line(
            "/// SSL: "@ + if docs.auth_options.ssl_required {
                "true"@
            } else {
                "false"@
            },
        ),
    ]
}

/// The whole stub of one endpoint, except the emitted test scaffold,
/// which is attached outside the verified core.
pub open spec fn into_code_shape(docs: MethodReference) -> Seq<ItemV> {
    imports_shape() + doc_header_shape(docs) + seq![
        ItemV::Line("pub async fn (name here) ("@),
        ItemV::Indent,
    ] + (
    if docs.auth_options.consumer is Ignored {
        Seq::<ItemV>::empty()
    } else {
        seq![
            ItemV::Line(
                crate::emit::ArgLine::requirement_shape(
                    "consumer_key"@,
                    "&ConsumerKey"@,
                    docs.auth_options.consumer,
                ),
            ),
        ]
    }) + (
    if docs.auth_options.token is Ignored {
        Seq::<ItemV>::empty()
    } else {
        seq![
            ItemV::Line(
                crate::emit::ArgLine::requirement_shape(
                    "token"@,
                    "AccessToken"@,
                    docs.auth_options.token,
                ),
            ),
        ]
    }) + signature_args_shape(docs.arguments@) + seq![
        ItemV::StopIndent,
        ItemV::Line(") -> crate::Result<Value> {"@),
        ItemV::Indent,
        ItemV::Line("let url = UsosUri::with_path(\""@ + docs.name@ + "\");"@),
    ] + param_handling_shape(
        docs.arguments@,
        docs.auth_options.consumer,
        docs.auth_options.token,
    ) + result_shape() + seq![ItemV::StopIndent, ItemV::Line("}"@), ItemV::Line(""@)]
}

/// Assembles the stub of one endpoint from its reference
/// description: imports, documentation header, signature, parameter
/// handling with signing, and dispatch.  The types the reference
/// cannot supply stay as placeholders.
#[verifier::rlimit(100)]
#[verifier::spinoff_prover]
pub fn into_code(docs: &MethodReference) -> (r: Code)
    ensures
        r.shape() =~= into_code_shape(*docs),
{
    let consumer_req = docs.auth_options.consumer;
    let token_req = docs.auth_options.token;

    let mut res = generate_imports();

    let mut name_doc = String::new();
    name_doc.append("/// ");
    name_doc.append(docs.name.as_str());
    res = res.line(name_doc.as_str()).line("///");
    let mut consumer_doc = String::new();
    consumer_doc.append("/// Consumer: ");
    consumer_doc.append(consumer_req.as_code());
    res = res.line(consumer_doc.as_str()).line("///");
    let mut token_doc = String::new();
    token_doc.append("/// Token: ");
    token_doc.append(token_req.as_code());
    res = res.line(token_doc.as_str()).line("///");
    let mut scopes_doc = String::new();
    scopes_doc.append("/// Scopes: ");
    let scopes_value = crate::scopes::Scopes::new(clone_scopes(&docs.auth_options.scopes))
        .to_param_value();
    scopes_doc.append(scopes_value.as_str());
    res = res.line(scopes_doc.as_str()).line("///");
    let mut ssl_doc = String::new();
    ssl_doc.append("/// SSL: ");
    ssl_doc.append(bool_code(docs.auth_options.ssl_required));
    res = res.line(ssl_doc.as_str());
    proof {
        assert(res.shape() =~= imports_shape() + doc_header_shape(*docs));
    }

    res = res.line("pub async fn (name here) (").indent();

    if !consumer_req.is_ignored() {
        let line = crate::emit::ArgLine::with_requirement(
            "consumer_key",
            "&ConsumerKey",
            consumer_req,
        );
        res = res.line(line.as_str());
    }
    if !token_req.is_ignored() {
        let line = crate::emit::ArgLine::with_requirement("token", "AccessToken", token_req);
        res = res.line(line.as_str());
    }

    proof {
        assert(res.shape() =~= imports_shape() + doc_header_shape(*docs) + seq![
            ItemV::Line("pub async fn (name here) ("@),
            ItemV::Indent,
        ] + (
        if docs.auth_options.consumer is Ignored {
            Seq::<ItemV>::empty()
        } else {
            seq![
                ItemV::Line(
                    crate::emit::ArgLine::requirement_shape(
                        "consumer_key"@,
                        "&ConsumerKey"@,
                        docs.auth_options.consumer,
                    ),
                ),
            ]
        }) + (
        if docs.auth_options.token is Ignored {
            Seq::<ItemV>::empty()
        } else {
            seq![
                ItemV::Line(
                    crate::emit::ArgLine::requirement_shape(
                        "token"@,
                        "AccessToken"@,
                        docs.auth_options.token,
                    ),
                ),
            ]
        }));
    }
    res = res.merge(generate_arguments(&docs.arguments)).stop_indent().line(
        ") -> crate::Result<Value> {",
    ).indent();

    let mut url_line = String::new();
    url_line.append("let url = UsosUri::with_path(\"");
    url_line.append(docs.name.as_str());
    url_line.append("\");");
    res = res.line(url_line.as_str());

    res = res.merge(generate_param_handling(&docs.arguments, consumer_req, token_req)).merge(
        generate_result(),
    ).stop_indent().line("}").line("");
    res
}

/// Copies a scope list.
fn clone_scopes(scopes: &Vec<Scope>) -> (r: Vec<Scope>)
    ensures
        r@ == scopes@,
{
    let mut out: Vec<Scope> = Vec::new();
    let n = scopes.len();
    let mut i: usize = 0;
    while i < n
        invariant
            0 <= i <= n,
            n == scopes@.len(),
            out@ =~= scopes@.take(i as int),
        decreases n - i,
    {
        out.push(scopes[i]);
        assert(scopes@.take(i + 1) =~= scopes@.take(i as int).push(scopes@[i as int]));
        i = i + 1;
    }
    assert(scopes@.take(n as int) =~= scopes@);
    out
}

} // verus!
