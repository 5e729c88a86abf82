use usos_core::code::Code;
use usos_core::emit::SignatureRequirement;
use usos_core::endpoint::{generate_arguments, generate_param_handling, generate_params_sign, into_code};
use usos_core::reference::{Argument, AuthRequirements, MethodReference};
use usos_core::scopes::Scope;

fn argument(name: &str, required: bool) -> Argument {
    Argument {
        name: name.to_string(),
        is_required: required,
        is_deprecated: false,
        default_value: None,
        description: String::new(),
    }
}

fn sample_reference() -> MethodReference {
    MethodReference {
        name: "services/apisrv/now".to_string(),
        short_name: "now".to_string(),
        description: String::new(),
        brief_description: "Current server time".to_string(),
        ref_url: String::new(),
        auth_options: AuthRequirements {
            consumer: SignatureRequirement::Required,
            token: SignatureRequirement::Optional,
            administrative_only: false,
            ssl_required: false,
            scopes: vec![Scope::Studies],
        },
        arguments: vec![argument("fac_id", true), argument("format", true), argument("lang", false)],
        returns: String::new(),
        errors: String::new(),
        result_fields: vec![],
        beta: false,
        deprecated: None,
        admin_access: None,
        is_internal: false,
    }
}

#[test]
fn emitted_stub_renders_exactly() {
    let code = into_code(&sample_reference());
    assert!(code.is_balanced());
    let rendered = code.to_code_string();
    let expected = "use crate::{\n\tapi::{params::Params, util::{Process, Selector}},\n\tclient::{UsosUri, CLIENT},\n\tkeys::ConsumerKey,\n};\nuse serde_json::Value;\n\n/// services/apisrv/now\n///\n/// Consumer: required\n///\n/// Token: optional\n///\n/// Scopes: studies\n///\n/// SSL: false\npub async fn (name here) (\n\tconsumer_key: &ConsumerKey,\n\ttoken: Option<AccessToken>,\n\tfac_id: (type here),\n\tlang: Option<(type here)>,\n) -> crate::Result<Value> {\n\tlet url = UsosUri::with_path(\"services/apisrv/now\");\n\tlet mut params = Params::new();\n\tparams = params.add(\"fac_id\", fac_id);\n\tparams = params.add(\"lang\", lang);\n\t\n\tparams = params.sign(\n\t\t\"GET\",\n\t\t&url,\n\t\tSome(consumer_key),\n\t\ttoken,\n\t);\n\t\n\tlet body = CLIENT\n\t\t.get(&url)\n\t\t.query(&params)\n\t\t.process_as_json()\n\t\t.await?;\n\tOk(body)\n}\n\n";
    assert_eq!(rendered, expected);
}

#[test]
fn emission_skips_fixed_arguments() {
    let args = vec![argument("format", true), argument("callback", false), argument("q", true)];
    let code = generate_arguments(&args);
    assert_eq!(code.to_code_string(), "q: (type here),\n");
}

#[test]
fn signing_block_matches_the_requirements() {
    let ignored = generate_params_sign(SignatureRequirement::Ignored, SignatureRequirement::Ignored);
    assert_eq!(ignored.to_code_string(), "");

    let block = generate_params_sign(SignatureRequirement::Optional, SignatureRequirement::Required);
    assert_eq!(
        block.to_code_string(),
        "params = params.sign(\n\t\"GET\",\n\t&url,\n\tconsumer_key,\n\tSome(token),\n);\n\n"
    );
}

#[test]
fn param_handling_collects_surfaced_arguments() {
    let args = vec![argument("q", true)];
    let code: Code = generate_param_handling(
        &args,
        SignatureRequirement::Ignored,
        SignatureRequirement::Ignored,
    );
    assert_eq!(
        code.to_code_string(),
        "let mut params = Params::new();\nparams = params.add(\"q\", q);\n\n"
    );
}
