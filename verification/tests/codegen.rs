use usos_core::code::{Code, CodegenItem};
use usos_core::emit::{ArgLine, SignatureRequirement, option};
use usos_core::module_system::{ModuleItem, ModuleItemKind, ModuleItems, ModuleItemsRaw};
use usos_core::paths::{OutputDirectory, UsosUri};

#[test]
fn generation_code_struct_to_code_gives_coorect_result() {
    let mut code = Code::new();
    code.extend(vec![
        CodegenItem::line("fn foo() -> i32 {"),
        CodegenItem::Indent,
        CodegenItem::line("5"),
        CodegenItem::StopIndent,
        CodegenItem::line("}"),
    ]);

    assert_eq!(code.to_code_string(), "fn foo() -> i32 {\n\t5\n}\n");
}

#[test]
fn generation_code_struct_high_level_api_gives_correct_result() {
    let code = Code::new()
        .line("fn foo() -> i32 {")
        .indent()
        .line("5")
        .stop_indent()
        .line("}");

    assert_eq!(code.to_code_string(), "fn foo() -> i32 {\n\t5\n}\n");
}

#[test]
fn generation_code_struct_nested_gives_correct_result() {
    let struct_code = Code::new()
        .line("struct Foo {")
        .indent()
        .line("first: String,")
        .line("second: i32,")
        .stop_indent()
        .line("}");

    let code = Code::new()
        .line("fn foo() {")
        .indent()
        .merge(struct_code)
        .stop_indent()
        .line("}");

    assert_eq!(
        code.to_code_string(),
        "fn foo() {\n\tstruct Foo {\n\t\tfirst: String,\n\t\tsecond: i32,\n\t}\n}\n"
    )
}

#[test]
fn code_code_struct_to_code_gives_coorect_result() {
    let mut code = Code::new();
    code.extend(vec![
        CodegenItem::line("fn foo() -> i32 {"),
        CodegenItem::Indent,
        CodegenItem::line("5"),
        CodegenItem::StopIndent,
        CodegenItem::line("}"),
    ]);

    assert_eq!(code.to_code_string(), "fn foo() -> i32 {\n\t5\n}\n");
}

#[test]
fn code_code_struct_high_level_api_gives_correct_result() {
    let code = Code::new()
        .line("fn foo() -> i32 {")
        .indent()
        .line("5")
        .stop_indent()
        .line("}");

    assert_eq!(code.to_code_string(), "fn foo() -> i32 {\n\t5\n}\n");
}

#[test]
fn code_code_struct_nested_gives_correct_result() {
    let struct_code = Code::new()
        .line("struct Foo {")
        .indent()
        .line("first: String,")
        .line("second: i32,")
        .stop_indent()
        .line("}");

    let code = Code::new()
        .line("fn foo() {")
        .indent()
        .merge(struct_code)
        .stop_indent()
        .line("}");

    assert_eq!(
        code.to_code_string(),
        "fn foo() {\n\tstruct Foo {\n\t\tfirst: String,\n\t\tsecond: i32,\n\t}\n}\n"
    )
}

#[test]
fn arg_lines_render_exactly() {
    assert_eq!(option("u32"), "Option<u32>");
    assert_eq!(ArgLine::required("fac_id", "String"), "fac_id: String,");
    assert_eq!(ArgLine::optional("fac_id", "String"), "fac_id: Option<String>,");
    assert_eq!(
        ArgLine::with_requirement("token", "AccessToken", SignatureRequirement::Ignored),
        ""
    );
    assert_eq!(
        ArgLine::with_requirement("token", "AccessToken", SignatureRequirement::Optional),
        "token: Option<AccessToken>,"
    );
    assert_eq!(
        ArgLine::with_requirement("token", "AccessToken", SignatureRequirement::Required),
        "token: AccessToken,"
    );
}

#[test]
fn output_paths_render_exactly() {
    assert_eq!(OutputDirectory::base(), "result");
    assert_eq!(
        OutputDirectory::file_from_endpoint_path("services/apiref"),
        "result/services/apiref.rs"
    );
    assert_eq!(
        OutputDirectory::dir_from_endpoint_path("services/apiref"),
        "result/services/apiref"
    );
    assert_eq!(OutputDirectory::module_file("services"), "result/services.rs");
    assert_eq!(OutputDirectory::module_dir("services"), "result/services");
    assert_eq!(
        UsosUri::with_path("services/apiref/method"),
        "https://apps.usos.pwr.edu.pl/services/apiref/method"
    );
}

#[test]
fn module_items_from_raw_keeps_order() {
    let raw = ModuleItemsRaw {
        submodules: vec!["services/apiref".to_string(), "services/fac".to_string()],
        methods: vec!["services/apiref/method".to_string()],
    };
    let items = ModuleItems::from_raw(raw).into_inner();
    assert_eq!(items.len(), 3);
    assert!(items[0].kind == ModuleItemKind::Module);
    assert_eq!(items[0].api_path, "services/apiref");
    assert!(items[1].kind == ModuleItemKind::Module);
    assert_eq!(items[1].api_path, "services/fac");
    assert!(items[2].kind == ModuleItemKind::Endpoint);
    assert_eq!(items[2].api_path, "services/apiref/method");

    let endpoint = ModuleItem::endpoint("services/apisrv/now");
    assert!(endpoint.kind == ModuleItemKind::Endpoint);
    assert_eq!(endpoint.kind.as_code(), "Endpoint");
    let module = ModuleItem::module("services/apisrv");
    assert_eq!(module.kind.as_code(), "Module");
}
