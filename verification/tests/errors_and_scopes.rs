use usos_core::api_errors::{ErrorKind, Reason, UsosError, UsosErrorKind};
use usos_core::client::{ResponseDirective, resolve_response};
use usos_core::errors::AppError;
use usos_core::scopes::{Scope, Scopes};
use usos_core::user_messages::{Language, LanguageDictionary, UserMessages};
use usos_core::cli::{PromptStep, prompt_message};
use usos_core::module_system::ModuleItem;
use usos_core::client::error_envelope_or_raw;

#[test]
fn error_kind_codes_round_trip() {
    assert!(matches!(ErrorKind::from_code("param_missing"), Some(ErrorKind::ParamMissing)));
    assert!(matches!(ErrorKind::from_code("method_forbidden"), Some(ErrorKind::MethodForbidden)));
    assert!(matches!(ErrorKind::from_code("object_forbidden"), Some(ErrorKind::ObjectForbidden)));
    assert!(ErrorKind::from_code("no_such_kind").is_none());
    assert!(ErrorKind::from_code("").is_none());
}

#[test]
fn reason_codes_keep_unknown_codes_verbatim() {
    assert!(matches!(Reason::from_code("consumer_missing"), Reason::ConsumerMissing));
    assert!(matches!(Reason::from_code("scope_missing"), Reason::ScopeMissing));
    match Reason::from_code("spam_prevention_lock") {
        Reason::Custom(s) => assert_eq!(s, "spam_prevention_lock"),
        _ => panic!("unknown codes must stay verbatim"),
    }
}

#[test]
fn error_example_1() {
    let error = UsosError::new(
        "Access denied - spam prevention lock.".to_string(),
        None,
        Some(UserMessages::new(
            Some(LanguageDictionary::new(
                Some("W przeciagu ostatniej godziny wyslales ponad 100 wiadomosci.".to_string()),
                Some("You have sent over a 100 messages in the last hour.".to_string()),
            )),
            vec![],
        )),
        None,
    );
    assert_eq!(error.message(), "Access denied - spam prevention lock.");
    assert!(error.kind().is_none());
    let messages = error.user_messages.as_ref().unwrap();
    let generic = messages.generic_message().as_ref().unwrap();
    assert_eq!(
        generic.english(),
        "You have sent over a 100 messages in the last hour."
    );
}

#[test]
fn error_example_2() {
    let error = UsosError::new(
        "Required parameter fac_id is missing.".to_string(),
        Some(UsosErrorKind::ParamMissing { param_name: "fac_id".to_string() }),
        Some(UserMessages::new(
            None,
            vec![(
                "fac_id".to_string(),
                LanguageDictionary::new(
                    Some("To pole jest wymagane.".to_string()),
                    Some("This field is required.".to_string()),
                ),
            )],
        )),
        None,
    );
    assert_eq!(error.message(), "Required parameter fac_id is missing.");
    match error.kind().as_ref().unwrap() {
        UsosErrorKind::ParamMissing { param_name } => assert_eq!(param_name, "fac_id"),
        _ => panic!("wrong kind"),
    }
    let fields = error.user_messages.as_ref().unwrap().fields();
    assert_eq!(fields.len(), 1);
    assert_eq!(fields[0].0, "fac_id");
    assert_eq!(fields[0].1.get(Language::Polish), "To pole jest wymagane.");
    assert_eq!(fields[0].1.polish(), "To pole jest wymagane.");
    assert_eq!(fields[0].1.english(), "This field is required.");
    assert_eq!(
        error.user_messages.as_ref().unwrap().describe(),
        "Field errors:\n\t'fac_id': This field is required."
    );
}

#[test]
fn app_error_constructors_and_extraction() {
    let usos = UsosError::new("boom".to_string(), None, None, None);
    let err = AppError::http(400, Some(usos));
    match &err {
        AppError::Http { code, message } => {
            assert_eq!(*code, 400);
            assert!(message.is_some());
        },
        _ => panic!("http() must build the remote-error variant"),
    }
    assert_eq!(err.usos_error().unwrap().message(), "boom");

    let parse = AppError::parse("bad body".to_string());
    assert!(matches!(&parse, AppError::Parse { detail } if detail == "bad body"));
    assert!(parse.usos_error().is_none());
}

#[test]
fn status_classification_matches_the_protocol() {
    assert!(matches!(ResponseDirective::of_status(200), ResponseDirective::Succeed));
    assert!(matches!(ResponseDirective::of_status(302), ResponseDirective::Redirect));
    assert!(matches!(ResponseDirective::of_status(101), ResponseDirective::Informational));
    assert!(matches!(ResponseDirective::of_status(404), ResponseDirective::NotFound));
    assert!(matches!(ResponseDirective::of_status(401), ResponseDirective::Unauthorized));
    assert!(matches!(ResponseDirective::of_status(422), ResponseDirective::ClientError));
    assert!(matches!(ResponseDirective::of_status(500), ResponseDirective::ServerError));

    assert!(ResponseDirective::wants_error_body(400));
    assert!(ResponseDirective::wants_error_body(422));
    assert!(ResponseDirective::wants_error_body(500));
    assert!(ResponseDirective::wants_error_body(599));
    assert!(!ResponseDirective::wants_error_body(404));
    assert!(!ResponseDirective::wants_error_body(401));
    assert!(!ResponseDirective::wants_error_body(200));
    assert!(!ResponseDirective::wants_error_body(302));
}

#[test]
fn response_resolution_matches_the_protocol() {
    assert!(resolve_response(200, None).is_ok());
    assert!(resolve_response(302, None).is_ok());

    assert!(matches!(
        resolve_response(101, None).unwrap_err(),
        AppError::Unexpected { .. }
    ));
    assert!(matches!(
        resolve_response(404, None).unwrap_err(),
        AppError::Http { code: 404, message: None }
    ));
    assert!(matches!(
        resolve_response(500, None).unwrap_err(),
        AppError::Http { code: 500, message: None }
    ));

    let usos = UsosError::new("bad params".to_string(), None, None, None);
    match resolve_response(422, Some(usos)).unwrap_err() {
        AppError::Http { code, message } => {
            assert_eq!(code, 422);
            assert_eq!(message.unwrap().message(), "bad params");
        },
        _ => panic!("client errors must carry the structured body"),
    }

    // server errors carry the structured envelope just like other
    // client errors
    let usos = UsosError::new("backend down".to_string(), None, None, None);
    match resolve_response(503, Some(usos)).unwrap_err() {
        AppError::Http { code, message } => {
            assert_eq!(code, 503);
            assert_eq!(message.unwrap().message(), "backend down");
        },
        _ => panic!("server errors must carry the structured body"),
    }
}

#[test]
fn unparseable_error_bodies_fall_back_to_the_raw_body() {
    let fallback = error_envelope_or_raw("<html>oops</html>".to_string(), None);
    assert_eq!(fallback.message(), "<html>oops</html>");
    assert!(fallback.kind().is_none());

    let decoded = UsosError::new("structured".to_string(), None, None, None);
    let kept = error_envelope_or_raw("ignored".to_string(), Some(decoded));
    assert_eq!(kept.message(), "structured");
}

#[test]
fn error_descriptions_render_exactly() {
    assert_eq!(
        UsosErrorKind::ParamMissing { param_name: "fac_id".to_string() }.describe(),
        "Parameter is missing: 'fac_id'"
    );
    assert_eq!(
        UsosErrorKind::MethodForbidden { reason: Reason::SecureRequired }.describe(),
        "Method is forbidden - secure connection (SSL) is required"
    );
    assert_eq!(
        UsosErrorKind::FieldNotFound {
            field_name: "name".to_string(),
            method_name: "services/apiref/method".to_string(),
        }
        .describe(),
        "Field not found: 'name' Method: 'services/apiref/method'"
    );
    assert_eq!(Reason::from_code("spam_lock").describe(), "spam_lock");

    let error = UsosError::new(
        "Access denied.".to_string(),
        Some(UsosErrorKind::MethodForbidden { reason: Reason::ScopeMissing }),
        None,
        Some(vec![Scope::Studies, Scope::Email]),
    );
    assert_eq!(
        error.describe(),
        "Access denied.\nKind: Method is forbidden - access token does not contain some of the required scopes\nMissing scopes: 'studies', 'email'"
    );
}

#[test]
fn prompt_decisions_follow_the_answer() {
    assert!(matches!(PromptStep::of_answers(vec![]), PromptStep::Retry));
    match PromptStep::of_answers(vec![ModuleItem::module("services/fac")]) {
        PromptStep::Descend { module } => assert_eq!(module, "services/fac"),
        _ => panic!("a single module must be descended into"),
    }
    match PromptStep::of_answers(vec![ModuleItem::endpoint("services/fac/search")]) {
        PromptStep::Done(items) => assert_eq!(items.len(), 1),
        _ => panic!("a single endpoint ends the dialogue"),
    }
    match PromptStep::of_answers(vec![
        ModuleItem::module("services/fac"),
        ModuleItem::endpoint("services/fac/search"),
    ]) {
        PromptStep::Done(items) => assert_eq!(items.len(), 2),
        _ => panic!("several answers end the dialogue"),
    }

    assert_eq!(prompt_message(false, true), "The answer is empty - try again: ");
    assert_eq!(
        prompt_message(true, false),
        "One module chosen - select individual submodules/endpoints: "
    );
    assert_eq!(prompt_message(false, false), "Select modules/endpoints: ");
}

#[test]
fn scope_codes_round_trip() {
    assert_eq!(Scope::Studies.as_code(), "studies");
    assert_eq!(Scope::AdministrativeDocuments.as_code(), "adm_documents");
    assert_eq!(Scope::ThesesProtocolsEdit.as_code(), "theses_protocols_write");
    assert!(matches!(Scope::from_code("studies"), Some(Scope::Studies)));
    assert!(matches!(Scope::from_code("cards"), Some(Scope::Cards)));
    assert!(Scope::from_code("everything").is_none());

    for scope in [Scope::Email, Scope::Grades, Scope::OfflineAccess, Scope::Photo] {
        assert!(matches!(Scope::from_code(scope.as_code()), Some(s) if s.as_code() == scope.as_code()));
    }
}

#[test]
fn scopes_join_with_pipes() {
    assert_eq!(Scopes::new(vec![]).to_param_value(), "");
    assert_eq!(Scopes::new(vec![Scope::Studies]).to_param_value(), "studies");
    assert_eq!(
        Scopes::new(vec![Scope::Studies, Scope::Email, Scope::Grades]).to_param_value(),
        "studies|email|grades"
    );
}
