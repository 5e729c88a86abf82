use usos_core::auth::{
    access_token_payload, authorize_url, exchange_token, parse_access_token_response,
    parse_request_token_response, request_token_payload,
};
use usos_core::client::resolve_response;
use usos_core::errors::AppError;
use usos_core::keys::expose_secret;
use usos_core::scopes::{Scope, Scopes};

#[test]
fn acquire_request_token_is_successful() {
    // network stub: the request-token endpoint answers with all
    // three expected keys
    let body = "oauth_token=T1&oauth_token_secret=S1&oauth_callback_confirmed=true";
    let token = parse_request_token_response(body).unwrap();
    assert_eq!(token.token, "T1");
    assert_eq!(expose_secret(&token.secret), "S1");
}

#[test]
fn acquire_request_token_invalid_consumer_key() {
    // a corrupted consumer key fails the remote signature check: the
    // server answers 401 and the client surfaces a remote API error
    let outcome = resolve_response(401, None);
    match outcome.unwrap_err() {
        AppError::Http { code, message } => {
            assert_eq!(code, 401);
            assert!(message.is_none());
        },
        other => panic!("expected a remote API error, got {:?}", std::mem::discriminant(&other)),
    }
}

#[test]
fn malformed_token_response_is_a_parse_error() {
    let res = parse_request_token_response("oauth_token=T1");
    assert!(matches!(res.unwrap_err(), AppError::Parse { .. }));

    let res = parse_request_token_response("oauth_token=T1&oauth_token_secret=S1");
    assert!(matches!(res.unwrap_err(), AppError::Parse { .. }));

    let res = parse_request_token_response("oauth_token==T1");
    assert!(matches!(res.unwrap_err(), AppError::Parse { .. }));
}

#[test]
fn malformed_token_response_diagnostics_name_the_missing_key() {
    match parse_request_token_response("oauth_token_secret=S1&oauth_callback_confirmed=true")
        .unwrap_err()
    {
        AppError::Parse { detail } => {
            assert_eq!(detail, "missing expected response key: oauth_token")
        },
        _ => panic!("expected a protocol-format error"),
    }
    match parse_request_token_response("oauth_token=T1&oauth_callback_confirmed=true").unwrap_err()
    {
        AppError::Parse { detail } => {
            assert_eq!(detail, "missing expected response key: oauth_token_secret")
        },
        _ => panic!("expected a protocol-format error"),
    }
    match parse_request_token_response("oauth_token=T1&oauth_token_secret=S1").unwrap_err() {
        AppError::Parse { detail } => {
            assert_eq!(detail, "missing expected response key: oauth_callback_confirmed")
        },
        _ => panic!("expected a protocol-format error"),
    }
    match parse_access_token_response("oauth_token=T1").unwrap_err() {
        AppError::Parse { detail } => {
            assert_eq!(detail, "missing expected response key: oauth_token_secret")
        },
        _ => panic!("expected a protocol-format error"),
    }
    match parse_request_token_response(
        "oauth_token=T\u{e4}&oauth_token_secret=S1&oauth_callback_confirmed=true",
    )
    .unwrap_err()
    {
        AppError::Parse { detail } => {
            assert_eq!(detail, "response value is not plain ASCII: oauth_token")
        },
        _ => panic!("expected a protocol-format error"),
    }
}

#[test]
fn oauth_flow_no_callback_provided() {
    // request-token step
    let payload = request_token_payload(None, &Scopes::new(vec![Scope::Studies]));
    assert_eq!(payload.get("oauth_callback"), Some(&b"oob".to_vec()));
    assert_eq!(payload.get("scopes"), Some(&b"studies".to_vec()));

    let request_token =
        parse_request_token_response("oauth_token=R1&oauth_token_secret=RS1&oauth_callback_confirmed=true")
            .unwrap();
    assert_eq!(
        authorize_url("https://apps.example.net/", &request_token),
        "https://apps.example.net/services/oauth/authorize?oauth_token=R1"
    );

    // the user authorizes out of band and supplies a verifier
    let verifier_payload = access_token_payload("314159");
    assert_eq!(verifier_payload.get("oauth_verifier"), Some(&b"314159".to_vec()));

    // the request token signs the exchange and is consumed by it
    let signing_token = exchange_token(request_token);
    assert_eq!(signing_token.token, "R1");

    // access-token step: the final token comes from the second
    // response, not the first
    let access =
        parse_access_token_response("oauth_token=A2&oauth_token_secret=AS2").unwrap();
    assert_eq!(access.token, "A2");
    assert_eq!(expose_secret(&access.secret), "AS2");
}

#[test]
fn callback_url_is_passed_through() {
    let payload = request_token_payload(
        Some("https://app.example.net/back".to_string()),
        &Scopes::new(vec![]),
    );
    assert_eq!(
        payload.get("oauth_callback"),
        Some(&b"https://app.example.net/back".to_vec())
    );
    assert_eq!(payload.get("scopes"), Some(&b"".to_vec()));
}
