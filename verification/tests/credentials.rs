use usos_core::api_errors::UsosError;
use usos_core::errors::AppError;
use usos_core::keys::{
    ConsumerKey, RegistrationForm, RegistrationResponse, RevokeForm, expose_secret,
    registration_outcome, registration_succeeded, revocation_outcome, secret_string_new,
};

#[test]
fn consumer_key_from_env_values_succeeds_when_required_values_exist() {
    let ck = ConsumerKey::from_env_values(
        Some("key123".to_string()),
        Some("secret456".to_string()),
        Some("dev@example.net".to_string()),
    )
    .unwrap();
    assert_eq!(ck.key, "key123");
    assert_eq!(expose_secret(&ck.secret), "secret456");
    assert_eq!(ck.owner.as_deref(), Some("dev@example.net"));
}

#[test]
fn consumer_key_from_env_values_reports_the_missing_variable() {
    match ConsumerKey::from_env_values(None, Some("s".to_string()), None).unwrap_err() {
        AppError::Configuration { variable } => assert_eq!(variable, "USOS_CONSUMER_KEY"),
        _ => panic!("expected a configuration error"),
    }
    match ConsumerKey::from_env_values(Some("k".to_string()), None, None).unwrap_err() {
        AppError::Configuration { variable } => assert_eq!(variable, "USOS_CONSUMER_SECRET"),
        _ => panic!("expected a configuration error"),
    }
}

#[test]
fn export_env_lines_renders_the_key_file() {
    let ck = ConsumerKey::new(
        "k1".to_string(),
        secret_string_new("s1".to_string()),
        Some("o@e.pl".to_string()),
    );
    assert_eq!(
        ck.export_env_lines(),
        "USOS_CONSUMER_KEY=k1\nUSOS_CONSUMER_SECRET=s1\nUSOS_CONSUMER_EMAIL=o@e.pl\n"
    );

    let bare = ConsumerKey::new("k1".to_string(), secret_string_new("s1".to_string()), None);
    assert_eq!(
        bare.export_env_lines(),
        "USOS_CONSUMER_KEY=k1\nUSOS_CONSUMER_SECRET=s1\nUSOS_CONSUMER_EMAIL=\n"
    );
}

#[test]
fn secret_strings_do_not_leak_through_debug() {
    let ck = ConsumerKey::new("k1".to_string(), secret_string_new("s3cr3t".to_string()), None);
    let shown = format!("{ck:?}");
    assert!(!shown.contains("s3cr3t"));
    assert_eq!(expose_secret(&ck.secret), "s3cr3t");
}

#[test]
fn registration_forms_hold_their_fields() {
    let form = RegistrationForm::new(
        "my app".to_string(),
        Some("https://app.example.net".to_string()),
        "dev@example.net".to_string(),
    );
    assert_eq!(form.app_name, "my app");
    assert_eq!(form.website_url.as_deref(), Some("https://app.example.net"));
    assert_eq!(form.email, "dev@example.net");

    let revoke = RevokeForm::new("k".to_string(), "s".to_string());
    assert_eq!(revoke.consumer_key, "k");
    assert_eq!(revoke.consumer_secret, "s");

    assert!(registration_succeeded("success"));
    assert!(!registration_succeeded("error"));
    assert!(!registration_succeeded(""));
}

#[test]
fn registration_outcome_builds_the_consumer_key() {
    let response = RegistrationResponse::new(
        "success".to_string(),
        "issued_key".to_string(),
        "issued_secret".to_string(),
    );
    let ck = registration_outcome(200, Some(response), "dev@example.net").unwrap();
    assert_eq!(ck.key, "issued_key");
    assert_eq!(expose_secret(&ck.secret), "issued_secret");
    assert_eq!(ck.owner.as_deref(), Some("dev@example.net"));
}

#[test]
fn registration_outcome_rejects_each_failure() {
    let good = || RegistrationResponse::new(
        "success".to_string(),
        "k".to_string(),
        "s".to_string(),
    );

    match registration_outcome(500, Some(good()), "d@e.pl").unwrap_err() {
        AppError::Unexpected { detail } => {
            assert_eq!(detail, "consumer key registration was refused by the service")
        },
        _ => panic!("an error status is a remote rejection"),
    }
    match registration_outcome(200, None, "d@e.pl").unwrap_err() {
        AppError::Unexpected { detail } => {
            assert_eq!(detail, "consumer key registration answer did not decode")
        },
        _ => panic!("an undecodable answer fails"),
    }
    let bad_status = RegistrationResponse::new(
        "error".to_string(),
        "k".to_string(),
        "s".to_string(),
    );
    match registration_outcome(200, Some(bad_status), "d@e.pl").unwrap_err() {
        AppError::Unexpected { detail } => {
            assert_eq!(detail, "consumer key registration status was not success")
        },
        _ => panic!("a non-success status fails"),
    }
}

#[test]
fn revocation_outcome_follows_the_status() {
    assert!(revocation_outcome(200, None).is_ok());

    let envelope = UsosError::new("no such key".to_string(), None, None, None);
    match revocation_outcome(400, Some(envelope)).unwrap_err() {
        AppError::Http { code, message } => {
            assert_eq!(code, 400);
            assert_eq!(message.unwrap().message(), "no such key");
        },
        _ => panic!("a client error carries the envelope"),
    }

    let envelope = UsosError::new("down".to_string(), None, None, None);
    match revocation_outcome(502, Some(envelope)).unwrap_err() {
        AppError::Http { code, message } => {
            assert_eq!(code, 502);
            assert_eq!(message.unwrap().message(), "down");
        },
        _ => panic!("a server error carries the envelope too"),
    }
}
