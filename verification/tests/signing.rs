use usos_core::auth::AccessToken;
use usos_core::keys::{ConsumerKey, secret_string_new};
use usos_core::oauth1::authorize_with_nonce;
use usos_core::params::Params;
use usos_core::sign::gen_signature;
use usos_core::oauth1::authorize;

#[test]
fn gen_signature_is_deterministic() {
    let a = gen_signature("POST", "https://example.net/services/x", "a=1&b=2", "secret", None);
    let b = gen_signature("POST", "https://example.net/services/x", "a=1&b=2", "secret", None);
    assert_eq!(a, b);
}

#[test]
fn gen_signature_changes_with_every_input() {
    let base = gen_signature("POST", "https://example.net/x", "a=1", "secret", None);
    assert_ne!(
        base,
        gen_signature("GET", "https://example.net/x", "a=1", "secret", None)
    );
    assert_ne!(
        base,
        gen_signature("POST", "https://example.net/y", "a=1", "secret", None)
    );
    assert_ne!(
        base,
        gen_signature("POST", "https://example.net/x", "a=2", "secret", None)
    );
    assert_ne!(
        base,
        gen_signature("POST", "https://example.net/x", "a=1", "tercet", None)
    );
    assert_ne!(
        base,
        gen_signature("POST", "https://example.net/x", "a=1", "secret", Some("t"))
    );
}

#[test]
fn gen_signature_matches_the_protocol_example() {
    // The worked HMAC-SHA1 example of the OAuth 1.0 specification.
    let query = "file=vacation.jpg&oauth_consumer_key=dpf43f3p2l4k3l03&oauth_nonce=kllo9940pd9333jh&oauth_signature_method=HMAC-SHA1&oauth_timestamp=1191242096&oauth_token=nnch734d00sl2jdk&oauth_version=1.0&size=original";
    let signature = gen_signature(
        "GET",
        "http://photos.example.net/photos",
        query,
        "kd94hf93k423kf44",
        Some("pfkkdhi9sl3r4s00"),
    );
    assert_eq!(signature, "tR3+Ty81lMeYAr/Fid0kMTYa/WM=");
}

#[test]
fn authorize_with_nonce_reproduces_the_protocol_example() {
    let consumer = ConsumerKey::new(
        "dpf43f3p2l4k3l03".to_string(),
        secret_string_new("kd94hf93k423kf44".to_string()),
        None,
    );
    let token = AccessToken::new(
        "nnch734d00sl2jdk".to_string(),
        secret_string_new("pfkkdhi9sl3r4s00".to_string()),
    );
    let mut params = Params::new();
    params.insert("file", "vacation.jpg");
    params.insert("size", "original");

    let signed = authorize_with_nonce(
        "GET",
        "http://photos.example.net/photos",
        &consumer,
        Some(&token),
        params,
        "kllo9940pd9333jh",
        1191242096,
    );

    assert_eq!(
        signed.get("oauth_signature"),
        Some(&b"tR3+Ty81lMeYAr/Fid0kMTYa/WM=".to_vec())
    );
    assert_eq!(signed.get("oauth_consumer_key"), Some(&b"dpf43f3p2l4k3l03".to_vec()));
    assert_eq!(signed.get("oauth_token"), Some(&b"nnch734d00sl2jdk".to_vec()));
    assert_eq!(signed.get("oauth_timestamp"), Some(&b"1191242096".to_vec()));
    assert_eq!(signed.get("oauth_version"), Some(&b"1.0".to_vec()));
    assert_eq!(signed.get("oauth_signature_method"), Some(&b"HMAC-SHA1".to_vec()));
    assert_eq!(signed.get("file"), Some(&b"vacation.jpg".to_vec()));
    assert_eq!(signed.get("size"), Some(&b"original".to_vec()));
}

#[test]
fn authorize_adds_fresh_nonce_and_signature() {
    let consumer = ConsumerKey::new(
        "key".to_string(),
        secret_string_new("secret".to_string()),
        None,
    );
    let signed = authorize("POST", "https://example.net/x", &consumer, None, Params::new());
    let nonce = signed.get("oauth_nonce").unwrap().clone();
    assert_eq!(nonce.len(), 32);
    assert!(nonce.iter().all(|b| b.is_ascii_alphanumeric()));
    assert!(signed.get("oauth_signature").is_some());
    assert!(signed.get("oauth_token").is_none());

    let signed2 = authorize("POST", "https://example.net/x", &consumer, None, Params::new());
    assert_ne!(signed2.get("oauth_nonce").unwrap(), &nonce);
}
