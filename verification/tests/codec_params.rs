use usos_core::codec::encode;
use usos_core::params::Params;

#[test]
fn encode_is_identity_on_safe_characters() {
    let safe = "ABCXYZabcxyz0123456789-._~";
    assert_eq!(encode(safe), safe);
}

#[test]
fn encode_escapes_every_other_ascii_byte() {
    assert_eq!(encode(" "), "%20");
    assert_eq!(encode("&"), "%26");
    assert_eq!(encode("="), "%3D");
    assert_eq!(encode("+"), "%2B");
    assert_eq!(encode("!"), "%21");
    assert_eq!(encode("*"), "%2A");
    assert_eq!(encode("'"), "%27");
    assert_eq!(encode("("), "%28");
    assert_eq!(encode(")"), "%29");
    assert_eq!(encode("/"), "%2F");
    assert_eq!(encode(":"), "%3A");
    assert_eq!(encode("%"), "%25");
}

#[test]
fn encode_escapes_every_utf8_byte_of_non_ascii() {
    // U+0105 is 0xC4 0x85 in UTF-8
    assert_eq!(encode("\u{105}"), "%C4%85");
}

#[test]
fn encode_mixed_input() {
    assert_eq!(encode("a b&c=d"), "a%20b%26c%3Dd");
}

#[test]
fn canonical_query_sorts_and_encodes() {
    let mut p = Params::new();
    p.insert("b", "2");
    p.insert("a", "1");
    assert_eq!(p.to_query(), "a=1&b=2");
}

#[test]
fn canonical_query_is_insertion_order_invariant() {
    let mut p = Params::new();
    p.insert("oauth_version", "1.0");
    p.insert("scopes", "studies|email");
    p.insert("oauth_callback", "oob");

    let mut q = Params::new();
    q.insert("oauth_callback", "oob");
    q.insert("oauth_version", "1.0");
    q.insert("scopes", "studies|email");

    assert_eq!(p.to_query(), q.to_query());
    assert_eq!(p.to_query(), "oauth_callback=oob&oauth_version=1.0&scopes=studies%7Cemail");
}

#[test]
fn canonical_query_sorts_by_encoded_token_bytes() {
    // "a!" encodes to "a%21"; '%' sorts before '=', so the encoded
    // token of "a!" precedes the token of the shorter key "a"
    let mut p = Params::new();
    p.insert("a", "x");
    p.insert("a!", "y");
    assert_eq!(p.to_query(), "a%21=y&a=x");
}

#[test]
fn insert_replaces_equal_key() {
    let mut p = Params::new();
    p.insert("a", "1");
    p.insert("a", "2");
    assert_eq!(p.len(), 1);
    assert_eq!(p.get("a"), Some(&b"2".to_vec()));
    assert_eq!(p.get("b"), None);
}

#[test]
fn builder_style_add_collects_parameters() {
    let p = Params::new().add("fields", "name|short_name").add("name", "services/apiref/method");
    assert_eq!(p.len(), 2);
    assert!(!p.is_empty());
    assert_eq!(p.get("fields"), Some(&b"name|short_name".to_vec()));
    assert_eq!(
        p.to_query(),
        "fields=name%7Cshort_name&name=services%2Fapiref%2Fmethod"
    );
}

#[test]
fn empty_params_yield_empty_query() {
    let p = Params::new();
    assert!(p.is_empty());
    assert_eq!(p.to_query(), "");
}
