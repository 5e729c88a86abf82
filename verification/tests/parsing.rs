use usos_core::errors::AppError;
use usos_core::util::parse_ampersand_params;

fn expect_pairs(text: &str, expected: &[(&str, &str)]) {
    let map = parse_ampersand_params(text).unwrap();
    assert_eq!(map.len(), expected.len());
    for (k, v) in expected {
        assert_eq!(map.get(k), Some(&v.as_bytes().to_vec()));
    }
}

#[test]
fn parse_ampersand_separated_params_is_successful() {
    expect_pairs("", &[]);
    expect_pairs("a=b", &[("a", "b")]);
    expect_pairs("abc123=abc123", &[("abc123", "abc123")]);
    expect_pairs("a=b&c=d", &[("a", "b"), ("c", "d")]);
    expect_pairs("a=b&a=c", &[("a", "c")]);
    expect_pairs("a=b&", &[("a", "b")]);
    expect_pairs("&a=b", &[("a", "b")]);
    expect_pairs("&a=b&c=d&", &[("a", "b"), ("c", "d")]);
    expect_pairs("a=b&&c=d", &[("a", "b"), ("c", "d")]);
    expect_pairs("a=", &[("a", "")]);
}

#[test]
fn parse_ampersand_separated_params_fails() {
    for text in ["a==b", "a=b=c&b=c", "=b", "abc"] {
        let res = parse_ampersand_params(text);
        assert!(res.is_err(), "{text:?} should be rejected");
        assert!(matches!(res.unwrap_err(), AppError::Parse { .. }));
    }
}

#[test]
fn parse_round_trips_a_serialized_map() {
    let text = "key1=value1&key2=value2&key3=";
    let map = parse_ampersand_params(text).unwrap();
    assert_eq!(map.to_query(), "key1=value1&key2=value2&key3=");
    assert_eq!(map.get("key2"), Some(&b"value2".to_vec()));
}
