use usos_core::api_types::{SearchResults, StartIndex, Visibility};
use usos_core::reference::Module;
use usos_core::selector::{Field, format_selector_fields};
use usos_core::times::{UsosDate, UsosDateTime, UsosPreciseDateTime, UsosTime};

#[test]
fn valid_date_string() {
    let date = UsosDate::new(2024, 1, 1).unwrap();
    assert_eq!(date.render(), "2024-01-01");
}

#[test]
fn valid_time_string() {
    let time = UsosTime::new(12, 34, 56).unwrap();
    assert_eq!(time.render(), "12:34:56");
}

#[test]
fn valid_datetime_string() {
    let date = UsosDate::new(2024, 1, 1).unwrap();
    let time = UsosTime::new(12, 34, 56).unwrap();
    assert_eq!(UsosDateTime::new(date, time).render(), "2024-01-01 12:34:56");
}

#[test]
fn valid_precise_datetime_string() {
    let date = UsosDate::new(2024, 1, 1).unwrap();
    let time = UsosTime::new(12, 34, 56).unwrap();
    let datetime = UsosDateTime::new(date, time);
    let precise = UsosPreciseDateTime::new(datetime, 54321).unwrap();
    assert_eq!(precise.render(), "2024-01-01 12:34:56.054321");
}

#[test]
fn implausible_dates_and_times_are_rejected() {
    assert!(UsosDate::new(2024, 0, 1).is_err());
    assert!(UsosDate::new(2024, 13, 1).is_err());
    assert!(UsosDate::new(2024, 1, 32).is_err());
    assert!(UsosDate::new(10000, 1, 1).is_err());
    assert!(UsosTime::new(24, 0, 0).is_err());
    assert!(UsosTime::new(0, 60, 0).is_err());
    assert!(UsosTime::new(0, 0, 60).is_err());
    let datetime = UsosDateTime::new(
        UsosDate::new(2024, 1, 1).unwrap(),
        UsosTime::new(0, 0, 0).unwrap(),
    );
    assert!(UsosPreciseDateTime::new(datetime, 1_000_000).is_err());
}

#[test]
fn format_selectors_is_correct() {
    assert_eq!(format_selector_fields(&vec![]), "");
    assert_eq!(format_selector_fields(&vec![Field::One("a".to_string())]), "a");
    assert_eq!(
        format_selector_fields(&vec![Field::One("a".to_string()), Field::One("b".to_string())]),
        "a|b"
    );
    assert_eq!(
        format_selector_fields(&vec![Field::Nested(
            "a".to_string(),
            vec![Field::One("b".to_string()), Field::One("c".to_string())],
        )]),
        "a[b|c]"
    );
    assert_eq!(
        format_selector_fields(&vec![
            Field::Nested("a".to_string(), vec![Field::One("b".to_string())]),
            Field::One("c".to_string()),
        ]),
        "a[b]|c"
    );
    assert_eq!(
        format_selector_fields(&vec![
            Field::One("a".to_string()),
            Field::Nested(
                "b".to_string(),
                vec![Field::One("c".to_string()), Field::One("d".to_string())],
            ),
            Field::One("e".to_string()),
        ]),
        "a|b[c|d]|e"
    );
}

#[test]
fn module_codes_render() {
    assert_eq!(Module::ApiReference.as_code(), "apiref");
    assert_eq!(Module::ApiServerData.as_code(), "apisrv");
    assert_eq!(Module::TimeTables.as_code(), "tt");
    assert_eq!(Module::Users.as_code(), "users");
}

#[test]
fn search_bounds_are_enforced() {
    assert_eq!(SearchResults::try_from(20).unwrap().get(), 20);
    assert!(SearchResults::try_from(21).is_err());
    assert_eq!(StartIndex::try_from(99).unwrap().get(), 99);
    assert!(StartIndex::try_from(100).is_err());
    assert_eq!(Visibility::Public.as_code(), "public");
    assert_eq!(Visibility::All.as_code(), "all");
}
