use weather_core::messages::CityInfo;
use weather_core::validation::{check_for_errors, is_zipcode_valid};

fn city(zip: &str) -> CityInfo {
    CityInfo {
        city_name: "Paris".to_string(),
        state: "TX".to_string(),
        zipcode: zip.to_string(),
        timezone: "US/Central".to_string(),
    }
}

#[test]
fn zipcode_lower_bound_accepted() {
    assert!(is_zipcode_valid("00501").is_ok());
}

#[test]
fn zipcode_upper_bound_accepted() {
    assert!(is_zipcode_valid("99950").is_ok());
}

#[test]
fn zipcode_below_range_rejected() {
    assert_eq!(
        is_zipcode_valid("00500").unwrap_err(),
        "Zipcode must be from 00501 to 99950"
    );
}

#[test]
fn zipcode_above_range_rejected() {
    assert_eq!(
        is_zipcode_valid("99951").unwrap_err(),
        "Zipcode must be from 00501 to 99950"
    );
}

#[test]
fn zipcode_too_short_rejected() {
    assert_eq!(is_zipcode_valid("1234").unwrap_err(), "Zipcode must be 5 digits");
}

#[test]
fn zipcode_too_long_rejected() {
    assert_eq!(is_zipcode_valid("123456").unwrap_err(), "Zipcode must be 5 digits");
}

#[test]
fn zipcode_letters_rejected() {
    assert_eq!(is_zipcode_valid("abcde").unwrap_err(), "Zipcode is not a number");
}

#[test]
fn zipcode_signed_rejected() {
    assert_eq!(is_zipcode_valid("+1234").unwrap_err(), "Zipcode is not a number");
}

#[test]
fn zipcode_empty_rejected() {
    assert_eq!(is_zipcode_valid("").unwrap_err(), "Zipcode must be 5 digits");
}

#[test]
fn zipcode_ordinary_accepted() {
    assert!(is_zipcode_valid("75460").is_ok());
}

#[test]
fn check_for_errors_all_valid() {
    let cities = vec![city("75460"), city("10001"), city("00501"), city("99950")];
    assert!(check_for_errors(cities).is_ok());
}

#[test]
fn check_for_errors_names_first_invalid_slot() {
    let cities = vec![city("75460"), city("123"), city("abcde")];
    assert_eq!(check_for_errors(cities).unwrap_err(), "City 2 - Zipcode must be 5 digits");
}

#[test]
fn check_for_errors_range_message() {
    let cities = vec![city("00400")];
    assert_eq!(
        check_for_errors(cities).unwrap_err(),
        "City 1 - Zipcode must be from 00501 to 99950"
    );
}
