use weather_core::messages::{CityInfo, WifiCredentials};
use weather_core::settings::{
    parse_cities_text, parse_key_text, parse_wifi_text, render_cities_text, render_wifi_text,
};

fn sample_cities() -> Vec<CityInfo> {
    vec![
        CityInfo {
            city_name: "Paris".to_string(),
            state: "TX".to_string(),
            zipcode: "75460".to_string(),
            timezone: "US/Central".to_string(),
        },
        CityInfo {
            city_name: "New York".to_string(),
            state: "NY".to_string(),
            zipcode: "10001".to_string(),
            timezone: "US/Eastern".to_string(),
        },
        CityInfo {
            city_name: "Phoenix".to_string(),
            state: "AZ".to_string(),
            zipcode: "85001".to_string(),
            timezone: "US/Arizona".to_string(),
        },
        CityInfo {
            city_name: "Anchorage".to_string(),
            state: "AK".to_string(),
            zipcode: "99501".to_string(),
            timezone: "US/Alaska".to_string(),
        },
    ]
}

#[test]
fn cities_text_renders_comma_joined_lines() {
    let cities = sample_cities();
    let text = render_cities_text(&cities);
    assert_eq!(
        text,
        "Paris,TX,75460,US/Central\nNew York,NY,10001,US/Eastern\nPhoenix,AZ,85001,US/Arizona\nAnchorage,AK,99501,US/Alaska\n"
    );
}

#[test]
fn cities_round_trip_is_field_for_field() {
    let cities = sample_cities();
    let text = render_cities_text(&cities);
    let back = parse_cities_text(text.as_str()).unwrap();
    assert_eq!(back.len(), cities.len());
    for (a, b) in back.iter().zip(cities.iter()) {
        assert_eq!(a.city_name, b.city_name);
        assert_eq!(a.state, b.state);
        assert_eq!(a.zipcode, b.zipcode);
        assert_eq!(a.timezone, b.timezone);
    }
}

#[test]
fn cities_text_without_trailing_newline_parses() {
    let back = parse_cities_text("Paris,TX,75460,US/Central").unwrap();
    assert_eq!(back.len(), 1);
    assert_eq!(back[0].timezone, "US/Central");
}

#[test]
fn empty_cities_text_holds_no_locations() {
    assert_eq!(parse_cities_text("").unwrap().len(), 0);
}

#[test]
fn cities_line_with_wrong_field_count_is_rejected() {
    assert!(parse_cities_text("Paris,TX,75460\n").is_none());
    assert!(parse_cities_text("Paris,TX,75460,US/Central,extra\n").is_none());
}

#[test]
fn wifi_text_renders_two_lines() {
    let creds = WifiCredentials { ssid: "home-net".to_string(), pass: "pw1".to_string() };
    assert_eq!(render_wifi_text(&creds), "home-net\npw1");
}

#[test]
fn wifi_round_trip_restores_both_fields() {
    let creds = WifiCredentials { ssid: "home-net".to_string(), pass: "pw1".to_string() };
    let text = render_wifi_text(&creds);
    let back = parse_wifi_text(text.as_str()).unwrap();
    assert_eq!(back.ssid, "home-net");
    assert_eq!(back.pass, "pw1");
}

#[test]
fn wifi_single_line_is_rejected() {
    assert!(parse_wifi_text("only-a-network-id").is_none());
}

#[test]
fn key_text_takes_first_line() {
    assert_eq!(parse_key_text("key-line\nrest").unwrap(), "key-line");
    assert!(parse_key_text("").is_none());
}
