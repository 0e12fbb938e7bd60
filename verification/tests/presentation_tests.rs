use weather_core::channel::{send_cities_info_update, send_wifi_credentials_update, Channel};
use weather_core::messages::{CityInfo, ModelRequest, UiRequest};
use weather_core::presentation::{
    city_title, find_state_position, find_timezone_position, get_aqi_bg_color, get_uv_bg_color,
    Presentation, UiInput, STATES, TIMEZONES,
};
use weather_core::timefmt::time_messages;

fn paris() -> CityInfo {
    CityInfo {
        city_name: "Paris".to_string(),
        state: "TX".to_string(),
        zipcode: "75460".to_string(),
        timezone: "US/Central".to_string(),
    }
}

#[test]
fn title_is_name_over_region_and_postal_code() {
    assert_eq!(city_title(&paris()), "Paris\nTX 75460");
}

#[test]
fn show_home_switches_panes_and_nav() {
    let mut screen = Presentation::new();
    screen.apply_ui_request(UiRequest::ShowStartup);
    assert!(screen.startup_visible);
    screen.apply_ui_request(UiRequest::ShowHome);
    assert!(!screen.startup_visible);
    assert!(screen.nav_visible);
    assert!(screen.home_visible);
    assert_eq!(screen.nav_selected, 0);
}

#[test]
fn titles_message_fills_the_slots() {
    let mut screen = Presentation::new();
    screen.apply_ui_request(UiRequest::SetCitiesTitles(vec![paris()]));
    assert_eq!(screen.titles[0], "Paris\nTX 75460");
    assert_eq!(screen.titles[1], "");
}

#[test]
fn clock_message_updates_one_slot() {
    let mut screen = Presentation::new();
    screen.apply_ui_request(UiRequest::SetCityTime(2, "06:00pm".to_string(), "Wed Dec 31 1969".to_string()));
    assert_eq!(screen.times[2], "06:00pm");
    assert_eq!(screen.dates[2], "Wed Dec 31 1969");
    assert_eq!(screen.times[0], "");
}

#[test]
fn invalid_save_shows_inline_error_and_sends_nothing() {
    let mut screen = Presentation::new();
    let mut bad = paris();
    bad.zipcode = "123".to_string();
    let out = screen.handle_input(UiInput::CitiesSave(vec![paris(), bad]));
    assert!(out.is_empty());
    assert_eq!(screen.cities_error, "City 2 - Zipcode must be 5 digits");
}

#[test]
fn valid_save_sends_the_new_list_and_hides_the_pane() {
    let mut screen = Presentation::new();
    screen.handle_input(UiInput::NavSelect(2));
    assert!(screen.cities_settings_visible);
    let out = screen.handle_input(UiInput::CitiesSave(vec![paris()]));
    assert_eq!(out.len(), 1);
    assert!(matches!(&out[0], ModelRequest::UpdateCitiesInfo(cs) if cs.len() == 1));
    assert!(!screen.cities_settings_visible);
    assert_eq!(screen.cities_error, "");
}

#[test]
fn wifi_save_sends_credentials() {
    let mut screen = Presentation::new();
    let out = screen.handle_input(UiInput::WifiSave("net".to_string(), "pw1".to_string()));
    assert_eq!(out.len(), 1);
    assert!(matches!(&out[0], ModelRequest::UpdateWifiCreds(s, p) if s == "net" && p == "pw1"));
    assert!(!screen.wifi_settings_visible);
}

#[test]
fn exits_return_to_the_main_view() {
    let mut screen = Presentation::new();
    screen.handle_input(UiInput::NavSelect(1));
    let out = screen.handle_input(UiInput::WifiExit);
    assert!(out.is_empty());
    assert!(screen.home_visible);
    assert_eq!(screen.nav_selected, 0);
}

#[test]
fn state_dropdown_position_counts_in_threes() {
    assert_eq!(find_state_position(STATES, "AL"), 0);
    assert_eq!(find_state_position(STATES, "TX"), 44);
    assert_eq!(find_state_position(STATES, "WY"), 52);
    assert_eq!(find_state_position(STATES, "ZZ"), 0);
}

#[test]
fn timezone_dropdown_position_is_the_line_number() {
    assert_eq!(find_timezone_position(TIMEZONES, "US/Alaska"), 0);
    assert_eq!(find_timezone_position(TIMEZONES, "US/Central"), 3);
    assert_eq!(find_timezone_position(TIMEZONES, "US/Samoa"), 11);
    assert_eq!(find_timezone_position(TIMEZONES, "Nowhere/Nothing"), 0);
}

#[test]
fn badge_colors_follow_the_scales() {
    assert_eq!(get_uv_bg_color(0), (0, 128, 0));
    assert_eq!(get_uv_bg_color(4), (255, 255, 0));
    assert_eq!(get_uv_bg_color(7), (255, 140, 0));
    assert_eq!(get_uv_bg_color(9), (255, 0, 0));
    assert_eq!(get_uv_bg_color(12), (153, 50, 204));
    assert_eq!(get_aqi_bg_color(1), (0, 128, 0));
    assert_eq!(get_aqi_bg_color(6), (139, 28, 98));
    assert_eq!(get_aqi_bg_color(9), (255, 255, 255));
}

#[test]
fn channel_delivers_in_order_and_never_blocks() {
    let mut q: Channel<ModelRequest> = Channel::new();
    assert!(q.try_recv().is_none());
    send_wifi_credentials_update(&mut q, "net".to_string(), "pw1".to_string());
    send_cities_info_update(&mut q, vec![paris()]);
    assert_eq!(q.len(), 2);
    assert!(matches!(q.try_recv().unwrap(), ModelRequest::UpdateWifiCreds(_, _)));
    assert!(matches!(q.try_recv().unwrap(), ModelRequest::UpdateCitiesInfo(_)));
    assert!(q.try_recv().is_none());
}

#[test]
fn clock_broadcast_renders_in_each_location_zone() {
    let mut eastern = paris();
    eastern.timezone = "US/Eastern".to_string();
    let mut unknown = paris();
    unknown.timezone = "Nowhere/Nothing".to_string();
    let cities = vec![paris(), unknown, eastern];
    let msgs = time_messages(&cities, 0);
    assert_eq!(msgs.len(), 2);
    match &msgs[0] {
        UiRequest::SetCityTime(slot, time, date) => {
            assert_eq!(*slot, 0);
            assert_eq!(time, "06:00pm");
            assert_eq!(date, "Wed Dec 31 1969");
        }
        other => panic!("unexpected message: {:?}", other),
    }
    match &msgs[1] {
        UiRequest::SetCityTime(slot, time, date) => {
            assert_eq!(*slot, 2);
            assert_eq!(time, "07:00pm");
            assert_eq!(date, "Wed Dec 31 1969");
        }
        other => panic!("unexpected message: {:?}", other),
    }
}
