use weather_core::messages::{CityInfo, ModelRequest, UiRequest};
use weather_core::model::{Model, ModelAction, StartupError};
use weather_core::presentation::Presentation;

fn city(name: &str, zip: &str) -> CityInfo {
    CityInfo {
        city_name: name.to_string(),
        state: "TX".to_string(),
        zipcode: zip.to_string(),
        timezone: "US/Central".to_string(),
    }
}

fn loaded_model() -> Model {
    let mut m = Model::new();
    let msgs = m
        .load_settings("home-net\npw1", "Paris,TX,75460,US/Central\n", "key-line\n")
        .unwrap();
    assert_eq!(msgs.len(), 3);
    m
}

#[test]
fn new_model_is_empty() {
    let m = Model::new();
    assert!(m.wifi_credentials.ssid.is_empty());
    assert!(m.cities_info.is_empty());
    assert!(m.weather_api_key.is_empty());
}

#[test]
fn load_settings_populates_state_and_editors() {
    let mut m = Model::new();
    let msgs = m
        .load_settings(
            "home-net\npw1",
            "Paris,TX,75460,US/Central\nNew York,NY,10001,US/Eastern\n",
            "key-line\n",
        )
        .unwrap();
    assert_eq!(m.wifi_credentials.ssid, "home-net");
    assert_eq!(m.wifi_credentials.pass, "pw1");
    assert_eq!(m.cities_info.len(), 2);
    assert_eq!(m.cities_info[1].city_name, "New York");
    assert_eq!(m.weather_api_key, "key-line");
    assert!(matches!(&msgs[0], UiRequest::SetWifiCreds(s, p) if s == "home-net" && p == "pw1"));
    assert!(matches!(&msgs[1], UiRequest::SetCitiesTitles(cs) if cs.len() == 2));
    assert!(matches!(&msgs[2], UiRequest::SetCitiesSettings(cs) if cs.len() == 2));
}

#[test]
fn load_settings_reports_bad_wifi_resource() {
    let mut m = Model::new();
    let r = m.load_settings("only-one-line", "Paris,TX,75460,US/Central\n", "key-line\n");
    assert_eq!(r.unwrap_err(), StartupError::BadWifiResource);
}

#[test]
fn load_settings_reports_bad_cities_resource() {
    let mut m = Model::new();
    let r = m.load_settings("a\nb", "Paris,TX\n", "key-line\n");
    assert_eq!(r.unwrap_err(), StartupError::BadCitiesResource);
}

#[test]
fn load_settings_reports_bad_key_resource() {
    let mut m = Model::new();
    let r = m.load_settings("a\nb", "Paris,TX,75460,US/Central\n", "");
    assert_eq!(r.unwrap_err(), StartupError::BadKeyResource);
}

#[test]
fn startup_actions_follow_the_fixed_chain() {
    let m = loaded_model();
    let acts = m.startup_actions();
    assert_eq!(acts.len(), 6);
    assert!(matches!(&acts[0], ModelAction::SendUi(UiRequest::SetStartupMessage(s))
        if s == "Waiting for Network Time Protocol server connection"));
    assert!(matches!(acts[1], ModelAction::SyncTime));
    assert!(matches!(acts[2], ModelAction::BroadcastTime));
    assert!(matches!(&acts[3], ModelAction::SendUi(UiRequest::SetStartupMessage(s))
        if s == "Waiting for cities forecasts"));
    assert!(matches!(acts[4], ModelAction::RefreshForecasts));
    assert!(matches!(acts[5], ModelAction::SendUi(UiRequest::ShowHome)));
}

#[test]
fn identical_credentials_short_circuit_skips_reconnect() {
    let mut m = loaded_model();
    let acts = m.handle_request(ModelRequest::UpdateWifiCreds(
        "home-net".to_string(),
        "pw1".to_string(),
    ));
    assert_eq!(acts.len(), 1);
    assert!(matches!(acts[0], ModelAction::SendUi(UiRequest::ShowHome)));
    assert!(!acts.iter().any(|a| matches!(a, ModelAction::Reconnect)));
    assert_eq!(m.wifi_credentials.ssid, "home-net");
}

#[test]
fn changed_credentials_reconnect_and_rebroadcast() {
    let mut m = loaded_model();
    let acts = m.handle_request(ModelRequest::UpdateWifiCreds(
        "other-net".to_string(),
        "pw2".to_string(),
    ));
    assert_eq!(acts.len(), 6);
    assert!(matches!(acts[0], ModelAction::PersistWifi));
    assert!(matches!(acts[1], ModelAction::Reconnect));
    assert!(matches!(&acts[2], ModelAction::SendUi(UiRequest::SetStartupMessage(s))
        if s == "Waiting for cities forecasts"));
    assert!(matches!(acts[3], ModelAction::BroadcastTime));
    assert!(matches!(acts[4], ModelAction::RefreshForecasts));
    assert!(matches!(acts[5], ModelAction::SendUi(UiRequest::ShowHome)));
    assert_eq!(m.wifi_credentials.ssid, "other-net");
    assert_eq!(m.wifi_credentials.pass, "pw2");
}

#[test]
fn identical_cities_payload_persists_every_time() {
    let mut m = loaded_model();
    for _ in 0..2 {
        let payload = vec![city("Paris", "75460")];
        let acts = m.handle_request(ModelRequest::UpdateCitiesInfo(payload));
        assert_eq!(acts.len(), 7);
        assert!(matches!(acts[0], ModelAction::PersistCities));
        assert!(matches!(acts[1], ModelAction::SendUi(UiRequest::ShowStartup)));
        assert!(matches!(&acts[2], ModelAction::SendUi(UiRequest::SetStartupMessage(s))
            if s == "Waiting for cities forecasts"));
        assert!(matches!(&acts[3], ModelAction::SendUi(UiRequest::SetCitiesTitles(cs))
            if cs.len() == 1 && cs[0].city_name == "Paris"));
        assert!(matches!(acts[4], ModelAction::BroadcastTime));
        assert!(matches!(acts[5], ModelAction::RefreshForecasts));
        assert!(matches!(acts[6], ModelAction::SendUi(UiRequest::ShowHome)));
    }
}

#[test]
fn steady_step_drains_both_trigger_flags() {
    let mut m = loaded_model();
    let acts = m.steady_step(None, true, true);
    assert_eq!(acts.len(), 2);
    assert!(matches!(acts[0], ModelAction::BroadcastTime));
    assert!(matches!(acts[1], ModelAction::RefreshForecasts));
    let acts = m.steady_step(None, false, false);
    assert!(acts.is_empty());
}

#[test]
fn steady_step_appends_drains_after_dispatch() {
    let mut m = loaded_model();
    let acts = m.steady_step(
        Some(ModelRequest::UpdateWifiCreds("home-net".to_string(), "pw1".to_string())),
        true,
        false,
    );
    assert_eq!(acts.len(), 2);
    assert!(matches!(acts[0], ModelAction::SendUi(UiRequest::ShowHome)));
    assert!(matches!(acts[1], ModelAction::BroadcastTime));
}

#[test]
fn cities_update_rebroadcast_reaches_the_screen() {
    let mut m = loaded_model();
    let payload = vec![city("Paris", "75460"), city("Austin", "78701")];
    let acts = m.handle_request(ModelRequest::UpdateCitiesInfo(payload));
    let mut screen = Presentation::new();
    for act in acts {
        if let ModelAction::SendUi(msg) = act {
            screen.apply_ui_request(msg);
        }
    }
    assert_eq!(screen.titles[0], "Paris\nTX 75460");
    assert_eq!(screen.titles[1], "Austin\nTX 78701");
    assert!(screen.home_visible);
}
