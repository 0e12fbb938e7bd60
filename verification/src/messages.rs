//! The data model and the messages the two actors exchange.
//!
//! The coordination core (the model actor) and the presentation actor
//! never share mutable state: every cross-actor observation is one of
//! these immutable payloads.

use vstd::prelude::*;

verus! {

/// One configured location: a positional slot holds at most one of these.
#[derive(Debug)]
pub struct CityInfo {
    pub city_name: String,
    pub state: String,
    pub zipcode: String,
    pub timezone: String,
}

/// The network credentials: a singleton owned by the model actor.
#[derive(Debug)]
pub struct WifiCredentials {
    pub ssid: String,
    pub pass: String,
}

/// Current weather condition as the provider reports it.
#[derive(Debug)]
pub struct Condition {
    pub text: String,
    pub icon: String,
    pub code: i32,
}

/// The display-ready forecast for one slot: every field is already a
/// rendered string, so the presentation actor only places text.
#[derive(Debug)]
pub struct CityForecast {
    pub temp: String,
    pub weather_descr: String,
    pub feels_like: String,
    pub uv: String,
    pub aqi: String,
    pub wind_speed: String,
    pub wind_gust: String,
    pub wind_dir: String,
    pub weekday_forecast_day_1: String,
    pub forecast_day_1: String,
    pub weekday_forecast_day_2: String,
    pub forecast_day_2: String,
    pub weekday_forecast_day_3: String,
    pub forecast_day_3: String,
    pub last_update: String,
}

/// A request from the presentation actor to the model actor.
#[derive(Debug)]
pub enum ModelRequest {
    UpdateCitiesInfo(Vec<CityInfo>),
    UpdateWifiCreds(String, String),
}

/// A display update from the model actor to the presentation actor.
#[derive(Debug)]
pub enum UiRequest {
    ShowStartup,
    ShowWifiSettings,
    ShowHome,
    SetStartupMessage(String),
    SetWifiSettingsErrorMessage(String),
    SetCityTime(usize, String, String),
    SetCitiesSettings(Vec<CityInfo>),
    SetCitiesTitles(Vec<CityInfo>),
    SetCityForecast(usize, CityForecast),
    SetWifiCreds(String, String),
}

} // verus!
