use weather_core::forecast::{
    build_forecast_url, derive_city_forecast, forecasts_messages, http_status_error_message,
    http_status_ok, DayForecast, FetchOutcome, WeatherReport,
};
use weather_core::messages::{CityForecast, CityInfo, Condition, UiRequest};
use weather_core::presentation::Presentation;

fn sample_report() -> WeatherReport {
    WeatherReport {
        condition: Condition { text: "Sunny".to_string(), icon: "".to_string(), code: 1000 },
        temp_f: 72,
        feelslike_f: -3,
        uv: 7,
        us_epa_index: 2,
        wind_mph: 12,
        gust_mph: 18,
        wind_dir: "NNW".to_string(),
        last_updated_epoch: 0,
        days: vec![
            DayForecast { date_epoch: 0, maxtemp_f: 75, mintemp_f: 54 },
            DayForecast { date_epoch: 86400, maxtemp_f: 80, mintemp_f: -1 },
            DayForecast { date_epoch: 172800, maxtemp_f: 65, mintemp_f: 48 },
        ],
    }
}

fn city(tz: &str) -> CityInfo {
    CityInfo {
        city_name: "Paris".to_string(),
        state: "TX".to_string(),
        zipcode: "75460".to_string(),
        timezone: tz.to_string(),
    }
}

#[test]
fn derive_renders_every_field() {
    let cf = derive_city_forecast(&sample_report(), "US/Central").unwrap();
    assert_eq!(cf.temp, "72F");
    assert_eq!(cf.weather_descr, "Sunny");
    assert_eq!(cf.feels_like, "-3F");
    assert_eq!(cf.uv, "7");
    assert_eq!(cf.aqi, "2");
    assert_eq!(cf.wind_speed, "12");
    assert_eq!(cf.wind_gust, "18");
    assert_eq!(cf.wind_dir, "NNW");
    assert_eq!(cf.weekday_forecast_day_1, "Thu 01");
    assert_eq!(cf.forecast_day_1, "75F\n54F");
    assert_eq!(cf.weekday_forecast_day_2, "Fri 02");
    assert_eq!(cf.forecast_day_2, "80F\n-1F");
    assert_eq!(cf.weekday_forecast_day_3, "Sat 03");
    assert_eq!(cf.forecast_day_3, "65F\n48F");
    assert_eq!(cf.last_update, "Last update: 12/31/69 06:00pm");
}

#[test]
fn derive_rejects_unknown_zone() {
    assert!(derive_city_forecast(&sample_report(), "Nowhere/Nothing").is_none());
}

#[test]
fn partial_failure_updates_exactly_the_other_slots() {
    let cities = vec![
        city("US/Central"),
        city("US/Eastern"),
        city("US/Pacific"),
        city("US/Mountain"),
    ];
    let outcomes = vec![
        FetchOutcome::Success(sample_report()),
        FetchOutcome::Success(sample_report()),
        FetchOutcome::TransportGet,
        FetchOutcome::Success(sample_report()),
    ];
    let msgs = forecasts_messages(&cities, &outcomes);
    assert_eq!(msgs.len(), 3);
    let slots: Vec<usize> = msgs
        .iter()
        .map(|m| match m {
            UiRequest::SetCityForecast(i, _) => *i,
            other => panic!("unexpected message: {:?}", other),
        })
        .collect();
    assert_eq!(slots, vec![0, 1, 3]);

    let mut screen = Presentation::new();
    let held = CityForecast {
        temp: "old".to_string(),
        weather_descr: String::new(),
        feels_like: String::new(),
        uv: String::new(),
        aqi: String::new(),
        wind_speed: String::new(),
        wind_gust: String::new(),
        wind_dir: String::new(),
        weekday_forecast_day_1: String::new(),
        forecast_day_1: String::new(),
        weekday_forecast_day_2: String::new(),
        forecast_day_2: String::new(),
        weekday_forecast_day_3: String::new(),
        forecast_day_3: String::new(),
        last_update: String::new(),
    };
    screen.apply_ui_request(UiRequest::SetCityForecast(2, held));
    screen.apply_all(msgs);
    assert_eq!(screen.forecasts[0].as_ref().unwrap().temp, "72F");
    assert_eq!(screen.forecasts[1].as_ref().unwrap().temp, "72F");
    assert_eq!(screen.forecasts[2].as_ref().unwrap().temp, "old");
    assert_eq!(screen.forecasts[3].as_ref().unwrap().temp, "72F");
}

#[test]
fn failed_slot_without_snapshot_stays_empty() {
    let cities = vec![city("US/Central")];
    let outcomes = vec![FetchOutcome::BadStatus(503)];
    let msgs = forecasts_messages(&cities, &outcomes);
    assert!(msgs.is_empty());
    let mut screen = Presentation::new();
    screen.apply_all(msgs);
    assert!(screen.forecasts[0].is_none());
}

#[test]
fn url_carries_key_and_postal_code() {
    let url = build_forecast_url("key-line", "75460");
    assert_eq!(
        url,
        "http://api.weatherapi.com/v1/forecast.json?key=key-line&q=75460&days=3&aqi=yes&alerts=no"
    );
}

#[test]
fn only_status_200_reads_the_body() {
    assert!(http_status_ok(200));
    assert!(!http_status_ok(404));
    assert_eq!(http_status_error_message(503), "Bad HTTP status - 503");
}
