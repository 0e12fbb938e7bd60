//! The per-location fetch/parse pipeline.
//!
//! The transport and the provider's wire format stay outside: the
//! pipeline receives, per location, either a parsed report in plain
//! values or a classified failure. A failure leaves that location's
//! previous snapshot untouched and never stops the other locations:
//! partial success is the normal case.

use vstd::prelude::*;

use crate::messages::{CityForecast, CityInfo, Condition, UiRequest};
use crate::numfmt::{i64_to_string, spec_dec_int, spec_dec_nat, u64_to_string};
use crate::timefmt::{
    format_local_stamp, format_weekday_utc, local_stamp_of, weekday_label_of, zone_known,
    MAX_FMT_EPOCH,
};

verus! {

/// One forward day of a report: the day's epoch and temperature range,
/// in the unit the provider was asked for.
#[derive(Debug)]
pub struct DayForecast {
    pub date_epoch: i64,
    pub maxtemp_f: i64,
    pub mintemp_f: i64,
}

/// A parsed weather report, reduced to the plain values the display
/// needs. Temperatures, speeds and the index values arrive already
/// rounded to whole numbers.
#[derive(Debug)]
pub struct WeatherReport {
    pub condition: Condition,
    pub temp_f: i64,
    pub feelslike_f: i64,
    pub uv: u8,
    pub us_epa_index: u16,
    pub wind_mph: i64,
    pub gust_mph: i64,
    pub wind_dir: String,
    pub last_updated_epoch: i64,
    pub days: Vec<DayForecast>,
}

/// The classified outcome of one location's fetch: a parsed report, or
/// one of the failure classes the pipeline distinguishes. `ShortRead`
/// carries the bytes read, `BadStatus` the non-success status code.
#[derive(Debug)]
pub enum FetchOutcome {
    Success(WeatherReport),
    TransportGet,
    TransportSubmit,
    ShortRead(usize),
    Decode,
    BadStatus(u16),
}

/// A report the pipeline can render: it carries the three forward days
/// and every epoch lies in the formattable range.
pub open spec fn report_well_formed(r: WeatherReport) -> bool {
    &&& r.days@.len() >= 3
    &&& 0 <= r.last_updated_epoch <= MAX_FMT_EPOCH
    &&& forall|i: int| 0 <= i < 3 ==> 0 <= (#[trigger] r.days@[i]).date_epoch <= MAX_FMT_EPOCH
    &&& r.temp_f > i64::MIN
    &&& r.feelslike_f > i64::MIN
    &&& r.wind_mph > i64::MIN
    &&& r.gust_mph > i64::MIN
    &&& forall|i: int|
        0 <= i < 3 ==> (#[trigger] r.days@[i]).maxtemp_f > i64::MIN && r.days@[i].mintemp_f
            > i64::MIN
}

/// A whole-degree temperature with its unit letter.
pub open spec fn temp_text(v: int) -> Seq<char> {
    spec_dec_int(v) + "F"@
}

/// One forward day's range: high over low.
pub open spec fn day_range_text(hi: int, lo: int) -> Seq<char> {
    spec_dec_int(hi) + "F\n"@ + spec_dec_int(lo) + "F"@
}

/// The staleness line under a snapshot, in the location's own zone.
pub open spec fn last_update_text(epoch: int, tz: Seq<char>) -> Seq<char> {
    "Last update: "@ + local_stamp_of(epoch, tz)
}

/// Field-for-field agreement of a rendered snapshot with its report.
pub open spec fn forecast_matches(cf: CityForecast, r: WeatherReport, tz: Seq<char>) -> bool {
    &&& cf.temp@ == temp_text(r.temp_f as int)
    &&& cf.weather_descr@ == r.condition.text@
    &&& cf.feels_like@ == temp_text(r.feelslike_f as int)
    &&& cf.uv@ == spec_dec_nat(r.uv as nat)
    &&& cf.aqi@ == spec_dec_nat(r.us_epa_index as nat)
    &&& cf.wind_speed@ == spec_dec_int(r.wind_mph as int)
    &&& cf.wind_gust@ == spec_dec_int(r.gust_mph as int)
    &&& cf.wind_dir@ == r.wind_dir@
    &&& cf.weekday_forecast_day_1@ == weekday_label_of(r.days@[0].date_epoch as int)
    &&& cf.forecast_day_1@ == day_range_text(r.days@[0].maxtemp_f as int, r.days@[0].mintemp_f as int)
    &&& cf.weekday_forecast_day_2@ == weekday_label_of(r.days@[1].date_epoch as int)
    &&& cf.forecast_day_2@ == day_range_text(r.days@[1].maxtemp_f as int, r.days@[1].mintemp_f as int)
    &&& cf.weekday_forecast_day_3@ == weekday_label_of(r.days@[2].date_epoch as int)
    &&& cf.forecast_day_3@ == day_range_text(r.days@[2].maxtemp_f as int, r.days@[2].mintemp_f as int)
    &&& cf.last_update@ == last_update_text(r.last_updated_epoch as int, tz)
}

fn render_temp(v: i64) -> (r: String)
    requires
        v > i64::MIN,
    ensures
        r@ == temp_text(v as int),
{
    let mut r = i64_to_string(v);
    r.append("F");
    r
}

fn render_day_range(hi: i64, lo: i64) -> (r: String)
    requires
        hi > i64::MIN,
        lo > i64::MIN,
    ensures
        r@ == day_range_text(hi as int, lo as int),
{
    let mut r = i64_to_string(hi);
    r.append("F\n");
    let lo_text = i64_to_string(lo);
    r.append(lo_text.as_str());
    r.append("F");
    proof {
        assert(r@ =~= day_range_text(hi as int, lo as int));
    }
    r
}

/// Renders one report as a display-ready snapshot. The result is `None`
/// exactly when the location's zone is unknown to the zone database;
/// every field of a rendered snapshot is pinned to the report.
pub fn derive_city_forecast(report: &WeatherReport, tz_name: &str) -> (r: Option<CityForecast>)
    requires
        report_well_formed(*report),
    ensures
        r is Some <==> zone_known(tz_name@),
        r matches Some(cf) ==> forecast_matches(cf, *report, tz_name@),
{
    let stamp = match format_local_stamp(report.last_updated_epoch, tz_name) {
        Some(s) => s,
        None => {
            return None;
        },
    };
    let weekday_1 = match format_weekday_utc(report.days[0].date_epoch) {
        Some(s) => s,
        None => {
            proof {
                assert(false);
            }
            return None;
        },
    };
    let weekday_2 = match format_weekday_utc(report.days[1].date_epoch) {
        Some(s) => s,
        None => {
            proof {
                assert(false);
            }
            return None;
        },
    };
    let weekday_3 = match format_weekday_utc(report.days[2].date_epoch) {
        Some(s) => s,
        None => {
            proof {
                assert(false);
            }
            return None;
        },
    };
    let mut last_update = String::from_str("Last update: ");
    last_update.append(stamp.as_str());
    let cf = CityForecast {
        temp: render_temp(report.temp_f),
        weather_descr: report.condition.text.clone(),
        feels_like: render_temp(report.feelslike_f),
        uv: u64_to_string(report.uv as u64),
        aqi: u64_to_string(report.us_epa_index as u64),
        wind_speed: i64_to_string(report.wind_mph),
        wind_gust: i64_to_string(report.gust_mph),
        wind_dir: report.wind_dir.clone(),
        weekday_forecast_day_1: weekday_1,
        forecast_day_1: render_day_range(report.days[0].maxtemp_f, report.days[0].mintemp_f),
        weekday_forecast_day_2: weekday_2,
        forecast_day_2: render_day_range(report.days[1].maxtemp_f, report.days[1].mintemp_f),
        weekday_forecast_day_3: weekday_3,
        forecast_day_3: render_day_range(report.days[2].maxtemp_f, report.days[2].mintemp_f),
        last_update,
    };
    Some(cf)
}

/// Whether a slot's outcome yields a snapshot: a parsed report for a
/// location whose zone is known.
pub open spec fn slot_renderable(cities: Seq<CityInfo>, outcomes: Seq<FetchOutcome>, i: int) -> bool {
    outcomes[i] is Success && zone_known(cities[i].timezone@)
}

/// The slot a snapshot message addresses, and an out-of-range marker
/// for every other message.
pub open spec fn forecast_msg_slot(m: UiRequest) -> int {
    match m {
        UiRequest::SetCityForecast(i, _) => i as int,
        _ => -1,
    }
}

/// How many of the first `n` slots yield a snapshot.
pub open spec fn count_renderable(cities: Seq<CityInfo>, outcomes: Seq<FetchOutcome>, n: int) -> nat
    decreases n,
{
    if n <= 0 {
        0
    } else {
        count_renderable(cities, outcomes, n - 1) + (if slot_renderable(cities, outcomes, n - 1) {
            1nat
        } else {
            0nat
        })
    }
}

/// The forecast broadcast: one snapshot message per slot whose fetch
/// succeeded and whose zone is known, in slot order, each snapshot
/// pinned to its slot's report. A failed slot gets no message, so its
/// previous snapshot stands; no failure stops the remaining slots.
pub fn forecasts_messages(cities: &Vec<CityInfo>, outcomes: &Vec<FetchOutcome>) -> (msgs: Vec<
    UiRequest,
>)
    requires
        outcomes@.len() == cities@.len(),
        forall|i: int|
            0 <= i < outcomes@.len() ==> ((#[trigger] outcomes@[i]) matches FetchOutcome::Success(
                r,
            ) ==> report_well_formed(r)),
    ensures
        msgs@.len() == count_renderable(cities@, outcomes@, cities@.len() as int),
        forall|j: int|
            0 <= j < msgs@.len() ==> {
                let i = forecast_msg_slot(#[trigger] msgs@[j]);
                &&& 0 <= i < cities@.len()
                &&& slot_renderable(cities@, outcomes@, i)
                &&& (msgs@[j] matches UiRequest::SetCityForecast(s, cf) ==> (
                outcomes@[i] matches FetchOutcome::Success(rep) && forecast_matches(
                    cf,
                    rep,
                    cities@[i].timezone@,
                )))
            },
        forall|j: int, k: int|
            0 <= j < k < msgs@.len() ==> forecast_msg_slot(msgs@[j]) < forecast_msg_slot(msgs@[k]),
        forall|i: int|
            0 <= i < cities@.len() ==> (slot_renderable(cities@, outcomes@, i) <==> exists|j: int|
                0 <= j < msgs@.len() && forecast_msg_slot(#[trigger] msgs@[j]) == i),
{
    let mut msgs: Vec<UiRequest> = Vec::new();
    let mut i: usize = 0;
    while i < cities.len()
        invariant
            0 <= i <= cities@.len(),
            outcomes@.len() == cities@.len(),
            forall|t: int|
                0 <= t < outcomes@.len() ==> ((#[trigger] outcomes@[t])
                    matches FetchOutcome::Success(r) ==> report_well_formed(r)),
            msgs@.len() == count_renderable(cities@, outcomes@, i as int),
            forall|j: int|
                0 <= j < msgs@.len() ==> {
                    let s = forecast_msg_slot(#[trigger] msgs@[j]);
                    &&& 0 <= s < i
                    &&& slot_renderable(cities@, outcomes@, s)
                    &&& (msgs@[j] matches UiRequest::SetCityForecast(sl, cf) ==> (
                    outcomes@[s] matches FetchOutcome::Success(rep) && forecast_matches(
                        cf,
                        rep,
                        cities@[s].timezone@,
                    )))
                },
            forall|j: int, k: int|
                0 <= j < k < msgs@.len() ==> forecast_msg_slot(msgs@[j]) < forecast_msg_slot(
                    msgs@[k],
                ),
            forall|s: int|
                0 <= s < i ==> (slot_renderable(cities@, outcomes@, s) <==> exists|j: int|
                    0 <= j < msgs@.len() && forecast_msg_slot(#[trigger] msgs@[j]) == s),
        decreases cities@.len() - i,
    {
        let ghost before = msgs@;
        match &outcomes[i] {
            FetchOutcome::Success(report) => {
                match derive_city_forecast(report, cities[i].timezone.as_str()) {
                    Some(cf) => {
                        msgs.push(UiRequest::SetCityForecast(i, cf));
                        proof {
                            assert(slot_renderable(cities@, outcomes@, i as int));
                            assert(forecast_msg_slot(msgs@[msgs@.len() - 1]) == i as int);
                            assert forall|s: int|
                                0 <= s < i + 1 implies (slot_renderable(cities@, outcomes@, s)
                                <==> exists|j: int|
                                0 <= j < msgs@.len() && forecast_msg_slot(#[trigger] msgs@[j])
                                    == s) by {
                                if s < i {
                                    if slot_renderable(cities@, outcomes@, s) {
                                        let j = choose|j: int|
                                            0 <= j < before.len() && forecast_msg_slot(
                                                #[trigger] before[j],
                                            ) == s;
                                        assert(forecast_msg_slot(msgs@[j]) == s);
                                    }
                                } else {
                                    assert(forecast_msg_slot(msgs@[msgs@.len() - 1]) == s);
                                }
                            }
                        }
                    },
                    None => {
                        proof {
                            assert(!slot_renderable(cities@, outcomes@, i as int));
                            assert forall|s: int|
                                0 <= s < i + 1 implies (slot_renderable(cities@, outcomes@, s)
                                <==> exists|j: int|
                                0 <= j < msgs@.len() && forecast_msg_slot(#[trigger] msgs@[j])
                                    == s) by {
                                if s == i {
                                    assert forall|j: int|
                                        0 <= j < msgs@.len() implies forecast_msg_slot(
                                        #[trigger] msgs@[j],
                                    ) != s by {}
                                }
                            }
                        }
                    },
                }
            },
            _ => {
                proof {
                    assert(!slot_renderable(cities@, outcomes@, i as int));
                    assert forall|s: int|
                        0 <= s < i + 1 implies (slot_renderable(cities@, outcomes@, s)
                        <==> exists|j: int|
                        0 <= j < msgs@.len() && forecast_msg_slot(#[trigger] msgs@[j]) == s) by {
                        if s == i {
                            assert forall|j: int|
                                0 <= j < msgs@.len() implies forecast_msg_slot(#[trigger] msgs@[j])
                                != s by {}
                        }
                    }
                }
            },
        }
        i = i + 1;
    }
    msgs
}

/// With every slot but one renderable, the broadcast carries exactly
/// one snapshot fewer than there are slots; by the emission contract
/// the missing one is the failed slot.
pub proof fn lemma_partial_failure_count(
    cities: Seq<CityInfo>,
    outcomes: Seq<FetchOutcome>,
    bad: int,
    n: int,
)
    requires
        outcomes.len() == cities.len(),
        0 <= bad < cities.len(),
        !slot_renderable(cities, outcomes, bad),
        forall|i: int|
            0 <= i < cities.len() && i != bad ==> slot_renderable(cities, outcomes, i),
        0 <= n <= cities.len(),
    ensures
        count_renderable(cities, outcomes, n) == if bad < n {
            n - 1
        } else {
            n
        },
    decreases n,
{
    if n > 0 {
        lemma_partial_failure_count(cities, outcomes, bad, n - 1);
    }
}

/// A slot whose fetch failed or whose zone is unknown is addressed by
/// no message of a broadcast that satisfies the emission contract, so
/// applying the broadcast leaves that slot's snapshot exactly as it
/// was.
pub proof fn lemma_failed_slot_gets_no_message(
    cities: Seq<CityInfo>,
    outcomes: Seq<FetchOutcome>,
    msgs: Seq<UiRequest>,
    bad: int,
)
    requires
        outcomes.len() == cities.len(),
        0 <= bad < cities.len(),
        !slot_renderable(cities, outcomes, bad),
        forall|i: int|
            0 <= i < cities.len() ==> (slot_renderable(cities, outcomes, i) <==> exists|j: int|
                0 <= j < msgs.len() && forecast_msg_slot(#[trigger] msgs[j]) == i),
    ensures
        forall|j: int|
            0 <= j < msgs.len() ==> !crate::presentation::targets_slot(#[trigger] msgs[j], bad),
{
    assert forall|j: int|
        0 <= j < msgs.len() implies !crate::presentation::targets_slot(#[trigger] msgs[j], bad) by {
        if crate::presentation::targets_slot(msgs[j], bad) {
            assert(forecast_msg_slot(msgs[j]) == bad);
            assert(slot_renderable(cities, outcomes, bad));
        }
    }
}

/// The request line for one location's fetch, from the stored key and
/// the location's postal code.
pub fn build_forecast_url(key: &str, zipcode: &str) -> (r: String)
    ensures
        r@ == "http://api.weatherapi.com/v1/forecast.json?key="@ + key@ + "&q="@ + zipcode@
            + "&days=3&aqi=yes&alerts=no"@,
{
    let mut r = String::from_str("http://api.weatherapi.com/v1/forecast.json?key=");
    r.append(key);
    r.append("&q=");
    r.append(zipcode);
    r.append("&days=3&aqi=yes&alerts=no");
    r
}

/// Whether a response status lets the body be read.
pub fn http_status_ok(status: u16) -> (r: bool)
    ensures
        r <==> status == 200,
{
    status == 200
}

/// The log line for a response with a non-success status.
pub fn http_status_error_message(status: u16) -> (r: String)
    ensures
        r@ == "Bad HTTP status - "@ + spec_dec_nat(status as nat),
{
    let mut r = String::from_str("Bad HTTP status - ");
    let num = u64_to_string(status as u64);
    r.append(num.as_str());
    r
}

} // verus!
