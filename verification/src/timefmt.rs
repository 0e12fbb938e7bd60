//! Time and date rendering, delegated to chrono and chrono-tz.
//!
//! Rendering an epoch instant in a named time zone needs the zone
//! database and calendar arithmetic; both stay in the outside crates.
//! Each wrapper fixes one format string, and what it returns is named:
//! the same epoch and zone always render to the same text.

use vstd::prelude::*;

use crate::messages::{CityInfo, UiRequest};

verus! {

/// The largest epoch second these wrappers promise to format: the last
/// second of year 9999, comfortably inside chrono's date range.
pub const MAX_FMT_EPOCH: i64 = 253402300799;

/// The text of an epoch day rendered as weekday name and day of month
/// in UTC.
pub uninterp spec fn weekday_label_of(epoch: int) -> Seq<char>;

/// Whether the zone database knows a time zone under this name.
pub uninterp spec fn zone_known(tz: Seq<char>) -> bool;

/// The clock text of an epoch instant in a named zone.
pub uninterp spec fn local_time_of(epoch: int, tz: Seq<char>) -> Seq<char>;

/// The date text of an epoch instant in a named zone.
pub uninterp spec fn local_date_of(epoch: int, tz: Seq<char>) -> Seq<char>;

/// The date-and-clock stamp of an epoch instant in a named zone.
pub uninterp spec fn local_stamp_of(epoch: int, tz: Seq<char>) -> Seq<char>;

/// Relies on chrono's `DateTime::from_timestamp` (`None` only outside
/// the representable date range) and `DateTime::format` with `"%a %d"`:
/// the label is a function of the epoch value alone.
#[verifier::external_body]
pub(crate) fn format_weekday_utc(epoch: i64) -> (r: Option<String>)
    ensures
        r matches Some(s) ==> s@ == weekday_label_of(epoch as int),
        0 <= epoch <= MAX_FMT_EPOCH ==> r is Some,
{
    chrono::DateTime::from_timestamp(epoch, 0).map(|dt| dt.format("%a %d").to_string())
}

/// Relies on chrono-tz's `Tz::from_str` (fails exactly on names the
/// zone database lacks), `DateTime::from_timestamp` and
/// `DateTime::format` with `"%I:%M%P"`: the text is a function of the
/// epoch and the zone name alone.
#[verifier::external_body]
pub(crate) fn format_local_time(epoch: i64, tz_name: &str) -> (r: Option<String>)
    ensures
        r matches Some(s) ==> s@ == local_time_of(epoch as int, tz_name@),
        !zone_known(tz_name@) ==> r is None,
        zone_known(tz_name@) && 0 <= epoch <= MAX_FMT_EPOCH ==> r is Some,
{
    let tz: chrono_tz::Tz = match tz_name.parse() {
        Ok(t) => t,
        Err(_) => return None,
    };
    chrono::DateTime::from_timestamp(epoch, 0)
        .map(|dt| dt.with_timezone(&tz).format("%I:%M%P").to_string())
}

/// Relies on the same chrono calls as `format_local_time`, with the
/// format `"%a %b %d %Y"`.
#[verifier::external_body]
pub(crate) fn format_local_date(epoch: i64, tz_name: &str) -> (r: Option<String>)
    ensures
        r matches Some(s) ==> s@ == local_date_of(epoch as int, tz_name@),
        !zone_known(tz_name@) ==> r is None,
        zone_known(tz_name@) && 0 <= epoch <= MAX_FMT_EPOCH ==> r is Some,
{
    let tz: chrono_tz::Tz = match tz_name.parse() {
        Ok(t) => t,
        Err(_) => return None,
    };
    chrono::DateTime::from_timestamp(epoch, 0)
        .map(|dt| dt.with_timezone(&tz).format("%a %b %d %Y").to_string())
}

/// Relies on the same chrono calls as `format_local_time`, with the
/// format `"%D %I:%M%P"`.
#[verifier::external_body]
pub(crate) fn format_local_stamp(epoch: i64, tz_name: &str) -> (r: Option<String>)
    ensures
        r matches Some(s) ==> s@ == local_stamp_of(epoch as int, tz_name@),
        !zone_known(tz_name@) ==> r is None,
        zone_known(tz_name@) && 0 <= epoch <= MAX_FMT_EPOCH ==> r is Some,
{
    let tz: chrono_tz::Tz = match tz_name.parse() {
        Ok(t) => t,
        Err(_) => return None,
    };
    chrono::DateTime::from_timestamp(epoch, 0)
        .map(|dt| dt.with_timezone(&tz).format("%D %I:%M%P").to_string())
}

/// The slot a clock message addresses, and an out-of-range marker for
/// every other message.
pub open spec fn time_msg_slot(m: UiRequest) -> int {
    match m {
        UiRequest::SetCityTime(i, _, _) => i as int,
        _ => -1,
    }
}

/// How many of the first `n` locations name a known zone.
pub open spec fn count_known_zones(cities: Seq<CityInfo>, n: int) -> nat
    decreases n,
{
    if n <= 0 {
        0
    } else {
        count_known_zones(cities, n - 1) + (if zone_known(cities[n - 1].timezone@) {
            1nat
        } else {
            0nat
        })
    }
}

/// The clock broadcast: one time-and-date message per location whose
/// zone the database knows, in slot order, each rendering the instant
/// in that location's own zone. A location with an unknown zone is
/// skipped; nothing else is skipped.
pub fn time_messages(cities: &Vec<CityInfo>, now_epoch: i64) -> (msgs: Vec<UiRequest>)
    requires
        0 <= now_epoch <= MAX_FMT_EPOCH,
    ensures
        msgs@.len() == count_known_zones(cities@, cities@.len() as int),
        forall|j: int|
            0 <= j < msgs@.len() ==> {
                let i = time_msg_slot(#[trigger] msgs@[j]);
                &&& 0 <= i < cities@.len()
                &&& zone_known(cities@[i].timezone@)
                &&& (msgs@[j] matches UiRequest::SetCityTime(s, t, d) && t@ == local_time_of(
                    now_epoch as int,
                    cities@[i].timezone@,
                ) && d@ == local_date_of(now_epoch as int, cities@[i].timezone@))
            },
        forall|j: int, k: int|
            0 <= j < k < msgs@.len() ==> time_msg_slot(msgs@[j]) < time_msg_slot(msgs@[k]),
        forall|i: int|
            0 <= i < cities@.len() ==> (zone_known(#[trigger] cities@[i].timezone@) <==> exists|j: int|
                0 <= j < msgs@.len() && time_msg_slot(#[trigger] msgs@[j]) == i),
{
    let mut msgs: Vec<UiRequest> = Vec::new();
    let mut i: usize = 0;
    while i < cities.len()
        invariant
            0 <= i <= cities@.len(),
            0 <= now_epoch <= MAX_FMT_EPOCH,
            msgs@.len() == count_known_zones(cities@, i as int),
            forall|j: int|
                0 <= j < msgs@.len() ==> {
                    let s = time_msg_slot(#[trigger] msgs@[j]);
                    &&& 0 <= s < i
                    &&& zone_known(cities@[s].timezone@)
                    &&& (msgs@[j] matches UiRequest::SetCityTime(sl, t, d) && t@ == local_time_of(
                        now_epoch as int,
                        cities@[s].timezone@,
                    ) && d@ == local_date_of(now_epoch as int, cities@[s].timezone@))
                },
            forall|j: int, k: int|
                0 <= j < k < msgs@.len() ==> time_msg_slot(msgs@[j]) < time_msg_slot(msgs@[k]),
            forall|s: int|
                0 <= s < i ==> (zone_known(#[trigger] cities@[s].timezone@) <==> exists|j: int|
                    0 <= j < msgs@.len() && time_msg_slot(#[trigger] msgs@[j]) == s),
        decreases cities@.len() - i,
    {
        let tz = &cities[i].timezone;
        let time_text = format_local_time(now_epoch, tz.as_str());
        let date_text = format_local_date(now_epoch, tz.as_str());
        let ghost before = msgs@;
        match (time_text, date_text) {
            (Some(t), Some(d)) => {
                msgs.push(UiRequest::SetCityTime(i, t, d));
                proof {
                    assert(zone_known(cities@[i as int].timezone@));
                    assert(time_msg_slot(msgs@[msgs@.len() - 1]) == i as int);
                    assert forall|s: int|
                        0 <= s < i + 1 implies (zone_known(#[trigger] cities@[s].timezone@)
                        <==> exists|j: int|
                        0 <= j < msgs@.len() && time_msg_slot(#[trigger] msgs@[j]) == s) by {
                        if s < i {
                            if zone_known(cities@[s].timezone@) {
                                let j = choose|j: int|
                                    0 <= j < before.len() && time_msg_slot(#[trigger] before[j])
                                        == s;
                                assert(time_msg_slot(msgs@[j]) == s);
                            }
                        } else {
                            assert(time_msg_slot(msgs@[msgs@.len() - 1]) == s);
                        }
                    }
                }
            },
            _ => {
                proof {
                    assert(!zone_known(cities@[i as int].timezone@));
                    assert forall|s: int|
                        0 <= s < i + 1 implies (zone_known(#[trigger] cities@[s].timezone@)
                        <==> exists|j: int|
                        0 <= j < msgs@.len() && time_msg_slot(#[trigger] msgs@[j]) == s) by {
                        if s == i {
                            assert forall|j: int|
                                0 <= j < msgs@.len() implies time_msg_slot(#[trigger] msgs@[j])
                                != s by {}
                        }
                    }
                }
            },
        }
        i = i + 1;
    }
    msgs
}

} // verus!
