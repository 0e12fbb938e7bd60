//! The model actor: owner of credentials, location list and API key.
//!
//! The actor's blocking work (storage, network, clock) happens outside;
//! here every decision is a function from state and event to the next
//! state and an ordered list of actions. The runner performs each action
//! in order: persist a resource, rebuild connectivity with the bring-up
//! machine, broadcast clocks or forecasts, or forward one display
//! message. Startup is a fixed chain: load settings, pre-populate the
//! editors, bring connectivity up, then run `startup_actions`.

use vstd::prelude::*;

use crate::messages::{CityInfo, ModelRequest, UiRequest, WifiCredentials};
use crate::settings::{cities_match_fields, spec_parse_cities_text};
use crate::textcodec::spec_split;

verus! {

/// One step of the model actor's outward behaviour, to be performed in
/// list order by the runner.
pub enum ModelAction {
    /// Write the credentials resource from the current credentials.
    PersistWifi,
    /// Write the locations resource from the current location list.
    PersistCities,
    /// Tear down the link and re-run connectivity bring-up.
    Reconnect,
    /// Block until wall-clock synchronization completes.
    SyncTime,
    /// Emit the local time and date message for every location.
    BroadcastTime,
    /// Run the fetch pipeline for every location.
    RefreshForecasts,
    /// Forward one display update to the presentation actor.
    SendUi(UiRequest),
}

/// A settings resource that failed to load at startup: fatal, since no
/// recovery path is defined.
#[derive(Debug, Clone, Copy, PartialEq, Eq, Structural)]
pub enum StartupError {
    BadWifiResource,
    BadCitiesResource,
    BadKeyResource,
}

/// The model actor's owned state.
pub struct Model {
    pub wifi_credentials: WifiCredentials,
    pub cities_info: Vec<CityInfo>,
    pub weather_api_key: String,
}

/// Copies one location value.
pub fn copy_city(c: &CityInfo) -> (r: CityInfo)
    ensures
        r == *c,
{
    CityInfo {
        city_name: c.city_name.clone(),
        state: c.state.clone(),
        zipcode: c.zipcode.clone(),
        timezone: c.timezone.clone(),
    }
}

/// Copies a location list.
pub fn copy_cities(cities: &Vec<CityInfo>) -> (r: Vec<CityInfo>)
    ensures
        r@ == cities@,
{
    let mut r: Vec<CityInfo> = Vec::new();
    let mut i: usize = 0;
    while i < cities.len()
        invariant
            0 <= i <= cities@.len(),
            r@ == cities@.subrange(0, i as int),
        decreases cities@.len() - i,
    {
        r.push(copy_city(&cities[i]));
        proof {
            assert(r@ =~= cities@.subrange(0, i + 1));
        }
        i = i + 1;
    }
    proof {
        assert(r@ =~= cities@);
    }
    r
}

/// The exact action list of a credentials change that differs from the
/// stored value.
pub open spec fn wifi_update_actions(acts: Seq<ModelAction>) -> bool {
    &&& acts.len() == 6
    &&& acts[0] is PersistWifi
    &&& acts[1] is Reconnect
    &&& (acts[2] matches ModelAction::SendUi(UiRequest::SetStartupMessage(m)) && m@
        == "Waiting for cities forecasts"@)
    &&& acts[3] is BroadcastTime
    &&& acts[4] is RefreshForecasts
    &&& acts[5] == ModelAction::SendUi(UiRequest::ShowHome)
}

/// The exact action list of a location-list change. It does not depend
/// on the stored list: an identical payload persists and re-broadcasts
/// all the same.
pub open spec fn cities_update_actions(acts: Seq<ModelAction>, cs: Seq<CityInfo>) -> bool {
    &&& acts.len() == 7
    &&& acts[0] is PersistCities
    &&& acts[1] == ModelAction::SendUi(UiRequest::ShowStartup)
    &&& (acts[2] matches ModelAction::SendUi(UiRequest::SetStartupMessage(m)) && m@
        == "Waiting for cities forecasts"@)
    &&& (acts[3] matches ModelAction::SendUi(UiRequest::SetCitiesTitles(ts)) && ts@ == cs)
    &&& acts[4] is BroadcastTime
    &&& acts[5] is RefreshForecasts
    &&& acts[6] == ModelAction::SendUi(UiRequest::ShowHome)
}

/// The action list of a credentials change equal to the stored value:
/// only the switch back to the main view.
pub open spec fn show_home_only(acts: Seq<ModelAction>) -> bool {
    acts.len() == 1 && acts[0] == ModelAction::SendUi(UiRequest::ShowHome)
}

/// The periodic drains appended to every steady-state iteration.
pub open spec fn drain_actions(two_second_tick: bool, ten_minute_tick: bool) -> Seq<ModelAction> {
    (if two_second_tick {
        seq![ModelAction::BroadcastTime]
    } else {
        Seq::<ModelAction>::empty()
    }) + (if ten_minute_tick {
        seq![ModelAction::RefreshForecasts]
    } else {
        Seq::<ModelAction>::empty()
    })
}

impl Model {
    /// A model with no credentials, no locations and no key, as before
    /// the settings resources are loaded.
    pub fn new() -> (r: Self)
        ensures
            r.wifi_credentials.ssid@.len() == 0,
            r.wifi_credentials.pass@.len() == 0,
            r.cities_info@.len() == 0,
            r.weather_api_key@.len() == 0,
    {
        Model {
            wifi_credentials: WifiCredentials { ssid: String::new(), pass: String::new() },
            cities_info: Vec::new(),
            weather_api_key: String::new(),
        }
    }

    /// Loads the three settings resources from their texts. A resource
    /// that does not parse is a fatal startup error, named in reading
    /// order: credentials, then locations, then key. On success the
    /// state holds the parsed values and the returned messages
    /// pre-populate the credential and location editors.
    pub fn load_settings(&mut self, wifi_text: &str, cities_text: &str, key_text: &str) -> (r:
        Result<Vec<UiRequest>, StartupError>)
        ensures
            r is Ok <==> {
                &&& spec_split(wifi_text@, '\n').len() >= 2
                &&& spec_parse_cities_text(cities_text@) is Some
                &&& key_text@.len() > 0
            },
            spec_split(wifi_text@, '\n').len() < 2 ==> r == Err::<Vec<UiRequest>, StartupError>(
                StartupError::BadWifiResource,
            ),
            (spec_split(wifi_text@, '\n').len() >= 2 && spec_parse_cities_text(
                cities_text@,
            ) is None) ==> r == Err::<Vec<UiRequest>, StartupError>(
                StartupError::BadCitiesResource,
            ),
            (spec_split(wifi_text@, '\n').len() >= 2 && spec_parse_cities_text(
                cities_text@,
            ) is Some && key_text@.len() == 0) ==> r == Err::<Vec<UiRequest>, StartupError>(
                StartupError::BadKeyResource,
            ),
            r matches Ok(msgs) ==> {
                &&& final(self).wifi_credentials.ssid@ == spec_split(wifi_text@, '\n')[0]
                &&& final(self).wifi_credentials.pass@ == spec_split(wifi_text@, '\n')[1]
                &&& (spec_parse_cities_text(cities_text@) matches Some(fs) && cities_match_fields(
                    final(self).cities_info@,
                    fs,
                ))
                &&& final(self).weather_api_key@ == spec_split(key_text@, '\n')[0]
                &&& msgs@.len() == 3
                &&& (msgs@[0] matches UiRequest::SetWifiCreds(s, p) && s@ == spec_split(
                    wifi_text@,
                    '\n',
                )[0] && p@ == spec_split(wifi_text@, '\n')[1])
                &&& (msgs@[1] matches UiRequest::SetCitiesTitles(ts)
                    && ts@ == final(self).cities_info@)
                &&& (msgs@[2] matches UiRequest::SetCitiesSettings(ss)
                    && ss@ == final(self).cities_info@)
            },
    {
        let creds = match crate::settings::parse_wifi_text(wifi_text) {
            Some(c) => c,
            None => {
                return Err(StartupError::BadWifiResource);
            },
        };
        let cities = match crate::settings::parse_cities_text(cities_text) {
            Some(cs) => cs,
            None => {
                return Err(StartupError::BadCitiesResource);
            },
        };
        let key = match crate::settings::parse_key_text(key_text) {
            Some(k) => k,
            None => {
                return Err(StartupError::BadKeyResource);
            },
        };
        let mut msgs: Vec<UiRequest> = Vec::new();
        msgs.push(UiRequest::SetWifiCreds(creds.ssid.clone(), creds.pass.clone()));
        msgs.push(UiRequest::SetCitiesTitles(copy_cities(&cities)));
        msgs.push(UiRequest::SetCitiesSettings(copy_cities(&cities)));
        self.wifi_credentials = creds;
        self.cities_info = cities;
        self.weather_api_key = key;
        Ok(msgs)
    }

    /// The fixed startup chain run once connectivity is up: announce and
    /// await time synchronization, broadcast clocks, announce the first
    /// fetch, fetch, then switch to the main view.
    pub fn startup_actions(&self) -> (acts: Vec<ModelAction>)
        ensures
            acts@.len() == 6,
            (acts@[0] matches ModelAction::SendUi(UiRequest::SetStartupMessage(m)) && m@
                == "Waiting for Network Time Protocol server connection"@),
            acts@[1] is SyncTime,
            acts@[2] is BroadcastTime,
            (acts@[3] matches ModelAction::SendUi(UiRequest::SetStartupMessage(m)) && m@
                == "Waiting for cities forecasts"@),
            acts@[4] is RefreshForecasts,
            acts@[5] == ModelAction::SendUi(UiRequest::ShowHome),
    {
        let mut acts: Vec<ModelAction> = Vec::new();
        acts.push(
            ModelAction::SendUi(
                UiRequest::SetStartupMessage(
                    String::from_str("Waiting for Network Time Protocol server connection"),
                ),
            ),
        );
        acts.push(ModelAction::SyncTime);
        acts.push(ModelAction::BroadcastTime);
        acts.push(
            ModelAction::SendUi(
                UiRequest::SetStartupMessage(String::from_str("Waiting for cities forecasts")),
            ),
        );
        acts.push(ModelAction::RefreshForecasts);
        acts.push(ModelAction::SendUi(UiRequest::ShowHome));
        acts
    }

    /// Dispatches one request.
    ///
    /// A credentials change is compared with the stored value: when it
    /// differs it is stored, persisted and followed by a reconnect and a
    /// full re-broadcast; when it is identical nothing is stored and no
    /// reconnect happens. Either way the last action switches back to
    /// the main view.
    ///
    /// A location-list change replaces the whole list and always
    /// persists and re-broadcasts, without comparing against the stored
    /// list.
    pub fn handle_request(&mut self, req: ModelRequest) -> (acts: Vec<ModelAction>)
        ensures
            req matches ModelRequest::UpdateWifiCreds(s, p) ==> {
                if old(self).wifi_credentials.ssid@ != s@ || old(self).wifi_credentials.pass@
                    != p@ {
                    &&& wifi_update_actions(acts@)
                    &&& final(self).wifi_credentials.ssid@ == s@
                    &&& final(self).wifi_credentials.pass@ == p@
                    &&& final(self).cities_info == old(self).cities_info
                    &&& final(self).weather_api_key == old(self).weather_api_key
                } else {
                    &&& show_home_only(acts@)
                    &&& *final(self) == *old(self)
                }
            },
            req matches ModelRequest::UpdateCitiesInfo(cs) ==> {
                &&& cities_update_actions(acts@, cs@)
                &&& final(self).cities_info == cs
                &&& final(self).wifi_credentials == old(self).wifi_credentials
                &&& final(self).weather_api_key == old(self).weather_api_key
            },
    {
        match req {
            ModelRequest::UpdateWifiCreds(new_ssid, new_pass) => {
                let mut acts: Vec<ModelAction> = Vec::new();
                if !self.wifi_credentials.ssid.eq(&new_ssid) || !self.wifi_credentials.pass.eq(
                    &new_pass,
                ) {
                    self.wifi_credentials.ssid = new_ssid;
                    self.wifi_credentials.pass = new_pass;
                    acts.push(ModelAction::PersistWifi);
                    acts.push(ModelAction::Reconnect);
                    acts.push(
                        ModelAction::SendUi(
                            UiRequest::SetStartupMessage(
                                String::from_str("Waiting for cities forecasts"),
                            ),
                        ),
                    );
                    acts.push(ModelAction::BroadcastTime);
                    acts.push(ModelAction::RefreshForecasts);
                }
                acts.push(ModelAction::SendUi(UiRequest::ShowHome));
                acts
            },
            ModelRequest::UpdateCitiesInfo(cities_info) => {
                let mut acts: Vec<ModelAction> = Vec::new();
                acts.push(ModelAction::PersistCities);
                acts.push(ModelAction::SendUi(UiRequest::ShowStartup));
                acts.push(
                    ModelAction::SendUi(
                        UiRequest::SetStartupMessage(
                            String::from_str("Waiting for cities forecasts"),
                        ),
                    ),
                );
                acts.push(ModelAction::SendUi(UiRequest::SetCitiesTitles(copy_cities(&cities_info))));
                acts.push(ModelAction::BroadcastTime);
                acts.push(ModelAction::RefreshForecasts);
                acts.push(ModelAction::SendUi(UiRequest::ShowHome));
                self.cities_info = cities_info;
                acts
            },
        }
    }

    /// One steady-state iteration: dispatch at most one queued request,
    /// then drain the two periodic trigger flags in order. The runner
    /// sleeps between iterations; nothing here blocks.
    pub fn steady_step(
        &mut self,
        req: Option<ModelRequest>,
        two_second_tick: bool,
        ten_minute_tick: bool,
    ) -> (acts: Vec<ModelAction>)
        ensures
            req is None ==> acts@ == drain_actions(two_second_tick, ten_minute_tick)
                && *final(self) == *old(self),
            req matches Some(ModelRequest::UpdateWifiCreds(s, p)) ==> {
                if old(self).wifi_credentials.ssid@ != s@ || old(self).wifi_credentials.pass@
                    != p@ {
                    &&& acts@.len() == 6 + drain_actions(two_second_tick, ten_minute_tick).len()
                    &&& wifi_update_actions(acts@.subrange(0, 6))
                    &&& acts@.skip(6) == drain_actions(two_second_tick, ten_minute_tick)
                    &&& final(self).wifi_credentials.ssid@ == s@
                    &&& final(self).wifi_credentials.pass@ == p@
                    &&& final(self).cities_info == old(self).cities_info
                    &&& final(self).weather_api_key == old(self).weather_api_key
                } else {
                    &&& acts@.len() == 1 + drain_actions(two_second_tick, ten_minute_tick).len()
                    &&& show_home_only(acts@.subrange(0, 1))
                    &&& acts@.skip(1) == drain_actions(two_second_tick, ten_minute_tick)
                    &&& *final(self) == *old(self)
                }
            },
            req matches Some(ModelRequest::UpdateCitiesInfo(cs)) ==> {
                &&& acts@.len() == 7 + drain_actions(two_second_tick, ten_minute_tick).len()
                &&& cities_update_actions(acts@.subrange(0, 7), cs@)
                &&& acts@.skip(7) == drain_actions(two_second_tick, ten_minute_tick)
                &&& final(self).cities_info == cs
                &&& final(self).wifi_credentials == old(self).wifi_credentials
                &&& final(self).weather_api_key == old(self).weather_api_key
            },
    {
        let mut acts: Vec<ModelAction> = match req {
            Some(r) => self.handle_request(r),
            None => Vec::new(),
        };
        let ghost base = acts@;
        if two_second_tick {
            acts.push(ModelAction::BroadcastTime);
        }
        if ten_minute_tick {
            acts.push(ModelAction::RefreshForecasts);
        }
        proof {
            assert(acts@ =~= base + drain_actions(two_second_tick, ten_minute_tick));
            assert(acts@.subrange(0, base.len() as int) =~= base);
            assert(acts@.skip(base.len() as int) =~= drain_actions(
                two_second_tick,
                ten_minute_tick,
            ));
        }
        acts
    }
}

} // verus!
