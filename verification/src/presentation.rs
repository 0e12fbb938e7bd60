//! The presentation actor: owner of everything shown on screen.
//!
//! The actor holds the visibility of the five panes, the text of every
//! label, the editor contents and the per-slot snapshots. One loop
//! iteration applies at most one inbound display update, then the
//! edge-triggered input flags; widget construction and rendering stay
//! outside. Location entries are validated here, before a request is
//! sent: an invalid entry surfaces inline and never reaches the model.

use vstd::prelude::*;

use crate::messages::{CityForecast, CityInfo, ModelRequest, UiRequest};
use crate::model::copy_cities;
use crate::validation::{check_for_errors, city_error_text, first_invalid_at, zip_ok};

verus! {

/// The fixed list the state dropdown offers.
pub const STATES: &'static str = "AL\nAK\nAZ\nAR\nCA\nCO\nCT\nDE\nDC\nFL\nGA\nGU\nHI\nID\nIL\nIN\nIA\nKS\nKY\nLA\nMD\nMA\nMI\nMN\nMS\nMO\nMT\nNE\nNV\nNH\nNJ\nNM\nNY\nNC\nND\nOH\nOK\nOR\nPA\nPR\nRI\nSC\nSD\nTN\nTX\nUT\nVT\nVA\nVI\nWA\nWV\nWI\nWY";

/// The fixed list the timezone dropdown offers.
pub const TIMEZONES: &'static str = "US/Alaska\nUS/Aleutian\nUS/Arizona\nUS/Central\nUS/EastIndiana\nUS/Eastern\nUS/Hawaii\nUS/IndianaStarke\nUS/Michigan\nUS/Mountain\nUS/Pacific\nUS/Samoa";

/// The on-screen state.
pub struct Presentation {
    pub startup_visible: bool,
    pub nav_visible: bool,
    pub home_visible: bool,
    pub wifi_settings_visible: bool,
    pub cities_settings_visible: bool,
    pub nav_selected: u16,
    pub startup_message: String,
    pub wifi_error: String,
    pub wifi_ssid_entry: String,
    pub wifi_pass_entry: String,
    pub wifi_editing: bool,
    pub cities_editor: Vec<CityInfo>,
    pub cities_error: String,
    pub cities_editing: bool,
    pub titles: Vec<String>,
    pub times: Vec<String>,
    pub dates: Vec<String>,
    pub forecasts: Vec<Option<CityForecast>>,
}

impl Presentation {
    /// The four per-slot vectors always hold one entry per slot.
    pub open spec fn wf(&self) -> bool {
        &&& self.titles@.len() == 4
        &&& self.times@.len() == 4
        &&& self.dates@.len() == 4
        &&& self.forecasts@.len() == 4
    }

    /// A fresh screen: every pane hidden, every text empty, nothing
    /// being edited, no snapshot.
    pub fn new() -> (r: Self)
        ensures
            r.wf(),
            !r.startup_visible && !r.nav_visible && !r.home_visible && !r.wifi_settings_visible
                && !r.cities_settings_visible,
            !r.wifi_editing && !r.cities_editing,
            r.nav_selected == 0,
            r.startup_message@.len() == 0,
            r.wifi_error@.len() == 0,
            r.wifi_ssid_entry@.len() == 0,
            r.wifi_pass_entry@.len() == 0,
            r.cities_error@.len() == 0,
            r.cities_editor@.len() == 0,
            forall|i: int| 0 <= i < 4 ==> (#[trigger] r.titles@[i])@.len() == 0,
            forall|i: int| 0 <= i < 4 ==> (#[trigger] r.times@[i])@.len() == 0,
            forall|i: int| 0 <= i < 4 ==> (#[trigger] r.dates@[i])@.len() == 0,
            forall|i: int| 0 <= i < 4 ==> (#[trigger] r.forecasts@[i]) is None,
    {
        let mut titles: Vec<String> = Vec::new();
        let mut times: Vec<String> = Vec::new();
        let mut dates: Vec<String> = Vec::new();
        let mut forecasts: Vec<Option<CityForecast>> = Vec::new();
        let mut i: usize = 0;
        while i < 4
            invariant
                0 <= i <= 4,
                titles@.len() == i,
                times@.len() == i,
                dates@.len() == i,
                forecasts@.len() == i,
                forall|j: int| 0 <= j < i ==> (#[trigger] titles@[j])@.len() == 0,
                forall|j: int| 0 <= j < i ==> (#[trigger] times@[j])@.len() == 0,
                forall|j: int| 0 <= j < i ==> (#[trigger] dates@[j])@.len() == 0,
                forall|j: int| 0 <= j < i ==> (#[trigger] forecasts@[j]) is None,
            decreases 4 - i,
        {
            titles.push(String::new());
            times.push(String::new());
            dates.push(String::new());
            forecasts.push(None);
            i = i + 1;
        }
        Presentation {
            startup_visible: false,
            nav_visible: false,
            home_visible: false,
            wifi_settings_visible: false,
            cities_settings_visible: false,
            nav_selected: 0,
            startup_message: String::new(),
            wifi_error: String::new(),
            wifi_ssid_entry: String::new(),
            wifi_pass_entry: String::new(),
            wifi_editing: false,
            cities_editor: Vec::new(),
            cities_error: String::new(),
            cities_editing: false,
            titles,
            times,
            dates,
            forecasts,
        }
    }
}

/// The slot title: the location's name over its region and postal code.
pub open spec fn spec_city_title(c: CityInfo) -> Seq<char> {
    c.city_name@ + "\n"@ + c.state@ + " "@ + c.zipcode@
}

/// Renders one slot title.
pub fn city_title(c: &CityInfo) -> (r: String)
    ensures
        r@ == spec_city_title(*c),
{
    let mut r = c.city_name.clone();
    r.append("\n");
    r.append(c.state.as_str());
    r.append(" ");
    r.append(c.zipcode.as_str());
    r
}

/// What a display update may address: slot messages stay in range and a
/// title list has at most one entry per slot.
pub open spec fn msg_in_range(m: UiRequest) -> bool {
    match m {
        UiRequest::SetCityTime(i, _, _) => i < 4,
        UiRequest::SetCityForecast(i, _) => i < 4,
        UiRequest::SetCitiesTitles(cs) => cs@.len() <= 4,
        _ => true,
    }
}

/// Whether a message replaces slot `i`'s snapshot.
pub open spec fn targets_slot(m: UiRequest, i: int) -> bool {
    m matches UiRequest::SetCityForecast(s, _) && s == i
}

/// Slot `i`'s snapshot after a message list is applied to `init`: the
/// payload of the last message addressing the slot, or `init` when none
/// does.
pub open spec fn snapshot_after(
    msgs: Seq<UiRequest>,
    i: int,
    init: Option<CityForecast>,
) -> Option<CityForecast>
    decreases msgs.len(),
{
    if msgs.len() == 0 {
        init
    } else {
        match msgs.last() {
            UiRequest::SetCityForecast(s, cf) => if s == i {
                Some(cf)
            } else {
                snapshot_after(msgs.drop_last(), i, init)
            },
            _ => snapshot_after(msgs.drop_last(), i, init),
        }
    }
}

/// A message that does not address a slot leaves that slot's outcome
/// over any prefix unchanged.
pub proof fn lemma_snapshot_after_untargeted(
    msgs: Seq<UiRequest>,
    i: int,
    init: Option<CityForecast>,
)
    requires
        forall|j: int| 0 <= j < msgs.len() ==> !targets_slot(#[trigger] msgs[j], i),
    ensures
        snapshot_after(msgs, i, init) == init,
    decreases msgs.len(),
{
    if msgs.len() > 0 {
        assert(!targets_slot(msgs.last(), i));
        lemma_snapshot_after_untargeted(msgs.drop_last(), i, init);
    }
}

/// All fields equal but the clock texts.
pub open spec fn eq_but_times(a: Presentation, b: Presentation) -> bool {
    &&& a.startup_visible == b.startup_visible
    &&& a.nav_visible == b.nav_visible
    &&& a.home_visible == b.home_visible
    &&& a.wifi_settings_visible == b.wifi_settings_visible
    &&& a.cities_settings_visible == b.cities_settings_visible
    &&& a.nav_selected == b.nav_selected
    &&& a.startup_message == b.startup_message
    &&& a.wifi_error == b.wifi_error
    &&& a.wifi_ssid_entry == b.wifi_ssid_entry
    &&& a.wifi_pass_entry == b.wifi_pass_entry
    &&& a.wifi_editing == b.wifi_editing
    &&& a.cities_editor == b.cities_editor
    &&& a.cities_error == b.cities_error
    &&& a.cities_editing == b.cities_editing
    &&& a.titles == b.titles
    &&& a.forecasts == b.forecasts
}

/// All fields equal but the slot titles.
pub open spec fn eq_but_titles(a: Presentation, b: Presentation) -> bool {
    &&& a.startup_visible == b.startup_visible
    &&& a.nav_visible == b.nav_visible
    &&& a.home_visible == b.home_visible
    &&& a.wifi_settings_visible == b.wifi_settings_visible
    &&& a.cities_settings_visible == b.cities_settings_visible
    &&& a.nav_selected == b.nav_selected
    &&& a.startup_message == b.startup_message
    &&& a.wifi_error == b.wifi_error
    &&& a.wifi_ssid_entry == b.wifi_ssid_entry
    &&& a.wifi_pass_entry == b.wifi_pass_entry
    &&& a.wifi_editing == b.wifi_editing
    &&& a.cities_editor == b.cities_editor
    &&& a.cities_error == b.cities_error
    &&& a.cities_editing == b.cities_editing
    &&& a.times == b.times
    &&& a.dates == b.dates
    &&& a.forecasts == b.forecasts
}

/// All fields equal but the snapshots.
pub open spec fn eq_but_forecasts(a: Presentation, b: Presentation) -> bool {
    &&& a.startup_visible == b.startup_visible
    &&& a.nav_visible == b.nav_visible
    &&& a.home_visible == b.home_visible
    &&& a.wifi_settings_visible == b.wifi_settings_visible
    &&& a.cities_settings_visible == b.cities_settings_visible
    &&& a.nav_selected == b.nav_selected
    &&& a.startup_message == b.startup_message
    &&& a.wifi_error == b.wifi_error
    &&& a.wifi_ssid_entry == b.wifi_ssid_entry
    &&& a.wifi_pass_entry == b.wifi_pass_entry
    &&& a.wifi_editing == b.wifi_editing
    &&& a.cities_editor == b.cities_editor
    &&& a.cities_error == b.cities_error
    &&& a.cities_editing == b.cities_editing
    &&& a.titles == b.titles
    &&& a.times == b.times
    &&& a.dates == b.dates
}

impl Presentation {
    /// Applies one display update. A snapshot message replaces exactly
    /// its own slot's snapshot; a message that does not name a slot
    /// leaves every snapshot in place.
    pub fn apply_ui_request(&mut self, msg: UiRequest)
        requires
            old(self).wf(),
            msg_in_range(msg),
        ensures
            final(self).wf(),
            msg is ShowStartup ==> *final(self) == (Presentation {
                wifi_settings_visible: false,
                nav_visible: false,
                home_visible: false,
                startup_visible: true,
                ..*old(self)
            }),
            (msg matches UiRequest::SetStartupMessage(m) ==> *final(self) == (Presentation {
                startup_message: m,
                ..*old(self)
            })),
            msg is ShowHome ==> *final(self) == (Presentation {
                startup_visible: false,
                nav_visible: true,
                nav_selected: 0u16,
                home_visible: true,
                ..*old(self)
            }),
            msg is ShowWifiSettings ==> *final(self) == (Presentation {
                startup_visible: false,
                nav_selected: 1u16,
                nav_visible: true,
                wifi_settings_visible: true,
                wifi_editing: false,
                ..*old(self)
            }),
            (msg matches UiRequest::SetWifiSettingsErrorMessage(m) ==> *final(self)
                == (Presentation { wifi_error: m, ..*old(self) })),
            (msg matches UiRequest::SetCityTime(i, t, d) ==> {
                &&& final(self).times@ == old(self).times@.update(i as int, t)
                &&& final(self).dates@ == old(self).dates@.update(i as int, d)
                &&& eq_but_times(*final(self), *old(self))
            }),
            (msg matches UiRequest::SetCitiesSettings(cs) ==> *final(self) == (Presentation {
                cities_editor: cs,
                ..*old(self)
            })),
            (msg matches UiRequest::SetCitiesTitles(cs) ==> {
                &&& final(self).titles@.len() == 4
                &&& forall|i: int|
                    0 <= i < cs@.len() ==> final(self).titles@[i]@ == spec_city_title(
                        #[trigger] cs@[i],
                    )
                &&& forall|i: int|
                    cs@.len() <= i < 4 ==> final(self).titles@[i] == old(self).titles@[i]
                &&& eq_but_titles(*final(self), *old(self))
            }),
            (msg matches UiRequest::SetCityForecast(i, cf) ==> {
                &&& final(self).forecasts@ == old(self).forecasts@.update(i as int, Some(cf))
                &&& eq_but_forecasts(*final(self), *old(self))
            }),
            (msg matches UiRequest::SetWifiCreds(s, p) ==> *final(self) == (Presentation {
                wifi_ssid_entry: s,
                wifi_pass_entry: p,
                ..*old(self)
            })),
            forall|i: int|
                0 <= i < 4 && !targets_slot(msg, i) ==> final(self).forecasts@[i] == old(
                    self,
                ).forecasts@[i],
    {
        match msg {
            UiRequest::ShowStartup => {
                self.wifi_settings_visible = false;
                self.nav_visible = false;
                self.home_visible = false;
                self.startup_visible = true;
            },
            UiRequest::SetStartupMessage(m) => {
                self.startup_message = m;
            },
            UiRequest::ShowHome => {
                self.startup_visible = false;
                self.nav_visible = true;
                self.nav_selected = 0;
                self.home_visible = true;
            },
            UiRequest::ShowWifiSettings => {
                self.startup_visible = false;
                self.nav_selected = 1;
                self.nav_visible = true;
                self.wifi_settings_visible = true;
                self.wifi_editing = false;
            },
            UiRequest::SetWifiSettingsErrorMessage(m) => {
                self.wifi_error = m;
            },
            UiRequest::SetCityTime(i, t, d) => {
                self.times.set(i, t);
                self.dates.set(i, d);
            },
            UiRequest::SetCitiesSettings(cs) => {
                self.cities_editor = cs;
            },
            UiRequest::SetCitiesTitles(cs) => {
                let mut i: usize = 0;
                while i < cs.len()
                    invariant
                        0 <= i <= cs@.len(),
                        old(self).wf(),
                        cs@.len() <= 4,
                        self.titles@.len() == 4,
                        forall|j: int|
                            0 <= j < i ==> self.titles@[j]@ == spec_city_title(#[trigger] cs@[j]),
                        forall|j: int|
                            i <= j < 4 ==> self.titles@[j] == old(self).titles@[j],
                        eq_but_titles(*self, *old(self)),
                    decreases cs@.len() - i,
                {
                    let t = city_title(&cs[i]);
                    self.titles.set(i, t);
                    i = i + 1;
                }
            },
            UiRequest::SetCityForecast(i, cf) => {
                self.forecasts.set(i, Some(cf));
            },
            UiRequest::SetWifiCreds(s, p) => {
                self.wifi_ssid_entry = s;
                self.wifi_pass_entry = p;
            },
        }
    }

    /// Drains a list of display updates in order. Each slot's snapshot
    /// ends as the payload of the last message addressing it; a slot no
    /// message addresses keeps the snapshot it had, so a failed fetch,
    /// which produced no message, leaves stale data standing.
    pub fn apply_all(&mut self, msgs: Vec<UiRequest>)
        requires
            old(self).wf(),
            forall|j: int| 0 <= j < msgs@.len() ==> msg_in_range(#[trigger] msgs@[j]),
        ensures
            final(self).wf(),
            forall|i: int|
                0 <= i < 4 ==> final(self).forecasts@[i] == snapshot_after(
                    msgs@,
                    i,
                    old(self).forecasts@[i],
                ),
            forall|i: int|
                0 <= i < 4 && (forall|j: int|
                    0 <= j < msgs@.len() ==> !targets_slot(#[trigger] msgs@[j], i))
                    ==> final(self).forecasts@[i] == old(self).forecasts@[i],
    {
        let ghost orig = msgs@;
        let mut rest = msgs;
        while rest.len() > 0
            invariant
                self.wf(),
                rest@ =~= orig.skip(orig.len() - rest@.len()),
                rest@.len() <= orig.len(),
                forall|j: int| 0 <= j < orig.len() ==> msg_in_range(#[trigger] orig[j]),
                forall|i: int|
                    0 <= i < 4 ==> self.forecasts@[i] == snapshot_after(
                        orig.take(orig.len() - rest@.len()),
                        i,
                        old(self).forecasts@[i],
                    ),
            decreases rest@.len(),
        {
            let ghost k = orig.len() - rest@.len();
            let m = rest.remove(0);
            proof {
                assert(m == orig[k]);
                assert(rest@ =~= orig.skip(k + 1));
            }
            let ghost pre = *self;
            self.apply_ui_request(m);
            proof {
                assert forall|i: int|
                    0 <= i < 4 implies self.forecasts@[i] == snapshot_after(
                    orig.take(k + 1),
                    i,
                    old(self).forecasts@[i],
                ) by {
                    assert(orig.take(k + 1).drop_last() =~= orig.take(k));
                    assert(orig.take(k + 1).last() == orig[k]);
                    if targets_slot(orig[k], i) {
                    } else {
                        assert(self.forecasts@[i] == pre.forecasts@[i]);
                    }
                }
            }
        }
        proof {
            assert(orig.take(orig.len() - rest@.len()) =~= orig);
            assert forall|i: int|
                0 <= i < 4 && (forall|j: int|
                    0 <= j < orig.len() ==> !targets_slot(#[trigger] orig[j], i)) implies
                self.forecasts@[i] == old(self).forecasts@[i] by {
                lemma_snapshot_after_untargeted(orig, i, old(self).forecasts@[i]);
            }
        }
    }
}

/// What one tick of user input hands the loop: a navigation selection
/// or one button of a settings pane, with the editor text the widgets
/// held at the press.
pub enum UiInput {
    NavSelect(u16),
    WifiEdit,
    WifiSave(String, String),
    WifiExit,
    CitiesEdit,
    CitiesSave(Vec<CityInfo>),
    CitiesExit,
}

impl Presentation {
    /// Handles one input event, returning the requests to queue for the
    /// model actor. A location save is validated first: when a postal
    /// code is invalid, the per-slot error line is shown inline, the
    /// pane stays, and nothing is sent.
    pub fn handle_input(&mut self, input: UiInput) -> (out: Vec<ModelRequest>)
        requires
            old(self).wf(),
        ensures
            final(self).wf(),
            (input matches UiInput::NavSelect(b) ==> out@.len() == 0 && {
                if b == 0 {
                    *final(self) == (Presentation {
                        nav_selected: 0u16,
                        cities_settings_visible: false,
                        wifi_settings_visible: false,
                        home_visible: true,
                        ..*old(self)
                    })
                } else if b == 1 {
                    *final(self) == (Presentation {
                        nav_selected: 1u16,
                        home_visible: false,
                        cities_settings_visible: false,
                        wifi_settings_visible: true,
                        wifi_editing: false,
                        ..*old(self)
                    })
                } else if b == 2 {
                    *final(self) == (Presentation {
                        nav_selected: 2u16,
                        home_visible: false,
                        wifi_settings_visible: false,
                        cities_settings_visible: true,
                        cities_editing: false,
                        cities_error: final(self).cities_error,
                        ..*old(self)
                    }) && final(self).cities_error@ == ""@
                } else {
                    *final(self) == (Presentation { nav_selected: b, ..*old(self) })
                }
            }),
            input is WifiEdit ==> out@.len() == 0 && *final(self) == (Presentation {
                wifi_editing: true,
                ..*old(self)
            }),
            (input matches UiInput::WifiSave(s, p) ==> {
                &&& out@.len() == 1
                &&& (out@[0] matches ModelRequest::UpdateWifiCreds(os, op) && os@ == s@ && op@
                    == p@)
                &&& final(self).wifi_ssid_entry@ == s@
                &&& final(self).wifi_pass_entry@ == p@
                &&& !final(self).wifi_settings_visible
            }),
            input is WifiExit ==> out@.len() == 0 && *final(self) == (Presentation {
                nav_selected: 0u16,
                wifi_settings_visible: false,
                home_visible: true,
                ..*old(self)
            }),
            input is CitiesEdit ==> out@.len() == 0 && *final(self) == (Presentation {
                cities_editing: true,
                ..*old(self)
            }),
            (input matches UiInput::CitiesSave(entries) ==> {
                if forall|i: int| 0 <= i < entries@.len() ==> zip_ok(#[trigger] entries@[i].zipcode@) {
                    &&& out@.len() == 1
                    &&& (out@[0] matches ModelRequest::UpdateCitiesInfo(cs) && cs@ == entries@)
                    &&& final(self).cities_editor@ == entries@
                    &&& final(self).cities_error@ == ""@
                    &&& !final(self).cities_settings_visible
                } else {
                    &&& out@.len() == 0
                    &&& (exists|i: int|
                        #[trigger] first_invalid_at(entries@, i) && final(self).cities_error@
                            == city_error_text(entries@, i))
                    &&& final(self).cities_settings_visible == old(self).cities_settings_visible
                    &&& final(self).cities_editor == old(self).cities_editor
                }
            }),
            input is CitiesExit ==> out@.len() == 0 && *final(self) == (Presentation {
                nav_selected: 0u16,
                cities_settings_visible: false,
                home_visible: true,
                ..*old(self)
            }),
    {
        match input {
            UiInput::NavSelect(b) => {
                self.nav_selected = b;
                if b == 0 {
                    self.cities_settings_visible = false;
                    self.wifi_settings_visible = false;
                    self.home_visible = true;
                } else if b == 1 {
                    self.home_visible = false;
                    self.cities_settings_visible = false;
                    self.wifi_settings_visible = true;
                    self.wifi_editing = false;
                } else if b == 2 {
                    self.home_visible = false;
                    self.wifi_settings_visible = false;
                    self.cities_settings_visible = true;
                    self.cities_editing = false;
                    self.cities_error = String::from_str("");
                }
                Vec::new()
            },
            UiInput::WifiEdit => {
                self.wifi_editing = true;
                Vec::new()
            },
            UiInput::WifiSave(ssid, pass) => {
                self.wifi_ssid_entry = ssid.clone();
                self.wifi_pass_entry = pass.clone();
                self.wifi_settings_visible = false;
                let mut out: Vec<ModelRequest> = Vec::new();
                out.push(ModelRequest::UpdateWifiCreds(ssid, pass));
                out
            },
            UiInput::WifiExit => {
                self.nav_selected = 0;
                self.wifi_settings_visible = false;
                self.home_visible = true;
                Vec::new()
            },
            UiInput::CitiesEdit => {
                self.cities_editing = true;
                Vec::new()
            },
            UiInput::CitiesSave(entries) => {
                match check_for_errors(copy_cities(&entries)) {
                    Ok(()) => {
                        self.cities_editor = copy_cities(&entries);
                        self.cities_error = String::from_str("");
                        self.cities_settings_visible = false;
                        let mut out: Vec<ModelRequest> = Vec::new();
                        out.push(ModelRequest::UpdateCitiesInfo(entries));
                        out
                    },
                    Err(e) => {
                        self.cities_error = e;
                        Vec::new()
                    },
                }
            },
            UiInput::CitiesExit => {
                self.nav_selected = 0;
                self.cities_settings_visible = false;
                self.home_visible = true;
                Vec::new()
            },
        }
    }
}

/// The slot badge colour for an ultraviolet index, as the display's
/// red, green and blue parts.
pub fn get_uv_bg_color(uv_value: u8) -> (r: (u8, u8, u8))
    ensures
        uv_value <= 2 ==> r == (0u8, 128u8, 0u8),
        3 <= uv_value <= 5 ==> r == (255u8, 255u8, 0u8),
        6 <= uv_value <= 7 ==> r == (255u8, 140u8, 0u8),
        8 <= uv_value <= 10 ==> r == (255u8, 0u8, 0u8),
        uv_value >= 11 ==> r == (153u8, 50u8, 204u8),
{
    if uv_value <= 2 {
        (0, 128, 0)
    } else if uv_value <= 5 {
        (255, 255, 0)
    } else if uv_value <= 7 {
        (255, 140, 0)
    } else if uv_value <= 10 {
        (255, 0, 0)
    } else {
        (153, 50, 204)
    }
}

/// The slot badge colour for an air-quality index; an index outside the
/// provider's one-to-six scale renders white.
pub fn get_aqi_bg_color(aqi_value: u16) -> (r: (u8, u8, u8))
    ensures
        aqi_value == 1 ==> r == (0u8, 128u8, 0u8),
        aqi_value == 2 ==> r == (255u8, 255u8, 0u8),
        aqi_value == 3 ==> r == (255u8, 140u8, 0u8),
        aqi_value == 4 ==> r == (255u8, 0u8, 0u8),
        aqi_value == 5 ==> r == (153u8, 50u8, 204u8),
        aqi_value == 6 ==> r == (139u8, 28u8, 98u8),
        (aqi_value == 0 || aqi_value > 6) ==> r == (255u8, 255u8, 255u8),
{
    match aqi_value {
        1 => (0, 128, 0),
        2 => (255, 255, 0),
        3 => (255, 140, 0),
        4 => (255, 0, 0),
        5 => (153, 50, 204),
        6 => (139, 28, 98),
        _ => (255, 255, 255),
    }
}

} // verus!

verus! {

/// Whether the pattern occurs in `s` starting at position `i`.
pub open spec fn match_at(s: Seq<char>, pat: Seq<char>, i: int) -> bool {
    0 <= i && i + pat.len() <= s.len() && s.subrange(i, i + pat.len()) == pat
}

/// The dropdown position of a region code in the fixed region list:
/// the first position the code occurs at, divided by the width of one
/// entry with its line break; a code not in the list selects the first
/// entry.
pub fn find_state_position(states: &str, state: &str) -> (r: u16)
    requires
        states@.len() <= 65535,
    ensures
        (exists|i: int| match_at(states@, state@, i)) ==> exists|i: int|
            {
                &&& #[trigger] match_at(states@, state@, i)
                &&& forall|j: int| 0 <= j < i ==> !match_at(states@, state@, j)
                &&& r == i / 3
            },
        !(exists|i: int| match_at(states@, state@, i)) ==> r == 0,
{
    let n = states.unicode_len();
    let m = state.unicode_len();
    if m > n {
        proof {
            assert forall|i: int| !match_at(states@, state@, i) by {}
        }
        return 0;
    }
    let mut i: usize = 0;
    while i <= n - m
        invariant
            0 <= i <= n - m + 1,
            m <= n <= 65535,
            n == states@.len(),
            m == state@.len(),
            forall|j: int| 0 <= j < i ==> !match_at(states@, state@, j),
        decreases n - m + 1 - i,
    {
        let mut j: usize = 0;
        let mut matched = true;
        while j < m
            invariant
                0 <= j <= m,
                i + m <= n,
                n == states@.len(),
                m == state@.len(),
                matched ==> forall|k: int| 0 <= k < j ==> states@[i + k] == state@[k],
                !matched ==> exists|k: int| 0 <= k < m && states@[i + k] != state@[k],
            decreases m - j,
        {
            if states.get_char(i + j) != state.get_char(j) {
                proof {
                    assert(states@[i + j] != state@[j as int]);
                }
                matched = false;
                j = m;
            } else {
                j = j + 1;
            }
        }
        if matched {
            proof {
                assert(states@.subrange(i as int, i + m) =~= state@);
                assert(match_at(states@, state@, i as int));
            }
            return (i / 3) as u16;
        }
        proof {
            if match_at(states@, state@, i as int) {
                assert(states@.subrange(i as int, i + m) == state@);
                let k = choose|k: int| 0 <= k < m && states@[i + k] != state@[k];
                assert(states@.subrange(i as int, i + m)[k] == states@[i + k]);
                assert(false);
            }
        }
        i = i + 1;
    }
    proof {
        assert forall|j: int| !match_at(states@, state@, j) by {
            if 0 <= j < i {
            } else if j >= i {
                assert(j + state@.len() > states@.len());
            }
        }
    }
    0
}

/// The dropdown position of a timezone name in the fixed timezone list:
/// the first line equal to the name; a name not in the list selects the
/// first entry.
pub fn find_timezone_position(timezones: &str, timezone: &str) -> (r: u16)
    requires
        timezones@.len() <= 65000,
    ensures
        (exists|k: int|
            0 <= k < crate::textcodec::spec_split(timezones@, '\n').len()
                && crate::textcodec::spec_split(timezones@, '\n')[k] == timezone@) ==> exists|
            k: int,
        |
            {
                &&& 0 <= k < crate::textcodec::spec_split(timezones@, '\n').len()
                &&& #[trigger] crate::textcodec::spec_split(timezones@, '\n')[k] == timezone@
                &&& forall|j: int|
                    0 <= j < k ==> crate::textcodec::spec_split(timezones@, '\n')[j] != timezone@
                &&& r == k
            },
        !(exists|k: int|
            0 <= k < crate::textcodec::spec_split(timezones@, '\n').len()
                && crate::textcodec::spec_split(timezones@, '\n')[k] == timezone@) ==> r == 0,
{
    let parts = crate::textcodec::split_on(timezones, '\n');
    let needle = timezone.to_owned();
    proof {
        crate::textcodec::lemma_split_count(timezones@, '\n');
        assert(crate::textcodec::str_views(parts@).len() == parts@.len());
    }
    let mut k: usize = 0;
    while k < parts.len()
        invariant
            0 <= k <= parts@.len(),
            parts@.len() <= 65001,
            crate::textcodec::str_views(parts@) == crate::textcodec::spec_split(timezones@, '\n'),
            needle@ == timezone@,
            forall|j: int|
                0 <= j < k ==> crate::textcodec::spec_split(timezones@, '\n')[j] != timezone@,
        decreases parts@.len() - k,
    {
        proof {
            assert(crate::textcodec::spec_split(timezones@, '\n')[k as int] == parts@[k as int]@);
        }
        if parts[k].eq(&needle) {
            proof {
                assert(crate::textcodec::spec_split(timezones@, '\n')[k as int] == timezone@);
            }
            return k as u16;
        }
        k = k + 1;
    }
    0
}

} // verus!
