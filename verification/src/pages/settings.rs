//! Settings page: switching features on and off, what the bridge answers to a
//! write, the return from Spotify's sign-in, and what each feature row shows.

use crate::api::{AdapterSettings, AppSettings};
use crate::settings_context::{NavigationVisibility, SettingsContext};
use crate::text::{
    cat2, contains, has_prefix, joined, joined_pieces_split, occurs_in, opt_str, opt_text, same,
    split, split_on, strip_prefix, texts, whole_text_is_one_piece,
};
use crate::url::{
    decoded_text, decoding_undoes_encoding, encoded_text_stays_in_its_parameter, keyed_address,
    percent_encoded,
};
use vstd::prelude::*;
use vstd::string::StrSliceExecFns;
use vstd::utf8::encode_utf8;

pub mod features;
pub mod providers;
pub mod spotify_setup;
pub mod zone_table;

verus! {

// ── Copying to the clipboard ────────────────────────────────────────────────

/// How far a copy button has got.
#[derive(Clone, Copy, Debug, PartialEq, Eq, Structural)]
pub enum CopyState {
    Idle,
    Copying,
    Copied,
    Failed,
}

impl Default for CopyState {
    fn default() -> (r: Self)
        ensures
            r == CopyState::Idle,
    {
        CopyState::Idle
    }
}

impl CopyState {
    /// The text on the button; an idle button says what it is for.
    pub fn label(self, idle_label: &'static str) -> (r: &'static str)
        ensures
            r@ == (match self {
                CopyState::Idle => idle_label@,
                CopyState::Copying => "Copying…"@,
                CopyState::Copied => "Copied"@,
                CopyState::Failed => "Copy failed"@,
            }),
    {
        match self {
            CopyState::Idle => idle_label,
            CopyState::Copying => "Copying…",
            CopyState::Copied => "Copied",
            CopyState::Failed => "Copy failed",
        }
    }

    /// The state that a finished copy leaves.
    pub fn finished(copied: bool) -> (r: Self)
        ensures
            r == (if copied {
                CopyState::Copied
            } else {
                CopyState::Failed
            }),
    {
        if copied {
            CopyState::Copied
        } else {
            CopyState::Failed
        }
    }

    /// The state once `shown` has been on display for its time. A newer state
    /// stays.
    pub fn expired(self, shown: CopyState) -> (r: Self)
        ensures
            r == (if self == shown {
                CopyState::Idle
            } else {
                self
            }),
    {
        if self == shown {
            CopyState::Idle
        } else {
            self
        }
    }
}

/// What pressing a copy button does, given what the browser offers.
#[derive(Clone, Copy, Debug, PartialEq, Eq, Structural)]
pub enum CopyRoute {
    /// There is no window to copy from.
    Unavailable,
    /// Write through the asynchronous clipboard.
    Clipboard,
    /// Select a text area and copy from it.
    Legacy,
}

/// Picks the way to copy: the clipboard where there is one, else a text area.
pub fn copy_route(has_window: bool, has_clipboard: bool) -> (r: CopyRoute)
    ensures
        r is Unavailable <==> !has_window,
        r is Clipboard <==> has_window && has_clipboard,
        r is Legacy <==> has_window && !has_clipboard,
{
    if !has_window {
        CopyRoute::Unavailable
    } else if has_clipboard {
        CopyRoute::Clipboard
    } else {
        CopyRoute::Legacy
    }
}

// ── Provider actions ────────────────────────────────────────────────────────

/// How far a provider action (save, connect, disconnect) has got.
#[derive(Clone, Copy, Debug, PartialEq, Eq, Structural)]
pub enum ProviderActionState {
    Idle,
    Loading,
    Success,
    Failed,
}

impl Default for ProviderActionState {
    fn default() -> (r: Self)
        ensures
            r == ProviderActionState::Idle,
    {
        ProviderActionState::Idle
    }
}

/// The message of an action that has come to an end.
pub open spec fn action_message(action: ProviderActionState) -> Option<Seq<char>> {
    match action {
        ProviderActionState::Idle => None,
        ProviderActionState::Loading => None,
        ProviderActionState::Success => Some("Updated."@),
        ProviderActionState::Failed => Some(
            "Something went wrong. Try again or open Client settings."@,
        ),
    }
}

impl ProviderActionState {
    /// What to say of an action that has come to an end.
    pub fn message(self) -> (r: Option<&'static str>)
        ensures
            opt_str(r) == action_message(self),
    {
        match self {
            ProviderActionState::Idle | ProviderActionState::Loading => None,
            ProviderActionState::Success => Some("Updated."),
            ProviderActionState::Failed => Some(
                "Something went wrong. Try again or open Client settings.",
            ),
        }
    }
}

// ── Switching features ──────────────────────────────────────────────────────

/// An adapter that the feature table can switch.
#[derive(Clone, Copy, Debug, PartialEq, Eq, Structural)]
pub enum AdapterToggle {
    Roon,
    Lms,
    OpenHome,
    Upnp,
    HqPlayer,
    Spotify,
    AppleMusic,
    MusicAssistant,
    Mqtt,
}

/// One switch of the feature table, with the position that it was moved to. For
/// the controllers page the position is whether the page is shown.
#[derive(Clone, Copy, Debug, PartialEq, Eq, Structural)]
pub enum SettingsToggle {
    Adapter(AdapterToggle, bool),
    HideKnobs(bool),
}

/// Whether an adapter is switched on.
pub open spec fn adapter_enabled(adapters: AdapterSettings, which: AdapterToggle) -> bool {
    match which {
        AdapterToggle::Roon => adapters.roon,
        AdapterToggle::Lms => adapters.lms,
        AdapterToggle::OpenHome => adapters.openhome,
        AdapterToggle::Upnp => adapters.upnp,
        AdapterToggle::HqPlayer => adapters.hqplayer,
        AdapterToggle::Spotify => adapters.spotify,
        AdapterToggle::AppleMusic => adapters.applemusic,
        AdapterToggle::MusicAssistant => adapters.musicassistant,
        AdapterToggle::Mqtt => adapters.mqtt,
    }
}

/// `after` is `before` with one adapter in the given position.
pub open spec fn only_adapter_set(
    before: AdapterSettings,
    after: AdapterSettings,
    which: AdapterToggle,
    enabled: bool,
) -> bool {
    &&& adapter_enabled(after, which) == enabled
    &&& forall|other: AdapterToggle|
        other != which ==> #[trigger] adapter_enabled(after, other) == adapter_enabled(before, other)
}

/// `after` is what `before` becomes when a switch is moved. HQPlayer's page
/// follows its adapter; nothing else moves with a switch.
pub open spec fn toggled(before: AppSettings, toggle: SettingsToggle, after: AppSettings) -> bool {
    match toggle {
        SettingsToggle::Adapter(which, enabled) => {
            &&& only_adapter_set(before.adapters, after.adapters, which, enabled)
            &&& after.hide_knobs_page == before.hide_knobs_page
            &&& after.hide_lms_page == before.hide_lms_page
            &&& after.hide_hqp_page == (if which == AdapterToggle::HqPlayer {
                !enabled
            } else {
                before.hide_hqp_page
            })
        },
        SettingsToggle::HideKnobs(shown) => after == (AppSettings {
            hide_knobs_page: !shown,
            ..before
        }),
    }
}

/// The adapters with one of them in the given position.
pub fn adapters_with(adapters: AdapterSettings, which: AdapterToggle, enabled: bool) -> (r:
    AdapterSettings)
    ensures
        only_adapter_set(adapters, r, which, enabled),
{
    match which {
        AdapterToggle::Roon => AdapterSettings { roon: enabled, ..adapters },
        AdapterToggle::Lms => AdapterSettings { lms: enabled, ..adapters },
        AdapterToggle::OpenHome => AdapterSettings { openhome: enabled, ..adapters },
        AdapterToggle::Upnp => AdapterSettings { upnp: enabled, ..adapters },
        AdapterToggle::HqPlayer => AdapterSettings { hqplayer: enabled, ..adapters },
        AdapterToggle::Spotify => AdapterSettings { spotify: enabled, ..adapters },
        AdapterToggle::AppleMusic => AdapterSettings { applemusic: enabled, ..adapters },
        AdapterToggle::MusicAssistant => AdapterSettings { musicassistant: enabled, ..adapters },
        AdapterToggle::Mqtt => AdapterSettings { mqtt: enabled, ..adapters },
    }
}

/// The settings with one switch moved.
pub fn settings_with_toggle(settings: AppSettings, toggle: SettingsToggle) -> (r: AppSettings)
    ensures
        toggled(settings, toggle, r),
{
    match toggle {
        SettingsToggle::Adapter(which, enabled) => {
            let hide_hqp_page = if which == AdapterToggle::HqPlayer {
                !enabled
            } else {
                settings.hide_hqp_page
            };
            AppSettings {
                adapters: adapters_with(settings.adapters, which, enabled),
                hide_hqp_page,
                ..settings
            }
        },
        SettingsToggle::HideKnobs(enabled) => AppSettings { hide_knobs_page: !enabled, ..settings },
    }
}

proof fn adapters_agree(a: AdapterSettings, b: AdapterSettings)
    requires
        forall|which: AdapterToggle| #[trigger]
            adapter_enabled(a, which) == adapter_enabled(b, which),
    ensures
        a == b,
{
    assert(adapter_enabled(a, AdapterToggle::Roon) == adapter_enabled(b, AdapterToggle::Roon));
    assert(adapter_enabled(a, AdapterToggle::Lms) == adapter_enabled(b, AdapterToggle::Lms));
    assert(adapter_enabled(a, AdapterToggle::OpenHome) == adapter_enabled(
        b,
        AdapterToggle::OpenHome,
    ));
    assert(adapter_enabled(a, AdapterToggle::Upnp) == adapter_enabled(b, AdapterToggle::Upnp));
    assert(adapter_enabled(a, AdapterToggle::HqPlayer) == adapter_enabled(
        b,
        AdapterToggle::HqPlayer,
    ));
    assert(adapter_enabled(a, AdapterToggle::Spotify) == adapter_enabled(
        b,
        AdapterToggle::Spotify,
    ));
    assert(adapter_enabled(a, AdapterToggle::AppleMusic) == adapter_enabled(
        b,
        AdapterToggle::AppleMusic,
    ));
    assert(adapter_enabled(a, AdapterToggle::MusicAssistant) == adapter_enabled(
        b,
        AdapterToggle::MusicAssistant,
    ));
    assert(adapter_enabled(a, AdapterToggle::Mqtt) == adapter_enabled(b, AdapterToggle::Mqtt));
}

/// A switch determines the settings that follow: there is one outcome.
pub proof fn toggle_has_one_outcome(
    before: AppSettings,
    toggle: SettingsToggle,
    one: AppSettings,
    other: AppSettings,
)
    requires
        toggled(before, toggle, one),
        toggled(before, toggle, other),
    ensures
        one == other,
{
    if let SettingsToggle::Adapter(which, enabled) = toggle {
        assert forall|any: AdapterToggle| #[trigger]
            adapter_enabled(one.adapters, any) == adapter_enabled(other.adapters, any) by {
            if any != which {
                assert(adapter_enabled(one.adapters, any) == adapter_enabled(before.adapters, any));
                assert(adapter_enabled(other.adapters, any) == adapter_enabled(
                    before.adapters,
                    any,
                ));
            }
        }
        adapters_agree(one.adapters, other.adapters);
    }
}

/// A switch moves its own adapter and no other, and HQPlayer's takes its page along.
pub proof fn switches_move_their_own_adapter(
    before: AppSettings,
    which: AdapterToggle,
    enabled: bool,
    after: AppSettings,
)
    requires
        toggled(before, SettingsToggle::Adapter(which, enabled), after),
    ensures
        after.adapters.roon == (if which == AdapterToggle::Roon {
            enabled
        } else {
            before.adapters.roon
        }),
        after.adapters.lms == (if which == AdapterToggle::Lms {
            enabled
        } else {
            before.adapters.lms
        }),
        after.adapters.openhome == (if which == AdapterToggle::OpenHome {
            enabled
        } else {
            before.adapters.openhome
        }),
        after.adapters.upnp == (if which == AdapterToggle::Upnp {
            enabled
        } else {
            before.adapters.upnp
        }),
        after.adapters.hqplayer == (if which == AdapterToggle::HqPlayer {
            enabled
        } else {
            before.adapters.hqplayer
        }),
        after.adapters.spotify == (if which == AdapterToggle::Spotify {
            enabled
        } else {
            before.adapters.spotify
        }),
        after.adapters.applemusic == (if which == AdapterToggle::AppleMusic {
            enabled
        } else {
            before.adapters.applemusic
        }),
        after.adapters.musicassistant == (if which == AdapterToggle::MusicAssistant {
            enabled
        } else {
            before.adapters.musicassistant
        }),
        after.adapters.mqtt == (if which == AdapterToggle::Mqtt {
            enabled
        } else {
            before.adapters.mqtt
        }),
        after.hide_knobs_page == before.hide_knobs_page,
        after.hide_lms_page == before.hide_lms_page,
        which == AdapterToggle::HqPlayer ==> after.hide_hqp_page == !enabled,
        which != AdapterToggle::HqPlayer ==> after.hide_hqp_page == before.hide_hqp_page,
{
    assert(adapter_enabled(after.adapters, AdapterToggle::Roon) == after.adapters.roon);
    assert(adapter_enabled(after.adapters, AdapterToggle::Lms) == after.adapters.lms);
    assert(adapter_enabled(after.adapters, AdapterToggle::OpenHome) == after.adapters.openhome);
    assert(adapter_enabled(after.adapters, AdapterToggle::Upnp) == after.adapters.upnp);
    assert(adapter_enabled(after.adapters, AdapterToggle::HqPlayer) == after.adapters.hqplayer);
    assert(adapter_enabled(after.adapters, AdapterToggle::Spotify) == after.adapters.spotify);
    assert(adapter_enabled(after.adapters, AdapterToggle::AppleMusic) == after.adapters.applemusic);
    assert(adapter_enabled(after.adapters, AdapterToggle::MusicAssistant) == after.adapters.musicassistant);
    assert(adapter_enabled(after.adapters, AdapterToggle::Mqtt) == after.adapters.mqtt);
}

/// The controllers' switch shows and hides their page and moves nothing else.
pub proof fn controllers_switch_moves_their_page(
    before: AppSettings,
    shown: bool,
    after: AppSettings,
)
    requires
        toggled(before, SettingsToggle::HideKnobs(shown), after),
    ensures
        after.hide_knobs_page == !shown,
        after.adapters == before.adapters,
        after.hide_lms_page == before.hide_lms_page,
        after.hide_hqp_page == before.hide_hqp_page,
{
}

/// Moving a switch and moving it back restores the settings, as long as
/// HQPlayer's page followed its adapter to begin with.
pub proof fn toggle_back_restores(
    before: AppSettings,
    which: AdapterToggle,
    between: AppSettings,
    after: AppSettings,
)
    requires
        which == AdapterToggle::HqPlayer ==> before.hide_hqp_page == !before.adapters.hqplayer,
        toggled(
            before,
            SettingsToggle::Adapter(which, !adapter_enabled(before.adapters, which)),
            between,
        ),
        toggled(
            between,
            SettingsToggle::Adapter(which, adapter_enabled(before.adapters, which)),
            after,
        ),
    ensures
        after == before,
{
    assert forall|any: AdapterToggle| #[trigger]
        adapter_enabled(after.adapters, any) == adapter_enabled(before.adapters, any) by {
        if any != which {
            assert(adapter_enabled(after.adapters, any) == adapter_enabled(between.adapters, any));
            assert(adapter_enabled(between.adapters, any) == adapter_enabled(before.adapters, any));
        }
    }
    adapters_agree(after.adapters, before.adapters);
}

/// Once the HQPlayer switch has been moved, its page is hidden exactly while its
/// adapter is off, and no later switch breaks that.
pub proof fn hqplayer_page_follows_adapter(
    before: AppSettings,
    toggle: SettingsToggle,
    after: AppSettings,
)
    requires
        toggled(before, toggle, after),
        before.hide_hqp_page == !before.adapters.hqplayer || (toggle matches SettingsToggle::Adapter(
            AdapterToggle::HqPlayer,
            _,
        )),
    ensures
        after.hide_hqp_page == !after.adapters.hqplayer,
{
    if let SettingsToggle::Adapter(which, enabled) = toggle {
        assert(adapter_enabled(after.adapters, AdapterToggle::HqPlayer) == after.adapters.hqplayer);
        assert(adapter_enabled(before.adapters, AdapterToggle::HqPlayer)
            == before.adapters.hqplayer);
        if which == AdapterToggle::HqPlayer {
            assert(adapter_enabled(after.adapters, which) == enabled);
        }
    }
}

/// A switch that was moved shows or hides its own page and no other: the pages of
/// HQPlayer, LMS and Spotify follow their adapters, the controllers page its own
/// switch, and every other adapter has no page.
pub proof fn switches_drive_navigation(
    before: AppSettings,
    toggle: SettingsToggle,
    after: AppSettings,
)
    requires
        toggled(before, toggle, after),
    ensures
        ({
            let was = NavigationVisibility::spec_of(before);
            let is = NavigationVisibility::spec_of(after);
            match toggle {
                SettingsToggle::Adapter(AdapterToggle::HqPlayer, enabled) => is == (
                NavigationVisibility { hide_hqp: !enabled, ..was }),
                SettingsToggle::Adapter(AdapterToggle::Lms, enabled) => is == (
                NavigationVisibility { hide_lms: !enabled, ..was }),
                SettingsToggle::Adapter(AdapterToggle::Spotify, enabled) => is == (
                NavigationVisibility { hide_spotify: !enabled, ..was }),
                SettingsToggle::HideKnobs(shown) => is == (NavigationVisibility {
                    hide_knobs: !shown,
                    ..was
                }),
                _ => is == was,
            }
        }),
{
    assert(adapter_enabled(after.adapters, AdapterToggle::HqPlayer) == after.adapters.hqplayer);
    assert(adapter_enabled(after.adapters, AdapterToggle::Lms) == after.adapters.lms);
    assert(adapter_enabled(after.adapters, AdapterToggle::Spotify) == after.adapters.spotify);
    assert(adapter_enabled(before.adapters, AdapterToggle::HqPlayer) == before.adapters.hqplayer);
    assert(adapter_enabled(before.adapters, AdapterToggle::Lms) == before.adapters.lms);
    assert(adapter_enabled(before.adapters, AdapterToggle::Spotify) == before.adapters.spotify);
}

/// The key that marks a feature's switch in the document.
pub fn feature_toggle_key(label: &str) -> (r: &'static str)
    ensures
        r@ == (if label@ == "Enable Roon"@ {
            "adapters.roon"@
        } else if label@ == "Enable OpenHome"@ {
            "adapters.openhome"@
        } else if label@ == "Enable UPnP/DLNA"@ {
            "adapters.upnp"@
        } else if label@ == "Enable LMS"@ {
            "adapters.lms"@
        } else if label@ == "Enable HQPlayer"@ {
            "adapters.hqplayer"@
        } else if label@ == "Enable Spotify"@ {
            "adapters.spotify"@
        } else if label@ == "Enable Apple Music"@ {
            "adapters.applemusic"@
        } else if label@ == "Enable MQTT/Home Assistant"@ {
            "adapters.mqtt"@
        } else if label@ == "Show Controllers page"@ {
            "hide_knobs_page"@
        } else {
            ""@
        }),
{
    if same(label, "Enable Roon") {
        "adapters.roon"
    } else if same(label, "Enable OpenHome") {
        "adapters.openhome"
    } else if same(label, "Enable UPnP/DLNA") {
        "adapters.upnp"
    } else if same(label, "Enable LMS") {
        "adapters.lms"
    } else if same(label, "Enable HQPlayer") {
        "adapters.hqplayer"
    } else if same(label, "Enable Spotify") {
        "adapters.spotify"
    } else if same(label, "Enable Apple Music") {
        "adapters.applemusic"
    } else if same(label, "Enable MQTT/Home Assistant") {
        "adapters.mqtt"
    } else if same(label, "Show Controllers page") {
        "hide_knobs_page"
    } else {
        ""
    }
}

/// The feature switches as the page holds them, and the settings that the
/// server last confirmed.
#[derive(Clone, Copy, Debug, PartialEq, Eq, Structural)]
pub struct FeatureSwitches {
    pub adapters: AdapterSettings,
    pub hide_knobs: bool,
    pub confirmed: Option<AppSettings>,
}

impl FeatureSwitches {
    /// The switches of the first render: the initial snapshot, nothing confirmed.
    pub fn new(initial: &AppSettings) -> (r: Self)
        ensures
            r.adapters == initial.adapters,
            r.hide_knobs == initial.hide_knobs_page,
            r.confirmed is None,
    {
        FeatureSwitches {
            adapters: initial.adapters,
            hide_knobs: initial.hide_knobs_page,
            confirmed: None,
        }
    }

    /// Takes over settings that the server has answered with, here and for the
    /// navigation bar.
    pub fn load(&mut self, settings: &AppSettings, context: &mut SettingsContext)
        ensures
            *final(self) == (FeatureSwitches {
                adapters: settings.adapters,
                hide_knobs: settings.hide_knobs_page,
                confirmed: Some(*settings),
            }),
            final(context).visibility() == NavigationVisibility::spec_of(*settings),
            final(context).loaded,
    {
        self.adapters = settings.adapters;
        self.hide_knobs = settings.hide_knobs_page;
        self.confirmed = Some(*settings);
        context.adopt(settings);
    }

    /// What the page itself knows of the optional pages: a page is hidden while the
    /// switch of its adapter is off.
    pub fn navigation(&self) -> (r: NavigationVisibility)
        ensures
            r == (NavigationVisibility {
                hide_hqp: !self.adapters.hqplayer,
                hide_lms: !self.adapters.lms,
                hide_spotify: !self.adapters.spotify,
                hide_knobs: self.hide_knobs,
            }),
    {
        NavigationVisibility {
            hide_hqp: !self.adapters.hqplayer,
            hide_lms: !self.adapters.lms,
            hide_spotify: !self.adapters.spotify,
            hide_knobs: self.hide_knobs,
        }
    }

    /// The settings to write when a switch is moved. Before the server has
    /// confirmed any there is nothing to write.
    pub fn request(&self, toggle: SettingsToggle) -> (r: Option<AppSettings>)
        ensures
            r is Some <==> self.confirmed is Some,
            r is Some ==> toggled(self.confirmed->0, toggle, r->0),
    {
        match self.confirmed {
            Some(settings) => Some(settings_with_toggle(settings, toggle)),
            None => None,
        }
    }

    /// Whether any streaming provider is switched on, so that their section is
    /// shown.
    pub fn shows_streaming_providers(&self) -> (r: bool)
        ensures
            r == (self.adapters.spotify || self.adapters.applemusic || self.adapters.musicassistant),
    {
        self.adapters.spotify || self.adapters.applemusic || self.adapters.musicassistant
    }
}

/// Whether the page should ask the owner to set up access: the bridge requires
/// it, nobody has done so yet, and this browser is not signed in.
pub fn bootstrap_prompt_due(auth_required: bool, bootstrap_required: bool, authenticated: bool) -> (r:
    bool)
    ensures
        r == (auth_required && bootstrap_required && !authenticated),
{
    auth_required && bootstrap_required && !authenticated
}

// ── Answers to a settings write ─────────────────────────────────────────────

/// `serde_json::Value`: a JSON value. Its members are read by name, through the two
/// functions below.
#[verifier::external_type_specification]
#[verifier::external_body]
pub struct ExJsonValue(serde_json::Value);

/// The members of a JSON object that hold `true` or `false`. Any other JSON value
/// has none.
pub uninterp spec fn json_flags(value: serde_json::Value) -> Map<Seq<char>, bool>;

/// The members of a JSON object that hold a string. Any other JSON value has none.
pub uninterp spec fn json_texts(value: serde_json::Value) -> Map<Seq<char>, Seq<char>>;

/// The flag of that name, where the object has one.
pub open spec fn flag_member(value: serde_json::Value, key: Seq<char>) -> Option<bool> {
    if json_flags(value).contains_key(key) {
        Some(json_flags(value)[key])
    } else {
        None
    }
}

/// The string of that name, where the object has one.
pub open spec fn text_member(value: serde_json::Value, key: Seq<char>) -> Option<Seq<char>> {
    if json_texts(value).contains_key(key) {
        Some(json_texts(value)[key])
    } else {
        None
    }
}

/// A member is read where the object has it, and where it has not nothing is read.
pub proof fn members_are_read_where_they_are(value: serde_json::Value, key: Seq<char>)
    ensures
        json_flags(value).contains_key(key) ==> flag_member(value, key) == Some(
            json_flags(value)[key],
        ),
        !json_flags(value).contains_key(key) ==> flag_member(value, key) is None,
        json_texts(value).contains_key(key) ==> text_member(value, key) == Some(
            json_texts(value)[key],
        ),
        !json_texts(value).contains_key(key) ==> text_member(value, key) is None,
{
}

/// `serde_json::Value::get` and `as_bool`: the member of that name where it holds
/// `true` or `false`.
#[verifier::external_body]
pub(crate) fn json_flag(value: &serde_json::Value, key: &str) -> (r: Option<bool>)
    ensures
        r == (if json_flags(*value).contains_key(key@) {
            Some(json_flags(*value)[key@])
        } else {
            None
        }),
{
    value.get(key).and_then(serde_json::Value::as_bool)
}

/// `serde_json::Value::get` and `as_str`: the member of that name where it holds a
/// string.
#[verifier::external_body]
pub(crate) fn json_text<'a>(value: &'a serde_json::Value, key: &str) -> (r: Option<&'a str>)
    ensures
        opt_str(r) == (if json_texts(*value).contains_key(key@) {
            Some(json_texts(*value)[key@])
        } else {
            None
        }),
{
    value.get(key).and_then(serde_json::Value::as_str)
}

/// What to tell of a write that the bridge answered with this acknowledgement and
/// this error: nothing after an explicit success, else the error, or a general
/// sentence where it is missing or empty.
pub open spec fn write_error_text(ok: Option<bool>, error: Option<Seq<char>>) -> Option<Seq<char>> {
    if ok == Some(true) {
        None
    } else if error is Some && error->0.len() > 0 {
        error
    } else {
        Some("UHC could not apply that change. Your previous setting was restored."@)
    }
}

/// What to tell of a write, from the two members of the answer that matter.
pub fn write_outcome(ok: Option<bool>, error: Option<&str>) -> (r: Option<String>)
    ensures
        opt_text(r) == write_error_text(ok, opt_str(error)),
{
    if let Some(true) = ok {
        return None;
    }
    if let Some(message) = error {
        if !message.is_empty() {
            return Some(message.to_owned());
        }
    }
    Some("UHC could not apply that change. Your previous setting was restored.".to_owned())
}

/// What to tell of a write that the bridge has answered.
pub fn settings_write_error(response: &serde_json::Value) -> (r: Option<String>)
    ensures
        opt_text(r) == write_error_text(
            flag_member(*response, "ok"@),
            text_member(*response, "error"@),
        ),
{
    write_outcome(json_flag(response, "ok"), json_text(response, "error"))
}

/// What to tell of a write: the transport's error where there was no answer, else
/// what the answer says.
pub fn settings_save_failure(reply: &Result<serde_json::Value, String>) -> (r: Option<String>)
    ensures
        opt_text(r) == (match *reply {
            Ok(response) => write_error_text(
                flag_member(response, "ok"@),
                text_member(response, "error"@),
            ),
            Err(error) => Some(error@),
        }),
{
    match reply {
        Ok(response) => settings_write_error(response),
        Err(error) => Some(error.clone()),
    }
}

/// The alert for a write that failed.
pub fn settings_save_alert(error: &str) -> (r: String)
    ensures
        r@
            == "UHC could not apply that change. Your previous setting is still active.\n\n"@
            + error@,
{
    cat2("UHC could not apply that change. Your previous setting is still active.\n\n", error)
}

// ── Coming back from Spotify's sign-in ──────────────────────────────────────

/// The text from its first `mark` on, where it has one.
pub open spec fn from_mark(s: Seq<char>, mark: char) -> Option<Seq<char>>
    decreases s.len(),
{
    if s.len() == 0 {
        None
    } else if s[0] == mark {
        Some(s)
    } else {
        from_mark(s.subrange(1, s.len() as int), mark)
    }
}

/// The query of the address that the document was opened with: `?` and what
/// follows it.
pub fn navigation_query(address: &str) -> (r: Option<String>)
    ensures
        opt_text(r) == from_mark(address@, '?'),
{
    let v = crate::text::chars_of(address);
    let n: usize = v.len();
    let mut i: usize = 0;
    assert(address@.subrange(0, n as int) =~= address@);
    while i < n
        invariant
            i <= n,
            n == v@.len(),
            v@ == address@,
            from_mark(address@, '?') == from_mark(address@.subrange(i as int, n as int), '?'),
        decreases n - i,
    {
        if v[i] == '?' {
            return Some(address.substring_char(i, n).to_owned());
        }
        assert(address@.subrange(i as int, n as int).subrange(1, n - i) =~= address@.subrange(
            i + 1,
            n as int,
        ));
        i = i + 1;
    }
    None
}

/// The query that the page was opened with.
pub open spec fn opened_with(search: Option<Seq<char>>, navigation: Option<Seq<char>>) -> Option<
    Seq<char>,
> {
    if search is Some && search->0.len() > 0 {
        search
    } else if navigation is Some {
        from_mark(navigation->0, '?')
    } else {
        None
    }
}

/// A query in the location wins over the recorded navigation; once it is gone, the
/// navigation gives what follows its first question mark, that mark included.
pub proof fn location_wins_over_navigation(
    search: Option<Seq<char>>,
    path: Seq<char>,
    query: Seq<char>,
)
    requires
        !path.contains('?'),
    ensures
        search is Some && search->0.len() > 0 ==> opened_with(search, Some(path + seq!['?'] + query))
            == search,
        search is None || search->0.len() == 0 ==> opened_with(
            search,
            Some(path + seq!['?'] + query),
        ) == Some(seq!['?'] + query),
        search is None || search->0.len() == 0 ==> opened_with(search, Some(path)) is None
            && opened_with(search, None) is None,
{
    let whole = path + seq!['?'] + query;
    assert forall|j: int| 0 <= j < path.len() implies #[trigger] whole[j] != '?' by {
        assert(whole[j] == path[j]);
    }
    assert(whole[path.len() as int] == '?');
    texts_are_read_from_the_first_mark(whole, '?', path.len() as int);
    texts_are_read_from_the_first_mark(path, '?', 0);
    assert(whole.subrange(path.len() as int, whole.len() as int) =~= seq!['?'] + query);
    assert forall|j: int| 0 <= j < path.len() implies #[trigger] path[j] != '?' by {}
}

/// The query that the page was opened with: the location's own, or, once the
/// router has dropped it, that of the recorded navigation.
pub fn location_search(search: Option<&str>, navigation: Option<&str>) -> (r: Option<String>)
    ensures
        opt_text(r) == opened_with(opt_str(search), opt_str(navigation)),
        opt_text(r) == (if search is Some && search->0@.len() > 0 {
            Some(search->0@)
        } else if navigation is Some {
            from_mark(navigation->0@, '?')
        } else {
            None
        }),
{
    if let Some(current) = search {
        if !current.is_empty() {
            return Some(current.to_owned());
        }
    }
    match navigation {
        Some(address) => navigation_query(address),
        None => None,
    }
}

/// The text without the marks that it begins with.
pub open spec fn without_leading(s: Seq<char>, mark: char) -> Seq<char>
    decreases s.len(),
{
    if s.len() > 0 && s[0] == mark {
        without_leading(s.subrange(1, s.len() as int), mark)
    } else {
        s
    }
}

fn trim_leading(s: &str, mark: char) -> (r: String)
    ensures
        r@ == without_leading(s@, mark),
{
    let v = crate::text::chars_of(s);
    let n: usize = v.len();
    let mut i: usize = 0;
    assert(s@.subrange(0, n as int) =~= s@);
    while i < n && v[i] == mark
        invariant
            i <= n,
            n == v@.len(),
            v@ == s@,
            without_leading(s@, mark) == without_leading(s@.subrange(i as int, n as int), mark),
        decreases n - i,
    {
        assert(s@.subrange(i as int, n as int).subrange(1, n - i) =~= s@.subrange(
            i + 1,
            n as int,
        ));
        i = i + 1;
    }
    s.substring_char(i, n).to_owned()
}

/// The value of the first `key=value` pair with that key.
pub open spec fn first_value(pairs: Seq<Seq<char>>, key: Seq<char>) -> Option<Seq<char>>
    decreases pairs.len(),
{
    if pairs.len() == 0 {
        None
    } else if has_prefix(pairs[0], key + "="@) {
        Some(pairs[0].subrange((key + "="@).len() as int, pairs[0].len() as int))
    } else {
        first_value(pairs.subrange(1, pairs.len() as int), key)
    }
}

/// The value of a query parameter as it stands in the query.
pub open spec fn raw_param(search: Seq<char>, key: Seq<char>) -> Option<Seq<char>> {
    first_value(split_on(without_leading(search, '?'), '&'), key)
}

/// The value of a query parameter, percent-decoded; a value that does not decode
/// counts as empty.
pub open spec fn param_value(search: Seq<char>, key: Seq<char>) -> Option<Seq<char>> {
    match raw_param(search, key) {
        Some(value) => match decoded_text(value) {
            Some(text) => Some(text),
            None => Some(Seq::empty()),
        },
        None => None,
    }
}

/// Extract one query-string parameter's value.
pub fn query_param(search: &str, key: &str) -> (r: Option<String>)
    ensures
        opt_text(r) == param_value(search@, key@),
{
    let body = trim_leading(search, '?');
    let pairs = split(body.as_str(), '&');
    let marker = cat2(key, "=");
    let ghost all = texts(pairs@);
    let mut i: usize = 0;
    assert(all.subrange(0, all.len() as int) =~= all);
    while i < pairs.len()
        invariant
            i <= pairs@.len(),
            all == texts(pairs@),
            marker@ == key@ + "="@,
            raw_param(search@, key@) == first_value(
                all.subrange(i as int, all.len() as int),
                key@,
            ),
        decreases pairs@.len() - i,
    {
        let ghost rest = all.subrange(i as int, all.len() as int);
        assert(rest[0] == pairs@[i as int]@);
        if let Some(value) = strip_prefix(pairs[i].as_str(), marker.as_str()) {
            return match crate::url::decode(value.as_str()) {
                Some(text) => Some(text),
                None => Some(String::new()),
            };
        }
        assert(rest.subrange(1, rest.len() as int) =~= all.subrange(i + 1, all.len() as int));
        i = i + 1;
    }
    None
}

/// A parameter that was written into a query percent-encoded is read back as it was,
/// whatever it holds.
pub proof fn written_parameter_reads_back(key: Seq<char>, value: Seq<char>)
    requires
        !key.contains('&'),
        key.len() > 0 ==> key[0] != '?',
    ensures
        param_value(keyed_address(key + "="@, value), key) == Some(value),
{
    reveal_strlit("=");
    let written = percent_encoded(encode_utf8(value));
    let marker = key + "="@;
    let query = keyed_address(marker, value);
    encoded_text_stays_in_its_parameter(encode_utf8(value));
    assert forall|i: int| 0 <= i < query.len() implies query[i] != '&' by {
        if i < key.len() {
            assert(query[i] == key[i]);
        } else if i >= marker.len() {
            assert(query[i] == written[i - marker.len()]);
        }
    }
    assert(query[0] == marker[0]);
    assert(without_leading(query, '?') == query);
    whole_text_is_one_piece(query, '&');
    assert(query.subrange(marker.len() as int, query.len() as int) =~= written);
    assert(query.subrange(0, marker.len() as int) =~= marker);
    assert(first_value(seq![query], key) == Some(written));
    decoding_undoes_encoding(value);
}

/// Joined texts begin as the first of them does.
proof fn first_piece_comes_first(parts: Seq<Seq<char>>, separator: Seq<char>)
    requires
        parts.len() > 0,
        parts[0].len() > 0,
    ensures
        joined(parts, separator).len() > 0,
        joined(parts, separator)[0] == parts[0][0],
    decreases parts.len(),
{
    if parts.len() > 1 {
        first_piece_comes_first(parts.subrange(0, parts.len() - 1), separator);
    }
}

/// A query parameter as it is written, its value percent-encoded.
pub open spec fn written_pair(pair: (Seq<char>, Seq<char>)) -> Seq<char> {
    keyed_address(pair.0 + "="@, pair.1)
}

/// A query of such parameters.
pub open spec fn written_query(pairs: Seq<(Seq<char>, Seq<char>)>) -> Seq<char> {
    "?"@ + joined(pairs.map_values(|pair: (Seq<char>, Seq<char>)| written_pair(pair)), "&"@)
}

/// The value of the first parameter with exactly that key.
pub open spec fn first_paired(pairs: Seq<(Seq<char>, Seq<char>)>, key: Seq<char>) -> Option<
    Seq<char>,
>
    decreases pairs.len(),
{
    if pairs.len() == 0 {
        None
    } else if pairs[0].0 == key {
        Some(pairs[0].1)
    } else {
        first_paired(pairs.subrange(1, pairs.len() as int), key)
    }
}

/// A parameter is found under its own key only, not under a shorter or a longer one.
proof fn pair_matches_its_key_only(pair: (Seq<char>, Seq<char>), key: Seq<char>)
    requires
        !pair.0.contains('='),
    ensures
        has_prefix(written_pair(pair), key + "="@) <==> pair.0 == key,
        pair.0 == key ==> written_pair(pair).subrange(
            (key + "="@).len() as int,
            written_pair(pair).len() as int,
        ) == percent_encoded(encode_utf8(pair.1)),
{
    reveal_strlit("=");
    let own = pair.0 + "="@;
    let written = percent_encoded(encode_utf8(pair.1));
    let text = written_pair(pair);
    let marker = key + "="@;
    encoded_text_stays_in_its_parameter(encode_utf8(pair.1));
    if pair.0 == key {
        assert(text.subrange(0, marker.len() as int) =~= marker);
        assert(text.subrange(marker.len() as int, text.len() as int) =~= written);
    }
    if has_prefix(text, marker) {
        let at = key.len() as int;
        let start = text.subrange(0, marker.len() as int);
        assert(start =~= marker);
        assert(text[at] == start[at] && start[at] == '=');
        if at < pair.0.len() {
            assert(text[at] == pair.0[at]);
        } else if at > pair.0.len() {
            assert(text[at] == written[at - own.len()]);
        }
        assert forall|i: int| 0 <= i < key.len() implies pair.0[i] == key[i] by {
            assert(text[i] == start[i]);
        }
        assert(pair.0 =~= key);
    }
}

/// Among the pieces of a query, the value under a key is the encoded value of the first
/// parameter with that key.
proof fn first_value_of_pairs(
    pairs: Seq<(Seq<char>, Seq<char>)>,
    texts: Seq<Seq<char>>,
    key: Seq<char>,
)
    requires
        texts.len() == pairs.len(),
        forall|i: int|
            0 <= i < pairs.len() ==> !(#[trigger] pairs[i]).0.contains('=') && texts[i]
                == written_pair(pairs[i]),
    ensures
        first_value(texts, key) == (match first_paired(pairs, key) {
            Some(value) => Some(percent_encoded(encode_utf8(value))),
            None => None,
        }),
    decreases pairs.len(),
{
    if pairs.len() > 0 {
        let rest = pairs.subrange(1, pairs.len() as int);
        let rest_texts = texts.subrange(1, texts.len() as int);
        pair_matches_its_key_only(pairs[0], key);
        assert forall|i: int| 0 <= i < rest.len() implies !(#[trigger] rest[i]).0.contains('=')
            && rest_texts[i] == written_pair(rest[i]) by {
            assert(rest[i] == pairs[i + 1]);
        }
        first_value_of_pairs(rest, rest_texts, key);
    }
}

/// A whole query reads back as it was written: under each key stands the value of the
/// first parameter with exactly that key, and under a key that no parameter has there
/// is nothing. Keys are plain words: they hold neither `&` nor `=`, and the first does
/// not begin with `?`.
pub proof fn written_query_reads_back(pairs: Seq<(Seq<char>, Seq<char>)>, key: Seq<char>)
    requires
        forall|i: int|
            0 <= i < pairs.len() ==> !(#[trigger] pairs[i]).0.contains('&')
                && !pairs[i].0.contains('='),
        pairs.len() > 0 && pairs[0].0.len() > 0 ==> pairs[0].0[0] != '?',
    ensures
        param_value(written_query(pairs), key) == first_paired(pairs, key),
{
    reveal_strlit("?");
    reveal_strlit("&");
    reveal_strlit("=");
    let texts = pairs.map_values(|pair: (Seq<char>, Seq<char>)| written_pair(pair));
    assert("&"@ =~= seq!['&']);
    let body = joined(texts, "&"@);
    let query = written_query(pairs);
    assert(query.subrange(1, query.len() as int) =~= body);
    if pairs.len() == 0 {
        assert(body =~= Seq::<char>::empty());
        assert(without_leading(query, '?') == body) by {
            reveal_with_fuel(without_leading, 2);
        }
        whole_text_is_one_piece(body, '&');
        let none = seq![body];
        assert(!has_prefix(body, key + "="@));
        assert(none.subrange(1, 1) =~= Seq::<Seq<char>>::empty());
        assert(first_value(none, key) is None) by {
            reveal_with_fuel(first_value, 2);
        }
    } else {
        assert forall|i: int| 0 <= i < texts.len() implies !(#[trigger] texts[i]).contains(
            '&',
        ) by {
            let pair = pairs[i];
            let written = percent_encoded(encode_utf8(pair.1));
            encoded_text_stays_in_its_parameter(encode_utf8(pair.1));
            assert forall|j: int| 0 <= j < texts[i].len() implies texts[i][j] != '&' by {
                if j < pair.0.len() {
                    assert(texts[i][j] == pair.0[j]);
                } else if j > pair.0.len() {
                    assert(texts[i][j] == written[j - pair.0.len() - 1]);
                }
            }
        }
        joined_pieces_split(texts, '&');
        first_piece_comes_first(texts, "&"@);
        assert(texts[0].len() > 0 && texts[0][0] != '?');
        assert(without_leading(query, '?') == body) by {
            reveal_with_fuel(without_leading, 2);
        }
        first_value_of_pairs(pairs, texts, key);
        if let Some(value) = first_paired(pairs, key) {
            decoding_undoes_encoding(value);
        }
    }
}

/// The message for each reason that a sign-in can fail for.
pub open spec fn oauth_error_text(reason: Option<Seq<char>>) -> Seq<char> {
    if reason == Some("invalid_state"@) || reason == Some("expired_state"@) {
        "This Spotify sign-in link expired or was already used. Click Connect Spotify below to start a fresh authorization."@
    } else if reason == Some("provider_denied"@) {
        "Spotify authorization was declined. Click Connect Spotify to try again."@
    } else if reason == Some("provider_oauth_error"@) || reason == Some(
        "missing_authorization_code"@,
    ) {
        "Spotify did not return an authorization code. Click Connect Spotify to try again."@
    } else if reason == Some("token_exchange_failed"@) {
        "Spotify rejected the sign-in exchange. This usually means the address registered in your Spotify app does not exactly match the one saved in step 2. Fix the mismatch, save, and Connect again."@
    } else if reason == Some("token_storage_failed"@) {
        "Spotify authorized, but the token could not be saved on this UHC server. Check the server's credential storage and try Connect again."@
    } else if reason == Some("oauth_not_configured"@) || reason == Some(
        "invalid_client_configuration"@,
    ) {
        "Spotify client settings are missing or invalid. Enter and save the Client ID (and Secret, if used) below before connecting."@
    } else if reason == Some("adapter_unavailable"@) || reason == Some("adapter_start_failed"@) {
        "Spotify authorized, but the adapter could not start. Refresh this page and try again."@
    } else if reason == Some("companion_required"@) {
        "This provider is authorized through its companion app, not this OAuth flow."@
    } else {
        "Spotify authorization did not complete. Try Connect again or open Client settings."@
    }
}

fn reason_is(reason: Option<&str>, code: &str) -> (r: bool)
    ensures
        r == (opt_str(reason) == Some(code@)),
{
    match reason {
        Some(text) => same(text, code),
        None => false,
    }
}

/// Map a sign-in error code to an actionable message.
pub fn spotify_oauth_error_message(reason: Option<&str>) -> (r: String)
    ensures
        r@ == oauth_error_text(opt_str(reason)),
{
    if reason_is(reason, "invalid_state") || reason_is(reason, "expired_state") {
        "This Spotify sign-in link expired or was already used. Click Connect Spotify below to start a fresh authorization.".to_owned()
    } else if reason_is(reason, "provider_denied") {
        "Spotify authorization was declined. Click Connect Spotify to try again.".to_owned()
    } else if reason_is(reason, "provider_oauth_error") || reason_is(
        reason,
        "missing_authorization_code",
    ) {
        "Spotify did not return an authorization code. Click Connect Spotify to try again.".to_owned()
    } else if reason_is(reason, "token_exchange_failed") {
        "Spotify rejected the sign-in exchange. This usually means the address registered in your Spotify app does not exactly match the one saved in step 2. Fix the mismatch, save, and Connect again.".to_owned()
    } else if reason_is(reason, "token_storage_failed") {
        "Spotify authorized, but the token could not be saved on this UHC server. Check the server's credential storage and try Connect again.".to_owned()
    } else if reason_is(reason, "oauth_not_configured") || reason_is(
        reason,
        "invalid_client_configuration",
    ) {
        "Spotify client settings are missing or invalid. Enter and save the Client ID (and Secret, if used) below before connecting.".to_owned()
    } else if reason_is(reason, "adapter_unavailable") || reason_is(reason, "adapter_start_failed") {
        "Spotify authorized, but the adapter could not start. Refresh this page and try again.".to_owned()
    } else if reason_is(reason, "companion_required") {
        "This provider is authorized through its companion app, not this OAuth flow.".to_owned()
    } else {
        "Spotify authorization did not complete. Try Connect again or open Client settings.".to_owned()
    }
}

/// The error codes that the sign-in callback produces.
pub open spec fn is_callback_code(code: Seq<char>) -> bool {
    code == "invalid_state"@ || code == "expired_state"@ || code == "provider_denied"@ || code
        == "provider_oauth_error"@ || code == "missing_authorization_code"@ || code
        == "token_exchange_failed"@ || code == "token_storage_failed"@ || code
        == "oauth_not_configured"@ || code == "invalid_client_configuration"@ || code
        == "adapter_unavailable"@ || code == "adapter_start_failed"@ || code
        == "companion_required"@
}

/// Every code that the callback produces has a message of its own: it never falls
/// back to the general one, which is what every other reason, and none at all,
/// gets.
pub proof fn callback_codes_have_their_own_message(reason: Option<Seq<char>>, other: Option<Seq<char>>)
    requires
        reason is Some && is_callback_code(reason->0),
        other is None || !is_callback_code(other->0),
    ensures
        oauth_error_text(reason) != oauth_error_text(other),
{
    reveal_strlit(
        "This Spotify sign-in link expired or was already used. Click Connect Spotify below to start a fresh authorization.",
    );
    reveal_strlit("Spotify authorization was declined. Click Connect Spotify to try again.");
    reveal_strlit("Spotify did not return an authorization code. Click Connect Spotify to try again.");
    reveal_strlit(
        "Spotify rejected the sign-in exchange. This usually means the address registered in your Spotify app does not exactly match the one saved in step 2. Fix the mismatch, save, and Connect again.",
    );
    reveal_strlit(
        "Spotify authorized, but the token could not be saved on this UHC server. Check the server's credential storage and try Connect again.",
    );
    reveal_strlit(
        "Spotify client settings are missing or invalid. Enter and save the Client ID (and Secret, if used) below before connecting.",
    );
    reveal_strlit("Spotify authorized, but the adapter could not start. Refresh this page and try again.");
    reveal_strlit("This provider is authorized through its companion app, not this OAuth flow.");
    reveal_strlit("Spotify authorization did not complete. Try Connect again or open Client settings.");
    let general = oauth_error_text(other);
    assert(general == oauth_error_text(None));
    assert(general.len() == 82);
}

/// Feedback for the return from Spotify's sign-in.
#[derive(Debug)]
pub struct CallbackFeedback {
    pub message: String,
    pub is_error: bool,
}

/// The sign-in came back with success.
pub open spec fn reports_success(search: Seq<char>) -> bool {
    occurs_in(search, "spotify=connected"@) || occurs_in(search, "oauth=success"@)
}

/// The sign-in came back with an error.
pub open spec fn reports_error(search: Seq<char>) -> bool {
    occurs_in(search, "spotify=error"@) || occurs_in(search, "oauth=error"@)
}

/// What a query reports, with whether it is an error.
pub open spec fn reported(search: Seq<char>) -> Option<(bool, Seq<char>)> {
    if reports_success(search) {
        Some((false, "Spotify connected. Refreshing available devices…"@))
    } else if reports_error(search) {
        Some((true, oauth_error_text(param_value(search, "reason"@))))
    } else {
        None
    }
}

/// A query that reports a success is told as one whatever else it says, and one that
/// reports nothing is not told of; an error is told with the advice for its reason.
pub proof fn success_wins_over_errors(a: Seq<char>, b: Seq<char>, search: Seq<char>)
    ensures
        reported(a + "spotify=connected"@ + b) == Some(
            (false, "Spotify connected. Refreshing available devices…"@),
        ),
        reported(a + "oauth=success"@ + b) == Some(
            (false, "Spotify connected. Refreshing available devices…"@),
        ),
        reported(a + "spotify=error"@ + b) is Some,
        reported(a + "oauth=error"@ + b) is Some,
        !reports_success(search) && reports_error(search) ==> reported(search) == Some(
            (true, oauth_error_text(param_value(search, "reason"@))),
        ),
        reported(search) is None <==> !reports_success(search) && !reports_error(search),
{
    queries_report_by_their_words(a, b, search);
}

/// Parse the `?spotify=...&reason=...` query that the sign-in returns with into a
/// message a non-technical user can act on. Success wins where a query reports
/// both.
pub fn spotify_callback_feedback(search: &str) -> (r: Option<CallbackFeedback>)
    ensures
        match r {
            Some(feedback) => {
                if reports_success(search@) {
                    !feedback.is_error && feedback.message@
                        == "Spotify connected. Refreshing available devices…"@
                } else {
                    reports_error(search@) && feedback.is_error && feedback.message@
                        == oauth_error_text(param_value(search@, "reason"@))
                }
            },
            None => !reports_success(search@) && !reports_error(search@),
        },
        reported(search@) == (match r {
            Some(feedback) => Some((feedback.is_error, feedback.message@)),
            None => None,
        }),
{
    if contains(search, "spotify=connected") || contains(search, "oauth=success") {
        return Some(
            CallbackFeedback {
                message: "Spotify connected. Refreshing available devices…".to_owned(),
                is_error: false,
            },
        );
    }
    if contains(search, "spotify=error") || contains(search, "oauth=error") {
        let reason = query_param(search, "reason");
        return Some(
            CallbackFeedback {
                message: spotify_oauth_error_message(crate::text::as_opt_str(&reason)),
                is_error: true,
            },
        );
    }
    None
}

/// The text of the feedback line for successes, or for errors. A line with
/// nothing to say is empty and hidden.
pub fn feedback_line(feedback: &Option<CallbackFeedback>, errors: bool) -> (r: Option<&str>)
    ensures
        opt_str(r) == (if feedback is Some && feedback->0.is_error == errors {
            Some(feedback->0.message@)
        } else {
            None
        }),
{
    match feedback {
        Some(feedback) => if feedback.is_error == errors {
            Some(feedback.message.as_str())
        } else {
            None
        },
        None => None,
    }
}

/// Whether a host name means the machine that the browser runs on.
pub fn is_loopback_host(hostname: &str) -> (r: bool)
    ensures
        r == (hostname@ == "127.0.0.1"@ || hostname@ == "localhost"@ || hostname@ == "::1"@),
{
    same(hostname, "127.0.0.1") || same(hostname, "localhost") || same(hostname, "::1")
}

/// Only an outcome is told: a success briefly, a failure with advice.
pub proof fn only_outcomes_are_told(action: ProviderActionState)
    ensures
        action_message(action) is Some <==> action == ProviderActionState::Success || action
            == ProviderActionState::Failed,
        action == ProviderActionState::Success ==> action_message(action) == Some("Updated."@),
        action == ProviderActionState::Failed ==> action_message(action) == Some(
            "Something went wrong. Try again or open Client settings."@,
        ),
{
}

/// Only an explicit success goes untold. Anything else is told in the bridge's own words
/// where it gave any, and in general ones where it did not.
pub proof fn only_an_explicit_success_goes_untold(ok: Option<bool>, error: Option<Seq<char>>)
    ensures
        write_error_text(ok, error) is None <==> ok == Some(true),
        ok != Some(true) && error is Some && error->0.len() > 0 ==> write_error_text(ok, error)
            == error,
        ok != Some(true) && (error is None || error->0.len() == 0) ==> write_error_text(ok, error)
            == Some("UHC could not apply that change. Your previous setting was restored."@),
{
}

/// What is read from a mark on begins at the first mark and goes to the end; a text
/// without one has nothing to read.
pub proof fn texts_are_read_from_the_first_mark(s: Seq<char>, mark: char, k: int)
    ensures
        0 <= k < s.len() && s[k] == mark && (forall|j: int| 0 <= j < k ==> #[trigger] s[j] != mark)
            ==> from_mark(s, mark) == Some(s.subrange(k, s.len() as int)),
        (forall|j: int| 0 <= j < s.len() ==> #[trigger] s[j] != mark) ==> from_mark(s, mark) is None,
    decreases s.len(),
{
    if s.len() > 0 {
        let rest = s.subrange(1, s.len() as int);
        texts_are_read_from_the_first_mark(rest, mark, k - 1);
        assert(s.subrange(0, s.len() as int) =~= s);
        if forall|j: int| 0 <= j < s.len() ==> #[trigger] s[j] != mark {
            assert forall|j: int| 0 <= j < rest.len() implies #[trigger] rest[j] != mark by {
                assert(s[j + 1] == rest[j]);
            }
        }
        if 0 < k < s.len() && s[k] == mark && forall|j: int| 0 <= j < k ==> #[trigger] s[j] != mark {
            assert forall|j: int| 0 <= j < k - 1 implies #[trigger] rest[j] != mark by {
                assert(s[j + 1] == rest[j]);
            }
            assert(rest.subrange(k - 1, rest.len() as int) =~= s.subrange(k, s.len() as int));
        }
    }
}

/// Leading marks are taken off, all of them and nothing else.
pub proof fn only_leading_marks_go(s: Seq<char>, mark: char)
    ensures
        s.len() > 0 && s[0] == mark ==> without_leading(s, mark) == without_leading(
            s.subrange(1, s.len() as int),
            mark,
        ),
        s.len() == 0 || s[0] != mark ==> without_leading(s, mark) == s,
        without_leading(s, mark).len() > 0 ==> without_leading(s, mark)[0] != mark,
    decreases s.len(),
{
    if s.len() > 0 && s[0] == mark {
        only_leading_marks_go(s.subrange(1, s.len() as int), mark);
    }
}

/// The first parameter with a key gives the value, whatever follows it.
pub proof fn first_parameter_wins(
    before: Seq<(Seq<char>, Seq<char>)>,
    key: Seq<char>,
    value: Seq<char>,
    after: Seq<(Seq<char>, Seq<char>)>,
)
    requires
        forall|i: int| 0 <= i < before.len() ==> (#[trigger] before[i]).0 != key,
    ensures
        first_paired(before + seq![(key, value)] + after, key) == Some(value),
        first_paired(before, key) is None,
    decreases before.len(),
{
    let whole = before + seq![(key, value)] + after;
    if before.len() == 0 {
        assert(whole[0] == (key, value));
    } else {
        let rest = before.subrange(1, before.len() as int);
        assert forall|i: int| 0 <= i < rest.len() implies (#[trigger] rest[i]).0 != key by {
            assert(before[i + 1] == rest[i]);
        }
        first_parameter_wins(rest, key, value, after);
        assert(whole.subrange(1, whole.len() as int) =~= rest + seq![(key, value)] + after);
        assert(whole[0] == before[0]);
    }
}

/// A query reports success or an error by a word of its own, wherever it stands.
pub proof fn queries_report_by_their_words(a: Seq<char>, b: Seq<char>, search: Seq<char>)
    ensures
        reports_success(a + "spotify=connected"@ + b),
        reports_success(a + "oauth=success"@ + b),
        reports_error(a + "spotify=error"@ + b),
        reports_error(a + "oauth=error"@ + b),
        reports_success(search) ==> occurs_in(search, "spotify=connected"@) || occurs_in(
            search,
            "oauth=success"@,
        ),
        reports_error(search) ==> occurs_in(search, "spotify=error"@) || occurs_in(
            search,
            "oauth=error"@,
        ),
{
    crate::text::occurrence_splits_the_text(a + "spotify=connected"@ + b, "spotify=connected"@);
    crate::text::occurrence_splits_the_text(a + "oauth=success"@ + b, "oauth=success"@);
    crate::text::occurrence_splits_the_text(a + "spotify=error"@ + b, "spotify=error"@);
    crate::text::occurrence_splits_the_text(a + "oauth=error"@ + b, "oauth=error"@);
}

/// What to do about each reason: start afresh after an old link, try again after a refusal
/// or a missing code, mend the address after a rejected exchange, the server's storage
/// after a lost token, the client settings where they are wrong, refresh where the adapter
/// did not start, and go to the companion where it is in charge.
pub proof fn reasons_get_their_advice(reason: Seq<char>)
    ensures
        reason == "invalid_state"@ || reason == "expired_state"@ ==> oauth_error_text(Some(reason))
            == "This Spotify sign-in link expired or was already used. Click Connect Spotify below to start a fresh authorization."@,
        reason == "provider_denied"@ ==> oauth_error_text(Some(reason))
            == "Spotify authorization was declined. Click Connect Spotify to try again."@,
        reason == "provider_oauth_error"@ || reason == "missing_authorization_code"@
            ==> oauth_error_text(Some(reason))
            == "Spotify did not return an authorization code. Click Connect Spotify to try again."@,
        reason == "token_exchange_failed"@ ==> oauth_error_text(Some(reason))
            == "Spotify rejected the sign-in exchange. This usually means the address registered in your Spotify app does not exactly match the one saved in step 2. Fix the mismatch, save, and Connect again."@,
        reason == "token_storage_failed"@ ==> oauth_error_text(Some(reason))
            == "Spotify authorized, but the token could not be saved on this UHC server. Check the server's credential storage and try Connect again."@,
        reason == "oauth_not_configured"@ || reason == "invalid_client_configuration"@
            ==> oauth_error_text(Some(reason))
            == "Spotify client settings are missing or invalid. Enter and save the Client ID (and Secret, if used) below before connecting."@,
        reason == "adapter_unavailable"@ || reason == "adapter_start_failed"@ ==> oauth_error_text(
            Some(reason),
        )
            == "Spotify authorized, but the adapter could not start. Refresh this page and try again."@,
        reason == "companion_required"@ ==> oauth_error_text(Some(reason))
            == "This provider is authorized through its companion app, not this OAuth flow."@,
        !is_callback_code(reason) ==> oauth_error_text(Some(reason)) == oauth_error_text(None),
        oauth_error_text(None)
            == "Spotify authorization did not complete. Try Connect again or open Client settings."@,
{
    reveal_strlit("invalid_state");
    reveal_strlit("expired_state");
    reveal_strlit("provider_denied");
    reveal_strlit("provider_oauth_error");
    reveal_strlit("missing_authorization_code");
    reveal_strlit("token_exchange_failed");
    reveal_strlit("token_storage_failed");
    reveal_strlit("oauth_not_configured");
    reveal_strlit("invalid_client_configuration");
    reveal_strlit("adapter_unavailable");
    reveal_strlit("adapter_start_failed");
    reveal_strlit("companion_required");
    assert("invalid_state"@.len() == 13 && "expired_state"@.len() == 13);
    assert("provider_denied"@.len() == 15);
    assert("provider_oauth_error"@.len() == 20 && "provider_oauth_error"@[0] == 'p');
    assert("missing_authorization_code"@.len() == 26);
    assert("token_exchange_failed"@.len() == 21);
    assert("token_storage_failed"@.len() == 20 && "token_storage_failed"@[0] == 't');
    assert("oauth_not_configured"@.len() == 20 && "oauth_not_configured"@[0] == 'o');
    assert("invalid_client_configuration"@.len() == 28);
    assert("adapter_unavailable"@.len() == 19);
    assert("adapter_start_failed"@.len() == 20 && "adapter_start_failed"@[0] == 'a');
    assert("companion_required"@.len() == 18);
}

} // verus!
