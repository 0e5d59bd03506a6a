//! What the feature table shows for each adapter.

use crate::api::{
    AppleBridgeCompanionStatus, AppleBridgeStatus, HqpStatus, LmsConfig, RoonStatus, Zone,
};
use crate::markup::StatusText;
use crate::text::{cat2, cat3, decimal, has_prefix, number, same, starts_with};
use crate::seqs::derefs;
use vstd::prelude::*;

verus! {

/// OpenHome status response
#[derive(Clone, Copy, Debug, PartialEq, Eq, Structural)]
pub struct OpenHomeStatus {
    pub device_count: usize,
}

/// UPnP status response
#[derive(Clone, Copy, Debug, PartialEq, Eq, Structural)]
pub struct UpnpStatus {
    pub renderer_count: usize,
}

/// A feature that is switched off.
pub open spec fn shows_off(line: StatusText) -> bool {
    line.shows("text-muted"@, "-"@)
}

/// A feature whose state has not arrived yet.
pub open spec fn shows_waiting(line: StatusText) -> bool {
    line.shows(""@, "..."@)
}

/// Roon's row: the core's name where it is connected.
pub fn roon_feature(enabled: bool, status: Option<&RoonStatus>) -> (r: StatusText)
    ensures
        !enabled ==> shows_off(r),
        enabled && status is None ==> shows_waiting(r),
        enabled && status is Some && status->0.connected ==> r.shows(
            "status-ok"@,
            match status->0.core_name {
                Some(name) => "✓ "@ + name@,
                None => "✓ Core"@,
            },
        ),
        enabled && status is Some && !status->0.connected ==> r.shows(
            "status-err"@,
            "✗ Not connected"@,
        ),
{
    if !enabled {
        return StatusText::fixed("text-muted", "-");
    }
    match status {
        Some(status) => if status.connected {
            match &status.core_name {
                Some(name) => StatusText { class: "status-ok", text: cat2("✓ ", name.as_str()) },
                None => StatusText::fixed("status-ok", "✓ Core"),
            }
        } else {
            StatusText::fixed("status-err", "✗ Not connected")
        },
        None => StatusText::fixed("", "..."),
    }
}

/// OpenHome's row: how many devices answer.
pub fn openhome_feature(enabled: bool, status: Option<OpenHomeStatus>) -> (r: StatusText)
    ensures
        !enabled ==> shows_off(r),
        enabled && status is None ==> shows_waiting(r),
        enabled && status is Some && status->0.device_count > 0 ==> r.shows(
            "status-ok"@,
            "✓ "@ + decimal(status->0.device_count as nat) + " devices"@,
        ),
        enabled && status is Some && status->0.device_count == 0 ==> r.shows(
            ""@,
            "Searching..."@,
        ),
{
    if !enabled {
        return StatusText::fixed("text-muted", "-");
    }
    match status {
        Some(status) => if status.device_count > 0 {
            let count = number(status.device_count as u64);
            StatusText { class: "status-ok", text: cat3("✓ ", count.as_str(), " devices") }
        } else {
            StatusText::fixed("", "Searching...")
        },
        None => StatusText::fixed("", "..."),
    }
}

/// UPnP's row: how many renderers answer.
pub fn upnp_feature(enabled: bool, status: Option<UpnpStatus>) -> (r: StatusText)
    ensures
        !enabled ==> shows_off(r),
        enabled && status is None ==> shows_waiting(r),
        enabled && status is Some && status->0.renderer_count > 0 ==> r.shows(
            "status-ok"@,
            "✓ "@ + decimal(status->0.renderer_count as nat) + " renderers"@,
        ),
        enabled && status is Some && status->0.renderer_count == 0 ==> r.shows(
            ""@,
            "Searching..."@,
        ),
{
    if !enabled {
        return StatusText::fixed("text-muted", "-");
    }
    match status {
        Some(status) => if status.renderer_count > 0 {
            let count = number(status.renderer_count as u64);
            StatusText { class: "status-ok", text: cat3("✓ ", count.as_str(), " renderers") }
        } else {
            StatusText::fixed("", "Searching...")
        },
        None => StatusText::fixed("", "..."),
    }
}

/// LMS's row: whether events arrive by subscription or by polling.
pub fn lms_feature(enabled: bool, config: Option<&LmsConfig>) -> (r: StatusText)
    ensures
        !enabled ==> shows_off(r),
        enabled && config is None ==> shows_waiting(r),
        enabled && config is Some && config->0.connected && config->0.cli_subscription_active
            ==> r.shows("status-ok"@, "✓ CLI"@),
        enabled && config is Some && config->0.connected && !config->0.cli_subscription_active
            ==> r.shows("text-yellow-500"@, "⚠ Polling"@),
        enabled && config is Some && !config->0.connected ==> r.shows(
            "status-err"@,
            "✗ Not connected"@,
        ),
{
    if !enabled {
        return StatusText::fixed("text-muted", "-");
    }
    match config {
        Some(config) => if config.connected {
            if config.cli_subscription_active {
                StatusText::fixed("status-ok", "✓ CLI")
            } else {
                StatusText::fixed("text-yellow-500", "⚠ Polling")
            }
        } else {
            StatusText::fixed("status-err", "✗ Not connected")
        },
        None => StatusText::fixed("", "..."),
    }
}

/// HQPlayer's row.
pub fn hqplayer_feature(enabled: bool, status: Option<&HqpStatus>) -> (r: StatusText)
    ensures
        !enabled ==> shows_off(r),
        enabled && status is None ==> shows_waiting(r),
        enabled && status is Some && status->0.connected ==> r.shows("status-ok"@, "✓ Connected"@),
        enabled && status is Some && !status->0.connected ==> r.shows(
            "status-err"@,
            "✗ Not connected"@,
        ),
{
    if !enabled {
        return StatusText::fixed("text-muted", "-");
    }
    match status {
        Some(status) => if status.connected {
            StatusText::fixed("status-ok", "✓ Connected")
        } else {
            StatusText::fixed("status-err", "✗ Not connected")
        },
        None => StatusText::fixed("", "..."),
    }
}

/// The running state of a provider that has to be set up first.
#[derive(Clone, Copy, Debug, PartialEq, Eq, Structural)]
pub struct ProviderRun {
    pub configured: bool,
    pub running: bool,
}

/// Music Assistant's row.
pub fn musicassistant_feature(enabled: bool, status: Option<ProviderRun>) -> (r: StatusText)
    ensures
        !enabled ==> shows_off(r),
        enabled && status is None ==> shows_waiting(r),
        enabled && status is Some && status->0.running ==> r.shows("status-ok"@, "✓ Connected"@),
        enabled && status is Some && !status->0.running && status->0.configured ==> r.shows(
            "text-yellow-500"@,
            "Configured · waiting"@,
        ),
        enabled && status is Some && !status->0.running && !status->0.configured ==> r.shows(
            "text-muted"@,
            "Setup required"@,
        ),
{
    if !enabled {
        return StatusText::fixed("text-muted", "-");
    }
    match status {
        Some(status) => if status.running {
            StatusText::fixed("status-ok", "✓ Connected")
        } else if status.configured {
            StatusText::fixed("text-yellow-500", "Configured · waiting")
        } else {
            StatusText::fixed("text-muted", "Setup required")
        },
        None => StatusText::fixed("", "..."),
    }
}

/// Spotify's row: how many Connect devices there are.
pub fn spotify_feature(enabled: bool, device_count: Option<usize>) -> (r: StatusText)
    ensures
        !enabled ==> shows_off(r),
        enabled && device_count is None ==> shows_waiting(r),
        enabled && device_count == Some(0usize) ==> r.shows(
            "status-err"@,
            "✗ No Connect devices"@,
        ),
        enabled && device_count is Some && device_count->0 > 0 ==> r.shows(
            "status-ok"@,
            "✓ "@ + decimal(device_count->0 as nat) + " device(s)"@,
        ),
{
    if !enabled {
        return StatusText::fixed("text-muted", "-");
    }
    match device_count {
        Some(count) => if count == 0 {
            StatusText::fixed("status-err", "✗ No Connect devices")
        } else {
            let count = number(count as u64);
            StatusText { class: "status-ok", text: cat3("✓ ", count.as_str(), " device(s)") }
        },
        None => StatusText::fixed("", "..."),
    }
}

/// Apple Music's row.
pub fn applemusic_feature(enabled: bool, status: Option<&AppleBridgeStatus>) -> (r: StatusText)
    ensures
        !enabled ==> shows_off(r),
        enabled && status is None ==> r.shows(""@, "Checking..."@),
        enabled && status is Some ==> (match apple_state(status->0.deep()) {
            AppleMusicStatusState::Live => r.shows("status-ok"@, "✓ Companion live"@),
            AppleMusicStatusState::PairedWaiting => r.shows(
                "text-yellow-500"@,
                "⚠ Paired · waiting"@,
            ),
            AppleMusicStatusState::Unpaired => r.shows("text-muted"@, "Not paired"@),
        }),
{
    if !enabled {
        return StatusText::fixed("text-muted", "-");
    }
    if status.is_none() {
        return StatusText::fixed("", "Checking...");
    }
    match apple_music_status_state(status) {
        AppleMusicStatusState::Live => StatusText::fixed("status-ok", "✓ Companion live"),
        AppleMusicStatusState::PairedWaiting => StatusText::fixed(
            "text-yellow-500",
            "⚠ Paired · waiting",
        ),
        AppleMusicStatusState::Unpaired => StatusText::fixed("text-muted", "Not paired"),
    }
}

/// The MQTT publisher's row. A publisher without a broker is offered a way to the
/// broker form, which `needs_broker` marks.
pub struct MqttFeature {
    pub line: StatusText,
    pub needs_broker: bool,
}

pub fn mqtt_feature(enabled: bool, status: Option<ProviderRun>, environment_managed: bool) -> (r:
    MqttFeature)
    ensures
        r.needs_broker == (enabled && status is Some && !status->0.running && !status->0.configured),
        !enabled ==> r.line.shows("text-muted"@, "Off — no Home Assistant entities"@),
        enabled && status is None ==> shows_waiting(r.line),
        enabled && status is Some && status->0.running ==> r.line.shows(
            "status-ok"@,
            if environment_managed {
                "✓ Connected · via add-on"@
            } else {
                "✓ Connected"@
            },
        ),
        enabled && status is Some && !status->0.running && status->0.configured ==> r.line.shows(
            "text-yellow-500"@,
            "Configured · waiting"@,
        ),
        r.needs_broker ==> r.line.shows(
            "text-yellow-500 underline"@,
            "No broker yet — set one up"@,
        ),
{
    if !enabled {
        return MqttFeature {
            line: StatusText::fixed("text-muted", "Off — no Home Assistant entities"),
            needs_broker: false,
        };
    }
    match status {
        Some(status) => if status.running {
            let text = if environment_managed {
                "✓ Connected · via add-on"
            } else {
                "✓ Connected"
            };
            MqttFeature { line: StatusText::fixed("status-ok", text), needs_broker: false }
        } else if status.configured {
            MqttFeature {
                line: StatusText::fixed("text-yellow-500", "Configured · waiting"),
                needs_broker: false,
            }
        } else {
            MqttFeature {
                line: StatusText::fixed("text-yellow-500 underline", "No broker yet — set one up"),
                needs_broker: true,
            }
        },
        None => MqttFeature { line: StatusText::fixed("", "..."), needs_broker: false },
    }
}

// ── Spotify devices ─────────────────────────────────────────────────────────

/// Whether a zone is a Spotify Connect device.
pub open spec fn is_spotify_zone(zone: Zone) -> bool {
    has_prefix(zone.zone_id@, "spotify:"@)
}

/// The Spotify Connect devices among the zones, in the zones' order.
pub fn spotify_devices<'a>(zones: &'a [Zone]) -> (r: Vec<&'a Zone>)
    ensures
        derefs(r@) == zones@.filter(|zone: Zone| is_spotify_zone(zone)),
{
    let ghost keep = |zone: Zone| is_spotify_zone(zone);
    let mut devices: Vec<&'a Zone> = Vec::new();
    let mut i: usize = 0;
    proof {
        crate::seqs::filter_empty(zones@, keep);
        assert(derefs(devices@) =~= zones@.take(0).filter(keep));
    }
    while i < zones.len()
        invariant
            i <= zones@.len(),
            keep == (|zone: Zone| is_spotify_zone(zone)),
            derefs(devices@) == zones@.take(i as int).filter(keep),
        decreases zones@.len() - i,
    {
        let ghost before = devices@;
        proof {
            crate::seqs::filter_step(zones@, i as int, keep);
        }
        if starts_with(zones[i].zone_id.as_str(), "spotify:") {
            devices.push(&zones[i]);
            assert(derefs(devices@) =~= derefs(before).push(zones@[i as int]));
        }
        i = i + 1;
    }
    assert(zones@.take(i as int) =~= zones@);
    devices
}

/// The playback state that a zone reports.
pub open spec fn zone_state(zone: Zone) -> Seq<char> {
    match zone.state {
        Some(state) => state@,
        None => "unknown"@,
    }
}

/// The playback state that a zone reports, `unknown` where it reports none.
pub fn zone_state_label(zone: &Zone) -> (r: &str)
    ensures
        r@ == zone_state(*zone),
{
    match &zone.state {
        Some(state) => state.as_str(),
        None => "unknown",
    }
}

/// The words for a device's playback state; a state without words of its own is
/// shown as it is.
pub fn spotify_device_state_label(zone: &Zone) -> (r: &str)
    ensures
        r@ == (if zone_state(*zone) == "playing"@ {
            "Playing"@
        } else if zone_state(*zone) == "paused"@ {
            "Paused"@
        } else if zone_state(*zone) == "unknown"@ {
            "No playback reported"@
        } else {
            zone_state(*zone)
        }),
{
    let state = zone_state_label(zone);
    if same(state, "playing") {
        "Playing"
    } else if same(state, "paused") {
        "Paused"
    } else if same(state, "unknown") {
        "No playback reported"
    } else {
        state
    }
}

/// The class of a device's state.
pub fn spotify_device_state_class(zone: &Zone) -> (r: &'static str)
    ensures
        r@ == (if zone_state(*zone) == "unknown"@ {
            "text-muted text-sm"@
        } else {
            "status-ok text-sm"@
        }),
{
    if same(zone_state_label(zone), "unknown") {
        "text-muted text-sm"
    } else {
        "status-ok text-sm"
    }
}

/// The heading above the device list.
pub fn device_list_heading(device_count: Option<usize>) -> (r: String)
    ensures
        r@ == (match device_count {
            Some(count) => "Available devices ("@ + decimal(count as nat) + ")"@,
            None => "Available devices"@,
        }),
{
    match device_count {
        Some(count) => {
            let count = number(count as u64);
            cat3("Available devices (", count.as_str(), ")")
        },
        None => "Available devices".to_owned(),
    }
}

// ── Apple Music companions ──────────────────────────────────────────────────

/// How far Apple Music has been set up.
#[derive(Clone, Copy, Debug, PartialEq, Eq, Structural)]
pub enum AppleMusicStatusState {
    Unpaired,
    PairedWaiting,
    Live,
}

/// What the state of Apple Music depends on.
pub struct AppleBridgeModel {
    pub paired: bool,
    pub live: bool,
    /// For each companion, whether it is paired and whether it is live.
    pub companions: Seq<(bool, bool)>,
}

/// A companion's pairing and liveness.
pub open spec fn companion_model(companion: AppleBridgeCompanionStatus) -> (bool, bool) {
    (companion.paired, companion.live)
}

impl AppleBridgeStatus {
    /// What the state of Apple Music depends on.
    pub open spec fn deep(self) -> AppleBridgeModel {
        AppleBridgeModel {
            paired: self.paired,
            live: self.live,
            companions: self.companions@.map_values(
                |c: AppleBridgeCompanionStatus| companion_model(c),
            ),
        }
    }
}

/// Live where the bridge or a paired companion is live; waiting where something
/// is paired; else unpaired. Only a live companion counts, not a snapshot of one.
pub open spec fn apple_state(bridge: AppleBridgeModel) -> AppleMusicStatusState {
    if bridge.live || exists|i: int|
        0 <= i < bridge.companions.len() && (#[trigger] bridge.companions[i]).0
            && bridge.companions[i].1 {
        AppleMusicStatusState::Live
    } else if bridge.paired || exists|i: int|
        0 <= i < bridge.companions.len() && (#[trigger] bridge.companions[i]).0 {
        AppleMusicStatusState::PairedWaiting
    } else {
        AppleMusicStatusState::Unpaired
    }
}

/// How far Apple Music has been set up; without a status it counts as unpaired.
pub fn apple_music_status_state(status: Option<&AppleBridgeStatus>) -> (r: AppleMusicStatusState)
    ensures
        r == (match status {
            Some(status) => apple_state(status.deep()),
            None => AppleMusicStatusState::Unpaired,
        }),
{
    let status = match status {
        Some(status) => status,
        None => {
            return AppleMusicStatusState::Unpaired;
        },
    };
    let ghost model = status.deep().companions;
    let mut paired = false;
    let mut live = false;
    let mut i: usize = 0;
    while i < status.companions.len()
        invariant
            i <= status.companions@.len(),
            model == status.deep().companions,
            paired == (exists|j: int| 0 <= j < i && (#[trigger] model[j]).0),
            live == (exists|j: int| 0 <= j < i && (#[trigger] model[j]).0 && model[j].1),
        decreases status.companions@.len() - i,
    {
        let companion = &status.companions[i];
        assert(model[i as int] == (companion.paired, companion.live));
        if companion.paired {
            paired = true;
            if companion.live {
                live = true;
            }
        }
        i = i + 1;
    }
    if status.live || live {
        AppleMusicStatusState::Live
    } else if status.paired || paired {
        AppleMusicStatusState::PairedWaiting
    } else {
        AppleMusicStatusState::Unpaired
    }
}

/// Whether a companion is paired and live.
pub open spec fn companion_live(companion: AppleBridgeCompanionStatus) -> bool {
    companion.paired && companion.live
}

/// How many companions are paired and live.
pub fn apple_music_live_companion_count(status: Option<&AppleBridgeStatus>) -> (r: usize)
    ensures
        r == (match status {
            Some(status) => status.companions@.filter(
                |c: AppleBridgeCompanionStatus| companion_live(c),
            ).len(),
            None => 0,
        }),
{
    let status = match status {
        Some(status) => status,
        None => {
            return 0;
        },
    };
    let ghost keep = |c: AppleBridgeCompanionStatus| companion_live(c);
    let mut count: usize = 0;
    let mut i: usize = 0;
    proof {
        crate::seqs::filter_empty(status.companions@, keep);
    }
    while i < status.companions.len()
        invariant
            i <= status.companions@.len(),
            keep == (|c: AppleBridgeCompanionStatus| companion_live(c)),
            count <= i,
            count == status.companions@.take(i as int).filter(keep).len(),
        decreases status.companions@.len() - i,
    {
        proof {
            crate::seqs::filter_step(status.companions@, i as int, keep);
        }
        if status.companions[i].paired && status.companions[i].live {
            count = count + 1;
        }
        i = i + 1;
    }
    assert(status.companions@.take(i as int) =~= status.companions@);
    count
}

/// A live companion makes the bridge live, whatever the bridge says of itself.
pub proof fn live_companion_makes_bridge_live(status: AppleBridgeStatus, i: int)
    requires
        0 <= i < status.companions@.len(),
        companion_live(status.companions@[i]),
    ensures
        apple_state(status.deep()) == AppleMusicStatusState::Live,
{
    assert(status.deep().companions[i].0 && status.deep().companions[i].1);
}

/// The badge on the Apple Music card.
pub fn applemusic_badge(enabled: bool, state: AppleMusicStatusState, live_count: usize) -> (r:
    StatusText)
    ensures
        !enabled ==> r.shows("badge badge-secondary shrink-0"@, "Disabled"@),
        enabled ==> (match state {
            AppleMusicStatusState::Live => r.shows(
                "badge badge-success shrink-0"@,
                decimal(live_count as nat) + " "@ + (if live_count == 1 {
                    "companion live"@
                } else {
                    "companions live"@
                }),
            ),
            AppleMusicStatusState::PairedWaiting => r.shows(
                "badge badge-secondary shrink-0"@,
                "Paired · waiting"@,
            ),
            AppleMusicStatusState::Unpaired => r.shows(
                "badge badge-secondary shrink-0"@,
                "Not paired"@,
            ),
        }),
{
    if !enabled {
        return StatusText::fixed("badge badge-secondary shrink-0", "Disabled");
    }
    match state {
        AppleMusicStatusState::Live => {
            let noun = if live_count == 1 {
                "companion live"
            } else {
                "companions live"
            };
            let count = number(live_count as u64);
            StatusText {
                class: "badge badge-success shrink-0",
                text: cat3(count.as_str(), " ", noun),
            }
        },
        AppleMusicStatusState::PairedWaiting => StatusText::fixed(
            "badge badge-secondary shrink-0",
            "Paired · waiting",
        ),
        AppleMusicStatusState::Unpaired => StatusText::fixed(
            "badge badge-secondary shrink-0",
            "Not paired",
        ),
    }
}

/// What the Apple Music card shows below its heading.
#[derive(Clone, Copy, Debug, PartialEq, Eq, Structural)]
pub enum AppleMusicPanel {
    /// The status has not arrived.
    Checking,
    /// The first pending pairing waits for its code to be confirmed.
    ConfirmCode,
    /// A pairing is saved and no companion has reconnected.
    WaitingForCompanion,
    /// Nothing is paired.
    PairCompanion,
    /// The companions, each with its state.
    Companions,
}

/// The panel of a known status.
pub open spec fn known_panel(pending: int, companions: int, paired: bool) -> AppleMusicPanel {
    if pending > 0 {
        AppleMusicPanel::ConfirmCode
    } else if companions > 0 {
        AppleMusicPanel::Companions
    } else if paired {
        AppleMusicPanel::WaitingForCompanion
    } else {
        AppleMusicPanel::PairCompanion
    }
}

/// A code that waits for an answer comes before the companions that are there, and
/// companions that are there before any word on pairing.
pub proof fn waiting_codes_come_first(pending: int, companions: int, paired: bool)
    requires
        0 <= pending,
        0 <= companions,
    ensures
        known_panel(pending, companions, paired) == AppleMusicPanel::ConfirmCode <==> pending > 0,
        known_panel(pending, companions, paired) == AppleMusicPanel::Companions <==> pending == 0
            && companions > 0,
        known_panel(0, 0, true) == AppleMusicPanel::WaitingForCompanion,
        known_panel(0, 0, false) == AppleMusicPanel::PairCompanion,
{
}

/// Picks the panel: a pending code comes first, then the companions.
pub fn applemusic_panel(status: Option<&AppleBridgeStatus>) -> (r: AppleMusicPanel)
    ensures
        status is None ==> r == AppleMusicPanel::Checking,
        status is Some ==> r == known_panel(
            status->0.pending_pairings@.len() as int,
            status->0.companions@.len() as int,
            status->0.paired,
        ),
        r == (match status {
            None => AppleMusicPanel::Checking,
            Some(status) => if status.pending_pairings@.len() > 0 {
                AppleMusicPanel::ConfirmCode
            } else if status.companions@.len() > 0 {
                AppleMusicPanel::Companions
            } else if status.paired {
                AppleMusicPanel::WaitingForCompanion
            } else {
                AppleMusicPanel::PairCompanion
            },
        }),
{
    match status {
        None => AppleMusicPanel::Checking,
        Some(status) => if status.pending_pairings.len() > 0 {
            AppleMusicPanel::ConfirmCode
        } else if status.companions.len() > 0 {
            AppleMusicPanel::Companions
        } else if status.paired {
            AppleMusicPanel::WaitingForCompanion
        } else {
            AppleMusicPanel::PairCompanion
        },
    }
}

/// The badge of one companion.
pub fn companion_badge(companion: &AppleBridgeCompanionStatus) -> (r: StatusText)
    ensures
        companion_live(*companion) ==> r.shows("badge badge-success"@, "Live"@),
        !companion_live(*companion) ==> r.shows("badge badge-secondary"@, "Offline · paired"@),
{
    if companion.paired && companion.live {
        StatusText::fixed("badge badge-success", "Live")
    } else {
        StatusText::fixed("badge badge-secondary", "Offline · paired")
    }
}

/// What one companion is waiting for.
pub fn companion_hint(companion: &AppleBridgeCompanionStatus) -> (r: &'static str)
    ensures
        r@ == (if companion_live(*companion) {
            "Ready for playback through UHC."@
        } else if companion.paired {
            "Pairing is saved. Open the companion app to reconnect it to UHC."@
        } else {
            "Waiting for this companion to finish pairing."@
        }),
{
    if companion.paired && companion.live {
        "Ready for playback through UHC."
    } else if companion.paired {
        "Pairing is saved. Open the companion app to reconnect it to UHC."
    } else {
        "Waiting for this companion to finish pairing."
    }
}

/// The question before a companion is removed.
pub fn remove_companion_question(display_name: &str) -> (r: String)
    ensures
        r@ == "Remove "@ + display_name@ + " from UHC? This revokes its saved pairing."@,
{
    cat3("Remove ", display_name, " from UHC? This revokes its saved pairing.")
}

/// Apple Music is live just where the bridge is, or a companion that is paired; it waits
/// just where something is paired and nothing live, and is unpaired otherwise.
pub proof fn apple_music_follows_its_companions(status: AppleBridgeStatus)
    ensures
        apple_state(status.deep()) == AppleMusicStatusState::Live <==> status.live || exists|i: int|
            0 <= i < status.companions@.len() && (#[trigger] status.companions@[i]).paired
                && status.companions@[i].live,
        apple_state(status.deep()) == AppleMusicStatusState::Unpaired <==> !status.live
            && !status.paired && forall|i: int|
            0 <= i < status.companions@.len() ==> !(#[trigger] status.companions@[i]).paired,
        forall|c: AppleBridgeCompanionStatus| #[trigger]
            companion_live(c) <==> c.paired && c.live,
{
    let model = status.deep().companions;
    assert forall|i: int| 0 <= i < status.companions@.len() implies (#[trigger] model[i]) == (
        status.companions@[i].paired,
        status.companions@[i].live,
    ) by {}
    if exists|i: int|
        0 <= i < status.companions@.len() && (#[trigger] status.companions@[i]).paired
            && status.companions@[i].live {
        let i = choose|i: int|
            0 <= i < status.companions@.len() && (#[trigger] status.companions@[i]).paired
                && status.companions@[i].live;
        assert(model[i].0 && model[i].1);
    }
    if exists|i: int| 0 <= i < model.len() && (#[trigger] model[i]).0 && model[i].1 {
        let i = choose|i: int| 0 <= i < model.len() && (#[trigger] model[i]).0 && model[i].1;
        assert(status.companions@[i].paired && status.companions@[i].live);
    }
    if exists|i: int| 0 <= i < status.companions@.len() && (#[trigger] status.companions@[i]).paired {
        let i = choose|i: int|
            0 <= i < status.companions@.len() && (#[trigger] status.companions@[i]).paired;
        assert(model[i].0);
    }
    if exists|i: int| 0 <= i < model.len() && (#[trigger] model[i]).0 {
        let i = choose|i: int| 0 <= i < model.len() && (#[trigger] model[i]).0;
        assert(status.companions@[i].paired);
    }
}

/// A zone is Spotify's just where its id says so at its start, and tells its state as it
/// is, or that it is unknown.
pub proof fn spotify_zones_are_told_by_their_id(zone: Zone)
    ensures
        is_spotify_zone(zone) <==> exists|rest: Seq<char>|
            zone.zone_id@ == #[trigger] ("spotify:"@ + rest),
        zone.state is Some ==> zone_state(zone) == zone.state->0@,
        zone.state is None ==> zone_state(zone) == "unknown"@,
{
    crate::text::prefix_splits_the_text(zone.zone_id@, "spotify:"@);
}

/// A feature that is off shows a muted dash, and one that is waited for three dots.
pub proof fn absent_states_show_a_mark(line: StatusText)
    ensures
        shows_off(line) <==> line.class@ == "text-muted"@ && line.text@ == "-"@,
        shows_waiting(line) <==> line.class@ == ""@ && line.text@ == "..."@,
{
}

} // verus!
