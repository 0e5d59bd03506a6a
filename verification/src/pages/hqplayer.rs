//! HQPlayer page: the connection, the zones that play through HQPlayer, and its
//! signal processing.

use crate::api::{find_by_id, zone_by_id, Zone};
use crate::grouping::{by_name, sorted_by_name};
use crate::markup::StatusText;
use crate::now_playing::NowPlaying;
use crate::rate::{format_hqp_rate, padded, padded_number, rate_text};
use crate::seqs::{derefs, first_found, first_missing, first_where};
use crate::sorting::{arrange, arranged, order_by_text, orders_texts};
use crate::sse::{refreshes_hqp, refreshes_zones, SseContext, SseEvent};
use crate::text::{
    as_opt_str, cat2, cat3, contains, decimal, has_prefix, join, joined, list_contains, lowercase,
    non_empty, number, occurs_in, opt_is, opt_str, opt_text, parse_port, parse_u32, parsed_unsigned,
    same, starts_with, texts, to_lowercase, trim, trimmed,
};
use vstd::prelude::*;

verus! {

// ── Refreshing slow state ───────────────────────────────────────────────────

/// Gate slow advanced-state reads so rerenders or mutation bursts cannot overlap
/// requests.
#[derive(Clone, Copy, Debug, PartialEq, Eq, Structural)]
pub struct CoalescingRefresh {
    pub initial_requested: bool,
    pub in_flight: bool,
    pub dirty: bool,
}

impl Default for CoalescingRefresh {
    fn default() -> (r: Self)
        ensures
            r == (CoalescingRefresh { initial_requested: false, in_flight: false, dirty: false }),
    {
        CoalescingRefresh { initial_requested: false, in_flight: false, dirty: false }
    }
}

impl CoalescingRefresh {
    /// A follow-up is owed only while a fetch runs.
    pub open spec fn valid(self) -> bool {
        self.dirty ==> self.in_flight
    }

    /// What a request leaves.
    pub open spec fn requested(self) -> CoalescingRefresh {
        if self.in_flight {
            CoalescingRefresh { dirty: true, ..self }
        } else {
            CoalescingRefresh { in_flight: true, ..self }
        }
    }

    /// What the end of a fetch leaves.
    pub open spec fn completed(self) -> CoalescingRefresh {
        if self.dirty {
            CoalescingRefresh { dirty: false, ..self }
        } else {
            CoalescingRefresh { in_flight: false, ..self }
        }
    }

    /// Only the first call is an initial read; later explicit mutations still use
    /// [`Self::request`].
    pub fn request_initial(&mut self) -> (start: bool)
        ensures
            start == (!old(self).initial_requested && !old(self).in_flight),
            old(self).initial_requested ==> *final(self) == *old(self),
            !old(self).initial_requested ==> *final(self) == (CoalescingRefresh {
                initial_requested: true,
                ..*old(self)
            }).requested(),
            old(self).valid() ==> final(self).valid(),
    {
        if self.initial_requested {
            return false;
        }
        self.initial_requested = true;
        self.request()
    }

    /// Returns true when the caller owns the single fetch loop.
    pub fn request(&mut self) -> (start: bool)
        ensures
            start == !old(self).in_flight,
            *final(self) == old(self).requested(),
            old(self).valid() ==> final(self).valid(),
    {
        if self.in_flight {
            self.dirty = true;
            false
        } else {
            self.in_flight = true;
            true
        }
    }

    /// Returns true when one coalesced follow-up read is required.
    pub fn complete(&mut self) -> (again: bool)
        ensures
            again == old(self).dirty,
            *final(self) == old(self).completed(),
            old(self).valid() ==> final(self).valid(),
    {
        if self.dirty {
            self.dirty = false;
            true
        } else {
            self.in_flight = false;
            false
        }
    }
}

/// Fetches never overlap: a request starts one only while none runs, and one runs
/// from then on until a completion asks for no other.
pub proof fn fetches_never_overlap(refresh: CoalescingRefresh)
    ensures
        refresh.requested().in_flight,
        refresh.in_flight ==> refresh.requested().in_flight && refresh.requested().dirty,
        refresh.dirty && refresh.in_flight ==> refresh.completed().in_flight,
        !refresh.dirty ==> !refresh.completed().in_flight,
{
}

/// A burst of requests during a fetch leads to one follow-up, and after it nothing
/// runs.
pub proof fn burst_leads_to_one_follow_up(refresh: CoalescingRefresh)
    requires
        refresh.valid(),
        refresh.in_flight,
    ensures
        refresh.requested().requested() == refresh.requested(),
        refresh.requested().dirty,
        !refresh.requested().completed().dirty,
        !refresh.requested().completed().completed().in_flight,
{
}

/// A request while nothing runs starts a read and asks for no second one; what else is
/// known does not change.
pub proof fn idle_request_starts_one_read(refresh: CoalescingRefresh)
    ensures
        !refresh.in_flight ==> refresh.requested() == (CoalescingRefresh {
            in_flight: true,
            ..refresh
        }),
        refresh.in_flight ==> refresh.requested() == (CoalescingRefresh { dirty: true, ..refresh }),
        refresh.dirty ==> refresh.completed() == (CoalescingRefresh { dirty: false, ..refresh }),
        !refresh.dirty ==> refresh.completed() == (CoalescingRefresh {
            in_flight: false,
            ..refresh
        }),
{
}

/// What has been loaded at least once. A later reload does not take that back.
#[derive(Clone, Copy, Debug, PartialEq, Eq, Structural)]
pub struct LoadedOnce {
    pub zones: bool,
    pub links: bool,
    pub instances: bool,
}

impl LoadedOnce {
    pub fn new() -> (r: Self)
        ensures
            !r.zones && !r.links && !r.instances,
    {
        LoadedOnce { zones: false, links: false, instances: false }
    }

    /// Notes what is loaded now.
    pub fn note(&mut self, zones: bool, links: bool, instances: bool)
        ensures
            final(self).zones == (old(self).zones || zones),
            final(self).links == (old(self).links || links),
            final(self).instances == (old(self).instances || instances),
    {
        if zones {
            self.zones = true;
        }
        if links {
            self.links = true;
        }
        if instances {
            self.instances = true;
        }
    }

    /// Whether everything that pairing needs has been loaded.
    pub fn pairing_ready(&self) -> (r: bool)
        ensures
            r == (self.zones && self.links && self.instances),
    {
        self.zones && self.links && self.instances
    }

    /// Whether the controlled zones are known.
    pub fn controlled_zones_ready(&self) -> (r: bool)
        ensures
            r == (self.zones && self.links),
    {
        self.zones && self.links
    }
}

// ── Connection ──────────────────────────────────────────────────────────────

/// The stored connection.
#[derive(Debug)]
pub struct HqpConfig {
    pub host: Option<String>,
    pub port: Option<u16>,
    pub web_port: Option<u16>,
    pub has_web_credentials: bool,
}

/// What is sent to set up the connection.
#[derive(Debug)]
pub struct HqpConfigureRequest {
    pub host: String,
    pub port: u16,
    pub web_port: u16,
    pub username: Option<String>,
    pub password: Option<String>,
}

/// The connection form.
pub struct ConnectionForm {
    pub host: String,
    pub port: u16,
    pub web_port: u16,
    pub username: String,
    pub password: String,
    pub has_credentials: bool,
    pub status: Option<String>,
}

impl ConnectionForm {
    pub fn new() -> (r: Self)
        ensures
            r.host@.len() == 0,
            r.port == 4321,
            r.web_port == 8088,
            r.username@.len() == 0 && r.password@.len() == 0,
            !r.has_credentials,
            r.status is None,
    {
        ConnectionForm {
            host: String::new(),
            port: 4321,
            web_port: 8088,
            username: String::new(),
            password: String::new(),
            has_credentials: false,
            status: None,
        }
    }

    /// Fills the form from the stored connection.
    pub fn fill(&mut self, config: &HqpConfig)
        ensures
            final(self).host@ == (match config.host {
                Some(host) => host@,
                None => Seq::empty(),
            }),
            final(self).port == (match config.port {
                Some(port) => port,
                None => 4321,
            }),
            final(self).web_port == (match config.web_port {
                Some(port) => port,
                None => 8088,
            }),
            final(self).has_credentials == config.has_web_credentials,
            *final(self) == (ConnectionForm {
                host: final(self).host,
                port: final(self).port,
                web_port: final(self).web_port,
                has_credentials: final(self).has_credentials,
                ..*old(self)
            }),
    {
        self.host =
        match &config.host {
            Some(host) => host.clone(),
            None => String::new(),
        };
        self.port =
        match config.port {
            Some(port) => port,
            None => 4321,
        };
        self.web_port =
        match config.web_port {
            Some(port) => port,
            None => 8088,
        };
        self.has_credentials = config.has_web_credentials;
    }

    /// A control port was typed; text that is no port changes nothing.
    pub fn type_port(&mut self, text: &str)
        ensures
            match parsed_unsigned(text@, 65535) {
                Some(port) => final(self).port == port && *final(self) == (ConnectionForm {
                    port: final(self).port,
                    ..*old(self)
                }),
                None => *final(self) == *old(self),
            },
    {
        if let Some(port) = parse_port(text) {
            self.port = port;
        }
    }

    /// A web port was typed; text that is no port changes nothing.
    pub fn type_web_port(&mut self, text: &str)
        ensures
            match parsed_unsigned(text@, 65535) {
                Some(port) => final(self).web_port == port && *final(self) == (ConnectionForm {
                    web_port: final(self).web_port,
                    ..*old(self)
                }),
                None => *final(self) == *old(self),
            },
    {
        if let Some(port) = parse_port(text) {
            self.web_port = port;
        }
    }

    /// Save was pressed. Blank credentials are left out.
    pub fn save(&mut self) -> (r: HqpConfigureRequest)
        ensures
            opt_text(final(self).status) == Some("Testing connection…"@),
            *final(self) == (ConnectionForm { status: final(self).status, ..*old(self) }),
            r.host@ == old(self).host@,
            r.port == old(self).port,
            r.web_port == old(self).web_port,
            opt_text(r.username) == (if old(self).username@.len() == 0 {
                None
            } else {
                Some(old(self).username@)
            }),
            opt_text(r.password) == (if old(self).password@.len() == 0 {
                None
            } else {
                Some(old(self).password@)
            }),
    {
        self.status = Some("Testing connection…".to_owned());
        HqpConfigureRequest {
            host: self.host.clone(),
            port: self.port,
            web_port: self.web_port,
            username: non_empty(self.username.clone()),
            password: non_empty(self.password.clone()),
        }
    }

    /// The answer to a save. Where it got through, everything is read again.
    pub fn saved(&mut self, answer: Result<bool, String>) -> (refresh: bool)
        ensures
            refresh == (answer is Ok),
            *final(self) == (ConnectionForm { status: final(self).status, ..*old(self) }),
            opt_text(final(self).status) == Some(
                match answer {
                    Ok(connected) => if connected {
                        "Connected and verified."@
                    } else {
                        "Saved, but HQPlayer did not answer. Check the host and control port."@
                    },
                    Err(error) => "Connection failed: "@ + error@
                        + ". Check the address, ports, and web credentials."@,
                },
            ),
    {
        match answer {
            Ok(connected) => {
                let text = if connected {
                    "Connected and verified."
                } else {
                    "Saved, but HQPlayer did not answer. Check the host and control port."
                };
                self.status = Some(text.to_owned());
                true
            },
            Err(error) => {
                self.status =
                Some(
                    cat3(
                        "Connection failed: ",
                        error.as_str(),
                        ". Check the address, ports, and web credentials.",
                    ),
                );
                false
            },
        }
    }
}

/// Whether the bridge's answer to a save says that HQPlayer answered.
pub fn connected_flag(body: &serde_json::Value) -> (r: bool)
    ensures
        r == (crate::pages::settings::flag_member(*body, "connected"@) == Some(true)),
{
    match crate::pages::settings::json_flag(body, "connected") {
        Some(connected) => connected,
        None => false,
    }
}

/// The class of the connection status.
pub fn config_status_class(message: &str) -> (r: &'static str)
    ensures
        r@ == (if occurs_in(message@, "Connected"@) {
            "status-ok"@
        } else if occurs_in(message@, "failed"@) || has_prefix(message@, "Saved, but"@) {
            "status-err"@
        } else {
            "text-muted"@
        }),
{
    if contains(message, "Connected") {
        "status-ok"
    } else if contains(message, "failed") || starts_with(message, "Saved, but") {
        "status-err"
    } else {
        "text-muted"
    }
}

// ── Actions ─────────────────────────────────────────────────────────────────

/// The message for a transport command that failed. A skip that HQPlayer rejects
/// has no queue to skip in; the linked zone has one.
pub open spec fn control_error_text(error: Seq<char>) -> Seq<char> {
    if occurs_in(error, "HQPlayer rejected Next"@) {
        "HQPlayer has no usable native queue for next track. Use the linked playback zone's transport controls."@
    } else if occurs_in(error, "HQPlayer rejected Previous"@) {
        "HQPlayer has no usable native queue for previous track. Use the linked playback zone's transport controls."@
    } else {
        "Playback control failed: "@ + error
    }
}

/// The message for a transport command that failed.
pub fn playback_control_error(error: &str) -> (r: String)
    ensures
        r@ == control_error_text(error@),
{
    if contains(error, "HQPlayer rejected Next") {
        "HQPlayer has no usable native queue for next track. Use the linked playback zone's transport controls.".to_owned()
    } else if contains(error, "HQPlayer rejected Previous") {
        "HQPlayer has no usable native queue for previous track. Use the linked playback zone's transport controls.".to_owned()
    } else {
        cat2("Playback control failed: ", error)
    }
}

/// A refusal of the engine is explained wherever in the error it stands; any other error
/// is told as it came.
pub proof fn refusals_are_explained(a: Seq<char>, b: Seq<char>, error: Seq<char>)
    ensures
        control_error_text(a + "HQPlayer rejected Next"@ + b)
            == "HQPlayer has no usable native queue for next track. Use the linked playback zone's transport controls."@,
        !occurs_in(a + "HQPlayer rejected Previous"@ + b, "HQPlayer rejected Next"@)
            ==> control_error_text(a + "HQPlayer rejected Previous"@ + b)
            == "HQPlayer has no usable native queue for previous track. Use the linked playback zone's transport controls."@,
        !occurs_in(error, "HQPlayer rejected Next"@) && !occurs_in(
            error,
            "HQPlayer rejected Previous"@,
        ) ==> control_error_text(error) == "Playback control failed: "@ + error,
{
    crate::text::occurrence_splits_the_text(
        a + "HQPlayer rejected Next"@ + b,
        "HQPlayer rejected Next"@,
    );
    crate::text::occurrence_splits_the_text(
        a + "HQPlayer rejected Previous"@ + b,
        "HQPlayer rejected Previous"@,
    );
}

/// A change of HQPlayer's processing.
#[derive(Clone, Copy, Debug, PartialEq, Eq, Structural)]
pub enum DspChange {
    Pipeline,
    Profile,
    Matrix,
}

/// What a change that failed is told with.
pub open spec fn change_error_prefix(change: DspChange) -> Seq<char> {
    match change {
        DspChange::Pipeline => "Pipeline update failed: "@,
        DspChange::Profile => "Profile load failed: "@,
        DspChange::Matrix => "Matrix profile failed: "@,
    }
}

/// A change that failed is told by what was to be changed.
pub proof fn failed_changes_name_what_failed(change: DspChange)
    ensures
        change is Pipeline ==> has_prefix(change_error_prefix(change), "Pipeline "@),
        change is Profile ==> has_prefix(change_error_prefix(change), "Profile "@),
        change is Matrix ==> has_prefix(change_error_prefix(change), "Matrix "@),
        change_error_prefix(change).len() > 9,
        change_error_prefix(change).last() == ' ',
{
    reveal_strlit("Pipeline ");
    reveal_strlit("Profile ");
    reveal_strlit("Matrix ");
    reveal_strlit("Pipeline update failed: ");
    reveal_strlit("Profile load failed: ");
    reveal_strlit("Matrix profile failed: ");
    assert("Pipeline update failed: "@.subrange(0, 9) =~= "Pipeline "@);
    assert("Profile load failed: "@.subrange(0, 8) =~= "Profile "@);
    assert("Matrix profile failed: "@.subrange(0, 7) =~= "Matrix "@);
}

/// The line that names the engine that the page is connected to.
pub fn connected_line(host: Option<&str>) -> (r: String)
    ensures
        r@ == "Connected to "@ + (match host {
            Some(host) => host@,
            None => "HQPlayer"@,
        }),
{
    match host {
        Some(host) => cat2("Connected to ", host),
        None => cat2("Connected to ", "HQPlayer"),
    }
}

/// What the page reads from the bridge.
#[derive(Clone, Copy, Debug, PartialEq, Eq, Structural)]
pub struct HqpReads {
    /// Whether HQPlayer is connected.
    pub status: bool,
    pub pipeline: bool,
    pub profiles: bool,
    /// The zones and their pairings.
    pub zones: bool,
    /// The advanced state, which the bridge takes from HQPlayer itself.
    pub advanced: bool,
}

/// What is read again after a change was accepted.
pub open spec fn reads_after(change: DspChange) -> HqpReads {
    HqpReads {
        status: false,
        pipeline: change != DspChange::Matrix,
        profiles: change == DspChange::Profile,
        zones: false,
        advanced: true,
    }
}

/// What is read again after an event.
pub open spec fn reads_on(event: Option<SseEvent>) -> HqpReads {
    HqpReads {
        status: event is Some && refreshes_hqp(event->0),
        pipeline: event is Some && refreshes_hqp(event->0),
        profiles: false,
        zones: event is Some && refreshes_zones(event->0),
        advanced: false,
    }
}

/// Reading the advanced state never leads to reading it again: the events that it raises
/// itself, as any others, leave it alone, while every change that was accepted reads it.
/// The engine's own events read its status and pipeline, a profile its list as well, and
/// the matrix nothing but the advanced state.
pub proof fn advanced_reads_do_not_feed_themselves(event: Option<SseEvent>, change: DspChange)
    ensures
        !reads_on(event).advanced,
        !reads_on(event).profiles,
        reads_after(change).advanced,
        reads_after(change).pipeline <==> change == DspChange::Pipeline || change
            == DspChange::Profile,
        reads_after(change).profiles <==> change == DspChange::Profile,
        !reads_after(change).zones && !reads_after(change).status,
        event is Some && (event->0 is HqpStateChanged || event->0 is HqpPipelineChanged
            || event->0 is HqpConnected || event->0 is HqpDisconnected) ==> reads_on(event).status
            && reads_on(event).pipeline && !reads_on(event).zones,
        event is Some && (event->0 is ZoneUpdated || event->0 is ZoneRemoved
            || event->0 is RoonConnected || event->0 is LmsConnected) ==> reads_on(event).zones
            && !reads_on(event).status && !reads_on(event).pipeline,
        event is None ==> reads_on(event) == (HqpReads {
            status: false,
            pipeline: false,
            profiles: false,
            zones: false,
            advanced: false,
        }),
{
}

/// What is read again after a change was accepted: the advanced state always, the
/// pipeline unless only the matrix changed, the profiles where one was loaded.
pub fn hqp_reads_after(change: DspChange) -> (r: HqpReads)
    ensures
        r == reads_after(change),
        r.advanced,
        r.pipeline == (change != DspChange::Matrix),
        r.profiles == (change == DspChange::Profile),
        !r.status,
        !r.zones,
{
    HqpReads {
        status: false,
        pipeline: change != DspChange::Matrix,
        profiles: change == DspChange::Profile,
        zones: false,
        advanced: true,
    }
}

/// What is read again after the connection was configured: everything but the zones.
pub fn hqp_reads_after_configuration() -> (r: HqpReads)
    ensures
        r.status && r.pipeline && r.profiles && r.advanced,
        !r.zones,
{
    HqpReads { status: true, pipeline: true, profiles: true, zones: false, advanced: true }
}

/// What the last event makes the page read again. No event makes it read the
/// advanced state: that read raises HQPlayer's events itself, so that one read would
/// lead to the next without end.
pub fn hqp_reads_on_event(sse: &SseContext) -> (r: HqpReads)
    ensures
        r == reads_on(sse.last_event),
        !r.advanced,
        !r.profiles,
        r.status == (sse.last_event is Some && refreshes_hqp(sse.last_event->0)),
        r.pipeline == r.status,
        r.zones == (sse.last_event is Some && refreshes_zones(sse.last_event->0)),
{
    let engine = sse.should_refresh_hqp();
    HqpReads {
        status: engine,
        pipeline: engine,
        profiles: false,
        zones: sse.should_refresh_zones(),
        advanced: false,
    }
}

/// Whether a change is under way, and what went wrong last.
pub struct HqpActions {
    pub loading: bool,
    pub error: Option<String>,
}

impl HqpActions {
    pub fn new() -> (r: Self)
        ensures
            !r.loading,
            r.error is None,
    {
        HqpActions { loading: false, error: None }
    }

    /// A change was asked for.
    pub fn begin(&mut self)
        ensures
            final(self).loading,
            final(self).error is None,
    {
        self.error = None;
        self.loading = true;
    }

    /// A change came to an end. Where it was accepted, the state is read again.
    pub fn finish(&mut self, change: DspChange, answer: Result<(), String>) -> (refresh: bool)
        ensures
            !final(self).loading,
            refresh == (answer is Ok),
            match answer {
                Ok(_) => final(self).error == old(self).error,
                Err(error) => opt_text(final(self).error) == Some(
                    change_error_prefix(change) + error@,
                ),
            },
    {
        self.loading = false;
        match answer {
            Ok(_) => true,
            Err(error) => {
                let prefix = match change {
                    DspChange::Pipeline => "Pipeline update failed: ",
                    DspChange::Profile => "Profile load failed: ",
                    DspChange::Matrix => "Matrix profile failed: ",
                };
                self.error = Some(cat2(prefix, error.as_str()));
                false
            },
        }
    }

    /// A transport command goes out: an old error is taken back.
    pub fn control_sent(&mut self)
        ensures
            final(self).error is None,
            final(self).loading == old(self).loading,
    {
        self.error = None;
    }

    /// A transport command failed.
    pub fn control_failed(&mut self, error: &str)
        ensures
            opt_text(final(self).error) == Some(control_error_text(error@)),
            final(self).loading == old(self).loading,
    {
        self.error = Some(playback_control_error(error));
    }
}

// ── Zones that play through HQPlayer ────────────────────────────────────────

/// A zone paired with an HQPlayer instance.
#[derive(Debug)]
pub struct ZoneLink {
    pub zone_id: String,
    pub instance: String,
}

/// An HQPlayer instance.
#[derive(Debug)]
pub struct HqpInstance {
    pub name: String,
    pub host: Option<String>,
}

/// A zone is paired.
pub open spec fn linked(links: Seq<ZoneLink>, zone_id: Seq<char>) -> bool {
    exists|i: int| 0 <= i < links.len() && (#[trigger] links[i]).zone_id@ == zone_id
}

/// Whether a zone is paired.
pub fn is_linked(links: &[ZoneLink], zone_id: &str) -> (r: bool)
    ensures
        r == linked(links@, zone_id@),
{
    let mut i: usize = 0;
    while i < links.len()
        invariant
            i <= links@.len(),
            forall|j: int| 0 <= j < i ==> (#[trigger] links@[j]).zone_id@ != zone_id@,
        decreases links@.len() - i,
    {
        if same(links[i].zone_id.as_str(), zone_id) {
            return true;
        }
        i = i + 1;
    }
    false
}

/// A zone is controlled from this page: HQPlayer's own, or a paired one.
pub open spec fn controlled(zone: Zone, links: Seq<ZoneLink>) -> bool {
    opt_text(zone.source) == Some("hqplayer"@) || linked(links, zone.zone_id@)
}

/// The zones that are controlled from this page. A zone that is both direct and
/// paired is listed once.
pub fn controlled_zones<'a>(zones: &'a [Zone], links: &[ZoneLink]) -> (r: Vec<&'a Zone>)
    ensures
        derefs(r@) == zones@.filter(|zone: Zone| controlled(zone, links@)),
{
    let ghost keep = |zone: Zone| controlled(zone, links@);
    let mut found: Vec<&'a Zone> = Vec::new();
    let mut i: usize = 0;
    proof {
        crate::seqs::filter_empty(zones@, keep);
        assert(derefs(found@) =~= zones@.take(0).filter(keep));
    }
    while i < zones.len()
        invariant
            i <= zones@.len(),
            keep == (|zone: Zone| controlled(zone, links@)),
            derefs(found@) == zones@.take(i as int).filter(keep),
        decreases zones@.len() - i,
    {
        let ghost before = found@;
        proof {
            crate::seqs::filter_step(zones@, i as int, keep);
        }
        if opt_is(&zones[i].source, "hqplayer") || is_linked(links, zones[i].zone_id.as_str()) {
            found.push(&zones[i]);
            assert(derefs(found@) =~= derefs(before).push(zones@[i as int]));
        }
        i = i + 1;
    }
    assert(zones@.take(i as int) =~= zones@);
    found
}

/// A zone is controlled just where its source is HQPlayer or one of the pairings names
/// it.
pub proof fn direct_and_paired_zones_are_controlled(zone: Zone, links: Seq<ZoneLink>)
    ensures
        controlled(zone, links) <==> (zone.source is Some && zone.source->0@ == "hqplayer"@) || (
        exists|i: int| 0 <= i < links.len() && (#[trigger] links[i]).zone_id@ == zone.zone_id@),
{
}

/// The mute button of a zone card.
#[derive(Clone, Copy, Debug)]
pub struct HqplayerMuteControl {
    pub label: &'static str,
    pub title: &'static str,
    pub disabled: bool,
}

/// The mute button: HQPlayer mutes by going to its minimum volume, so at the
/// minimum there is nothing left to mute.
pub fn hqplayer_mute_control(at_volume_floor: bool) -> (r: HqplayerMuteControl)
    ensures
        r.disabled == at_volume_floor,
        r.label@ == (if at_volume_floor {
            "At minimum volume"@
        } else {
            "Mute to minimum volume"@
        }),
        r.title@ == (if at_volume_floor {
            "HQPlayer represents mute as its minimum volume"@
        } else {
            "Mute to HQPlayer's minimum volume"@
        }),
{
    if at_volume_floor {
        HqplayerMuteControl {
            label: "At minimum volume",
            title: "HQPlayer represents mute as its minimum volume",
            disabled: true,
        }
    } else {
        HqplayerMuteControl {
            label: "Mute to minimum volume",
            title: "Mute to HQPlayer's minimum volume",
            disabled: false,
        }
    }
}

/// The transport of a zone card.
#[derive(Clone, Copy, Debug, PartialEq, Eq, Structural)]
pub struct Transport {
    pub is_playing: bool,
    pub can_previous: bool,
    pub can_next: bool,
    pub can_seek: bool,
    /// The position in seconds, as it is told.
    pub seek_position: u32,
    pub length: u32,
    /// The position of the slider, never beyond its end.
    pub slider_value: u32,
    pub slider_max: u32,
}

/// The position that is told: never negative.
pub open spec fn told_position(now_playing: Option<NowPlaying>) -> u32 {
    if now_playing is Some && now_playing->0.seek_position is Some
        && now_playing->0.seek_position->0 > 0 {
        (now_playing->0.seek_position->0 as int % 0x1_0000_0000) as u32
    } else {
        0
    }
}

/// The position is told as it is, in whole seconds, and as zero where it is missing or
/// negative.
pub proof fn positions_are_told_as_they_are(playing: NowPlaying)
    ensures
        told_position(None) == 0,
        playing.seek_position is None ==> told_position(Some(playing)) == 0,
        playing.seek_position is Some && playing.seek_position->0 <= 0 ==> told_position(
            Some(playing),
        ) == 0,
        playing.seek_position is Some && 0 <= playing.seek_position->0 <= u32::MAX
            ==> told_position(Some(playing)) == playing.seek_position->0,
{
}

/// The transport of a zone card. Without a length there is nothing to seek in.
pub fn transport(now_playing: Option<&NowPlaying>) -> (r: Transport)
    ensures
        ({
            let playing = match now_playing {
                Some(playing) => Some(*playing),
                None => None,
            };
            let length = if playing is Some && playing->0.length is Some {
                playing->0.length->0
            } else {
                0
            };
            &&& r.is_playing == (playing is Some && playing->0.is_playing)
            &&& r.can_previous == (playing is Some && playing->0.is_previous_allowed)
            &&& r.can_next == (playing is Some && playing->0.is_next_allowed)
            &&& r.seek_position == told_position(playing)
            &&& r.length == length
            &&& r.can_seek == (length > 0)
            &&& r.slider_value == (if r.seek_position < length {
                r.seek_position
            } else {
                length
            })
            &&& r.slider_max == (if length == 0 {
                1
            } else {
                length
            })
            &&& r.slider_value <= r.slider_max
            &&& r.slider_value <= r.seek_position
        }),
{
    let (is_playing, can_previous, can_next, position, length) = match now_playing {
        Some(playing) => {
            let position: u32 = match playing.seek_position {
                Some(position) => if position > 0 {
                    ((position as u64) % 0x1_0000_0000) as u32
                } else {
                    0
                },
                None => 0,
            };
            let length: u32 = match playing.length {
                Some(length) => length,
                None => 0,
            };
            (
                playing.is_playing,
                playing.is_previous_allowed,
                playing.is_next_allowed,
                position,
                length,
            )
        },
        None => (false, false, false, 0, 0),
    };
    Transport {
        is_playing,
        can_previous,
        can_next,
        can_seek: length > 0,
        seek_position: position,
        length,
        slider_value: if position < length {
            position
        } else {
            length
        },
        slider_max: if length == 0 {
            1
        } else {
            length
        },
    }
}

/// A time in minutes and seconds, the seconds with two digits.
pub open spec fn time_text(seconds: int) -> Seq<char> {
    decimal((seconds / 60) as nat) + ":"@ + padded((seconds % 60) as nat, 2)
}

/// A time of `m` minutes and `s` seconds shows both, the seconds with a leading zero
/// below ten.
pub proof fn times_show_minutes_and_seconds(m: int, s: int)
    requires
        0 <= m,
        0 <= s < 60,
    ensures
        s < 10 ==> time_text(m * 60 + s) == decimal(m as nat) + ":"@ + (seq!['0'] + decimal(
            s as nat,
        )),
        s >= 10 ==> time_text(m * 60 + s) == decimal(m as nat) + ":"@ + decimal(s as nat),
{
    assert((m * 60 + s) / 60 == m && (m * 60 + s) % 60 == s);
    reveal_with_fuel(padded, 3);
    reveal_with_fuel(decimal, 3);
    if s < 10 {
        assert(padded(s as nat, 2) =~= seq!['0'] + decimal(s as nat));
    } else {
        assert(padded(s as nat, 2) =~= decimal(s as nat));
    }
}

/// A time in minutes and seconds.
pub fn format_hqp_time(seconds: u32) -> (r: String)
    ensures
        r@ == time_text(seconds as int),
{
    let minutes = number((seconds / 60) as u64);
    let rest = padded_number((seconds % 60) as u64, 2);
    cat3(minutes.as_str(), ":", rest.as_str())
}

/// The name of a playback source.
pub open spec fn source_name(source: Option<Seq<char>>) -> Seq<char> {
    if source == Some("roon"@) {
        "Roon"@
    } else if source == Some("lms"@) {
        "LMS"@
    } else if source == Some("openhome"@) {
        "OpenHome"@
    } else if source == Some("upnp"@) {
        "UPnP"@
    } else if source is Some {
        source->0
    } else {
        "Playback zone"@
    }
}

/// Four sources have a name of their own; every other goes by what it is called, and a
/// missing one by a common name.
pub proof fn other_sources_go_by_their_name(source: Seq<char>)
    ensures
        source == "roon"@ ==> source_name(Some(source)) == "Roon"@,
        source == "lms"@ ==> source_name(Some(source)) == "LMS"@,
        source == "openhome"@ ==> source_name(Some(source)) == "OpenHome"@,
        source == "upnp"@ ==> source_name(Some(source)) == "UPnP"@,
        source_name(Some(source)) == source || source == "roon"@ || source == "lms"@ || source
            == "openhome"@ || source == "upnp"@,
        source_name(None) == "Playback zone"@,
{
    reveal_strlit("roon");
    reveal_strlit("lms");
    reveal_strlit("openhome");
    reveal_strlit("upnp");
    assert("roon"@[0] == 'r' && "lms"@[0] == 'l' && "openhome"@[0] == 'o' && "upnp"@[0] == 'u');
}

/// The name of a playback source.
pub fn playback_source_label(source: Option<&str>) -> (r: String)
    ensures
        r@ == source_name(opt_str(source)),
{
    match source {
        Some(source) => if same(source, "roon") {
            "Roon".to_owned()
        } else if same(source, "lms") {
            "LMS".to_owned()
        } else if same(source, "openhome") {
            "OpenHome".to_owned()
        } else if same(source, "upnp") {
            "UPnP".to_owned()
        } else {
            source.to_owned()
        },
        None => "Playback zone".to_owned(),
    }
}

/// The way that a zone plays through HQPlayer.
pub open spec fn path_text(source: Option<Seq<char>>) -> Seq<char> {
    if source == Some("hqplayer"@) {
        "Direct HQPlayer"@
    } else if source is None {
        "Playback + HQPlayer DSP"@
    } else {
        source_name(source) + " + HQPlayer DSP"@
    }
}

/// HQPlayer's own zones play directly; any other plays through it, by the name of its
/// source where that is known.
pub proof fn only_own_zones_play_directly(source: Seq<char>)
    ensures
        source == "hqplayer"@ ==> path_text(Some(source)) == "Direct HQPlayer"@,
        source != "hqplayer"@ ==> path_text(Some(source)) == source_name(Some(source))
            + " + HQPlayer DSP"@,
        path_text(None) == "Playback + HQPlayer DSP"@,
{
}

/// The way that a zone plays through HQPlayer.
pub fn playback_path_label(source: Option<&str>) -> (r: String)
    ensures
        r@ == path_text(opt_str(source)),
        r@ == (if opt_str(source) == Some("hqplayer"@) {
            "Direct HQPlayer"@
        } else if source is None {
            "Playback + HQPlayer DSP"@
        } else {
            source_name(opt_str(source)) + " + HQPlayer DSP"@
        }),
{
    match source {
        Some(name) => if same(name, "hqplayer") {
            "Direct HQPlayer".to_owned()
        } else {
            cat2(playback_source_label(source).as_str(), " + HQPlayer DSP")
        },
        None => "Playback + HQPlayer DSP".to_owned(),
    }
}

// ── Live readouts ───────────────────────────────────────────────────────────

/// What the engine reports of its pipeline.
#[derive(Debug)]
pub struct HqpPipelineStatus {
    pub state: Option<String>,
    pub mode: Option<String>,
    pub active_mode: Option<String>,
    pub active_filter: Option<String>,
    pub active_shaper: Option<String>,
    pub active_rate: Option<u64>,
}

impl Default for HqpPipelineStatus {
    fn default() -> (r: Self)
        ensures
            r.state is None && r.mode is None && r.active_mode is None,
            r.active_filter is None && r.active_shaper is None && r.active_rate is None,
    {
        HqpPipelineStatus {
            state: None,
            mode: None,
            active_mode: None,
            active_filter: None,
            active_shaper: None,
            active_rate: None,
        }
    }
}

/// The engine plays.
pub open spec fn engine_playing(status: HqpPipelineStatus) -> bool {
    opt_text(status.state) == Some("Playing"@)
}

/// Whether the engine plays.
pub fn hqp_engine_is_playing(status: &HqpPipelineStatus) -> (r: bool)
    ensures
        r == engine_playing(*status),
{
    opt_is(&status.state, "Playing")
}

/// The mode that is shown.
pub open spec fn live_mode(status: HqpPipelineStatus) -> Seq<char> {
    if engine_playing(status) && status.active_mode is Some && trimmed(
        status.active_mode->0@,
    ).len() > 0 {
        status.active_mode->0@
    } else {
        "—"@
    }
}

/// The rate that is shown.
pub open spec fn live_rate(status: HqpPipelineStatus) -> Seq<char> {
    if engine_playing(status) && status.active_rate is Some && status.active_rate->0 > 0 {
        rate_text(status.active_rate->0 as int)
    } else {
        "—"@
    }
}

/// What the engine last played with is not shown once it has stopped, whatever it still
/// reports; while it plays, what it reports is shown, as far as it says anything.
pub proof fn stale_readouts_are_not_shown(status: HqpPipelineStatus)
    ensures
        !(status.state is Some && status.state->0@ == "Playing"@) ==> live_mode(status) == "—"@
            && live_rate(status) == "—"@,
        status.state is Some && status.state->0@ == "Playing"@ ==> {
            &&& status.active_rate is Some && status.active_rate->0 > 0 ==> live_rate(status)
                == rate_text(status.active_rate->0 as int)
            &&& status.active_rate is None || status.active_rate->0 == 0 ==> live_rate(status)
                == "—"@
            &&& status.active_mode is None ==> live_mode(status) == "—"@
            &&& status.active_mode is Some && trimmed(status.active_mode->0@).len() > 0
                ==> live_mode(status) == status.active_mode->0@
            &&& status.active_mode is Some && trimmed(status.active_mode->0@).len() == 0
                ==> live_mode(status) == "—"@
        },
{
}

/// The mode that the engine plays in. While it does not play, what it reports is
/// stale and not shown.
pub fn hqp_live_mode_readout(status: &HqpPipelineStatus) -> (r: String)
    ensures
        r@ == live_mode(*status),
        r@ == (if engine_playing(*status) && status.active_mode is Some && trimmed(
            status.active_mode->0@,
        ).len() > 0 {
            status.active_mode->0@
        } else {
            "—"@
        }),
{
    if hqp_engine_is_playing(status) {
        if let Some(mode) = &status.active_mode {
            if !trim(mode.as_str()).as_str().is_empty() {
                return mode.clone();
            }
        }
    }
    "—".to_owned()
}

/// The rate that the engine plays at. While it does not play, what it reports is
/// stale and not shown.
pub fn hqp_live_output_readout(status: &HqpPipelineStatus) -> (r: String)
    ensures
        r@ == live_rate(*status),
        r@ == (if engine_playing(*status) && status.active_rate is Some && status.active_rate->0 > 0 {
            rate_text(status.active_rate->0 as int)
        } else {
            "—"@
        }),
{
    if hqp_engine_is_playing(status) {
        if let Some(rate) = status.active_rate {
            if rate > 0 {
                return format_hqp_rate(rate);
            }
        }
    }
    "—".to_owned()
}

/// A readout, or what stands for one that is missing.
pub fn readout_or(value: &Option<String>, missing: &str) -> (r: String)
    ensures
        r@ == (match *value {
            Some(value) => value@,
            None => missing@,
        }),
{
    match value {
        Some(value) => value.clone(),
        None => missing.to_owned(),
    }
}

// ── Choices ─────────────────────────────────────────────────────────────────

/// A choice of a setting.
#[derive(Debug)]
pub struct HqpOption {
    pub value: String,
    pub label: Option<String>,
    pub disabled: bool,
    pub reason: Option<String>,
}

impl Clone for HqpOption {
    fn clone(&self) -> (r: Self)
        ensures
            r == *self,
    {
        HqpOption {
            value: self.value.clone(),
            label: self.label.clone(),
            disabled: self.disabled,
            reason: self.reason.clone(),
        }
    }
}

/// What a choice is called: its label, or, where it has none, its value. Profiles go
/// by their titles in the same way.
pub fn choice_text(value: &str, label: Option<String>) -> (r: String)
    ensures
        r@ == (match label {
            Some(label) => label@,
            None => value@,
        }),
{
    match label {
        Some(label) => label,
        None => value.to_owned(),
    }
}

/// The choices of a setting, and the current one.
#[derive(Debug)]
pub struct HqpSettingOptions {
    pub options: Vec<HqpOption>,
    pub selected: Option<HqpOption>,
}

/// A choice matches, given its texts and the needle in lower case.
pub open spec fn lowered_option_match(
    value: Seq<char>,
    label: Option<Seq<char>>,
    needle: Seq<char>,
) -> bool {
    occurs_in(value, needle) || (label is Some && occurs_in(label->0, needle))
}

/// Whether a choice matches, given its texts and the needle in lower case.
pub fn option_matches(value: &str, label: Option<&str>, needle: &str) -> (r: bool)
    ensures
        r == lowered_option_match(value@, opt_str(label), needle@),
{
    if contains(value, needle) {
        return true;
    }
    match label {
        Some(label) => contains(label, needle),
        None => false,
    }
}

/// A choice stays in a filtered list: it is the current one, or its value or label
/// holds the needle whatever the case.
pub open spec fn stays(option: HqpOption, needle: Seq<char>, selected: Seq<char>) -> bool {
    option.value@ == selected || lowered_option_match(
        lowercase(option.value@),
        match option.label {
            Some(label) => Some(lowercase(label@)),
            None => None,
        },
        needle,
    )
}

/// The choices that a search leaves; a blank search leaves all.
pub open spec fn searched(options: Seq<HqpOption>, query: Seq<char>, selected: Seq<char>) -> Seq<
    HqpOption,
> {
    let needle = lowercase(trimmed(query));
    if needle.len() == 0 {
        options
    } else {
        options.filter(|option: HqpOption| stays(option, needle, selected))
    }
}

/// The choices that a search leaves. The current choice stays visible whatever is
/// searched for.
pub fn filter_hqp_options(options: &[HqpOption], query: &str, selected: &str) -> (r: Vec<HqpOption>)
    ensures
        r@ == searched(options@, query@, selected@),
        trimmed(query@).len() == 0 ==> r@ == options@,
{
    let needle = to_lowercase(trim(query).as_str());
    assert(trimmed(query@).len() == 0 ==> needle@.len() == 0);
    let all = needle.as_str().is_empty();
    let ghost keep = |option: HqpOption| stays(option, needle@, selected@);
    let mut found: Vec<HqpOption> = Vec::new();
    let mut i: usize = 0;
    proof {
        crate::seqs::filter_empty(options@, keep);
        assert(options@.take(0) =~= Seq::<HqpOption>::empty());
    }
    while i < options.len()
        invariant
            i <= options@.len(),
            needle@ == lowercase(trimmed(query@)),
            all == (needle@.len() == 0),
            keep == (|option: HqpOption| stays(option, needle@, selected@)),
            all ==> found@ == options@.take(i as int),
            !all ==> found@ == options@.take(i as int).filter(keep),
        decreases options@.len() - i,
    {
        proof {
            crate::seqs::filter_step(options@, i as int, keep);
            assert(options@.take(i as int).push(options@[i as int]) =~= options@.take(i + 1));
        }
        let option = &options[i];
        let shown = all || same(option.value.as_str(), selected) || {
            let value = to_lowercase(option.value.as_str());
            let label = match &option.label {
                Some(label) => Some(to_lowercase(label.as_str())),
                None => None,
            };
            option_matches(value.as_str(), as_opt_str(&label), needle.as_str())
        };
        if shown {
            found.push(option.clone());
        }
        i = i + 1;
    }
    assert(options@.take(i as int) =~= options@);
    found
}

/// A search never hides the current choice, and never shows one that is not there.
pub proof fn search_keeps_current_choice(
    options: Seq<HqpOption>,
    query: Seq<char>,
    selected: Seq<char>,
    i: int,
)
    requires
        0 <= i < options.len(),
    ensures
        options[i].value@ == selected ==> searched(options, query, selected).contains(options[i]),
        forall|option: HqpOption| #[trigger]
            searched(options, query, selected).contains(option) ==> options.contains(option),
{
    let needle = lowercase(trimmed(query));
    let keep = |option: HqpOption| stays(option, needle, selected);
    if needle.len() > 0 {
        if options[i].value@ == selected {
            options.lemma_filter_contains(keep, i);
        }
        assert forall|option: HqpOption| #[trigger]
            searched(options, query, selected).contains(option) implies options.contains(option) by {
            options.lemma_filter_contains_rev(keep, option);
        }
    } else {
        assert(options.contains(options[i]));
    }
}

/// A search leaves a choice just where it is the current one or holds what is searched
/// for, in its value or label, once case is set aside; it leaves each as often as it was
/// there.
pub proof fn search_leaves_what_matches(
    options: Seq<HqpOption>,
    query: Seq<char>,
    selected: Seq<char>,
    option: HqpOption,
)
    ensures
        lowercase(trimmed(query)).len() > 0 ==> searched(
            options,
            query,
            selected,
        ).to_multiset().count(option) == (if option.value@ == selected || (exists|
            a: Seq<char>,
            b: Seq<char>,
        |
            #![trigger a + lowercase(trimmed(query)) + b]
            lowercase(option.value@) == a + lowercase(trimmed(query)) + b) || (option.label is Some
            && exists|a: Seq<char>, b: Seq<char>|
            #![trigger a + lowercase(trimmed(query)) + b]
            lowercase(option.label->0@) == a + lowercase(trimmed(query)) + b) {
            options.to_multiset().count(option)
        } else {
            0
        }),
        lowercase(trimmed(query)).len() == 0 ==> searched(options, query, selected) == options,
{
    let needle = lowercase(trimmed(query));
    let keep = |option: HqpOption| stays(option, needle, selected);
    crate::seqs::filter_counts(options, keep, option);
    crate::text::occurrence_splits_the_text(lowercase(option.value@), needle);
    if option.label is Some {
        crate::text::occurrence_splits_the_text(lowercase(option.label->0@), needle);
    }
}

/// A search keeps the order of the choices: a further choice only adds to the end.
pub proof fn search_keeps_the_order(
    options: Seq<HqpOption>,
    query: Seq<char>,
    selected: Seq<char>,
    option: HqpOption,
)
    ensures
        searched(options.push(option), query, selected) == searched(options, query, selected)
            || searched(options.push(option), query, selected) == searched(
            options,
            query,
            selected,
        ).push(option),
        option.value@ == selected ==> searched(options.push(option), query, selected) == searched(
            options,
            query,
            selected,
        ).push(option),
{
    let needle = lowercase(trimmed(query));
    let keep = |option: HqpOption| stays(option, needle, selected);
    reveal(Seq::filter);
    assert(options.push(option).drop_last() =~= options);
}

/// The rate below which a modulator is not available. Only the families that carry
/// a rate in their name have one.
pub open spec fn minimum_rate(name: Seq<char>) -> Option<u32> {
    if has_prefix(name, "AHM"@) {
        Some(40_960_000)
    } else if has_prefix(name, "AMSDM"@) && occurs_in(name, "512+fs"@) {
        Some(20_480_000)
    } else if occurs_in(name, "512+fs"@) {
        Some(22_579_200)
    } else if occurs_in(name, "256+fs"@) {
        Some(10_240_000)
    } else {
        None
    }
}

/// The families by name: those that begin with AHM need the most, whatever follows. Of
/// the others the ones for 512 times the rate need twice what those for 256 need, a
/// little more outside the AMSDM family, and one that names no rate needs none.
pub proof fn modulator_families_need_their_rate(name: Seq<char>, a: Seq<char>, b: Seq<char>)
    ensures
        minimum_rate("AHM"@ + b) == Some(40_960_000u32),
        name == a + "512+fs"@ + b && !has_prefix(name, "AHM"@) ==> minimum_rate(name) == (
        if exists|rest: Seq<char>| name == #[trigger] ("AMSDM"@ + rest) {
            Some(20_480_000u32)
        } else {
            Some(22_579_200u32)
        }),
        name == a + "256+fs"@ + b && !has_prefix(name, "AHM"@) && !occurs_in(name, "512+fs"@)
            ==> minimum_rate(name) == Some(10_240_000u32),
        minimum_rate(name) is None <==> !has_prefix(name, "AHM"@) && !occurs_in(name, "512+fs"@)
            && !occurs_in(name, "256+fs"@),
{
    crate::text::prefix_splits_the_text("AHM"@ + b, "AHM"@);
    crate::text::prefix_splits_the_text(name, "AMSDM"@);
    crate::text::occurrence_splits_the_text(name, "512+fs"@);
    crate::text::occurrence_splits_the_text(name, "256+fs"@);
}

/// The rate below which a modulator is not available.
pub fn hqp_shaper_minimum_rate_hz(name: &str) -> (r: Option<u32>)
    ensures
        r == minimum_rate(name@),
{
    if starts_with(name, "AHM") {
        Some(40_960_000)
    } else if starts_with(name, "AMSDM") && contains(name, "512+fs") {
        Some(20_480_000)
    } else if contains(name, "512+fs") {
        Some(22_579_200)
    } else if contains(name, "256+fs") {
        Some(10_240_000)
    } else {
        None
    }
}

/// A modulator is not available at a rate.
pub open spec fn needs_more(option: HqpOption, rate: u32) -> bool {
    rate != 0 && minimum_rate(option.value@) is Some && rate < minimum_rate(option.value@)->0
}

/// A choice as guidance leaves it: one that needs a higher rate is disabled and says
/// so, any other is as it was.
pub open spec fn guided(before: HqpOption, after: HqpOption, rate: u32) -> bool {
    if needs_more(before, rate) {
        &&& after.value == before.value
        &&& after.label == before.label
        &&& after.disabled
        &&& opt_text(after.reason) == Some(
            "needs at least "@ + rate_text(minimum_rate(before.value@)->0 as int),
        )
    } else {
        after == before
    }
}

/// Marks the modulators that the selected rate rules out. Without a rate nothing is
/// ruled out.
pub fn apply_hqp_shaper_rate_guidance(options: HqpSettingOptions, selected_rate: u32) -> (r:
    HqpSettingOptions)
    ensures
        r.selected == options.selected,
        r.options@.len() == options.options@.len(),
        forall|i: int|
            0 <= i < options.options@.len() ==> guided(
                #[trigger] options.options@[i],
                r.options@[i],
                selected_rate,
            ),
{
    if selected_rate == 0 {
        return options;
    }
    let mut shown: Vec<HqpOption> = Vec::new();
    let mut i: usize = 0;
    while i < options.options.len()
        invariant
            i <= options.options@.len(),
            selected_rate != 0,
            shown@.len() == i,
            forall|j: int|
                0 <= j < i ==> guided(#[trigger] options.options@[j], shown@[j], selected_rate),
        decreases options.options@.len() - i,
    {
        let mut option = options.options[i].clone();
        if let Some(minimum) = hqp_shaper_minimum_rate_hz(option.value.as_str()) {
            if selected_rate < minimum {
                option.disabled = true;
                let rate = format_hqp_rate(minimum as u64);
                option.reason = Some(cat2("needs at least ", rate.as_str()));
            }
        }
        shown.push(option);
        i = i + 1;
    }
    HqpSettingOptions { options: shown, selected: options.selected }
}

/// Guidance hides nothing: every choice is still there under its name.
pub proof fn guidance_keeps_every_choice(
    before: Seq<HqpOption>,
    after: Seq<HqpOption>,
    rate: u32,
    i: int,
)
    requires
        after.len() == before.len(),
        forall|j: int| 0 <= j < before.len() ==> guided(#[trigger] before[j], after[j], rate),
        0 <= i < before.len(),
    ensures
        after[i].value == before[i].value,
        after[i].label == before[i].label,
        !before[i].disabled && after[i].disabled ==> after[i].reason is Some,
        minimum_rate(before[i].value@) is None ==> after[i] == before[i],
{
    assert(guided(before[i], after[i], rate));
}

/// A rate rules a modulator out just below its minimum: below it the choice is disabled
/// and names the rate that it needs, from it on, and without a rate, the choice is as it
/// was.
pub proof fn rate_rules_out_what_needs_more(before: HqpOption, after: HqpOption, rate: u32)
    requires
        guided(before, after, rate),
    ensures
        after.value == before.value,
        after.label == before.label,
        forall|minimum: u32|
            minimum_rate(before.value@) == Some(minimum) && 0 < rate < minimum ==> after.disabled
                && after.reason is Some && after.reason->0@ == "needs at least "@
                + #[trigger] rate_text(minimum as int),
        forall|minimum: u32|
            #![trigger rate_text(minimum as int)]
            minimum_rate(before.value@) == Some(minimum) && rate >= minimum ==> after == before,
        rate == 0 || minimum_rate(before.value@) is None ==> after == before,
        minimum_rate(before.value@) is Some && rate >= minimum_rate(before.value@)->0 ==> after
            == before,
        minimum_rate(before.value@) is Some && 0 < rate && rate < minimum_rate(before.value@)->0
            ==> after.disabled && after.reason is Some,
{
}

/// A higher rate never rules out more.
pub proof fn higher_rates_rule_out_less(option: HqpOption, low: u32, high: u32)
    requires
        0 < low <= high,
        needs_more(option, high),
    ensures
        needs_more(option, low),
{
}

/// The choices of the shaper for the selected sample rate. A rate that cannot be
/// read counts as none.
pub fn shaper_options(shaper: HqpSettingOptions, samplerate: Option<&HqpSettingOptions>) -> (r:
    HqpSettingOptions)
    ensures
        r.selected == shaper.selected,
        r.options@.len() == shaper.options@.len(),
        forall|i: int|
            0 <= i < shaper.options@.len() ==> guided(
                #[trigger] shaper.options@[i],
                r.options@[i],
                selected_rate(
                    match samplerate {
                        Some(rates) => Some(*rates),
                        None => None,
                    },
                ),
            ),
{
    let rate: u32 = match samplerate {
        Some(rates) => match &rates.selected {
            Some(rate) => match parse_u32(rate.value.as_str()) {
                Some(rate) => rate,
                None => 0,
            },
            None => 0,
        },
        None => 0,
    };
    apply_hqp_shaper_rate_guidance(shaper, rate)
}

/// The selected sample rate, zero where there is none that can be read.
pub open spec fn selected_rate(samplerate: Option<HqpSettingOptions>) -> u32 {
    if samplerate is Some && samplerate->0.selected is Some {
        match parsed_unsigned(samplerate->0.selected->0.value@, 4294967295) {
            Some(rate) => rate as u32,
            None => 0,
        }
    } else {
        0
    }
}

/// The selected rate is the number that the current choice spells; where nothing is
/// chosen or no number is spelt it counts as none.
pub proof fn selected_rate_is_what_is_spelt(rates: HqpSettingOptions, rate: u32)
    ensures
        selected_rate(None) == 0,
        rates.selected is None ==> selected_rate(Some(rates)) == 0,
        rates.selected is Some && rates.selected->0.value@ == decimal(rate as nat)
            ==> selected_rate(Some(rates)) == rate,
        rates.selected is Some && rates.selected->0.value@.len() == 0 ==> selected_rate(
            Some(rates),
        ) == 0,
{
    crate::text::written_number_reads_back(rate as nat, 4294967295);
}

/// A number beyond what a rate can be counts as no rate.
pub proof fn rates_out_of_range_are_none(rates: HqpSettingOptions, n: nat)
    requires
        n > u32::MAX,
        rates.selected is Some,
        rates.selected->0.value@ == decimal(n),
    ensures
        selected_rate(Some(rates)) == 0,
{
    crate::text::written_number_reads_back(n, 4294967295);
}

/// The text of a choice: its label, and why it is not available where it is not.
pub fn option_text(option: &HqpOption) -> (r: String)
    ensures
        r@ == (match option.label {
            Some(label) => label@,
            None => option.value@,
        }) + (match option.reason {
            Some(reason) => " — "@ + reason@,
            None => Seq::empty(),
        }),
{
    let label: &str = match &option.label {
        Some(label) => label.as_str(),
        None => option.value.as_str(),
    };
    match &option.reason {
        Some(reason) => {
            let r = cat3(label, " — ", reason.as_str());
            assert(r@ =~= label@ + (" — "@ + reason@));
            r
        },
        None => {
            assert(label@ + Seq::<char>::empty() =~= label@);
            label.to_owned()
        },
    }
}

/// The value of the current choice, empty where there is none.
pub fn selected_value(options: Option<&HqpSettingOptions>) -> (r: String)
    ensures
        r@ == (if options is Some && options->0.selected is Some {
            options->0.selected->0.value@
        } else {
            Seq::empty()
        }),
{
    match options {
        Some(options) => match &options.selected {
            Some(option) => option.value.clone(),
            None => String::new(),
        },
        None => String::new(),
    }
}

/// The label of the shaper's setting.
pub fn shaper_label(label: &Option<String>) -> (r: String)
    ensures
        r@ == (match *label {
            Some(label) => label@,
            None => "Dither / modulator"@,
        }),
{
    readout_or(label, "Dither / modulator")
}

// ── Advanced processing ─────────────────────────────────────────────────────

/// A numbered choice.
#[derive(Debug)]
pub struct HqpIndexed {
    pub index: u32,
    pub name: String,
}

/// The state of the advanced processing.
#[derive(Debug)]
pub struct HqpAdvanced {
    pub profiles: Vec<HqpIndexed>,
    pub current: Option<HqpIndexed>,
    pub junk_filters: Vec<HqpIndexed>,
    pub junk_filter: Option<u32>,
    pub repeat: Option<u8>,
    pub convolution: Option<bool>,
    pub adaptive_volume: Option<bool>,
    pub random: Option<bool>,
}

/// A choice that is shown under its own name.
pub open spec fn is_plain_option(option: HqpOption, value: Seq<char>, label: Seq<char>) -> bool {
    &&& option.value@ == value
    &&& opt_text(option.label) == Some(label)
    &&& !option.disabled
    &&& option.reason is None
}

/// A plain choice carries its value and its label, and can be chosen without a reason
/// against it.
pub proof fn plain_options_can_be_chosen(option: HqpOption, value: Seq<char>, label: Seq<char>)
    requires
        is_plain_option(option, value, label),
    ensures
        option.value@ == value,
        option.label is Some && option.label->0@ == label,
        !option.disabled && option.reason is None,
{
}

fn plain_option(value: &str, label: &str) -> (r: HqpOption)
    ensures
        is_plain_option(r, value@, label@),
{
    HqpOption {
        value: value.to_owned(),
        label: Some(label.to_owned()),
        disabled: false,
        reason: None,
    }
}

/// The first choice with an index.
pub open spec fn choice_with_index(choices: Seq<HqpIndexed>, index: u32) -> Option<HqpIndexed> {
    first_where(choices, |choice: HqpIndexed| choice.index == index)
}

/// A numbered choice is found by its number, the first where several share it.
pub proof fn choices_are_found_by_number(choices: Seq<HqpIndexed>, index: u32, k: int)
    ensures
        0 <= k < choices.len() && choices[k].index == index && (forall|j: int|
            0 <= j < k ==> (#[trigger] choices[j]).index != index) ==> choice_with_index(
            choices,
            index,
        ) == Some(choices[k]),
        (forall|j: int| 0 <= j < choices.len() ==> (#[trigger] choices[j]).index != index)
            ==> choice_with_index(choices, index) is None,
    decreases choices.len(),
{
    if choices.len() > 0 {
        let rest = choices.subrange(1, choices.len() as int);
        choices_are_found_by_number(rest, index, k - 1);
        assert forall|j: int| 0 <= j < rest.len() implies rest[j] == #[trigger] choices[j + 1] by {}
        if choices[0].index != index {
            assert(choice_with_index(choices, index) == choice_with_index(rest, index));
            if forall|j: int| 0 <= j < choices.len() ==> (#[trigger] choices[j]).index != index {
                assert forall|j: int| 0 <= j < rest.len() implies (#[trigger] rest[j]).index
                    != index by {
                    assert(choices[j + 1] == rest[j]);
                }
            }
            if 0 < k < choices.len() && forall|j: int|
                0 <= j < k ==> (#[trigger] choices[j]).index != index {
                assert forall|j: int| 0 <= j < k - 1 implies (#[trigger] rest[j]).index
                    != index by {
                    assert(choices[j + 1] == rest[j]);
                }
            }
        }
    }
}

/// The choices of the junk filter; none where the engine has no such filters.
pub fn junk_filter_options(advanced: &HqpAdvanced) -> (r: Option<HqpSettingOptions>)
    ensures
        r is Some <==> advanced.junk_filters@.len() > 0,
        r is Some ==> {
            let filters = advanced.junk_filters@;
            &&& r->0.options@.len() == filters.len()
            &&& forall|i: int|
                0 <= i < filters.len() ==> is_plain_option(
                    r->0.options@[i],
                    (#[trigger] filters[i]).name@,
                    filters[i].name@,
                )
            &&& match r->0.selected {
                Some(option) => advanced.junk_filter is Some && choice_with_index(
                    filters,
                    advanced.junk_filter->0,
                ) is Some && is_plain_option(
                    option,
                    choice_with_index(filters, advanced.junk_filter->0)->0.name@,
                    choice_with_index(filters, advanced.junk_filter->0)->0.name@,
                ),
                None => advanced.junk_filter is None || choice_with_index(
                    filters,
                    advanced.junk_filter->0,
                ) is None,
            }
        },
{
    let filters = &advanced.junk_filters;
    if filters.len() == 0 {
        return None;
    }
    let mut options: Vec<HqpOption> = Vec::new();
    let mut i: usize = 0;
    while i < filters.len()
        invariant
            i <= filters@.len(),
            options@.len() == i,
            forall|j: int|
                0 <= j < i ==> is_plain_option(
                    options@[j],
                    (#[trigger] filters@[j]).name@,
                    filters@[j].name@,
                ),
        decreases filters@.len() - i,
    {
        let name = filters[i].name.as_str();
        options.push(plain_option(name, name));
        i = i + 1;
    }
    let selected = match advanced.junk_filter {
        Some(index) => match find_indexed(filters, index) {
            Some(choice) => Some(plain_option(choice.name.as_str(), choice.name.as_str())),
            None => None,
        },
        None => None,
    };
    Some(HqpSettingOptions { options, selected })
}

fn find_indexed<'a>(choices: &'a Vec<HqpIndexed>, index: u32) -> (r: Option<&'a HqpIndexed>)
    ensures
        match r {
            Some(choice) => choice_with_index(choices@, index) == Some(*choice),
            None => choice_with_index(choices@, index) is None,
        },
{
    let ghost holds = |choice: HqpIndexed| choice.index == index;
    let mut i: usize = 0;
    while i < choices.len()
        invariant
            i <= choices@.len(),
            holds == (|choice: HqpIndexed| choice.index == index),
            forall|j: int| 0 <= j < i ==> !holds(#[trigger] choices@[j]),
        decreases choices@.len() - i,
    {
        if choices[i].index == index {
            proof {
                first_found(choices@, holds, i as int);
            }
            return Some(&choices[i]);
        }
        i = i + 1;
    }
    proof {
        first_missing(choices@, holds);
    }
    None
}

/// The choices of the repeat mode; none where the engine does not report it. A mode
/// that is not among them leaves nothing selected.
pub fn repeat_options(repeat: Option<u8>) -> (r: Option<HqpSettingOptions>)
    ensures
        r is Some <==> repeat is Some,
        r is Some ==> {
            &&& r->0.options@.len() == 3
            &&& is_plain_option(r->0.options@[0], "off"@, "Off"@)
            &&& is_plain_option(r->0.options@[1], "one"@, "Current track"@)
            &&& is_plain_option(r->0.options@[2], "all"@, "All"@)
            &&& match r->0.selected {
                Some(option) => (repeat->0 == 0 && is_plain_option(option, "off"@, "Off"@)) || (
                repeat->0 == 1 && is_plain_option(option, "one"@, "Current track"@)) || (repeat->0
                    == 2 && is_plain_option(option, "all"@, "All"@)),
                None => repeat->0 > 2,
            }
        },
{
    let mode: u8 = match repeat {
        Some(mode) => mode,
        None => {
            return None;
        },
    };
    let mut options: Vec<HqpOption> = Vec::new();
    options.push(plain_option("off", "Off"));
    options.push(plain_option("one", "Current track"));
    options.push(plain_option("all", "All"));
    let selected = if mode == 0 {
        Some(plain_option("off", "Off"))
    } else if mode == 1 {
        Some(plain_option("one", "Current track"))
    } else if mode == 2 {
        Some(plain_option("all", "All"))
    } else {
        None
    };
    Some(HqpSettingOptions { options, selected })
}

/// Whether there is any advanced processing to show.
pub fn shows_advanced(advanced: Option<&HqpAdvanced>) -> (r: bool)
    ensures
        r == (advanced is Some && (advanced->0.junk_filters@.len() > 0
            || advanced->0.convolution is Some || advanced->0.adaptive_volume is Some
            || advanced->0.repeat is Some || advanced->0.random is Some)),
{
    match advanced {
        Some(advanced) => advanced.junk_filters.len() > 0 || advanced.convolution.is_some()
            || advanced.adaptive_volume.is_some() || advanced.repeat.is_some()
            || advanced.random.is_some(),
        None => false,
    }
}

/// A switch of the advanced processing.
#[derive(Clone, Copy, Debug)]
pub struct ToggleText {
    pub class: &'static str,
    pub text: &'static str,
    pub state: &'static str,
    /// What is sent when it is pressed: the other position.
    pub next: &'static str,
}

/// How a switch is shown, and what pressing it sends.
pub fn toggle_text(enabled: bool) -> (r: ToggleText)
    ensures
        r.class@ == (if enabled {
            "btn btn-primary btn-sm min-w-16"@
        } else {
            "btn btn-outline btn-sm min-w-16"@
        }),
        r.text@ == (if enabled {
            "On"@
        } else {
            "Off"@
        }),
        r.state@ == (if enabled {
            "on"@
        } else {
            "off"@
        }),
        r.next@ == (if enabled {
            "false"@
        } else {
            "true"@
        }),
{
    if enabled {
        ToggleText {
            class: "btn btn-primary btn-sm min-w-16",
            text: "On",
            state: "on",
            next: "false",
        }
    } else {
        ToggleText {
            class: "btn btn-outline btn-sm min-w-16",
            text: "Off",
            state: "off",
            next: "true",
        }
    }
}

// ── Pairing zones ───────────────────────────────────────────────────────────

/// What stands where a pairing is made.
#[derive(Clone, Copy, Debug, PartialEq, Eq, Structural)]
pub enum ZoneMatchAvailability {
    Loading,
    Ready,
    NoPlaybackZones,
    NoInstances,
}

/// What stands where a pairing is made.
pub open spec fn availability_of(
    resources_loaded: bool,
    candidate_count: int,
    instance_count: int,
) -> ZoneMatchAvailability {
    if !resources_loaded {
        ZoneMatchAvailability::Loading
    } else if instance_count == 0 {
        ZoneMatchAvailability::NoInstances
    } else if candidate_count == 0 {
        ZoneMatchAvailability::NoPlaybackZones
    } else {
        ZoneMatchAvailability::Ready
    }
}

/// A pairing can be made just where everything is loaded and there is something on either
/// side; a missing engine is told before missing zones.
pub proof fn pairing_takes_both_sides(
    resources_loaded: bool,
    candidate_count: int,
    instance_count: int,
)
    requires
        0 <= candidate_count,
        0 <= instance_count,
    ensures
        ({
            let r = availability_of(resources_loaded, candidate_count, instance_count);
            &&& r == ZoneMatchAvailability::Ready <==> resources_loaded && candidate_count > 0
                && instance_count > 0
            &&& r == ZoneMatchAvailability::Loading <==> !resources_loaded
            &&& r == ZoneMatchAvailability::NoInstances <==> resources_loaded && instance_count
                == 0
        }),
{
}

/// What stands where a pairing is made. Until everything has been loaded, nothing
/// is said of what is missing.
pub fn zone_match_availability(
    resources_loaded: bool,
    candidate_count: usize,
    instance_count: usize,
) -> (r: ZoneMatchAvailability)
    ensures
        r == availability_of(resources_loaded, candidate_count as int, instance_count as int),
        r == (if !resources_loaded {
            ZoneMatchAvailability::Loading
        } else if instance_count == 0 {
            ZoneMatchAvailability::NoInstances
        } else if candidate_count == 0 {
            ZoneMatchAvailability::NoPlaybackZones
        } else {
            ZoneMatchAvailability::Ready
        }),
{
    if !resources_loaded {
        ZoneMatchAvailability::Loading
    } else if instance_count == 0 {
        ZoneMatchAvailability::NoInstances
    } else if candidate_count == 0 {
        ZoneMatchAvailability::NoPlaybackZones
    } else {
        ZoneMatchAvailability::Ready
    }
}

/// A zone can be paired: it is not paired yet and not HQPlayer's own.
pub open spec fn candidate(zone_id: Seq<char>, source: Option<Seq<char>>, already_linked: bool) -> bool {
    !already_linked && source != Some("hqplayer"@) && !has_prefix(zone_id, "hqplayer:"@)
}

/// Whether a zone can be paired.
pub fn is_zone_match_candidate(zone_id: &str, source: Option<&str>, already_linked: bool) -> (r:
    bool)
    ensures
        r == candidate(zone_id@, opt_str(source), already_linked),
{
    let own = match source {
        Some(source) => same(source, "hqplayer"),
        None => false,
    };
    !already_linked && !own && !starts_with(zone_id, "hqplayer:")
}

/// A zone of the list can be paired.
pub open spec fn pairable(zone: Zone, links: Seq<ZoneLink>) -> bool {
    candidate(zone.zone_id@, opt_text(zone.source), linked(links, zone.zone_id@))
}

/// The zones that can be paired, by name.
pub fn match_candidates<'a>(zones: &'a [Zone], links: &[ZoneLink]) -> (r: Vec<&'a Zone>)
    ensures
        by_name(zones@.filter(|zone: Zone| pairable(zone, links@)), derefs(r@)),
{
    let ghost keep = |zone: Zone| pairable(zone, links@);
    let mut found: Vec<&'a Zone> = Vec::new();
    let mut i: usize = 0;
    proof {
        crate::seqs::filter_empty(zones@, keep);
        assert(derefs(found@) =~= zones@.take(0).filter(keep));
    }
    while i < zones.len()
        invariant
            i <= zones@.len(),
            keep == (|zone: Zone| pairable(zone, links@)),
            derefs(found@) == zones@.take(i as int).filter(keep),
        decreases zones@.len() - i,
    {
        let ghost before = found@;
        proof {
            crate::seqs::filter_step(zones@, i as int, keep);
        }
        let already_linked = is_linked(links, zones[i].zone_id.as_str());
        if is_zone_match_candidate(
            zones[i].zone_id.as_str(),
            as_opt_str(&zones[i].source),
            already_linked,
        ) {
            found.push(&zones[i]);
            assert(derefs(found@) =~= derefs(before).push(zones@[i as int]));
        }
        i = i + 1;
    }
    assert(zones@.take(i as int) =~= zones@);
    sorted_by_name(&found)
}

/// A zone can be paired just where no pairing names it and it is not HQPlayer's own, by
/// its source or by its id.
pub proof fn unpaired_foreign_zones_are_pairable(zone: Zone, links: Seq<ZoneLink>)
    ensures
        pairable(zone, links) <==> !(exists|i: int|
            0 <= i < links.len() && (#[trigger] links[i]).zone_id@ == zone.zone_id@) && !(
        zone.source is Some && zone.source->0@ == "hqplayer"@) && !(exists|rest: Seq<char>|
            zone.zone_id@ == #[trigger] ("hqplayer:"@ + rest)),
{
    crate::text::prefix_splits_the_text(zone.zone_id@, "hqplayer:"@);
}

/// A zone that was just paired is no longer offered.
pub proof fn paired_zone_is_not_offered(zone: Zone, links: Seq<ZoneLink>, link: ZoneLink)
    requires
        link.zone_id@ == zone.zone_id@,
    ensures
        !pairable(zone, links.push(link)),
{
    assert(links.push(link)[links.len() as int] == link);
}

/// Every zone is either controlled from this page or can be paired, unless it is
/// HQPlayer's own by its id alone.
pub proof fn controlled_and_pairable_are_apart(zone: Zone, links: Seq<ZoneLink>)
    ensures
        !(controlled(zone, links) && pairable(zone, links)),
        has_prefix(zone.zone_id@, "hqplayer:"@) || controlled(zone, links) || pairable(zone, links),
{
}

/// The choice that a selection stands for: itself while it is offered, else the
/// first.
pub open spec fn normalized(current: Seq<char>, choices: Seq<Seq<char>>) -> Seq<char> {
    if choices.contains(current) {
        current
    } else if choices.len() > 0 {
        choices[0]
    } else {
        Seq::empty()
    }
}

/// The choice that a selection stands for.
pub fn normalized_match_selection(current: &str, choices: &Vec<String>) -> (r: String)
    ensures
        r@ == normalized(current@, texts(choices@)),
{
    if list_contains(choices, current) {
        current.to_owned()
    } else if choices.len() > 0 {
        assert(texts(choices@)[0] == choices@[0]@);
        choices[0].clone()
    } else {
        String::new()
    }
}

/// What is sent is always one of the zones that are offered, where there are any.
pub proof fn selection_is_offered(current: Seq<char>, choices: Seq<Seq<char>>)
    requires
        choices.len() > 0,
    ensures
        choices.contains(normalized(current, choices)),
{
    assert(choices.contains(choices[0]));
}

/// A selection stays while it is offered, and falls to the first offer once it is not;
/// without an offer there is none.
pub proof fn selection_stays_while_offered(current: Seq<char>, choices: Seq<Seq<char>>, k: int)
    ensures
        0 <= k < choices.len() && choices[k] == current ==> normalized(current, choices)
            == current,
        choices.len() > 0 && (forall|i: int|
            0 <= i < choices.len() ==> #[trigger] choices[i] != current) ==> normalized(
            current,
            choices,
        ) == choices[0],
        choices.len() == 0 ==> normalized(current, choices).len() == 0,
{
    if 0 <= k < choices.len() && choices[k] == current {
        assert(choices.contains(current));
    }
}

/// The zone and the instance to pair.
pub open spec fn pairing_of(
    zone: Seq<char>,
    selected_instance: Seq<char>,
    default_instance: Seq<char>,
) -> Option<(Seq<char>, Seq<char>)> {
    let instance = if selected_instance.len() == 0 {
        default_instance
    } else {
        selected_instance
    };
    if zone.len() > 0 && instance.len() > 0 {
        Some((zone, instance))
    } else {
        None
    }
}

/// An instance that was picked is paired whatever the default is; the default only stands
/// in where none was picked, and nothing is paired without a zone.
pub proof fn picked_instance_is_paired(
    zone: Seq<char>,
    selected_instance: Seq<char>,
    default_instance: Seq<char>,
)
    ensures
        zone.len() > 0 && selected_instance.len() > 0 ==> pairing_of(
            zone,
            selected_instance,
            default_instance,
        ) == Some((zone, selected_instance)),
        zone.len() > 0 && default_instance.len() > 0 ==> pairing_of(
            zone,
            Seq::empty(),
            default_instance,
        ) == Some((zone, default_instance)),
        zone.len() == 0 ==> pairing_of(zone, selected_instance, default_instance) is None,
        selected_instance.len() == 0 && default_instance.len() == 0 ==> pairing_of(
            zone,
            selected_instance,
            default_instance,
        ) is None,
{
}

/// The pairing to make when the button is pressed: nothing without a zone and an
/// instance.
pub fn pairing_request(
    selected_zone: &str,
    candidate_ids: &Vec<String>,
    selected_instance: &str,
    default_instance: &str,
) -> (r: Option<ZoneLink>)
    ensures
        pairing_of(
            normalized(selected_zone@, texts(candidate_ids@)),
            selected_instance@,
            default_instance@,
        ) == (match r {
            Some(link) => Some((link.zone_id@, link.instance@)),
            None => None,
        }),
        ({
            let zone = normalized(selected_zone@, texts(candidate_ids@));
            let instance = if selected_instance@.len() == 0 {
                default_instance@
            } else {
                selected_instance@
            };
            match r {
                Some(link) => zone.len() > 0 && instance.len() > 0 && link.zone_id@ == zone
                    && link.instance@ == instance,
                None => zone.len() == 0 || instance.len() == 0,
            }
        }),
{
    let zone_id = normalized_match_selection(selected_zone, candidate_ids);
    let instance = if selected_instance.is_empty() {
        default_instance.to_owned()
    } else {
        selected_instance.to_owned()
    };
    if !zone_id.as_str().is_empty() && !instance.as_str().is_empty() {
        Some(ZoneLink { zone_id, instance })
    } else {
        None
    }
}

/// The first instance's name, empty where there is none.
pub fn default_instance(instances: &[HqpInstance]) -> (r: String)
    ensures
        r@ == (if instances@.len() > 0 {
            instances@[0].name@
        } else {
            Seq::empty()
        }),
{
    if instances.len() > 0 {
        instances[0].name.clone()
    } else {
        String::new()
    }
}

/// The zone ids of pairings.
pub open spec fn link_ids(links: Seq<ZoneLink>) -> Seq<Seq<char>> {
    links.map_values(|link: ZoneLink| link.zone_id@)
}

/// The pairings in the order of their zone ids.
pub fn sorted_links<'a>(links: &'a [ZoneLink]) -> (r: Vec<&'a ZoneLink>)
    ensures
        exists|order: Seq<usize>| #[trigger]
            orders_texts(link_ids(links@), order) && derefs(r@) == arranged(links@, order),
{
    let mut all: Vec<&'a ZoneLink> = Vec::new();
    let mut ids: Vec<&'a str> = Vec::new();
    let mut i: usize = 0;
    while i < links.len()
        invariant
            i <= links@.len(),
            all@.len() == i,
            ids@.len() == i,
            forall|j: int| 0 <= j < i ==> *(#[trigger] all@[j]) == links@[j],
            forall|j: int| 0 <= j < i ==> (#[trigger] ids@[j])@ == links@[j].zone_id@,
        decreases links@.len() - i,
    {
        all.push(&links[i]);
        ids.push(links[i].zone_id.as_str());
        i = i + 1;
    }
    assert(ids@.map_values(|key: &str| key@) =~= link_ids(links@));
    let order = order_by_text(&ids);
    let sorted = arrange(&all, &order);
    assert(derefs(sorted@) =~= arranged(links@, order@));
    sorted
}

/// A pairing as text.
pub open spec fn link_text(link: ZoneLink) -> Seq<char> {
    link.zone_id@ + "="@ + link.instance@
}

/// The text of a pairing is the zone, an equals sign and the instance.
pub proof fn pairing_texts_name_both_sides(link: ZoneLink)
    ensures
        link_text(link).len() == link.zone_id@.len() + 1 + link.instance@.len(),
        link_text(link).subrange(0, link.zone_id@.len() as int) == link.zone_id@,
        link_text(link)[link.zone_id@.len() as int] == '=',
        link_text(link).subrange(link.zone_id@.len() as int + 1, link_text(link).len() as int)
            == link.instance@,
{
    reveal_strlit("=");
    let text = link_text(link);
    assert(text.subrange(0, link.zone_id@.len() as int) =~= link.zone_id@);
    assert(text.subrange(link.zone_id@.len() as int + 1, text.len() as int) =~= link.instance@);
}

/// Pairings as texts.
pub open spec fn link_texts(links: Seq<ZoneLink>) -> Seq<Seq<char>> {
    links.map_values(|link: ZoneLink| link_text(link))
}

/// A text of all pairings that does not depend on the order in which they come: the
/// pairings as texts, sorted and joined.
pub fn zone_match_key(links: &[ZoneLink]) -> (r: String)
    ensures
        exists|order: Seq<usize>| #[trigger]
            orders_texts(link_texts(links@), order) && r@ == joined(
                arranged(link_texts(links@), order),
                "|"@,
            ),
{
    let ghost parts = link_texts(links@);
    let mut written: Vec<String> = Vec::new();
    let mut i: usize = 0;
    while i < links.len()
        invariant
            i <= links@.len(),
            written@.len() == i,
            forall|j: int| 0 <= j < i ==> (#[trigger] written@[j])@ == link_text(links@[j]),
        decreases links@.len() - i,
    {
        written.push(cat3(links[i].zone_id.as_str(), "=", links[i].instance.as_str()));
        i = i + 1;
    }
    let mut keys: Vec<&str> = Vec::new();
    let mut k: usize = 0;
    while k < written.len()
        invariant
            k <= written@.len(),
            written@.len() == links@.len(),
            keys@.len() == k,
            forall|j: int| 0 <= j < k ==> (#[trigger] keys@[j])@ == written@[j]@,
        decreases written@.len() - k,
    {
        keys.push(written[k].as_str());
        k = k + 1;
    }
    assert(keys@.map_values(|key: &str| key@) =~= parts);
    let order = order_by_text(&keys);
    let mut sorted: Vec<String> = Vec::new();
    let mut m: usize = 0;
    while m < order.len()
        invariant
            m <= order@.len(),
            parts == link_texts(links@),
            written@.len() == links@.len(),
            orders_texts(parts, order@),
            forall|j: int|
                0 <= j < written@.len() ==> (#[trigger] written@[j])@ == link_text(links@[j]),
            sorted@.len() == m,
            forall|j: int| 0 <= j < m ==> (#[trigger] sorted@[j])@ == parts[order@[j] as int],
        decreases order@.len() - m,
    {
        sorted.push(written[order[m]].clone());
        m = m + 1;
    }
    assert(texts(sorted@) =~= arranged(parts, order@));
    join(&sorted, "|")
}

/// The text of all pairings is the same in whatever order they come.
pub proof fn pairing_key_ignores_order(
    a: Seq<ZoneLink>,
    b: Seq<ZoneLink>,
    a_order: Seq<usize>,
    b_order: Seq<usize>,
)
    requires
        link_texts(a).to_multiset() == link_texts(b).to_multiset(),
        orders_texts(link_texts(a), a_order),
        orders_texts(link_texts(b), b_order),
    ensures
        joined(arranged(link_texts(a), a_order), "|"@) == joined(
            arranged(link_texts(b), b_order),
            "|"@,
        ),
{
    crate::sorting::sorted_texts_ignore_order(link_texts(a), link_texts(b), a_order, b_order);
}

/// What a saved pairing shows.
#[derive(Debug)]
pub struct LinkRow {
    pub zone_name: String,
    pub source_label: String,
    pub instance_detail: String,
}

/// The first instance with a name.
pub open spec fn instance_named(instances: Seq<HqpInstance>, name: Seq<char>) -> Option<HqpInstance> {
    first_where(instances, |instance: HqpInstance| instance.name@ == name)
}

/// An instance is found by its name, the first where several share it.
pub proof fn instances_are_found_by_name(instances: Seq<HqpInstance>, wanted: Seq<char>, k: int)
    ensures
        0 <= k < instances.len() && instances[k].name@ == wanted && (forall|j: int|
            0 <= j < k ==> (#[trigger] instances[j]).name@ != wanted) ==> instance_named(
            instances,
            wanted,
        ) == Some(instances[k]),
        (forall|j: int| 0 <= j < instances.len() ==> (#[trigger] instances[j]).name@ != wanted)
            ==> instance_named(instances, wanted) is None,
    decreases instances.len(),
{
    if instances.len() > 0 {
        let rest = instances.subrange(1, instances.len() as int);
        instances_are_found_by_name(rest, wanted, k - 1);
        if instances[0].name@ != wanted {
            assert(instance_named(instances, wanted) == instance_named(rest, wanted));
            if forall|j: int|
                0 <= j < instances.len() ==> (#[trigger] instances[j]).name@ != wanted {
                assert forall|j: int| 0 <= j < rest.len() implies (#[trigger] rest[j]).name@
                    != wanted by {
                    assert(instances[j + 1] == rest[j]);
                }
            }
            if 0 < k < instances.len() && forall|j: int|
                0 <= j < k ==> (#[trigger] instances[j]).name@ != wanted {
                assert forall|j: int| 0 <= j < k - 1 implies (#[trigger] rest[j]).name@
                    != wanted by {
                    assert(instances[j + 1] == rest[j]);
                }
            }
        }
    }
}

/// What a saved pairing shows: the zone's name, or its id where it is not there; its
/// source; the instance, with its host where that is known.
pub fn link_row(link: &ZoneLink, zones: &[Zone], instances: &[HqpInstance]) -> (r: LinkRow)
    ensures
        ({
            let zone = zone_by_id(zones@, link.zone_id@);
            let instance = instance_named(instances@, link.instance@);
            &&& r.zone_name@ == (match zone {
                Some(zone) => zone.zone_name@,
                None => link.zone_id@,
            })
            &&& r.source_label@ == source_name(
                match zone {
                    Some(zone) => opt_text(zone.source),
                    None => None,
                },
            )
            &&& r.instance_detail@ == (if instance is Some && instance->0.host is Some {
                link.instance@ + " at "@ + instance->0.host->0@
            } else {
                link.instance@
            })
        }),
{
    let (zone_name, source_label) = match find_by_id(
        zones,
        link.zone_id.as_str(),
    ) {
        Some(zone) => (zone.zone_name.clone(), playback_source_label(as_opt_str(&zone.source))),
        None => (link.zone_id.clone(), playback_source_label(None)),
    };
    let instance_detail = match find_instance(instances, link.instance.as_str()) {
        Some(instance) => match &instance.host {
            Some(host) => cat3(link.instance.as_str(), " at ", host.as_str()),
            None => link.instance.clone(),
        },
        None => link.instance.clone(),
    };
    LinkRow { zone_name, source_label, instance_detail }
}

fn find_instance<'a>(instances: &'a [HqpInstance], name: &str) -> (r: Option<&'a HqpInstance>)
    ensures
        match r {
            Some(instance) => instance_named(instances@, name@) == Some(*instance),
            None => instance_named(instances@, name@) is None,
        },
{
    let ghost holds = |instance: HqpInstance| instance.name@ == name@;
    let mut i: usize = 0;
    while i < instances.len()
        invariant
            i <= instances@.len(),
            holds == (|instance: HqpInstance| instance.name@ == name@),
            forall|j: int| 0 <= j < i ==> !holds(#[trigger] instances@[j]),
        decreases instances@.len() - i,
    {
        if same(instances[i].name.as_str(), name) {
            proof {
                first_found(instances@, holds, i as int);
            }
            return Some(&instances[i]);
        }
        i = i + 1;
    }
    proof {
        first_missing(instances@, holds);
    }
    None
}

/// A zone among those to pair: its name and source.
pub fn candidate_text(zone: &Zone) -> (r: String)
    ensures
        r@ == zone.zone_name@ + " ("@ + source_name(opt_text(zone.source)) + ")"@,
{
    let source = playback_source_label(as_opt_str(&zone.source));
    crate::text::cat4(zone.zone_name.as_str(), " (", source.as_str(), ")")
}

/// An instance among those to pair: its name, with its host where that is known.
pub fn instance_text(instance: &HqpInstance) -> (r: String)
    ensures
        r@ == (match instance.host {
            Some(host) => instance.name@ + " ("@ + host@ + ")"@,
            None => instance.name@,
        }),
{
    match &instance.host {
        Some(host) => crate::text::cat4(instance.name.as_str(), " (", host.as_str(), ")"),
        None => instance.name.clone(),
    }
}

/// What came of a pairing, or of its removal.
#[derive(Debug)]
pub enum ZoneMatchFeedback {
    Saved,
    Removed,
    Error(String),
}

/// The state of pairing.
pub struct ZoneMatching {
    pub busy: bool,
    pub feedback: Option<ZoneMatchFeedback>,
}

impl ZoneMatching {
    pub fn new() -> (r: Self)
        ensures
            !r.busy,
            r.feedback is None,
    {
        ZoneMatching { busy: false, feedback: None }
    }

    /// A pairing, or its removal, was asked for.
    pub fn begin(&mut self)
        ensures
            final(self).busy,
            final(self).feedback is None,
    {
        self.busy = true;
        self.feedback = None;
    }

    /// The answer to a pairing (`linking`), or to its removal. Where it was accepted,
    /// pairings and zones are read again.
    pub fn answered(&mut self, linking: bool, answer: Result<(), String>) -> (refresh: bool)
        ensures
            !final(self).busy,
            refresh == (answer is Ok),
            final(self).feedback is Some,
            match answer {
                Ok(_) => if linking {
                    final(self).feedback->0 is Saved
                } else {
                    final(self).feedback->0 is Removed
                },
                Err(error) => match final(self).feedback->0 {
                    ZoneMatchFeedback::Error(message) => message@ == (if linking {
                        "Could not pair this playback path: "@
                    } else {
                        "Could not remove this pairing: "@
                    }) + error@,
                    _ => false,
                },
            },
    {
        self.busy = false;
        match answer {
            Ok(_) => {
                self.feedback =
                Some(
                    if linking {
                        ZoneMatchFeedback::Saved
                    } else {
                        ZoneMatchFeedback::Removed
                    },
                );
                true
            },
            Err(error) => {
                let prefix = if linking {
                    "Could not pair this playback path: "
                } else {
                    "Could not remove this pairing: "
                };
                self.feedback = Some(ZoneMatchFeedback::Error(cat2(prefix, error.as_str())));
                false
            },
        }
    }
}

/// What came of a pairing in words; errors stand out.
pub fn feedback_text(feedback: &ZoneMatchFeedback) -> (r: StatusText)
    ensures
        match *feedback {
            ZoneMatchFeedback::Saved => r.shows(
                "mt-4 text-sm status-ok"@,
                "Paired. Playback and DSP now share one control card."@,
            ),
            ZoneMatchFeedback::Removed => r.shows(
                "mt-4 text-sm status-ok"@,
                "Pairing removed. Audio routing was not changed."@,
            ),
            ZoneMatchFeedback::Error(message) => r.shows("mt-4 text-sm text-red-400"@, message@),
        },
{
    match feedback {
        ZoneMatchFeedback::Saved => StatusText::fixed(
            "mt-4 text-sm status-ok",
            "Paired. Playback and DSP now share one control card.",
        ),
        ZoneMatchFeedback::Removed => StatusText::fixed(
            "mt-4 text-sm status-ok",
            "Pairing removed. Audio routing was not changed.",
        ),
        ZoneMatchFeedback::Error(message) => StatusText {
            class: "mt-4 text-sm text-red-400",
            text: message.clone(),
        },
    }
}

/// Whether the note that nothing is paired is shown.
pub fn shows_nothing_paired(link_count: usize, availability: ZoneMatchAvailability) -> (r: bool)
    ensures
        r == (link_count == 0 && (availability == ZoneMatchAvailability::Ready || availability
            == ZoneMatchAvailability::NoPlaybackZones)),
{
    link_count == 0 && (availability == ZoneMatchAvailability::Ready || availability
        == ZoneMatchAvailability::NoPlaybackZones)
}

} // verus!
