//! First-run onboarding: zones as they are found, then ways to connect.

use crate::api::AppSettings;
use crate::sse::{is_lms_link, is_renderer_change, is_roon_link, is_zone_change, SseEvent};
use crate::text::{cat2, cat3, cat4, decimal, number, opt_text};
use vstd::prelude::*;

verus! {

/// Events after which the zones are fetched again: zones and adapters that come, go
/// or change.
pub open spec fn refreshes_discovered_zones(e: SseEvent) -> bool {
    e is ZoneDiscovered || is_zone_change(e) || e is AdapterConnected || e is AdapterDisconnected
        || is_roon_link(e) || is_lms_link(e) || is_renderer_change(e)
}

/// Whether an event makes the page fetch the zones again.
pub fn should_refresh_zones(event: Option<&SseEvent>) -> (r: bool)
    ensures
        r == (event is Some && refreshes_discovered_zones(*event->0)),
{
    match event {
        Some(
            SseEvent::ZoneDiscovered { .. }
            | SseEvent::ZoneUpdated { .. }
            | SseEvent::ZoneRemoved { .. }
            | SseEvent::AdapterConnected { .. }
            | SseEvent::AdapterDisconnected { .. }
            | SseEvent::RoonConnected
            | SseEvent::RoonDisconnected
            | SseEvent::LmsConnected
            | SseEvent::LmsDisconnected
            | SseEvent::OpenHomeDeviceFound
            | SseEvent::OpenHomeDeviceLost
            | SseEvent::UpnpRendererFound
            | SseEvent::UpnpRendererLost,
        ) => true,
        _ => false,
    }
}

/// The steps of the wizard.
#[derive(Clone, Copy, Debug, PartialEq, Eq, Structural)]
pub enum OnboardingStep {
    Discovery,
    Ready,
}

/// The stored settings, with whether the wizard has been completed.
#[derive(Clone, Copy, Debug, PartialEq, Eq, Structural)]
pub struct OnboardingSettings {
    pub settings: AppSettings,
    pub onboarding_completed: bool,
}

impl OnboardingSettings {
    /// What to store when the wizard is finished or skipped: nothing but its own
    /// flag changes.
    pub fn completed(self) -> (r: Self)
        ensures
            r == (OnboardingSettings { onboarding_completed: true, ..self }),
    {
        OnboardingSettings { settings: self.settings, onboarding_completed: true }
    }
}

/// The class of a step's dot.
pub fn step_dot_class(current: OnboardingStep, step: OnboardingStep) -> (r: &'static str)
    ensures
        r@ == (if current == step {
            "w-2.5 h-2.5 rounded-full bg-primary"@
        } else {
            "w-2.5 h-2.5 rounded-full bg-muted"@
        }),
{
    if current == step {
        "w-2.5 h-2.5 rounded-full bg-primary"
    } else {
        "w-2.5 h-2.5 rounded-full bg-muted"
    }
}

/// Plural suffix.
pub open spec fn plural_suffix(n: int) -> Seq<char> {
    if n == 1 {
        ""@
    } else {
        "s"@
    }
}

/// Plural suffix helper
pub fn plural(n: usize) -> (r: &'static str)
    ensures
        r@ == plural_suffix(n as int),
{
    if n == 1 {
        ""
    } else {
        "s"
    }
}

/// A number of things in words.
pub open spec fn counted_text(n: int, noun: Seq<char>) -> Seq<char> {
    decimal(n as nat) + " "@ + noun + plural_suffix(n)
}

/// A number of things in words.
pub fn counted(n: usize, noun: &str) -> (r: String)
    ensures
        r@ == counted_text(n as int, noun@),
{
    let count = number(n as u64);
    cat4(count.as_str(), " ", noun, plural(n))
}

/// The line under the heading while zones are discovered.
pub fn discovery_hint(is_loading: bool, zone_count: usize) -> (r: &'static str)
    ensures
        r@ == (if is_loading {
            "Searching for music servers on your network..."@
        } else if zone_count == 0 {
            "Searching... zones will appear as they are found."@
        } else {
            "Zones appear in real-time as they are discovered."@
        }),
{
    if is_loading {
        "Searching for music servers on your network..."
    } else if zone_count == 0 {
        "Searching... zones will appear as they are found."
    } else {
        "Zones appear in real-time as they are discovered."
    }
}

/// Whether the spinner turns.
pub fn shows_spinner(is_loading: bool, zone_count: usize) -> (r: bool)
    ensures
        r == (is_loading || zone_count == 0),
{
    is_loading || zone_count == 0
}

/// How many zones were found.
pub fn found_text(zone_count: usize) -> (r: String)
    ensures
        r@ == "Found "@ + counted_text(zone_count as int, "zone"@) + ":"@,
{
    let zones = counted(zone_count, "zone");
    cat3("Found ", zones.as_str(), ":")
}

/// How many zones a source has.
pub fn group_count_text(zone_count: usize) -> (r: String)
    ensures
        r@ == "("@ + counted_text(zone_count as int, "zone"@) + ")"@,
{
    let zones = counted(zone_count, "zone");
    cat3("(", zones.as_str(), ")")
}

/// The text on the button that goes on.
pub fn continue_label(zone_count: usize) -> (r: &'static str)
    ensures
        r@ == (if zone_count > 0 {
            "Continue"@
        } else {
            "Continue anyway"@
        }),
{
    if zone_count > 0 {
        "Continue"
    } else {
        "Continue anyway"
    }
}

/// What was found, in the last step.
pub fn ready_summary(zone_count: usize, source_count: usize) -> (r: String)
    ensures
        r@ == (if zone_count > 0 {
            "Found "@ + counted_text(zone_count as int, "zone"@) + " from "@ + counted_text(
                source_count as int,
                "source"@,
            ) + "."@
        } else {
            "No zones found yet — they'll appear once your music servers are online."@
        }),
{
    if zone_count > 0 {
        let zones = counted(zone_count, "zone");
        let sources = counted(source_count, "source");
        crate::text::cat5("Found ", zones.as_str(), " from ", sources.as_str(), ".")
    } else {
        "No zones found yet — they'll appear once your music servers are online.".to_owned()
    }
}

/// The bridge's host and port: where the page came from, or the usual name where
/// that is not known.
pub open spec fn host_text(host: Option<Seq<char>>) -> Seq<char> {
    if host is Some && host->0.len() > 0 {
        host->0
    } else {
        "uhc.local:8088"@
    }
}

/// The bridge's host and port. `host` is what the browser's location says.
pub fn get_bridge_host(host: Option<String>) -> (r: String)
    ensures
        r@ == host_text(opt_text(host)),
{
    if let Some(host) = host {
        if !host.as_str().is_empty() {
            return host;
        }
    }
    "uhc.local:8088".to_owned()
}

/// The address for assistants.
pub fn mcp_url(bridge_host: &str) -> (r: String)
    ensures
        r@ == "http://"@ + bridge_host@ + "/mcp"@,
{
    cat3("http://", bridge_host, "/mcp")
}

/// What to tell owners of a hardware controller.
pub fn knob_hint(bridge_host: &str) -> (r: String)
    ensures
        r@ == "Point your roon-knob at "@ + bridge_host@,
{
    cat2("Point your roon-knob at ", bridge_host)
}

/// The discovered zones are fetched again where a zone, an adapter, a server or a renderer
/// comes, changes or goes, and at no other event.
pub proof fn discovery_follows_what_comes_and_goes(e: SseEvent)
    ensures
        refreshes_discovered_zones(e) <==> e is ZoneDiscovered || e is ZoneUpdated
            || e is ZoneRemoved || e is AdapterConnected || e is AdapterDisconnected
            || e is RoonConnected || e is RoonDisconnected || e is LmsConnected
            || e is LmsDisconnected || e is OpenHomeDeviceFound || e is OpenHomeDeviceLost
            || e is UpnpRendererFound || e is UpnpRendererLost,
{
}

/// A count names its noun in the plural unless it is one.
pub proof fn counts_are_plural_but_for_one(n: int, noun: Seq<char>)
    requires
        0 <= n,
    ensures
        n == 1 ==> counted_text(n, noun) == decimal(1) + " "@ + noun,
        n != 1 ==> counted_text(n, noun) == decimal(n as nat) + " "@ + noun + "s"@,
{
    reveal_strlit("");
    if n == 1 {
        assert(counted_text(n, noun) =~= decimal(1) + " "@ + noun);
    }
}

/// The address of the page is shown where it is known, and the usual one where not.
pub proof fn unknown_hosts_show_the_usual_address(host: Seq<char>)
    ensures
        host.len() > 0 ==> host_text(Some(host)) == host,
        host.len() == 0 ==> host_text(Some(host)) == "uhc.local:8088"@,
        host_text(None) == "uhc.local:8088"@,
{
}

} // verus!
