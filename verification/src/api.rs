//! The records that the bridge's HTTP interface exchanges with the pages.

use crate::seqs::{first_found, first_missing, first_where};
use crate::text::same;
use vstd::prelude::*;

verus! {

/// Which adapters are switched on.
#[derive(Clone, Copy, Debug, PartialEq, Eq, Structural)]
pub struct AdapterSettings {
    pub roon: bool,
    pub lms: bool,
    pub openhome: bool,
    pub upnp: bool,
    pub hqplayer: bool,
    pub spotify: bool,
    pub applemusic: bool,
    pub musicassistant: bool,
    pub mqtt: bool,
}

/// The settings that the bridge stores.
#[derive(Clone, Copy, Debug, PartialEq, Eq, Structural)]
pub struct AppSettings {
    pub adapters: AdapterSettings,
    pub hide_knobs_page: bool,
    pub hide_hqp_page: bool,
    pub hide_lms_page: bool,
}

/// Roon connection status.
#[derive(Debug)]
pub struct RoonStatus {
    pub connected: bool,
    pub core_name: Option<String>,
    pub core_version: Option<String>,
}

/// HQPlayer connection status.
#[derive(Debug)]
pub struct HqpStatus {
    pub connected: bool,
    pub host: Option<String>,
}

/// LMS connection status.
#[derive(Debug)]
pub struct LmsStatus {
    pub connected: bool,
    pub host: Option<String>,
    pub port: Option<u16>,
}

/// LMS server configuration.
#[derive(Debug)]
pub struct LmsConfig {
    pub configured: bool,
    pub connected: bool,
    pub host: Option<String>,
    pub port: Option<u16>,
    pub cli_subscription_active: bool,
    pub poll_interval_secs: u64,
}

/// One native Apple Music companion.
#[derive(Clone, Debug)]
pub struct AppleBridgeCompanionStatus {
    pub bridge_id: String,
    pub display_name: String,
    pub paired: bool,
    pub live: bool,
    pub has_snapshot: bool,
}

impl Default for AppleBridgeCompanionStatus {
    fn default() -> (r: Self)
        ensures
            r.bridge_id@.len() == 0,
            r.display_name@.len() == 0,
            !r.paired,
            !r.live,
            !r.has_snapshot,
    {
        AppleBridgeCompanionStatus {
            bridge_id: String::new(),
            display_name: String::new(),
            paired: false,
            live: false,
            has_snapshot: false,
        }
    }
}

/// A companion that waits for its code to be confirmed.
#[derive(Clone, Debug)]
pub struct PendingPairing {
    pub bridge_id: String,
    pub pairing_code: String,
}

/// The state of the Apple Music bridge.
#[derive(Clone, Debug)]
pub struct AppleBridgeStatus {
    pub paired: bool,
    pub live: bool,
    pub companions: Vec<AppleBridgeCompanionStatus>,
    pub pending_pairings: Vec<PendingPairing>,
}

impl Default for AppleBridgeStatus {
    fn default() -> (r: Self)
        ensures
            !r.paired,
            !r.live,
            r.companions@.len() == 0,
            r.pending_pairings@.len() == 0,
    {
        AppleBridgeStatus {
            paired: false,
            live: false,
            companions: Vec::new(),
            pending_pairings: Vec::new(),
        }
    }
}

/// The signal processing that a zone runs through.
#[derive(Clone, Debug)]
pub struct ZoneDsp {
    pub kind: Option<String>,
}

/// A playback zone.
#[derive(Clone, Debug)]
pub struct Zone {
    pub zone_id: String,
    pub zone_name: String,
    pub source: Option<String>,
    pub state: Option<String>,
    pub dsp: Option<ZoneDsp>,
    /// Whether the zone's source can be browsed.
    pub browse_supported: bool,
    /// The library tabs that the zone's source offers.
    pub library_tabs: Vec<String>,
}

impl Default for Zone {
    fn default() -> (r: Self)
        ensures
            r.zone_id@.len() == 0,
            r.zone_name@.len() == 0,
            r.source is None,
            r.state is None,
            r.dsp is None,
            !r.browse_supported,
            r.library_tabs@.len() == 0,
    {
        Zone {
            zone_id: String::new(),
            zone_name: String::new(),
            source: None,
            state: None,
            dsp: None,
            browse_supported: false,
            library_tabs: Vec::new(),
        }
    }
}

impl Zone {
    /// The zone runs through HQPlayer.
    pub open spec fn hqp(self) -> bool {
        self.dsp is Some && crate::text::opt_text(self.dsp->0.kind) == Some("hqplayer"@)
    }

    /// Whether the zone runs through HQPlayer.
    pub fn has_hqp(&self) -> (r: bool)
        ensures
            r == self.hqp(),
    {
        match &self.dsp {
            Some(dsp) => crate::text::opt_is(&dsp.kind, "hqplayer"),
            None => false,
        }
    }
}

/// The first zone with an id.
pub open spec fn zone_by_id(zones: Seq<Zone>, id: Seq<char>) -> Option<Zone> {
    first_where(zones, |zone: Zone| zone.zone_id@ == id)
}

/// Finds the first zone with an id.
pub fn find_by_id<'a>(zones: &'a [Zone], id: &str) -> (r: Option<&'a Zone>)
    ensures
        match r {
            Some(zone) => zone_by_id(zones@, id@) == Some(*zone),
            None => zone_by_id(zones@, id@) is None,
        },
{
    let ghost holds = |zone: Zone| zone.zone_id@ == id@;
    let mut i: usize = 0;
    while i < zones.len()
        invariant
            i <= zones@.len(),
            holds == (|zone: Zone| zone.zone_id@ == id@),
            forall|j: int| 0 <= j < i ==> !holds(#[trigger] zones@[j]),
        decreases zones@.len() - i,
    {
        if same(zones[i].zone_id.as_str(), id) {
            proof {
                first_found(zones@, holds, i as int);
            }
            return Some(&zones[i]);
        }
        i = i + 1;
    }
    proof {
        first_missing(zones@, holds);
    }
    None
}

/// A zone is found by its id where it is there, and the first where several share it;
/// nothing is found under an id that no zone has.
pub proof fn zones_are_found_by_their_id(zones: Seq<Zone>, wanted: Seq<char>, k: int)
    ensures
        0 <= k < zones.len() && zones[k].zone_id@ == wanted && (forall|j: int|
            0 <= j < k ==> (#[trigger] zones[j]).zone_id@ != wanted) ==> zone_by_id(
            zones,
            wanted,
        ) == Some(zones[k]),
        (forall|j: int| 0 <= j < zones.len() ==> (#[trigger] zones[j]).zone_id@ != wanted)
            <==> zone_by_id(zones, wanted) is None,
        zone_by_id(zones, wanted) is Some ==> zones.contains(zone_by_id(zones, wanted)->0)
            && zone_by_id(zones, wanted)->0.zone_id@ == wanted,
    decreases zones.len(),
{
    if zones.len() > 0 {
        let rest = zones.subrange(1, zones.len() as int);
        zones_are_found_by_their_id(rest, wanted, k - 1);
        if zones[0].zone_id@ == wanted {
            assert(zones.contains(zones[0]));
        } else {
            assert(zone_by_id(zones, wanted) == zone_by_id(rest, wanted));
            assert forall|j: int| 0 <= j < rest.len() implies rest[j] == #[trigger] zones[j + 1] by {}
            if forall|j: int| 0 <= j < rest.len() ==> (#[trigger] rest[j]).zone_id@ != wanted {
                assert forall|j: int| 0 <= j < zones.len() implies (#[trigger] zones[j]).zone_id@
                    != wanted by {
                    if j > 0 {
                        assert(rest[j - 1] == zones[j]);
                    }
                }
            }
            if zone_by_id(rest, wanted) is Some {
                let found = zone_by_id(rest, wanted)->0;
                let n = choose|n: int| 0 <= n < rest.len() && rest[n] == found;
                assert(zones[n + 1] == found);
            }
            if 0 < k < zones.len() && forall|j: int|
                0 <= j < k ==> (#[trigger] zones[j]).zone_id@ != wanted {
                assert forall|j: int| 0 <= j < k - 1 implies (#[trigger] rest[j]).zone_id@
                    != wanted by {
                    assert(zones[j + 1] == rest[j]);
                }
            }
        }
    }
}

/// A zone runs through HQPlayer just where its processing names HQPlayer.
pub proof fn processing_names_hqplayer(zone: Zone)
    ensures
        zone.hqp() <==> zone.dsp is Some && zone.dsp->0.kind is Some && zone.dsp->0.kind->0@
            == "hqplayer"@,
{
}

} // verus!
