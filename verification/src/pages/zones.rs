//! Zones page: every zone with what it plays.

use crate::api::Zone;
use crate::pages::hqplayer::HqpAdvanced;
use crate::sse::{refreshes_knobs, SseEvent};
use crate::text::cat2;
use vstd::prelude::*;

verus! {

/// Whether an event makes the page fetch the zone list again: a zone changed or went
/// away, or a provider came or went.
pub fn restarts_zone_list(event: Option<&SseEvent>) -> (r: bool)
    ensures
        r == (event is Some && refreshes_knobs(*event->0)),
{
    match event {
        Some(
            SseEvent::ZoneUpdated { .. }
            | SseEvent::ZoneRemoved { .. }
            | SseEvent::RoonConnected
            | SseEvent::RoonDisconnected
            | SseEvent::LmsConnected
            | SseEvent::LmsDisconnected,
        ) => true,
        _ => false,
    }
}

/// Whether any zone runs through HQPlayer, so that its profiles are needed.
pub fn has_any_hqp(zones: &[Zone]) -> (r: bool)
    ensures
        r == exists|i: int| 0 <= i < zones@.len() && (#[trigger] zones@[i]).hqp(),
{
    let mut i: usize = 0;
    while i < zones.len()
        invariant
            i <= zones@.len(),
            forall|j: int| 0 <= j < i ==> !(#[trigger] zones@[j]).hqp(),
        decreases zones@.len() - i,
    {
        if zones[i].has_hqp() {
            return true;
        }
        i = i + 1;
    }
    false
}

/// What stands where the zones go.
#[derive(Clone, Copy, Debug, PartialEq, Eq, Structural)]
pub enum ZonesPanel {
    Loading,
    Empty,
    Groups,
}

/// Picks what stands where the zones go. A fetch that failed counts as one without
/// zones.
pub fn zones_panel(fetched: bool, zone_count: usize) -> (r: ZonesPanel)
    ensures
        r == (if !fetched {
            ZonesPanel::Loading
        } else if zone_count == 0 {
            ZonesPanel::Empty
        } else {
            ZonesPanel::Groups
        }),
{
    if !fetched {
        ZonesPanel::Loading
    } else if zone_count == 0 {
        ZonesPanel::Empty
    } else {
        ZonesPanel::Groups
    }
}

/// Whether there are matrix profiles to choose from.
pub fn has_matrix(matrix: Option<&HqpAdvanced>) -> (r: bool)
    ensures
        r == (matrix is Some && matrix->0.profiles@.len() > 0),
{
    match matrix {
        Some(matrix) => matrix.profiles.len() > 0,
        None => false,
    }
}

/// Whether a zone's card has HQPlayer controls: the zone runs through HQPlayer and
/// there is something to choose.
pub fn shows_hqp_controls(zone: &Zone, profile_count: usize, matrix: Option<&HqpAdvanced>) -> (r:
    bool)
    ensures
        r == (zone.hqp() && (profile_count > 0 || (matrix is Some && matrix->0.profiles@.len() > 0))),
{
    zone.has_hqp() && (profile_count > 0 || has_matrix(matrix))
}

/// The message for a profile that could not be loaded.
pub fn profile_error(error: &str) -> (r: String)
    ensures
        r@ == "Profile load failed: "@ + error@,
{
    cat2("Profile load failed: ", error)
}

/// The message for a matrix profile that could not be set.
pub fn matrix_error(error: &str) -> (r: String)
    ensures
        r@ == "Matrix profile failed: "@ + error@,
{
    cat2("Matrix profile failed: ", error)
}

} // verus!
