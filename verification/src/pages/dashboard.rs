//! Dashboard page: the state of each adapter.

use crate::api::{HqpStatus, LmsStatus, RoonStatus};
use crate::markup::StatusText;
use crate::sse::{is_roon_link, refreshes_hqp, refreshes_lms, SseContext};
use crate::text::{cat2, cat3, decimal, number};
use vstd::prelude::*;

verus! {

/// Whether the last event makes the page fetch the adapters' states again.
pub fn refreshes_status(sse: &SseContext) -> (r: bool)
    ensures
        r == (sse.last_event is Some && (is_roon_link(sse.last_event->0) || refreshes_hqp(
            sse.last_event->0,
        ) || refreshes_lms(sse.last_event->0))),
{
    sse.should_refresh_roon() || sse.should_refresh_hqp() || sse.should_refresh_lms()
}

/// Whether the page still waits: for the bridge's own state, or for Roon's.
pub fn is_loading(status_fetched: bool, roon_fetched: bool) -> (r: bool)
    ensures
        r == (!status_fetched || !roon_fetched),
{
    !status_fetched || !roon_fetched
}

/// The state of an adapter.
pub fn adapter_state(connected: bool) -> (r: StatusText)
    ensures
        connected ==> r.shows("status-ok"@, "✓ Connected"@),
        !connected ==> r.shows("status-err"@, "✗ Disconnected"@),
{
    if connected {
        StatusText::fixed("status-ok", "✓ Connected")
    } else {
        StatusText::fixed("status-err", "✗ Disconnected")
    }
}

/// What there is to say of Roon: the core's name and version, as far as known.
pub fn roon_details(status: &RoonStatus) -> (r: String)
    ensures
        r@ == (match status.core_name {
            Some(name) => name@ + " "@,
            None => ""@,
        }) + (match status.core_version {
            Some(version) => "v"@ + version@,
            None => ""@,
        }),
{
    let name = match &status.core_name {
        Some(name) => cat2(name.as_str(), " "),
        None => "".to_owned(),
    };
    let version = match &status.core_version {
        Some(version) => cat2("v", version.as_str()),
        None => "".to_owned(),
    };
    cat2(name.as_str(), version.as_str())
}

/// What there is to say of HQPlayer: its host.
pub fn hqp_details(status: &HqpStatus) -> (r: String)
    ensures
        r@ == (match status.host {
            Some(host) => host@,
            None => Seq::empty(),
        }),
{
    match &status.host {
        Some(host) => host.clone(),
        None => String::new(),
    }
}

/// What there is to say of LMS: its host and port, where both are known.
pub fn lms_details(status: &LmsStatus) -> (r: String)
    ensures
        r@ == (if status.host is Some && status.port is Some {
            status.host->0@ + ":"@ + decimal(status.port->0 as nat)
        } else {
            Seq::empty()
        }),
{
    match (&status.host, status.port) {
        (Some(host), Some(port)) => {
            let port = number(port as u64);
            cat3(host.as_str(), ":", port.as_str())
        },
        _ => String::new(),
    }
}

} // verus!
