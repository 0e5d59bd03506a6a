//! Server-sent events: one connection shared by every page, and what each event
//! makes them fetch again.

use crate::text::opt_str;
use vstd::prelude::*;

verus! {

/// Payload for zone-related events
#[derive(Clone, Debug, PartialEq, Eq)]
pub struct ZonePayload {
    pub zone_id: String,
}

/// Payload for LMS player events
#[derive(Clone, Debug, PartialEq, Eq)]
pub struct LmsPlayerPayload {
    pub player_id: String,
}

/// Payload for volume changed events
#[derive(Clone, Debug, PartialEq, Eq)]
pub struct VolumePayload {
    pub output_id: String,
    /// The level, as the bits of a single-precision number.
    pub value_bits: u32,
    pub is_muted: bool,
}

/// Payload for adapter events
#[derive(Clone, Debug, PartialEq, Eq)]
pub struct AdapterPayload {
    pub adapter: String,
}

/// SSE event types from the server
#[derive(Clone, Debug, PartialEq, Eq)]
pub enum SseEvent {
    // Roon events
    RoonConnected,
    RoonDisconnected,
    ZoneDiscovered { payload: ZonePayload },
    ZoneUpdated { payload: ZonePayload },
    ZoneRemoved { payload: ZonePayload },
    NowPlayingChanged { payload: ZonePayload },
    VolumeChanged { payload: VolumePayload },
    SeekPositionChanged { payload: ZonePayload },
    // HQPlayer events
    HqpConnected,
    HqpDisconnected,
    HqpStateChanged,
    HqpPipelineChanged,
    // LMS events
    LmsConnected,
    LmsDisconnected,
    LmsPlayerStateChanged { payload: LmsPlayerPayload },
    // OpenHome events
    OpenHomeDeviceFound,
    OpenHomeDeviceLost,
    // UPnP events
    UpnpRendererFound,
    UpnpRendererLost,
    // Adapter lifecycle
    AdapterConnected { payload: AdapterPayload },
    AdapterDisconnected { payload: AdapterPayload },
    // Catch-all for unknown events
    Unknown,
}

impl SseEvent {
    /// The zone that an event is about. Only an update, a removal, a track change
    /// and a seek name one.
    pub open spec fn zone(self) -> Option<Seq<char>> {
        match self {
            SseEvent::ZoneUpdated { payload } => Some(payload.zone_id@),
            SseEvent::ZoneRemoved { payload } => Some(payload.zone_id@),
            SseEvent::NowPlayingChanged { payload } => Some(payload.zone_id@),
            SseEvent::SeekPositionChanged { payload } => Some(payload.zone_id@),
            _ => None,
        }
    }

    /// Extract zone_id from zone-related events
    pub fn zone_id(&self) -> (r: Option<&str>)
        ensures
            opt_str(r) == self.zone(),
    {
        match self {
            SseEvent::ZoneUpdated { payload } => Some(payload.zone_id.as_str()),
            SseEvent::ZoneRemoved { payload } => Some(payload.zone_id.as_str()),
            SseEvent::NowPlayingChanged { payload } => Some(payload.zone_id.as_str()),
            SseEvent::SeekPositionChanged { payload } => Some(payload.zone_id.as_str()),
            _ => None,
        }
    }
}

// ── What an event is about ──────────────────────────────────────────────────

/// The Roon core came or went.
pub open spec fn is_roon_link(e: SseEvent) -> bool {
    e is RoonConnected || e is RoonDisconnected
}

/// The LMS server came or went.
pub open spec fn is_lms_link(e: SseEvent) -> bool {
    e is LmsConnected || e is LmsDisconnected
}

/// A zone itself changed or went away.
pub open spec fn is_zone_change(e: SseEvent) -> bool {
    e is ZoneUpdated || e is ZoneRemoved
}

/// What plays, where in it, or how loud.
pub open spec fn is_playback(e: SseEvent) -> bool {
    e is NowPlayingChanged || e is SeekPositionChanged || e is VolumeChanged
}

/// An OpenHome device or UPnP renderer came or went.
pub open spec fn is_renderer_change(e: SseEvent) -> bool {
    e is OpenHomeDeviceFound || e is OpenHomeDeviceLost || e is UpnpRendererFound
        || e is UpnpRendererLost
}

/// Events after which zones and what they play are fetched again.
pub open spec fn refreshes_zones(e: SseEvent) -> bool {
    is_zone_change(e) || is_playback(e) || is_roon_link(e) || is_lms_link(e)
        || e is LmsPlayerStateChanged
}

/// Events after which HQPlayer's state is fetched again.
pub open spec fn refreshes_hqp(e: SseEvent) -> bool {
    e is HqpConnected || e is HqpDisconnected || e is HqpStateChanged || e is HqpPipelineChanged
}

/// Events after which LMS players are fetched again.
pub open spec fn refreshes_lms(e: SseEvent) -> bool {
    is_lms_link(e) || e is LmsPlayerStateChanged
}

/// Events after which the discovery status is fetched again.
pub open spec fn refreshes_discovery(e: SseEvent) -> bool {
    is_roon_link(e) || is_renderer_change(e)
}

/// Events after which the controllers are fetched again.
pub open spec fn refreshes_knobs(e: SseEvent) -> bool {
    is_zone_change(e) || is_roon_link(e) || is_lms_link(e)
}

/// The state of the event stream.
#[derive(Clone, Debug, PartialEq, Eq)]
pub struct SseContext {
    /// Last received event
    pub last_event: Option<SseEvent>,
    /// Connection status
    pub connected: bool,
    /// Event counter (increments on each event)
    pub event_count: u64,
}

/// What reaches the page from the event stream.
pub enum SseNotice {
    /// The connection opened.
    Opened,
    /// The connection failed.
    Failed,
    /// A message arrived; it holds an event where it could be read.
    Message { event: Option<SseEvent> },
}

/// The stream before the connection is made.
pub open spec fn before_stream() -> SseContext {
    SseContext { last_event: None, connected: false, event_count: 0 }
}

/// The stream after one more notice. A message that could not be read changes
/// nothing.
pub open spec fn after_notice(state: SseContext, notice: SseNotice) -> SseContext {
    match notice {
        SseNotice::Opened => SseContext { connected: true, ..state },
        SseNotice::Failed => SseContext { connected: false, ..state },
        SseNotice::Message { event: Some(event) } => SseContext {
            last_event: Some(event),
            event_count: (state.event_count + 1) as u64,
            ..state
        },
        SseNotice::Message { event: None } => state,
    }
}

/// The stream after all these notices, in their order.
pub open spec fn after_notices(notices: Seq<SseNotice>) -> SseContext
    decreases notices.len(),
{
    if notices.len() == 0 {
        before_stream()
    } else {
        after_notice(after_notices(notices.drop_last()), notices.last())
    }
}

/// The events that could be read, in their order.
pub open spec fn readable_events(notices: Seq<SseNotice>) -> Seq<SseEvent>
    decreases notices.len(),
{
    if notices.len() == 0 {
        Seq::empty()
    } else {
        let earlier = readable_events(notices.drop_last());
        match notices.last() {
            SseNotice::Message { event: Some(event) } => earlier.push(event),
            _ => earlier,
        }
    }
}

/// The connection opened, and has not failed since.
pub open spec fn open_since(notices: Seq<SseNotice>, at: int) -> bool {
    &&& 0 <= at < notices.len()
    &&& notices[at] is Opened
    &&& forall|later: int| at < later < notices.len() ==> !(#[trigger] notices[later] is Failed)
}

impl SseContext {
    /// The stream before the connection is made.
    pub fn new() -> (r: Self)
        ensures
            r.last_event is None,
            !r.connected,
            r.event_count == 0,
            r == before_stream(),
    {
        SseContext { last_event: None, connected: false, event_count: 0 }
    }

    /// The connection opened.
    pub fn opened(&mut self)
        ensures
            *final(self) == (SseContext { connected: true, ..*old(self) }),
            *final(self) == after_notice(*old(self), SseNotice::Opened),
    {
        self.connected = true;
    }

    /// The connection failed.
    pub fn failed(&mut self)
        ensures
            *final(self) == (SseContext { connected: false, ..*old(self) }),
            *final(self) == after_notice(*old(self), SseNotice::Failed),
    {
        self.connected = false;
    }

    /// A message arrived: an event that could be read becomes the last one and is
    /// counted, any other message changes nothing.
    pub fn received(&mut self, event: Option<SseEvent>)
        requires
            event is Some ==> old(self).event_count < u64::MAX,
        ensures
            final(self).connected == old(self).connected,
            event is Some ==> final(self).last_event == event && final(self).event_count == old(
                self,
            ).event_count + 1,
            event is None ==> *final(self) == *old(self),
            *final(self) == after_notice(*old(self), SseNotice::Message { event }),
    {
        if event.is_some() {
            self.last_event = event;
            self.event_count = self.event_count + 1;
        }
    }

    /// Check if we should refresh zones/now_playing based on event types
    pub fn should_refresh_zones(&self) -> (r: bool)
        ensures
            r == (self.last_event is Some && refreshes_zones(self.last_event->0)),
    {
        match &self.last_event {
            Some(
                SseEvent::ZoneUpdated { .. }
                | SseEvent::ZoneRemoved { .. }
                | SseEvent::NowPlayingChanged { .. }
                | SseEvent::SeekPositionChanged { .. }
                | SseEvent::VolumeChanged { .. }
                | SseEvent::RoonConnected
                | SseEvent::RoonDisconnected
                | SseEvent::LmsConnected
                | SseEvent::LmsDisconnected
                | SseEvent::LmsPlayerStateChanged { .. },
            ) => true,
            _ => false,
        }
    }

    pub fn should_refresh_roon(&self) -> (r: bool)
        ensures
            r == (self.last_event is Some && is_roon_link(self.last_event->0)),
    {
        match &self.last_event {
            Some(SseEvent::RoonConnected | SseEvent::RoonDisconnected) => true,
            _ => false,
        }
    }

    pub fn should_refresh_hqp(&self) -> (r: bool)
        ensures
            r == (self.last_event is Some && refreshes_hqp(self.last_event->0)),
    {
        match &self.last_event {
            Some(
                SseEvent::HqpConnected
                | SseEvent::HqpDisconnected
                | SseEvent::HqpStateChanged
                | SseEvent::HqpPipelineChanged,
            ) => true,
            _ => false,
        }
    }

    pub fn should_refresh_lms(&self) -> (r: bool)
        ensures
            r == (self.last_event is Some && refreshes_lms(self.last_event->0)),
    {
        match &self.last_event {
            Some(
                SseEvent::LmsConnected
                | SseEvent::LmsDisconnected
                | SseEvent::LmsPlayerStateChanged { .. },
            ) => true,
            _ => false,
        }
    }

    pub fn should_refresh_discovery(&self) -> (r: bool)
        ensures
            r == (self.last_event is Some && refreshes_discovery(self.last_event->0)),
    {
        match &self.last_event {
            Some(
                SseEvent::RoonConnected
                | SseEvent::RoonDisconnected
                | SseEvent::OpenHomeDeviceFound
                | SseEvent::OpenHomeDeviceLost
                | SseEvent::UpnpRendererFound
                | SseEvent::UpnpRendererLost,
            ) => true,
            _ => false,
        }
    }

    pub fn should_refresh_knobs(&self) -> (r: bool)
        ensures
            r == (self.last_event is Some && refreshes_knobs(self.last_event->0)),
    {
        match &self.last_event {
            Some(
                SseEvent::ZoneUpdated { .. }
                | SseEvent::ZoneRemoved { .. }
                | SseEvent::RoonConnected
                | SseEvent::RoonDisconnected
                | SseEvent::LmsConnected
                | SseEvent::LmsDisconnected,
            ) => true,
            _ => false,
        }
    }
}

/// Over a whole stream, whatever came in whatever order: the counter says how many
/// messages could be read, the last event is the last of them (none where there was
/// none), and the stream counts as connected just where the latest notice of the
/// connection was that it opened. The count is exact as long as it fits in 64 bits.
pub proof fn stream_state_follows_the_notices(notices: Seq<SseNotice>)
    ensures
        readable_events(notices).len() <= u64::MAX ==> after_notices(notices).event_count
            == readable_events(notices).len(),
        after_notices(notices).last_event == (if readable_events(notices).len() == 0 {
            None
        } else {
            Some(readable_events(notices).last())
        }),
        after_notices(notices).connected <==> exists|at: int| open_since(notices, at),
    decreases notices.len(),
{
    if notices.len() > 0 {
        let earlier = notices.drop_last();
        let n = notices.len() - 1;
        stream_state_follows_the_notices(earlier);
        if notices[n] is Opened {
            assert(open_since(notices, n));
        } else if !(notices[n] is Failed) {
            if exists|at: int| open_since(earlier, at) {
                let at = choose|at: int| open_since(earlier, at);
                assert forall|later: int| at < later < notices.len() implies !(
                #[trigger] notices[later] is Failed) by {
                    if later < n {
                        assert(earlier[later] == notices[later]);
                    }
                }
                assert(open_since(notices, at));
            }
            if exists|at: int| open_since(notices, at) {
                let at = choose|at: int| open_since(notices, at);
                assert forall|later: int| at < later < earlier.len() implies !(
                #[trigger] earlier[later] is Failed) by {
                    assert(earlier[later] == notices[later]);
                }
                assert(open_since(earlier, at));
            }
        } else {
            assert forall|at: int| !open_since(notices, at) by {
                if 0 <= at < n {
                    assert(notices[n] is Failed);
                }
            }
        }
    }
}

/// A message that could not be read leaves no trace, wherever in the stream it came:
/// the stream goes on as if it had not come.
pub proof fn unreadable_message_leaves_no_trace(before: Seq<SseNotice>, after: Seq<SseNotice>)
    ensures
        after_notices(before.push(SseNotice::Message { event: None }) + after) == after_notices(
            before + after,
        ),
    decreases after.len(),
{
    let unreadable = before.push(SseNotice::Message { event: None });
    if after.len() == 0 {
        assert(unreadable + after =~= unreadable);
        assert(before + after =~= before);
        assert(unreadable.drop_last() =~= before);
    } else {
        unreadable_message_leaves_no_trace(before, after.drop_last());
        assert((unreadable + after).drop_last() =~= unreadable + after.drop_last());
        assert((before + after).drop_last() =~= before + after.drop_last());
    }
}

/// Every page that lists what a Roon core offers follows the core: its coming and
/// going refreshes the zones, the discovery status and the controllers.
pub proof fn roon_link_reaches_every_list(e: SseEvent)
    requires
        is_roon_link(e),
    ensures
        refreshes_zones(e),
        refreshes_discovery(e),
        refreshes_knobs(e),
{
}

/// The zone list follows every event that refreshes the controllers or the LMS
/// players.
pub proof fn zones_follow_controllers_and_players(e: SseEvent)
    requires
        refreshes_knobs(e) || refreshes_lms(e),
    ensures
        refreshes_zones(e),
{
}

/// HQPlayer's own events concern no other list.
pub proof fn hqp_events_stand_apart(e: SseEvent)
    requires
        refreshes_hqp(e),
    ensures
        !refreshes_zones(e),
        !refreshes_lms(e),
        !refreshes_discovery(e),
        !refreshes_knobs(e),
{
}

/// An event that names a zone refreshes the zones.
pub proof fn zone_events_refresh_zones(e: SseEvent)
    requires
        e.zone() is Some,
    ensures
        refreshes_zones(e),
{
}

/// What each list follows, event by event.
pub proof fn lists_follow_their_events(e: SseEvent)
    ensures
        refreshes_zones(e) <==> e is ZoneUpdated || e is ZoneRemoved || e is NowPlayingChanged
            || e is SeekPositionChanged || e is VolumeChanged || e is RoonConnected
            || e is RoonDisconnected || e is LmsConnected || e is LmsDisconnected
            || e is LmsPlayerStateChanged,
        is_roon_link(e) <==> e is RoonConnected || e is RoonDisconnected,
        refreshes_hqp(e) <==> e is HqpConnected || e is HqpDisconnected || e is HqpStateChanged
            || e is HqpPipelineChanged,
        refreshes_lms(e) <==> e is LmsConnected || e is LmsDisconnected
            || e is LmsPlayerStateChanged,
        refreshes_discovery(e) <==> e is RoonConnected || e is RoonDisconnected
            || e is OpenHomeDeviceFound || e is OpenHomeDeviceLost || e is UpnpRendererFound
            || e is UpnpRendererLost,
        refreshes_knobs(e) <==> e is ZoneUpdated || e is ZoneRemoved || e is RoonConnected
            || e is RoonDisconnected || e is LmsConnected || e is LmsDisconnected,
{
}

/// An event names a zone just where its payload is about one, and then that zone.
pub proof fn events_name_the_zone_they_are_about(e: SseEvent)
    ensures
        e.zone() is Some <==> e is ZoneUpdated || e is ZoneRemoved || e is NowPlayingChanged
            || e is SeekPositionChanged,
        forall|payload: ZonePayload|
            e == (SseEvent::ZoneUpdated { payload }) || e == (SseEvent::ZoneRemoved { payload })
                || e == (SseEvent::NowPlayingChanged { payload }) || e == (
            SseEvent::SeekPositionChanged { payload }) ==> e.zone() == Some(
                #[trigger] payload.zone_id@,
            ),
{
}

/// What one notice does: opening and failing change the connection alone, an event that
/// could be read everything else, and any other message nothing.
pub proof fn notices_change_what_they_are_about(state: SseContext, event: SseEvent)
    ensures
        before_stream().last_event is None && !before_stream().connected
            && before_stream().event_count == 0,
        after_notice(state, SseNotice::Opened).connected,
        !after_notice(state, SseNotice::Failed).connected,
        after_notice(state, SseNotice::Opened).last_event == state.last_event,
        after_notice(state, SseNotice::Failed).last_event == state.last_event,
        after_notice(state, SseNotice::Opened).event_count == state.event_count,
        after_notice(state, SseNotice::Failed).event_count == state.event_count,
        after_notice(state, SseNotice::Message { event: None }) == state,
        after_notice(state, SseNotice::Message { event: Some(event) }).last_event == Some(event),
        after_notice(state, SseNotice::Message { event: Some(event) }).connected
            == state.connected,
        state.event_count < u64::MAX ==> after_notice(
            state,
            SseNotice::Message { event: Some(event) },
        ).event_count == state.event_count + 1,
{
}

} // verus!
