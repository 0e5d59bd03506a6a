//! Spotify page: the Connect devices, and commands that take a while to show.
//!
//! A command marks its device as pending until an event, or a look at what it
//! plays, shows that the command took effect.

use crate::api::Zone;
use crate::now_playing::{art_address, art_url, NowPlaying, NowPlayingMap};
use crate::sse::{SseEvent, VolumePayload, ZonePayload};
use crate::text::{
    cat2, decimal, has_prefix, number, opt_is, opt_same, opt_text, same, starts_with,
};
use crate::url::based;
use vstd::prelude::*;

verus! {

/// The command that is under way.
pub struct PendingCommand {
    /// The device that it went to.
    pub zone: Option<String>,
    /// It changes the track, which shows later than anything else.
    pub track_change: bool,
}

/// What an event makes the page do.
pub enum SpotifyReaction {
    Nothing,
    /// Fetch the devices again.
    RestartZones,
    /// Fetch what a device plays.
    Fetch(String),
}

/// The device that an event tells news of: the zone of an update or a track change,
/// or the Spotify output whose volume changed.
pub open spec fn news_of(event: SseEvent) -> Option<Seq<char>> {
    match event {
        SseEvent::ZoneUpdated { payload } => Some(payload.zone_id@),
        SseEvent::NowPlayingChanged { payload } => Some(payload.zone_id@),
        SseEvent::VolumeChanged { payload } => if has_prefix(payload.output_id@, "spotify:"@) {
            Some(payload.output_id@)
        } else {
            None
        },
        _ => None,
    }
}

/// The command for a device shows in an event: in a track change or a volume change
/// always, in a zone update unless the command changes the track.
pub open spec fn settles(event: SseEvent, track_change: bool) -> bool {
    event is NowPlayingChanged || event is VolumeChanged || (event is ZoneUpdated && !track_change)
}

impl PendingCommand {
    pub fn new() -> (r: Self)
        ensures
            r.zone is None,
            !r.track_change,
    {
        PendingCommand { zone: None, track_change: false }
    }

    /// The command that is under way went to this device.
    pub open spec fn waits_for(self, zone_id: Seq<char>) -> bool {
        opt_text(self.zone) == Some(zone_id)
    }

    /// Whether the command that is under way went to this device.
    pub fn is_pending(&self, zone_id: &str) -> (r: bool)
        ensures
            r == self.waits_for(zone_id@),
    {
        opt_is(&self.zone, zone_id)
    }

    fn settle(&mut self)
        ensures
            final(self).zone is None,
            !final(self).track_change,
    {
        self.zone = None;
        self.track_change = false;
    }

    /// An event came. One in which the command shows ends the wait.
    pub fn on_event(&mut self, event: Option<&SseEvent>) -> (r: SpotifyReaction)
        ensures
            match r {
                SpotifyReaction::RestartZones => event is Some && (event->0 is ZoneDiscovered
                    || event->0 is ZoneRemoved),
                SpotifyReaction::Fetch(zone_id) => event is Some && news_of(*event->0) == Some(
                    zone_id@,
                ),
                SpotifyReaction::Nothing => event is None || (news_of(*event->0) is None && !(
                event->0 is ZoneDiscovered || event->0 is ZoneRemoved)),
            },
            shows_command(
                *old(self),
                match event {
                    Some(event) => Some(*event),
                    None => None,
                },
            ) ==> final(self).zone is None && !final(self).track_change,
            !shows_command(
                *old(self),
                match event {
                    Some(event) => Some(*event),
                    None => None,
                },
            ) ==> *final(self) == *old(self),
            event is Some && news_of(*event->0) is Some && old(self).waits_for(
                news_of(*event->0)->0,
            ) && settles(*event->0, old(self).track_change) ==> final(self).zone is None
                && !final(self).track_change,
            !(event is Some && news_of(*event->0) is Some && old(self).waits_for(
                news_of(*event->0)->0,
            ) && settles(*event->0, old(self).track_change)) ==> *final(self) == *old(self),
    {
        match event {
            Some(SseEvent::ZoneDiscovered { .. } | SseEvent::ZoneRemoved { .. }) => {
                SpotifyReaction::RestartZones
            },
            Some(SseEvent::ZoneUpdated { payload }) => {
                if self.is_pending(payload.zone_id.as_str()) && !self.track_change {
                    self.zone = None;
                }
                SpotifyReaction::Fetch(payload.zone_id.clone())
            },
            Some(SseEvent::NowPlayingChanged { payload }) => {
                if self.is_pending(payload.zone_id.as_str()) {
                    self.settle();
                }
                SpotifyReaction::Fetch(payload.zone_id.clone())
            },
            Some(SseEvent::VolumeChanged { payload }) => {
                if starts_with(payload.output_id.as_str(), "spotify:") {
                    if self.is_pending(payload.output_id.as_str()) {
                        self.settle();
                    }
                    SpotifyReaction::Fetch(payload.output_id.clone())
                } else {
                    SpotifyReaction::Nothing
                }
            },
            _ => SpotifyReaction::Nothing,
        }
    }

    /// A command goes out. One that changes the track is followed up.
    pub fn send(&mut self, zone_id: &str, action: &str)
        ensures
            final(self).waits_for(zone_id@),
            final(self).track_change == changes_track(action@),
    {
        self.zone = Some(zone_id.to_owned());
        self.track_change = same(action, "next") || same(action, "previous");
    }

    /// The command was answered. Where it failed the wait is over; where it changes
    /// the track the follow-up starts.
    pub fn answered(&mut self, action: &str, failed: bool) -> (follow_up: bool)
        ensures
            follow_up == (!failed && changes_track(action@)),
            failed ==> final(self).zone is None && !final(self).track_change,
            !failed ==> *final(self) == *old(self),
    {
        if failed {
            self.settle();
            false
        } else {
            same(action, "next") || same(action, "previous")
        }
    }

    /// Takes the next step of a follow-up, by what it has just done.
    ///
    /// It starts with a pause. After a pause it looks at what the device plays, unless
    /// the command is no longer under way. A look that shows something else than
    /// before ends the wait. Any other look, a failed one too, is followed by the next
    /// pause, and after the last one the wait is given up.
    pub fn follow(&mut self, follow_up: &mut FollowUp, event: FollowEvent) -> (r: FollowAction)
        ensures
            r == follow_action(*old(self), *old(follow_up), event),
            final(follow_up).zone == old(follow_up).zone,
            final(follow_up).before == old(follow_up).before,
            final(follow_up).looks == (match event {
                FollowEvent::Started => 0,
                FollowEvent::Paused => old(follow_up).looks as int,
                FollowEvent::Looked { .. } => if r is Pause {
                    old(follow_up).looks + 1
                } else {
                    old(follow_up).looks as int
                },
            }),
            event is Looked && !(r is Pause) ==> final(self).zone is None
                && !final(self).track_change,
            !(event is Looked) || r is Pause ==> *final(self) == *old(self),
    {
        let pauses = retry_delays();
        match event {
            FollowEvent::Started => {
                follow_up.looks = 0;
                FollowAction::Pause { millis: pauses[0] }
            },
            FollowEvent::Paused => if self.is_pending(follow_up.zone.as_str()) {
                FollowAction::Look
            } else {
                FollowAction::Stop
            },
            FollowEvent::Looked { now } => {
                let changed = match now {
                    Some(now) => track_changed(&follow_up.before, now),
                    None => false,
                };
                if changed {
                    self.settle();
                    FollowAction::Stop
                } else if follow_up.looks < pauses.len() - 1 {
                    follow_up.looks = follow_up.looks + 1;
                    FollowAction::Pause { millis: pauses[follow_up.looks] }
                } else {
                    self.settle();
                    FollowAction::GiveUp
                }
            },
        }
    }
}

/// A follow-up of a command that changes the track.
pub struct FollowUp {
    /// The device that the command went to.
    pub zone: String,
    /// What the device played before the command.
    pub before: Option<TrackMark>,
    /// The looks that came to nothing.
    pub looks: usize,
}

impl FollowUp {
    /// A follow-up that has not looked yet.
    pub fn new(zone_id: &str, before: Option<TrackMark>) -> (r: Self)
        ensures
            r.zone@ == zone_id@,
            r.before == before,
            r.looks == 0,
    {
        FollowUp { zone: zone_id.to_owned(), before, looks: 0 }
    }
}

/// What a follow-up has just done.
pub enum FollowEvent<'a> {
    Started,
    Paused,
    /// It looked; what the device plays is there unless the look failed.
    Looked { now: Option<&'a NowPlaying> },
}

/// What a follow-up does next.
#[derive(Clone, Copy, Debug, PartialEq, Eq, Structural)]
pub enum FollowAction {
    /// Pause for so many milliseconds.
    Pause { millis: u64 },
    /// Look at what the device plays.
    Look,
    /// The follow-up is over: the command showed.
    Stop,
    /// The follow-up is over: the command has not shown.
    GiveUp,
}

/// The pauses of a follow-up, in milliseconds.
pub open spec fn follow_up_pauses() -> Seq<u64> {
    seq![250u64, 500u64, 750u64, 1000u64, 1500u64, 2000u64]
}

/// The next step of a follow-up.
pub open spec fn follow_action(
    pending: PendingCommand,
    follow_up: FollowUp,
    event: FollowEvent,
) -> FollowAction {
    match event {
        FollowEvent::Started => FollowAction::Pause { millis: follow_up_pauses()[0] },
        FollowEvent::Paused => if pending.waits_for(follow_up.zone@) {
            FollowAction::Look
        } else {
            FollowAction::Stop
        },
        FollowEvent::Looked { now } => if now is Some && shows_other_track(
            follow_up.before,
            *now->0,
        ) {
            FollowAction::Stop
        } else if follow_up.looks + 1 < follow_up_pauses().len() {
            FollowAction::Pause { millis: follow_up_pauses()[follow_up.looks + 1] }
        } else {
            FollowAction::GiveUp
        },
    }
}

/// An event is about the device that a command went to, and the command shows in it.
pub open spec fn shows_command(pending: PendingCommand, event: Option<SseEvent>) -> bool {
    event is Some && news_of(event->0) is Some && pending.waits_for(news_of(event->0)->0)
        && settles(event->0, pending.track_change)
}

/// What an event about one device says of a command to another: nothing. Without an event,
/// or without a command under way, there is nothing to settle; a command that changes the
/// track settles by a track change of its own device.
pub proof fn other_devices_settle_nothing(pending: PendingCommand, event: SseEvent, payload: ZonePayload)
    ensures
        !shows_command(pending, None),
        pending.zone is None ==> !shows_command(pending, Some(event)),
        pending.zone is Some && news_of(event) is Some && news_of(event)->0 != pending.zone->0@
            ==> !shows_command(pending, Some(event)),
        event == (SseEvent::NowPlayingChanged { payload }) && pending.zone is Some
            && pending.zone->0@ == payload.zone_id@ ==> shows_command(pending, Some(event)),
        event == (SseEvent::ZoneUpdated { payload }) && pending.zone is Some && pending.zone->0@
            == payload.zone_id@ ==> shows_command(pending, Some(event)) == !pending.track_change,
        event is SeekPositionChanged || event is ZoneRemoved || event is ZoneDiscovered
            ==> !shows_command(pending, Some(event)),
{
}

/// The command changes the track.
pub open spec fn changes_track(action: Seq<char>) -> bool {
    action == "next"@ || action == "previous"@
}

/// A command that changes the track is not settled by a mere update of the zone: the
/// wait goes on until the track shows.
pub proof fn track_change_outlasts_zone_updates(event: SseEvent)
    requires
        event is ZoneUpdated,
    ensures
        !settles(event, true),
        settles(event, false),
{
}

/// A follow-up ends, whatever it sees: a look that leads to another pause leaves fewer
/// of them, so that there are at most six, and where none of them shows another track
/// the sixth gives up. Each pause is longer than the one before.
pub proof fn follow_up_ends_within_six_looks(
    pending: PendingCommand,
    follow_up: FollowUp,
    now: Option<&NowPlaying>,
)
    ensures
        follow_up_pauses().len() == 6,
        ({
            let r = follow_action(pending, follow_up, FollowEvent::Looked { now });
            &&& r is Pause ==> follow_up.looks < 5
            &&& r is Pause ==> r->millis > follow_up_pauses()[follow_up.looks as int]
            &&& r is GiveUp ==> follow_up.looks >= 5
            &&& !(now is Some && shows_other_track(follow_up.before, *now->0))
                && follow_up.looks >= 5 ==> r is GiveUp
            &&& !(r is Look)
        }),
{
}

/// The pauses of the follow-up, in milliseconds: growing, six in all.
pub fn retry_delays() -> (r: Vec<u64>)
    ensures
        r@ == follow_up_pauses(),
{
    let mut delays: Vec<u64> = Vec::new();
    delays.push(250);
    delays.push(500);
    delays.push(750);
    delays.push(1000);
    delays.push(1500);
    delays.push(2000);
    assert(delays@ =~= follow_up_pauses());
    delays
}

/// What tells one track from another.
#[derive(Debug)]
pub struct TrackMark {
    pub line1: Option<String>,
    pub image_key: Option<String>,
}

/// Notes what a device plays before a command; nothing where it is not known.
pub fn track_mark(now_playing: &NowPlayingMap, zone_id: &str) -> (r: Option<TrackMark>)
    ensures
        r is Some <==> now_playing@.contains_key(zone_id@),
        r is Some ==> r->0.line1 == now_playing@[zone_id@].line1 && r->0.image_key
            == now_playing@[zone_id@].image_key,
{
    match now_playing.get(zone_id) {
        Some(playing) => Some(
            TrackMark { line1: playing.line1.clone(), image_key: playing.image_key.clone() },
        ),
        None => None,
    }
}

/// Something else plays than before. Where it was not known before, it counts as
/// something else.
pub open spec fn shows_other_track(before: Option<TrackMark>, now: NowPlaying) -> bool {
    before is None || opt_text(before->0.line1) != opt_text(now.line1) || opt_text(
        before->0.image_key,
    ) != opt_text(now.image_key)
}

/// Whether something else plays than before.
pub fn track_changed(before: &Option<TrackMark>, now: &NowPlaying) -> (r: bool)
    ensures
        r == shows_other_track(*before, *now),
{
    match before {
        Some(mark) => !opt_same(&mark.line1, &now.line1) || !opt_same(
            &mark.image_key,
            &now.image_key,
        ),
        None => true,
    }
}

/// What the page shows.
#[derive(Clone, Copy, Debug, PartialEq, Eq, Structural)]
pub enum SpotifyPanel {
    Disabled,
    Loading,
    Empty,
    Devices,
}

/// What the page shows.
pub open spec fn panel_shown(enabled: Option<bool>, fetched: bool, device_count: int) -> SpotifyPanel {
    if enabled == Some(false) {
        SpotifyPanel::Disabled
    } else if !fetched {
        SpotifyPanel::Loading
    } else if device_count == 0 {
        SpotifyPanel::Empty
    } else {
        SpotifyPanel::Devices
    }
}

/// A switched-off adapter hides whatever was fetched, and nothing counts as missing before
/// it was fetched; devices are shown just where there are some to show.
pub proof fn switched_off_hides_the_devices(enabled: Option<bool>, fetched: bool, device_count: int)
    requires
        0 <= device_count,
    ensures
        panel_shown(enabled, fetched, device_count) == SpotifyPanel::Disabled <==> enabled == Some(
            false,
        ),
        panel_shown(enabled, fetched, device_count) == SpotifyPanel::Devices <==> enabled != Some(
            false,
        ) && fetched && device_count > 0,
        panel_shown(enabled, fetched, device_count) == SpotifyPanel::Empty ==> fetched
            && device_count == 0,
        panel_shown(enabled, fetched, device_count) == SpotifyPanel::Loading ==> !fetched,
{
}

/// Picks what the page shows.
pub fn spotify_panel(enabled: Option<bool>, fetched: bool, device_count: usize) -> (r: SpotifyPanel)
    ensures
        r == panel_shown(enabled, fetched, device_count as int),
        r == (if enabled == Some(false) {
            SpotifyPanel::Disabled
        } else if !fetched {
            SpotifyPanel::Loading
        } else if device_count == 0 {
            SpotifyPanel::Empty
        } else {
            SpotifyPanel::Devices
        }),
{
    if let Some(false) = enabled {
        SpotifyPanel::Disabled
    } else if !fetched {
        SpotifyPanel::Loading
    } else if device_count == 0 {
        SpotifyPanel::Empty
    } else {
        SpotifyPanel::Devices
    }
}

/// The first device that plays.
pub fn active_device<'a>(zones: &[&'a Zone], now_playing: &NowPlayingMap) -> (r: Option<&'a Zone>)
    ensures
        match r {
            Some(zone) => crate::seqs::first_where(
                crate::seqs::derefs(zones@),
                |zone: Zone| now_playing.playing(zone.zone_id@),
            ) == Some(*zone),
            None => crate::seqs::first_where(
                crate::seqs::derefs(zones@),
                |zone: Zone| now_playing.playing(zone.zone_id@),
            ) is None,
        },
{
    let ghost all = crate::seqs::derefs(zones@);
    let ghost holds = |zone: Zone| now_playing.playing(zone.zone_id@);
    let mut i: usize = 0;
    while i < zones.len()
        invariant
            i <= zones@.len(),
            all == crate::seqs::derefs(zones@),
            holds == (|zone: Zone| now_playing.playing(zone.zone_id@)),
            forall|j: int| 0 <= j < i ==> !holds(#[trigger] all[j]),
        decreases zones@.len() - i,
    {
        assert(all[i as int] == *zones@[i as int]);
        if now_playing.is_playing(zones[i].zone_id.as_str()) {
            proof {
                crate::seqs::first_found(all, holds, i as int);
            }
            return Some(zones[i]);
        }
        i = i + 1;
    }
    proof {
        crate::seqs::first_missing(all, holds);
    }
    None
}

/// The line under the heading: how many devices there are, and which one plays.
pub fn device_summary(device_count: usize, active: Option<&str>) -> (r: String)
    ensures
        r@ == decimal(device_count as nat) + " device(s)"@ + (match active {
            Some(name) => " · Playing on "@ + name@,
            None => ""@,
        }),
{
    let playing = match active {
        Some(name) => cat2(" · Playing on ", name),
        None => "".to_owned(),
    };
    let count = number(device_count as u64);
    crate::text::cat3(count.as_str(), " device(s)", playing.as_str())
}

/// The title that a device's card shows.
pub fn card_title(now_playing: Option<&NowPlaying>) -> (r: &str)
    ensures
        r@ == (if now_playing is Some && now_playing->0.line1 is Some && now_playing->0.line1->0@
            != "Idle"@ {
            now_playing->0.line1->0@
        } else {
            "Nothing playing"@
        }),
{
    if let Some(playing) = now_playing {
        if let Some(title) = &playing.line1 {
            if !same(title.as_str(), "Idle") {
                return title.as_str();
            }
        }
    }
    "Nothing playing"
}

/// The address of the artwork on a device's card, below the base path that the bridge
/// is served under. Without artwork there is none, whatever its key.
pub fn card_art_url(base_path: &str, now_playing: Option<&NowPlaying>) -> (r: String)
    ensures
        r@ == (if now_playing is Some && now_playing->0.image_url is Some
            && now_playing->0.image_url->0@.len() > 0 {
            based(base_path@, art_address(Some(*now_playing->0)))
        } else {
            Seq::empty()
        }),
{
    if let Some(playing) = now_playing {
        if let Some(address) = &playing.image_url {
            if !address.as_str().is_empty() {
                return art_url(base_path, now_playing);
            }
        }
    }
    String::new()
}

/// An update and a track change tell news of their zone, a change of volume only of an
/// output of Spotify's, and no other event of any.
pub proof fn news_are_of_the_device_named(event: SseEvent)
    ensures
        forall|payload: ZonePayload|
            event == (SseEvent::ZoneUpdated { payload }) || event == (
            SseEvent::NowPlayingChanged { payload }) ==> news_of(event) == Some(
                #[trigger] payload.zone_id@,
            ),
        forall|payload: VolumePayload|
            event == (SseEvent::VolumeChanged { payload }) ==> news_of(event) == (if exists|
                rest: Seq<char>,
            |
                payload.output_id@ == #[trigger] ("spotify:"@ + rest) {
                Some(#[trigger] payload.output_id@)
            } else {
                None
            }),
        news_of(event) is Some ==> event is ZoneUpdated || event is NowPlayingChanged
            || event is VolumeChanged,
{
    assert forall|payload: VolumePayload|
        event == (SseEvent::VolumeChanged { payload }) implies news_of(event) == (if exists|
        rest: Seq<char>,
    |
        payload.output_id@ == #[trigger] ("spotify:"@ + rest) {
        Some(#[trigger] payload.output_id@)
    } else {
        None
    }) by {
        crate::text::prefix_splits_the_text(payload.output_id@, "spotify:"@);
    }
}

/// A track or volume change settles any command, an update only one that leaves the track
/// alone, and no other event any; only going on or back changes the track.
pub proof fn commands_settle_by_what_shows_them(event: SseEvent, track_change: bool, action: Seq<char>)
    ensures
        event is NowPlayingChanged || event is VolumeChanged ==> settles(event, track_change),
        event is ZoneUpdated ==> settles(event, track_change) == !track_change,
        !(event is NowPlayingChanged || event is VolumeChanged || event is ZoneUpdated)
            ==> !settles(event, track_change),
        changes_track(action) <==> action == "next"@ || action == "previous"@,
{
}

/// The pauses start at a quarter of a second and grow by a quarter each, four times, then
/// twice by a half.
pub proof fn pauses_grow_by_quarters_then_halves(i: int)
    requires
        0 <= i < 6,
    ensures
        follow_up_pauses().len() == 6,
        i < 4 ==> follow_up_pauses()[i] == 250 * (i + 1),
        i >= 4 ==> follow_up_pauses()[i] == follow_up_pauses()[i - 1] + 500,
{
}

/// A follow-up starts with the first pause, looks after each pause while its command is
/// the one under way, and stops once a look shows another title or another picture, or
/// anything where nothing was known.
pub proof fn follow_up_looks_for_another_track(
    pending: PendingCommand,
    follow_up: FollowUp,
    now: &NowPlaying,
)
    ensures
        follow_action(pending, follow_up, FollowEvent::Started) == (FollowAction::Pause {
            millis: 250,
        }),
        pending.zone is Some && pending.zone->0@ == follow_up.zone@ ==> follow_action(
            pending,
            follow_up,
            FollowEvent::Paused,
        ) == FollowAction::Look,
        pending.zone is None || pending.zone->0@ != follow_up.zone@ ==> follow_action(
            pending,
            follow_up,
            FollowEvent::Paused,
        ) == FollowAction::Stop,
        follow_up.before is None ==> follow_action(
            pending,
            follow_up,
            FollowEvent::Looked { now: Some(now) },
        ) == FollowAction::Stop,
        follow_up.before is Some && follow_up.before->0.line1 == now.line1
            && follow_up.before->0.image_key == now.image_key ==> follow_action(
            pending,
            follow_up,
            FollowEvent::Looked { now: Some(now) },
        ) != FollowAction::Stop,
        follow_up.before is Some && follow_up.before->0.line1 is Some && (now.line1 is None
            || now.line1->0@ != follow_up.before->0.line1->0@) ==> follow_action(
            pending,
            follow_up,
            FollowEvent::Looked { now: Some(now) },
        ) == FollowAction::Stop,
        follow_up.before is Some && follow_up.before->0.image_key is Some && (now.image_key is None
            || now.image_key->0@ != follow_up.before->0.image_key->0@) ==> follow_action(
            pending,
            follow_up,
            FollowEvent::Looked { now: Some(now) },
        ) == FollowAction::Stop,
        follow_up.before is Some && follow_up.before->0.line1 is None && now.line1 is Some
            ==> follow_action(pending, follow_up, FollowEvent::Looked { now: Some(now) })
            == FollowAction::Stop,
        follow_up.before is Some && follow_up.before->0.image_key is None && now.image_key is Some
            ==> follow_action(pending, follow_up, FollowEvent::Looked { now: Some(now) })
            == FollowAction::Stop,
        follow_up.looks < 5 ==> follow_action(
            pending,
            follow_up,
            FollowEvent::Looked { now: None },
        ) == (FollowAction::Pause { millis: follow_up_pauses()[follow_up.looks + 1] }),
        follow_up.looks >= 5 ==> follow_action(
            pending,
            follow_up,
            FollowEvent::Looked { now: None },
        ) == FollowAction::GiveUp,
{
}

} // verus!
