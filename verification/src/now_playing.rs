//! What each zone plays, as the pages keep it.

use crate::sse::SseEvent;
use crate::text::{cat4, contains, occurs_in, same};
use crate::url::{based, href};
use vstd::hash_map::StringHashMap;
use vstd::prelude::*;

verus! {

/// What a zone plays.
#[derive(Clone, Debug)]
pub struct NowPlaying {
    pub is_playing: bool,
    pub line1: Option<String>,
    pub line2: Option<String>,
    pub line3: Option<String>,
    pub image_url: Option<String>,
    /// Changes with the artwork, so that a browser does not show a stale one.
    pub image_key: Option<String>,
    pub seek_position: Option<i64>,
    pub length: Option<u32>,
    pub is_previous_allowed: bool,
    pub is_next_allowed: bool,
    pub volume_type: Option<String>,
}

impl Default for NowPlaying {
    fn default() -> (r: Self)
        ensures
            !r.is_playing,
            r.line1 is None && r.line2 is None && r.line3 is None,
            r.image_url is None && r.image_key is None,
            r.seek_position is None && r.length is None,
            !r.is_previous_allowed && !r.is_next_allowed,
            r.volume_type is None,
    {
        NowPlaying {
            is_playing: false,
            line1: None,
            line2: None,
            line3: None,
            image_url: None,
            image_key: None,
            seek_position: None,
            length: None,
            is_previous_allowed: false,
            is_next_allowed: false,
            volume_type: None,
        }
    }
}

/// What each zone plays, by zone id.
pub struct NowPlayingMap {
    pub entries: StringHashMap<NowPlaying>,
}

impl View for NowPlayingMap {
    type V = Map<Seq<char>, NowPlaying>;

    open spec fn view(&self) -> Map<Seq<char>, NowPlaying> {
        self.entries@
    }
}

impl NowPlayingMap {
    pub fn new() -> (r: Self)
        ensures
            r@ == Map::<Seq<char>, NowPlaying>::empty(),
    {
        NowPlayingMap { entries: StringHashMap::new() }
    }

    /// A zone's state arrived.
    pub fn insert(&mut self, zone_id: String, now_playing: NowPlaying)
        ensures
            final(self)@ == old(self)@.insert(zone_id@, now_playing),
    {
        self.entries.insert(zone_id, now_playing);
    }

    /// Whether a zone's state is known.
    pub fn contains_key(&self, zone_id: &str) -> (r: bool)
        ensures
            r == self@.contains_key(zone_id@),
    {
        self.entries.contains_key(zone_id)
    }

    /// What a zone plays.
    pub fn get<'a>(&'a self, zone_id: &str) -> (r: Option<&'a NowPlaying>)
        ensures
            match r {
                Some(now_playing) => self@.contains_key(zone_id@) && *now_playing == self@[zone_id@],
                None => !self@.contains_key(zone_id@),
            },
    {
        self.entries.get(zone_id)
    }

    /// Many zones' states arrived: they replace what was known of those zones and
    /// leave the others.
    pub fn merge(&mut self, newer: NowPlayingMap)
        ensures
            final(self)@ == old(self)@.union_prefer_right(newer@),
    {
        self.entries.union_prefer_right(newer.entries);
    }

    /// A zone is known to be playing.
    pub open spec fn playing(self, zone_id: Seq<char>) -> bool {
        self@.contains_key(zone_id) && self@[zone_id].is_playing
    }

    /// Whether a zone is known to be playing.
    pub fn is_playing(&self, zone_id: &str) -> (r: bool)
        ensures
            r == self.playing(zone_id@),
    {
        match self.get(zone_id) {
            Some(now_playing) => now_playing.is_playing,
            None => false,
        }
    }
}

/// Which zones' states an event makes a page fetch.
pub enum NowPlayingFetch {
    Nothing,
    /// The zone that the event names.
    Zone(String),
    /// Every zone: the event names an output or a player, not a zone.
    Every,
}

/// What an event makes a page fetch: the zone that it names where a track or a
/// zone changed, every zone where a volume or a player changed. A seek changes
/// nothing that is shown.
pub fn now_playing_fetch(event: Option<&SseEvent>) -> (r: NowPlayingFetch)
    ensures
        match r {
            NowPlayingFetch::Zone(zone_id) => event is Some && (event->0 is NowPlayingChanged
                || event->0 is ZoneUpdated) && event->0.zone() == Some(zone_id@),
            NowPlayingFetch::Every => event is Some && (event->0 is VolumeChanged
                || event->0 is LmsPlayerStateChanged),
            NowPlayingFetch::Nothing => event is None || !(event->0 is NowPlayingChanged
                || event->0 is ZoneUpdated || event->0 is VolumeChanged
                || event->0 is LmsPlayerStateChanged),
        },
{
    match event {
        Some(SseEvent::NowPlayingChanged { payload }) => NowPlayingFetch::Zone(
            payload.zone_id.clone(),
        ),
        Some(SseEvent::ZoneUpdated { payload }) => NowPlayingFetch::Zone(payload.zone_id.clone()),
        Some(SseEvent::VolumeChanged { .. } | SseEvent::LmsPlayerStateChanged { .. }) => {
            NowPlayingFetch::Every
        },
        _ => NowPlayingFetch::Nothing,
    }
}

// ── What a card shows ───────────────────────────────────────────────────────

/// The address of the artwork. Its key is added as a parameter, so that a browser
/// fetches it again when the artwork changes.
pub open spec fn art_address(now_playing: Option<NowPlaying>) -> Seq<char> {
    let base = if now_playing is Some && now_playing->0.image_url is Some {
        now_playing->0.image_url->0@
    } else {
        Seq::empty()
    };
    if now_playing is Some && now_playing->0.image_key is Some {
        base + (if occurs_in(base, "?"@) {
            "&"@
        } else {
            "?"@
        }) + "k="@ + now_playing->0.image_key->0@
    } else {
        base
    }
}

/// The address of the artwork, below the base path that the bridge is served under;
/// empty where there is none.
pub fn art_url(base_path: &str, now_playing: Option<&NowPlaying>) -> (r: String)
    ensures
        r@ == based(
            base_path@,
            art_address(
                match now_playing {
                    Some(playing) => Some(*playing),
                    None => None,
                },
            ),
        ),
{
    href(base_path, keyed_art_url(now_playing).as_str())
}

fn keyed_art_url(now_playing: Option<&NowPlaying>) -> (r: String)
    ensures
        r@ == art_address(
            match now_playing {
                Some(playing) => Some(*playing),
                None => None,
            },
        ),
{
    let playing = match now_playing {
        Some(playing) => playing,
        None => {
            return String::new();
        },
    };
    let base = match &playing.image_url {
        Some(url) => url.clone(),
        None => String::new(),
    };
    match &playing.image_key {
        Some(key) => {
            let separator = if contains(base.as_str(), "?") {
                "&"
            } else {
                "?"
            };
            cat4(base.as_str(), separator, "k=", key.as_str())
        },
        None => base,
    }
}

/// The track and the artist that a card shows.
#[derive(Debug)]
pub struct TrackLines {
    pub track: String,
    pub artist: String,
}

/// Something is played that has a title: an idle zone reports `Idle`.
pub open spec fn has_track(now_playing: Option<NowPlaying>) -> bool {
    now_playing is Some && now_playing->0.line1 is Some && now_playing->0.line1->0@ != "Idle"@
}

/// The track and the artist; both empty where nothing is played.
pub fn track_lines(now_playing: Option<&NowPlaying>) -> (r: TrackLines)
    ensures
        ({
            let playing = match now_playing {
                Some(playing) => Some(*playing),
                None => None,
            };
            if has_track(playing) {
                &&& r.track@ == playing->0.line1->0@
                &&& r.artist@ == (match playing->0.line2 {
                    Some(artist) => artist@,
                    None => Seq::empty(),
                })
            } else {
                r.track@.len() == 0 && r.artist@.len() == 0
            }
        }),
{
    if let Some(playing) = now_playing {
        if let Some(title) = &playing.line1 {
            if !same(title.as_str(), "Idle") {
                let artist = match &playing.line2 {
                    Some(artist) => artist.clone(),
                    None => String::new(),
                };
                return TrackLines { track: title.clone(), artist };
            }
        }
    }
    TrackLines { track: String::new(), artist: String::new() }
}

/// The label of the play button.
pub fn play_button_label(is_playing: bool) -> (r: &'static str)
    ensures
        r@ == (if is_playing {
            "Pause"@
        } else {
            "Play"@
        }),
{
    if is_playing {
        "Pause"
    } else {
        "Play"
    }
}

/// The symbol on the play button.
pub fn play_button_symbol(is_playing: bool) -> (r: &'static str)
    ensures
        r@ == (if is_playing {
            "⏸︎"@
        } else {
            "▶"@
        }),
{
    if is_playing {
        "⏸︎"
    } else {
        "▶"
    }
}

/// Artwork with a key is the artwork's address with the key as one more parameter: the
/// first where the address has none yet, else a further one.
pub proof fn artwork_keys_are_parameters(playing: NowPlaying, url: String, key: String)
    ensures
        playing.image_url == Some(url) && playing.image_key is None ==> art_address(Some(playing))
            == url@,
        playing.image_url == Some(url) && playing.image_key == Some(key) && url@.contains('?')
            ==> art_address(Some(playing)) == url@ + "&"@ + "k="@ + key@,
        playing.image_url == Some(url) && playing.image_key == Some(key) && !url@.contains('?')
            ==> art_address(Some(playing)) == url@ + "?"@ + "k="@ + key@,
        playing.image_url is None && playing.image_key is None ==> art_address(
            Some(playing),
        ).len() == 0,
        art_address(None).len() == 0,
{
    reveal_strlit("?");
    let base = url@;
    crate::text::occurrence_splits_the_text(base, "?"@);
    if base.contains('?') {
        let i = choose|i: int| 0 <= i < base.len() && base[i] == '?';
        let a = base.subrange(0, i);
        let b = base.subrange(i + 1, base.len() as int);
        assert(base =~= a + "?"@ + b);
    }
    if occurs_in(base, "?"@) {
        let (a, b) = choose|a: Seq<char>, b: Seq<char>|
            #![trigger a + "?"@ + b]
            base == a + "?"@ + b;
        assert(base[a.len() as int] == '?');
    }
}

/// A track is known just where the first line is there and is not the word for idling.
pub proof fn idle_is_no_track(playing: NowPlaying)
    ensures
        !has_track(None),
        playing.line1 is None ==> !has_track(Some(playing)),
        playing.line1 is Some ==> (has_track(Some(playing)) <==> playing.line1->0@ != "Idle"@),
{
}

/// A zone plays just where something is known of it and that says so.
pub proof fn unknown_zones_do_not_play(map: NowPlayingMap, zone_id: Seq<char>)
    ensures
        map.playing(zone_id) ==> map@.contains_key(zone_id),
        map@.contains_key(zone_id) ==> map.playing(zone_id) == map@[zone_id].is_playing,
{
}

} // verus!
