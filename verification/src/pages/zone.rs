//! Zone page: one zone, closely.

use crate::api::{find_by_id, zone_by_id, Zone};
use crate::now_playing::{has_track, NowPlaying};
use crate::pages::hqplayer::DspChange;
use crate::sse::{refreshes_hqp, refreshes_zones, SseContext};
use crate::text::{
    cat2, cat3, contains, decimal_int, lowercase, occurs_in, opt_is, opt_text, same, signed_number,
    to_lowercase,
};
use vstd::prelude::*;

verus! {

/// Where browser storage keeps the selected zone.
pub const SELECTED_ZONE_STORAGE_KEY: &'static str = "hifi-zone";

/// The zone that a value of the zone list selects; the empty value selects none.
/// Only a selected zone is kept in storage.
pub fn selected_zone(value: String) -> (r: Option<String>)
    ensures
        r == (if value@.len() == 0 {
            None
        } else {
            Some(value)
        }),
{
    crate::text::non_empty(value)
}

/// What the page does about HQPlayer when the selection or the zones change.
#[derive(Clone, Copy, Debug, PartialEq, Eq, Structural)]
pub enum HqpFollow {
    /// Fetch its state.
    Fetch,
    /// Forget its state.
    Clear,
    /// Leave its state: the selected zone is not known.
    Keep,
}

/// What the page does about HQPlayer: it follows the selected zone.
pub fn hqp_follow(zones: &[Zone], selected: &Option<String>) -> (r: HqpFollow)
    ensures
        r == (match *selected {
            Some(id) => match zone_by_id(zones@, id@) {
                Some(zone) => if zone.hqp() {
                    HqpFollow::Fetch
                } else {
                    HqpFollow::Clear
                },
                None => HqpFollow::Keep,
            },
            None => HqpFollow::Clear,
        }),
{
    match selected {
        Some(id) => match find_by_id(zones, id.as_str()) {
            Some(zone) => if zone.has_hqp() {
                HqpFollow::Fetch
            } else {
                HqpFollow::Clear
            },
            None => HqpFollow::Keep,
        },
        None => HqpFollow::Clear,
    }
}

/// What an event makes the page fetch.
#[derive(Clone, Copy, Debug, PartialEq, Eq, Structural)]
pub struct ZoneRefresh {
    pub zones: bool,
    pub now_playing: bool,
    pub pipeline: bool,
}

/// What the last event makes the page fetch: what plays only while a zone is
/// selected, the pipeline only while one is shown.
pub fn zone_refresh(sse: &SseContext, selected: bool, has_pipeline: bool) -> (r: ZoneRefresh)
    ensures
        r.zones == (sse.last_event is Some && refreshes_zones(sse.last_event->0)),
        r.now_playing == (r.zones && selected),
        r.pipeline == (sse.last_event is Some && refreshes_hqp(sse.last_event->0) && has_pipeline),
{
    let zones = sse.should_refresh_zones();
    ZoneRefresh {
        zones,
        now_playing: zones && selected,
        pipeline: sse.should_refresh_hqp() && has_pipeline,
    }
}

/// What the page reads again after a change of HQPlayer's processing.
#[derive(Clone, Copy, Debug, PartialEq, Eq, Structural)]
pub enum DspRead {
    Pipeline,
    Matrix,
}

/// What the page reads again once a change was accepted: the matrix where it changed,
/// else the pipeline.
pub fn zone_read_after(change: DspChange) -> (r: DspRead)
    ensures
        r == (match change {
            DspChange::Matrix => DspRead::Matrix,
            DspChange::Pipeline | DspChange::Profile => DspRead::Pipeline,
        }),
{
    match change {
        DspChange::Matrix => DspRead::Matrix,
        DspChange::Pipeline | DspChange::Profile => DspRead::Pipeline,
    }
}

/// The text of a zone in the zone list: its name, whether it runs through HQPlayer,
/// and its source.
pub fn zone_option_text(zone: &Zone) -> (r: String)
    ensures
        r@ == zone.zone_name@ + (if zone.hqp() {
            " [HQP]"@
        } else {
            ""@
        }) + (match zone.source {
            Some(source) => " ("@ + source@ + ")"@,
            None => ""@,
        }),
{
    let mark = if zone.has_hqp() {
        " [HQP]"
    } else {
        ""
    };
    let source = match &zone.source {
        Some(source) => cat3(" (", source.as_str(), ")"),
        None => "".to_owned(),
    };
    cat3(zone.zone_name.as_str(), mark, source.as_str())
}

/// The lines of the zone display.
#[derive(Debug)]
pub struct ZoneLines {
    pub track: String,
    pub artist: String,
    pub album: String,
}

/// The text, or nothing.
pub open spec fn text_or_empty(text: Option<String>) -> Seq<char> {
    match text {
        Some(text) => text@,
        None => Seq::empty(),
    }
}

fn or_empty(text: &Option<String>) -> (r: String)
    ensures
        r@ == text_or_empty(*text),
{
    match text {
        Some(text) => text.clone(),
        None => String::new(),
    }
}

/// Track, artist and album; all empty where nothing is played.
pub fn zone_lines(now_playing: Option<&NowPlaying>) -> (r: ZoneLines)
    ensures
        ({
            let playing = match now_playing {
                Some(playing) => Some(*playing),
                None => None,
            };
            if has_track(playing) {
                &&& r.track@ == playing->0.line1->0@
                &&& r.artist@ == text_or_empty(playing->0.line2)
                &&& r.album@ == text_or_empty(playing->0.line3)
            } else {
                r.track@.len() == 0 && r.artist@.len() == 0 && r.album@.len() == 0
            }
        }),
{
    if let Some(playing) = now_playing {
        if let Some(title) = &playing.line1 {
            if !same(title.as_str(), "Idle") {
                return ZoneLines {
                    track: title.clone(),
                    artist: or_empty(&playing.line2),
                    album: or_empty(&playing.line3),
                };
            }
        }
    }
    ZoneLines { track: String::new(), artist: String::new(), album: String::new() }
}

/// How the volume is shown. An output without a volume has no controls; one that
/// only steps has buttons and no value.
#[derive(Debug)]
pub struct VolumeDisplay {
    pub shows_controls: bool,
    pub incremental: bool,
    pub text: String,
}

/// The volume in words.
pub open spec fn volume_text(volume_type: Option<Seq<char>>, level: Option<int>) -> Seq<char> {
    if volume_type == Some("incremental"@) {
        Seq::empty()
    } else if level is None {
        "—"@
    } else if volume_type == Some("db"@) {
        decimal_int(level->0) + " dB"@
    } else {
        decimal_int(level->0)
    }
}

/// A level in decibels is told with its unit, any other as a number, a missing one with a
/// dash, and one that only steps not at all.
pub proof fn volumes_are_told_by_their_kind(kind: Seq<char>, level: int)
    ensures
        kind == "db"@ ==> volume_text(Some(kind), Some(level)) == decimal_int(level) + " dB"@,
        kind == "incremental"@ ==> volume_text(Some(kind), Some(level)).len() == 0 && volume_text(
            Some(kind),
            None,
        ).len() == 0,
        kind != "db"@ && kind != "incremental"@ ==> volume_text(Some(kind), Some(level))
            == decimal_int(level),
        kind != "incremental"@ ==> volume_text(Some(kind), None) == "—"@,
        volume_text(None, Some(level)) == decimal_int(level),
        volume_text(None, None) == "—"@,
{
    reveal_strlit("db");
    reveal_strlit("incremental");
    assert("db"@.len() != "incremental"@.len());
}

/// How the volume is shown. `level` is the volume rounded to a whole number.
pub fn volume_display(volume_type: &Option<String>, level: Option<i32>) -> (r: VolumeDisplay)
    ensures
        r.incremental == (opt_text(*volume_type) == Some("incremental"@)),
        r.shows_controls == (level is Some || r.incremental),
        r.text@ == volume_text(
            opt_text(*volume_type),
            match level {
                Some(level) => Some(level as int),
                None => None,
            },
        ),
        r.text@ == (if r.incremental {
            Seq::empty()
        } else if level is None {
            "—"@
        } else {
            decimal_int(level->0 as int) + (if opt_text(*volume_type) == Some("db"@) {
                " dB"@
            } else {
                ""@
            })
        }),
{
    proof {
        reveal_strlit("");
        if level is Some {
            assert(decimal_int(level->0 as int) + ""@ =~= decimal_int(level->0 as int));
        }
    }
    let incremental = opt_is(volume_type, "incremental");
    let text = if incremental {
        String::new()
    } else {
        match level {
            Some(level) => {
                let unit = if opt_is(volume_type, "db") {
                    " dB"
                } else {
                    ""
                };
                cat2(signed_number(level as i64).as_str(), unit)
            },
            None => "—".to_owned(),
        }
    };
    VolumeDisplay { shows_controls: level.is_some() || incremental, incremental, text }
}

/// The name of the shaper, from the mode's label in lower case.
pub open spec fn lowered_shaper_name(lower: Seq<char>) -> Seq<char> {
    if occurs_in(lower, "sdm"@) || occurs_in(lower, "dsd"@) {
        "Modulator"@
    } else {
        "Dither"@
    }
}

/// The name of the shaper, from the mode's label in lower case.
pub fn shaper_name_of_lowered(lower: &str) -> (r: &'static str)
    ensures
        r@ == lowered_shaper_name(lower@),
{
    if contains(lower, "sdm") || contains(lower, "dsd") {
        "Modulator"
    } else {
        "Dither"
    }
}

/// The name of the shaper: what it does depends on the mode.
pub fn shaper_name(mode_label: Option<&str>) -> (r: &'static str)
    ensures
        r@ == (match mode_label {
            Some(label) => lowered_shaper_name(lowercase(label@)),
            None => "Shaper"@,
        }),
{
    match mode_label {
        Some(label) => {
            let lower = to_lowercase(label);
            shaper_name_of_lowered(lower.as_str())
        },
        None => "Shaper",
    }
}

/// A mode of bits is modulated, any other dithered: the label tells which, wherever in it
/// the mode is named.
pub proof fn bit_modes_are_modulated(a: Seq<char>, b: Seq<char>, label: Seq<char>)
    ensures
        lowered_shaper_name(a + "sdm"@ + b) == "Modulator"@,
        lowered_shaper_name(a + "dsd"@ + b) == "Modulator"@,
        !occurs_in(label, "sdm"@) && !occurs_in(label, "dsd"@) ==> lowered_shaper_name(label)
            == "Dither"@,
{
    crate::text::occurrence_splits_the_text(a + "sdm"@ + b, "sdm"@);
    crate::text::occurrence_splits_the_text(a + "dsd"@ + b, "dsd"@);
}

/// A line that is there is shown as it is, a missing one as nothing.
pub proof fn missing_lines_are_empty(text: Option<String>)
    ensures
        text is Some ==> text_or_empty(text) == text->0@,
        text is None ==> text_or_empty(text).len() == 0,
{
}

} // verus!
