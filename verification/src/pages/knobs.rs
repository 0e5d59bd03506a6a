//! Knobs page: the registered controllers and their configuration.

use crate::api::{find_by_id, zone_by_id, Zone};
use crate::markup::StatusText;
use crate::text::{
    cat2, cat4, chars_of, decimal, decimal_int, has_prefix, lowercase, non_empty, number, opt_text,
    parse_i32, parse_u32, parsed_signed, parsed_unsigned, signed_number, starts_with,
    string_from, to_lowercase,
};
use crate::url::{address_with, keyed_address};
use vstd::prelude::*;

verus! {

// ── Devices ─────────────────────────────────────────────────────────────────

/// What a controller last reported.
#[derive(Debug)]
pub struct KnobStatus {
    pub battery_level: Option<i32>,
    pub battery_charging: Option<bool>,
    pub zone_id: Option<String>,
    pub ip: Option<String>,
}

/// A registered controller.
#[derive(Debug)]
pub struct KnobDevice {
    pub knob_id: String,
    pub name: Option<String>,
    pub version: Option<String>,
    pub status: Option<KnobStatus>,
}

/// A time ago in words.
pub open spec fn ago_text(secs: int) -> Seq<char> {
    if secs <= 0 {
        "just now"@
    } else if secs < 60 {
        decimal_int(secs) + "s ago"@
    } else if secs < 3600 {
        decimal_int(secs / 60) + "m ago"@
    } else if secs < 86400 {
        decimal_int(secs / 3600) + "h ago"@
    } else {
        decimal_int(secs / 86400) + "d ago"@
    }
}

/// A time ago is told in its largest whole unit, seconds, minutes, hours or days, and
/// what is left below that unit is not told.
pub proof fn times_ago_are_told_in_whole_units(n: int, rest: int)
    ensures
        n <= 0 ==> ago_text(n) == "just now"@,
        0 < n < 60 ==> ago_text(n) == decimal_int(n) + "s ago"@,
        0 < n < 60 && 0 <= rest < 60 ==> ago_text(n * 60 + rest) == decimal_int(n) + "m ago"@,
        0 < n < 24 && 0 <= rest < 3600 ==> ago_text(n * 3600 + rest) == decimal_int(n) + "h ago"@,
        0 < n && 0 <= rest < 86400 ==> ago_text(n * 86400 + rest) == decimal_int(n) + "d ago"@,
{
}

/// How long ago a controller was seen, in words, by the timestamp and the seconds
/// since then. A clock that runs ahead counts as just now. Where there is no clock to
/// measure the seconds with, a timestamp counts as recent.
pub fn format_ago(timestamp: Option<&str>, elapsed_secs: Option<i64>) -> (r: String)
    ensures
        timestamp is Some && elapsed_secs is Some ==> r@ == ago_text(elapsed_secs->0 as int),
        r@ == (match (timestamp, elapsed_secs) {
            (None, _) => "never"@,
            (Some(_), None) => "recently"@,
            (Some(_), Some(secs)) => if secs <= 0 {
                "just now"@
            } else if secs < 60 {
                decimal_int(secs as int) + "s ago"@
            } else if secs < 3600 {
                decimal_int(secs as int / 60) + "m ago"@
            } else if secs < 86400 {
                decimal_int(secs as int / 3600) + "h ago"@
            } else {
                decimal_int(secs as int / 86400) + "d ago"@
            },
        }),
{
    if timestamp.is_none() {
        return "never".to_owned();
    }
    match elapsed_secs {
        None => "recently".to_owned(),
        Some(secs) => {
            if secs <= 0 {
                return "just now".to_owned();
            }
            let secs: u64 = secs as u64;
            if secs < 60 {
                cat2(number(secs).as_str(), "s ago")
            } else if secs < 3600 {
                cat2(number(secs / 60).as_str(), "m ago")
            } else if secs < 86400 {
                cat2(number(secs / 3600).as_str(), "h ago")
            } else {
                cat2(number(secs / 86400).as_str(), "d ago")
            }
        },
    }
}

/// The characters of an id that take part in a name.
pub open spec fn name_chars(id: Seq<char>) -> Seq<char> {
    id.filter(|c: char| c != '-' && c != ':')
}

/// The last `n` elements, or all where there are fewer.
pub open spec fn last_n(s: Seq<char>, n: int) -> Seq<char> {
    if s.len() <= n {
        s
    } else {
        s.subrange(s.len() - n, s.len() as int)
    }
}

/// The end of a controller's id, in lower case, that stands in for a name.
pub open spec fn id_suffix(id: Seq<char>) -> Seq<char> {
    lowercase(last_n(name_chars(id), 6))
}

/// The name that an id's suffix gives.
pub open spec fn suffix_name(suffix: Seq<char>) -> Seq<char> {
    if suffix.len() == 0 {
        "unnamed"@
    } else {
        "roon-knob-"@ + suffix
    }
}

proof fn plain_characters_stay(s: Seq<char>)
    requires
        forall|i: int| 0 <= i < s.len() ==> #[trigger] s[i] != '-' && s[i] != ':',
    ensures
        name_chars(s) == s,
    decreases s.len(),
{
    reveal(Seq::filter);
    if s.len() > 0 {
        plain_characters_stay(s.drop_last());
        assert(s.drop_last().push(s.last()) =~= s);
    }
}

/// An id that ends in six plain characters has these for its suffix, in lower case, whatever
/// stands before them.
pub proof fn suffixes_take_six_characters(front: Seq<char>, end: Seq<char>)
    requires
        end.len() == 6,
        forall|i: int| 0 <= i < 6 ==> #[trigger] end[i] != '-' && end[i] != ':',
    ensures
        id_suffix(front + end) == lowercase(end),
{
    let keep = |c: char| c != '-' && c != ':';
    Seq::filter_distributes_over_add(front, end, keep);
    plain_characters_stay(end);
    let kept = name_chars(front + end);
    assert(last_n(kept, 6) =~= end);
}

/// The end of an id keeps the id's last characters, at most as many as asked for, and
/// all where there are no more; separators do not count and are not kept.
pub proof fn id_ends_keep_the_last_characters(id: Seq<char>, n: int, c: char)
    requires
        n >= 0,
    ensures
        exists|front: Seq<char>| name_chars(id) == #[trigger] (front + last_n(name_chars(id), n)),
        last_n(name_chars(id), n).len() == (if name_chars(id).len() < n {
            name_chars(id).len() as int
        } else {
            n
        }),
        name_chars(id).to_multiset().count(c) == (if c == '-' || c == ':' {
            0
        } else {
            id.to_multiset().count(c)
        }),
{
    let kept = name_chars(id);
    let front = if kept.len() <= n {
        Seq::empty()
    } else {
        kept.subrange(0, kept.len() - n)
    };
    assert(kept =~= front + last_n(kept, n));
    crate::seqs::filter_counts(id, |c: char| c != '-' && c != ':', c);
}

/// A suffix stands behind the controllers' common name, so that different suffixes give
/// different names; without one the controller is unnamed.
pub proof fn suffixes_tell_names_apart(a: Seq<char>, b: Seq<char>)
    ensures
        a.len() > 0 ==> suffix_name(a) == "roon-knob-"@ + a,
        a.len() == 0 ==> suffix_name(a) == "unnamed"@,
        suffix_name(a) == suffix_name(b) ==> a == b,
{
    reveal_strlit("unnamed");
    reveal_strlit("roon-knob-");
    let common = "roon-knob-"@;
    if a.len() > 0 && b.len() > 0 && suffix_name(a) == suffix_name(b) {
        assert((common + a).subrange(10, (common + a).len() as int) =~= a);
        assert((common + b).subrange(10, (common + b).len() as int) =~= b);
    } else if a.len() == 0 && b.len() == 0 {
        assert(a =~= b);
    } else if suffix_name(a) == suffix_name(b) {
        assert(suffix_name(a)[0] != suffix_name(b)[0]);
    }
}

/// The name that an id's suffix gives.
pub fn fallback_name(suffix: &str) -> (r: String)
    ensures
        r@ == suffix_name(suffix@),
{
    if suffix.is_empty() {
        "unnamed".to_owned()
    } else {
        cat2("roon-knob-", suffix)
    }
}

/// The last six characters of an id, without its separators.
pub fn id_tail(id: &str) -> (r: String)
    ensures
        r@ == last_n(name_chars(id@), 6),
{
    let ghost keep = |c: char| c != '-' && c != ':';
    let v = chars_of(id);
    let mut kept: Vec<char> = Vec::new();
    let mut i: usize = 0;
    proof {
        crate::seqs::filter_empty(id@, keep);
    }
    while i < v.len()
        invariant
            i <= v@.len(),
            v@ == id@,
            keep == (|c: char| c != '-' && c != ':'),
            kept@ == id@.take(i as int).filter(keep),
        decreases v@.len() - i,
    {
        proof {
            crate::seqs::filter_step(id@, i as int, keep);
        }
        let c: char = v[i];
        if c != '-' && c != ':' {
            kept.push(c);
        }
        i = i + 1;
    }
    assert(id@.take(i as int) =~= id@);
    let from: usize = if kept.len() <= 6 {
        0
    } else {
        kept.len() - 6
    };
    let tail = string_from(&kept, from);
    assert(kept@.subrange(0, kept@.len() as int) =~= kept@);
    tail
}

/// The name to show for a controller: its own, or one made from its id.
pub fn knob_display_name(knob: &KnobDevice) -> (r: String)
    ensures
        r@ == (if knob.name is Some && knob.name->0@.len() > 0 {
            knob.name->0@
        } else {
            suffix_name(id_suffix(knob.knob_id@))
        }),
{
    if let Some(name) = &knob.name {
        if !name.as_str().is_empty() {
            return name.clone();
        }
    }
    let tail = id_tail(knob.knob_id.as_str());
    let suffix = to_lowercase(tail.as_str());
    fallback_name(suffix.as_str())
}

/// What a controller's row shows; a dash stands for what is not known.
pub struct KnobRowText {
    pub name: String,
    pub version: String,
    pub ip: String,
    pub zone: String,
    pub battery: String,
}

/// The battery level in words, with a bolt while it charges.
pub open spec fn battery_text(status: Option<KnobStatus>) -> Seq<char> {
    if status is Some && status->0.battery_level is Some {
        decimal_int(status->0.battery_level->0 as int) + (if status->0.battery_charging == Some(true) {
            "% ⚡"@
        } else {
            "%"@
        })
    } else {
        "—"@
    }
}

/// The name of the zone that a controller points at.
pub open spec fn knob_zone_text(status: Option<KnobStatus>, zones: Seq<Zone>) -> Seq<char> {
    if status is Some && status->0.zone_id is Some {
        match zone_by_id(zones, status->0.zone_id->0@) {
            Some(zone) => zone.zone_name@,
            None => "—"@,
        }
    } else {
        "—"@
    }
}

/// The level is told in percent where it is known, with a bolt behind it just while the
/// controller charges.
pub proof fn bolt_marks_a_charging_battery(status: KnobStatus)
    ensures
        status.battery_level is Some && status.battery_charging == Some(true) ==> battery_text(
            Some(status),
        ) == decimal_int(status.battery_level->0 as int) + "% ⚡"@,
        status.battery_level is Some && status.battery_charging != Some(true) ==> battery_text(
            Some(status),
        ) == decimal_int(status.battery_level->0 as int) + "%"@,
        status.battery_level is None ==> battery_text(Some(status)) == "—"@,
        battery_text(None) == "—"@,
{
}

/// A controller shows the name of the zone that it points at, and a dash where it points
/// at none or at one that is not in the list.
pub proof fn controllers_show_their_zone(status: KnobStatus, zones: Seq<Zone>, k: int)
    ensures
        0 <= k < zones.len() && status.zone_id is Some && zones[k].zone_id@ == status.zone_id->0@
            && (forall|j: int| 0 <= j < k ==> (#[trigger] zones[j]).zone_id@ != zones[k].zone_id@)
            ==> knob_zone_text(Some(status), zones) == zones[k].zone_name@,
        status.zone_id is None || (forall|j: int|
            0 <= j < zones.len() ==> (#[trigger] zones[j]).zone_id@ != status.zone_id->0@)
            ==> knob_zone_text(Some(status), zones) == "—"@,
        knob_zone_text(None, zones) == "—"@,
{
    if status.zone_id is Some {
        crate::api::zones_are_found_by_their_id(zones, status.zone_id->0@, k);
    }
}

fn or_dash(text: &Option<String>) -> (r: String)
    ensures
        r@ == (match *text {
            Some(text) => text@,
            None => "—"@,
        }),
{
    match text {
        Some(text) => text.clone(),
        None => "—".to_owned(),
    }
}

/// What a controller's row shows.
pub fn knob_row(knob: &KnobDevice, zones: &[Zone]) -> (r: KnobRowText)
    ensures
        r.name@ == (if knob.name is Some && knob.name->0@.len() > 0 {
            knob.name->0@
        } else {
            suffix_name(id_suffix(knob.knob_id@))
        }),
        r.version@ == (match knob.version {
            Some(version) => version@,
            None => "—"@,
        }),
        r.ip@ == (if knob.status is Some && knob.status->0.ip is Some {
            knob.status->0.ip->0@
        } else {
            "—"@
        }),
        r.zone@ == knob_zone_text(knob.status, zones@),
        r.battery@ == battery_text(knob.status),
{
    let dash = "—";
    let ip = match &knob.status {
        Some(status) => or_dash(&status.ip),
        None => dash.to_owned(),
    };
    let zone = match &knob.status {
        Some(status) => match &status.zone_id {
            Some(id) => match find_by_id(zones, id.as_str()) {
                Some(zone) => zone.zone_name.clone(),
                None => dash.to_owned(),
            },
            None => dash.to_owned(),
        },
        None => dash.to_owned(),
    };
    let battery = match &knob.status {
        Some(status) => match status.battery_level {
            Some(level) => {
                let charging = match status.battery_charging {
                    Some(charging) => charging,
                    None => false,
                };
                let unit = if charging {
                    "% ⚡"
                } else {
                    "%"
                };
                cat2(signed_number(level as i64).as_str(), unit)
            },
            None => dash.to_owned(),
        },
        None => dash.to_owned(),
    };
    KnobRowText { name: knob_display_name(knob), version: or_dash(&knob.version), ip, zone, battery }
}

// ── Power modes ─────────────────────────────────────────────────────────────

/// When a power mode is entered.
#[derive(Clone, Copy, Debug, PartialEq, Eq, Structural)]
pub struct PowerModeConfig {
    pub enabled: bool,
    pub timeout_sec: u32,
}

impl PowerModeConfig {
    /// The mode that a typed timeout stands for; zero skips it. Text that is no
    /// number changes nothing.
    pub fn typed(text: &str) -> (r: Option<Self>)
        ensures
            match r {
                Some(mode) => parsed_unsigned(text@, 4294967295) == Some(mode.timeout_sec as int)
                    && mode.enabled == (mode.timeout_sec > 0),
                None => parsed_unsigned(text@, 4294967295) is None,
            },
    {
        match parse_u32(text) {
            Some(v) => Some(PowerModeConfig { enabled: v > 0, timeout_sec: v }),
            None => None,
        }
    }

    /// Whether the mode takes part in the cascade.
    pub open spec fn in_cascade(self) -> bool {
        self.enabled && self.timeout_sec > 0
    }
}

/// A timeout in words: seconds up to one minute, then minutes and seconds, then
/// hours and minutes.
pub open spec fn timeout_text(secs: int) -> Seq<char> {
    if secs == 0 {
        "skip"@
    } else if secs <= 60 {
        decimal(secs as nat) + "s"@
    } else if secs < 3600 {
        if secs % 60 == 0 {
            decimal((secs / 60) as nat) + "m"@
        } else {
            decimal((secs / 60) as nat) + "m"@ + decimal((secs % 60) as nat) + "s"@
        }
    } else {
        if secs % 3600 < 60 {
            decimal((secs / 3600) as nat) + "h"@
        } else {
            decimal((secs / 3600) as nat) + "h"@ + decimal((secs % 3600 / 60) as nat) + "m"@
        }
    }
}

/// A timeout is told by its parts: of `h` hours, `m` minutes and `s` seconds, the hours
/// where there are any, then the minutes, and the seconds only below the hour. A whole
/// minute alone is still told in seconds.
pub proof fn timeouts_are_told_by_their_parts(h: int, m: int, s: int)
    requires
        0 <= h && 0 <= m < 60 && 0 <= s < 60,
    ensures
        h == 0 && m == 0 && s == 0 ==> timeout_text(h * 3600 + m * 60 + s) == "skip"@,
        h == 0 && m == 0 && s > 0 ==> timeout_text(h * 3600 + m * 60 + s) == decimal(s as nat)
            + "s"@,
        h == 0 && m == 1 && s == 0 ==> timeout_text(h * 3600 + m * 60 + s) == decimal(60) + "s"@,
        h == 0 && m > 1 && s == 0 ==> timeout_text(h * 3600 + m * 60 + s) == decimal(m as nat)
            + "m"@,
        h == 0 && m > 0 && s > 0 ==> timeout_text(h * 3600 + m * 60 + s) == decimal(m as nat)
            + "m"@ + decimal(s as nat) + "s"@,
        h > 0 && m == 0 ==> timeout_text(h * 3600 + m * 60 + s) == decimal(h as nat) + "h"@,
        h > 0 && m > 0 ==> timeout_text(h * 3600 + m * 60 + s) == decimal(h as nat) + "h"@
            + decimal(m as nat) + "m"@,
{
}

/// Format timeout for display (e.g., "60s", "2m", "20m")
pub fn format_timeout(secs: u32) -> (r: String)
    ensures
        r@ == timeout_text(secs as int),
{
    if secs == 0 {
        "skip".to_owned()
    } else if secs <= 60 {
        cat2(number(secs as u64).as_str(), "s")
    } else if secs < 3600 {
        let mins: u32 = secs / 60;
        let rem: u32 = secs % 60;
        if rem == 0 {
            cat2(number(mins as u64).as_str(), "m")
        } else {
            cat4(number(mins as u64).as_str(), "m", number(rem as u64).as_str(), "s")
        }
    } else {
        let hrs: u32 = secs / 3600;
        let mins: u32 = (secs % 3600) / 60;
        if mins == 0 {
            cat2(number(hrs as u64).as_str(), "h")
        } else {
            cat4(number(hrs as u64).as_str(), "h", number(mins as u64).as_str(), "m")
        }
    }
}

/// A state that a controller passes through while it is left alone.
#[derive(Clone, Copy, Debug, PartialEq, Eq, Structural)]
pub enum PowerState {
    Normal,
    Art,
    Dim,
    Sleep,
    Off,
}

impl PowerState {
    pub fn name(self) -> (r: &'static str)
        ensures
            r@ == (match self {
                PowerState::Normal => "Normal"@,
                PowerState::Art => "Art"@,
                PowerState::Dim => "Dim"@,
                PowerState::Sleep => "Sleep"@,
                PowerState::Off => "Off"@,
            }),
    {
        match self {
            PowerState::Normal => "Normal",
            PowerState::Art => "Art",
            PowerState::Dim => "Dim",
            PowerState::Sleep => "Sleep",
            PowerState::Off => "Off",
        }
    }

    pub fn icon(self) -> (r: &'static str)
        ensures
            r@ == (match self {
                PowerState::Normal => "☀"@,
                PowerState::Art => "🎨"@,
                PowerState::Dim => "🌙"@,
                PowerState::Sleep => "💤"@,
                PowerState::Off => "⏻"@,
            }),
    {
        match self {
            PowerState::Normal => "☀",
            PowerState::Art => "🎨",
            PowerState::Dim => "🌙",
            PowerState::Sleep => "💤",
            PowerState::Off => "⏻",
        }
    }
}

/// A state of the cascade, with the time after which it is entered.
pub type CascadeStep = (PowerState, u32);

/// The steps that one mode adds to the cascade.
pub open spec fn mode_steps(state: PowerState, mode: PowerModeConfig) -> Seq<CascadeStep> {
    if mode.in_cascade() {
        seq![(state, mode.timeout_sec)]
    } else {
        Seq::empty()
    }
}

/// The states that a controller passes through, in order. It always starts in the
/// normal state; a mode that is off or has no timeout is skipped.
pub open spec fn cascade_states(
    art_mode: PowerModeConfig,
    dim: PowerModeConfig,
    sleep: PowerModeConfig,
    deep_sleep: PowerModeConfig,
) -> Seq<CascadeStep> {
    seq![(PowerState::Normal, 0u32)] + mode_steps(PowerState::Art, art_mode) + mode_steps(
        PowerState::Dim,
        dim,
    ) + mode_steps(PowerState::Sleep, sleep) + mode_steps(PowerState::Off, deep_sleep)
}

fn add_mode(states: &mut Vec<CascadeStep>, state: PowerState, mode: PowerModeConfig)
    ensures
        final(states)@ == old(states)@ + mode_steps(state, mode),
{
    if mode.enabled && mode.timeout_sec > 0 {
        states.push((state, mode.timeout_sec));
        assert(states@ =~= old(states)@ + mode_steps(state, mode));
    } else {
        assert(states@ =~= old(states)@ + mode_steps(state, mode));
    }
}

/// The states that a controller passes through.
pub fn power_cascade(
    art_mode: PowerModeConfig,
    dim: PowerModeConfig,
    sleep: PowerModeConfig,
    deep_sleep: PowerModeConfig,
) -> (r: Vec<CascadeStep>)
    ensures
        r@ == cascade_states(art_mode, dim, sleep, deep_sleep),
{
    let mut states: Vec<CascadeStep> = Vec::new();
    states.push((PowerState::Normal, 0));
    assert(states@ =~= seq![(PowerState::Normal, 0u32)]);
    add_mode(&mut states, PowerState::Art, art_mode);
    add_mode(&mut states, PowerState::Dim, dim);
    add_mode(&mut states, PowerState::Sleep, sleep);
    add_mode(&mut states, PowerState::Off, deep_sleep);
    states
}

/// A controller powers off in the end exactly where deep sleep takes part in the
/// cascade.
pub proof fn cascade_ends_off_with_deep_sleep(
    art_mode: PowerModeConfig,
    dim: PowerModeConfig,
    sleep: PowerModeConfig,
    deep_sleep: PowerModeConfig,
)
    ensures
        cascade_states(art_mode, dim, sleep, deep_sleep).len() >= 1,
        cascade_states(art_mode, dim, sleep, deep_sleep)[0] == (PowerState::Normal, 0u32),
        cascade_states(art_mode, dim, sleep, deep_sleep).last().0 == PowerState::Off
            <==> deep_sleep.in_cascade(),
{
    let states = cascade_states(art_mode, dim, sleep, deep_sleep);
    if deep_sleep.in_cascade() {
        assert(states.last() == (PowerState::Off, deep_sleep.timeout_sec));
    } else if sleep.in_cascade() {
        assert(states.last() == (PowerState::Sleep, sleep.timeout_sec));
    } else if dim.in_cascade() {
        assert(states.last() == (PowerState::Dim, dim.timeout_sec));
    } else if art_mode.in_cascade() {
        assert(states.last() == (PowerState::Art, art_mode.timeout_sec));
    } else {
        assert(states.last() == (PowerState::Normal, 0u32));
    }
}

/// The states stand in the order normal, art, dim, sleep, off, none of them twice; a
/// mode takes part, with its own time, just where it is on and has one.
pub proof fn cascade_keeps_the_order_of_states(
    art_mode: PowerModeConfig,
    dim: PowerModeConfig,
    sleep: PowerModeConfig,
    deep_sleep: PowerModeConfig,
    i: int,
    j: int,
)
    requires
        0 <= i < j < cascade_states(art_mode, dim, sleep, deep_sleep).len(),
    ensures
        ({
            let states = cascade_states(art_mode, dim, sleep, deep_sleep);
            let a = states[i].0;
            let b = states[j].0;
            &&& a != b
            &&& b != PowerState::Normal
            &&& a != PowerState::Off
            &&& b == PowerState::Art ==> a == PowerState::Normal
            &&& b == PowerState::Dim ==> a == PowerState::Normal || a == PowerState::Art
            &&& a == PowerState::Sleep ==> b == PowerState::Off
        }),
{
}

/// Every mode that is on and has a time shows up with that time, every other does not,
/// and nothing else does but the normal state at the start.
pub proof fn cascade_shows_the_modes_that_are_on(
    art_mode: PowerModeConfig,
    dim: PowerModeConfig,
    sleep: PowerModeConfig,
    deep_sleep: PowerModeConfig,
    state: PowerState,
    secs: u32,
)
    ensures
        cascade_states(art_mode, dim, sleep, deep_sleep).contains((state, secs)) <==> match state {
            PowerState::Normal => secs == 0,
            PowerState::Art => secs > 0 && art_mode.enabled && art_mode.timeout_sec == secs,
            PowerState::Dim => secs > 0 && dim.enabled && dim.timeout_sec == secs,
            PowerState::Sleep => secs > 0 && sleep.enabled && sleep.timeout_sec == secs,
            PowerState::Off => secs > 0 && deep_sleep.enabled && deep_sleep.timeout_sec == secs,
        },
{
    let a = mode_steps(PowerState::Art, art_mode);
    let d = mode_steps(PowerState::Dim, dim);
    let s = mode_steps(PowerState::Sleep, sleep);
    let o = mode_steps(PowerState::Off, deep_sleep);
    let states = cascade_states(art_mode, dim, sleep, deep_sleep);
    assert(states[0] == (PowerState::Normal, 0u32));
    if a.len() > 0 {
        assert(states[1] == a[0]);
    }
    if d.len() > 0 {
        assert(states[1 + a.len() as int] == d[0]);
    }
    if s.len() > 0 {
        assert(states[1 + a.len() + d.len() as int] == s[0]);
    }
    if o.len() > 0 {
        assert(states[1 + a.len() + d.len() + s.len() as int] == o[0]);
    }
    if states.contains((state, secs)) {
        let i = choose|i: int| 0 <= i < states.len() && states[i] == (state, secs);
    }
}

/// The line under the cascade.
pub fn cascade_summary(states: &Vec<CascadeStep>) -> (r: &'static str)
    ensures
        r@ == (if states@.len() > 0 && states@.last().0 == PowerState::Off {
            "Powers off after inactivity. Rotate to wake."@
        } else {
            "Display stays on."@
        }),
{
    if states.len() > 0 && states[states.len() - 1].0 == PowerState::Off {
        "Powers off after inactivity. Rotate to wake."
    } else {
        "Display stays on."
    }
}

/// The class of one state in the diagram; the last state stands out.
pub fn cascade_box_class(states: &Vec<CascadeStep>, i: usize) -> (r: String)
    requires
        i < states@.len(),
    ensures
        r@ == "flex flex-col items-center px-3 py-1.5 rounded text-xs leading-tight "@ + (if i + 1
            < states@.len() {
            "bg-black/5 dark:bg-white/10 text-gray-700 dark:text-gray-200"@
        } else if states@[i as int].0 == PowerState::Off {
            "bg-red-500/20 text-red-700 dark:text-red-200 font-medium"@
        } else {
            "bg-green-500/20 text-green-700 dark:text-green-200 font-medium"@
        }),
{
    let tone = if i < states.len() - 1 {
        "bg-black/5 dark:bg-white/10 text-gray-700 dark:text-gray-200"
    } else if states[i].0 == PowerState::Off {
        "bg-red-500/20 text-red-700 dark:text-red-200 font-medium"
    } else {
        "bg-green-500/20 text-green-700 dark:text-green-200 font-medium"
    };
    cat2("flex flex-col items-center px-3 py-1.5 rounded text-xs leading-tight ", tone)
}

// ── Configuration ───────────────────────────────────────────────────────────

/// A controller's stored configuration. What is missing takes its default.
#[derive(Debug)]
pub struct KnobConfig {
    pub name: Option<String>,
    pub rotation_charging: Option<i32>,
    pub rotation_not_charging: Option<i32>,
    pub art_mode_charging: Option<PowerModeConfig>,
    pub dim_charging: Option<PowerModeConfig>,
    pub sleep_charging: Option<PowerModeConfig>,
    pub deep_sleep_charging: Option<PowerModeConfig>,
    pub art_mode_battery: Option<PowerModeConfig>,
    pub dim_battery: Option<PowerModeConfig>,
    pub sleep_battery: Option<PowerModeConfig>,
    pub deep_sleep_battery: Option<PowerModeConfig>,
    pub wifi_power_save_enabled: Option<bool>,
    pub cpu_freq_scaling_enabled: Option<bool>,
    pub sleep_poll_stopped_sec: Option<u32>,
}

/// The values of the configuration form.
#[derive(Debug)]
pub struct KnobForm {
    pub name: String,
    pub rotation_charging: i32,
    pub rotation_not_charging: i32,
    pub art_mode_charging: PowerModeConfig,
    pub dim_charging: PowerModeConfig,
    pub sleep_charging: PowerModeConfig,
    pub deep_sleep_charging: PowerModeConfig,
    pub art_mode_battery: PowerModeConfig,
    pub dim_battery: PowerModeConfig,
    pub sleep_battery: PowerModeConfig,
    pub deep_sleep_battery: PowerModeConfig,
    pub wifi_power_save: bool,
    pub cpu_freq_scaling: bool,
    pub sleep_poll_stopped: u32,
}

/// A mode that is entered after a time.
pub open spec fn after(timeout_sec: u32) -> PowerModeConfig {
    PowerModeConfig { enabled: true, timeout_sec }
}

/// A mode that is skipped.
pub open spec fn skipped() -> PowerModeConfig {
    PowerModeConfig { enabled: false, timeout_sec: 0 }
}

/// The value, or its default.
pub open spec fn value_or<T>(value: Option<T>, default_value: T) -> T {
    match value {
        Some(value) => value,
        None => default_value,
    }
}

/// The form shows a configuration: each value as stored, or its default.
pub open spec fn form_shows(form: KnobForm, config: Option<KnobConfig>) -> bool {
    match config {
        Some(c) => {
            &&& form.name@ == (match c.name {
                Some(name) => name@,
                None => Seq::empty(),
            })
            &&& form.rotation_charging == value_or(c.rotation_charging, 180i32)
            &&& form.rotation_not_charging == value_or(c.rotation_not_charging, 0i32)
            &&& form.art_mode_charging == value_or(c.art_mode_charging, after(60))
            &&& form.dim_charging == value_or(c.dim_charging, after(120))
            &&& form.sleep_charging == value_or(c.sleep_charging, skipped())
            &&& form.deep_sleep_charging == value_or(c.deep_sleep_charging, skipped())
            &&& form.art_mode_battery == value_or(c.art_mode_battery, after(30))
            &&& form.dim_battery == value_or(c.dim_battery, after(30))
            &&& form.sleep_battery == value_or(c.sleep_battery, after(60))
            &&& form.deep_sleep_battery == value_or(c.deep_sleep_battery, after(300))
            &&& form.wifi_power_save == value_or(c.wifi_power_save_enabled, false)
            &&& form.cpu_freq_scaling == value_or(c.cpu_freq_scaling_enabled, false)
            &&& form.sleep_poll_stopped == value_or(c.sleep_poll_stopped_sec, 60u32)
        },
        None => {
            &&& form.name@ == Seq::<char>::empty()
            &&& form.rotation_charging == 180
            &&& form.rotation_not_charging == 0
            &&& form.art_mode_charging == after(60)
            &&& form.dim_charging == after(120)
            &&& form.sleep_charging == skipped()
            &&& form.deep_sleep_charging == skipped()
            &&& form.art_mode_battery == after(30)
            &&& form.dim_battery == after(30)
            &&& form.sleep_battery == after(60)
            &&& form.deep_sleep_battery == after(300)
            &&& !form.wifi_power_save
            &&& !form.cpu_freq_scaling
            &&& form.sleep_poll_stopped == 60
        },
    }
}

/// A configuration holds every value of the form; an empty name is left out.
pub open spec fn config_holds(config: KnobConfig, form: KnobForm) -> bool {
    &&& opt_text(config.name) == (if form.name@.len() == 0 {
        None
    } else {
        Some(form.name@)
    })
    &&& config.rotation_charging == Some(form.rotation_charging)
    &&& config.rotation_not_charging == Some(form.rotation_not_charging)
    &&& config.art_mode_charging == Some(form.art_mode_charging)
    &&& config.dim_charging == Some(form.dim_charging)
    &&& config.sleep_charging == Some(form.sleep_charging)
    &&& config.deep_sleep_charging == Some(form.deep_sleep_charging)
    &&& config.art_mode_battery == Some(form.art_mode_battery)
    &&& config.dim_battery == Some(form.dim_battery)
    &&& config.sleep_battery == Some(form.sleep_battery)
    &&& config.deep_sleep_battery == Some(form.deep_sleep_battery)
    &&& config.wifi_power_save_enabled == Some(form.wifi_power_save)
    &&& config.cpu_freq_scaling_enabled == Some(form.cpu_freq_scaling)
    &&& config.sleep_poll_stopped_sec == Some(form.sleep_poll_stopped)
}

fn mode_or(mode: Option<PowerModeConfig>, enabled: bool, timeout_sec: u32) -> (r: PowerModeConfig)
    ensures
        r == value_or(mode, (PowerModeConfig { enabled, timeout_sec })),
{
    match mode {
        Some(mode) => mode,
        None => PowerModeConfig { enabled, timeout_sec },
    }
}

impl KnobForm {
    /// The form before any configuration is loaded: the defaults.
    pub fn new() -> (r: Self)
        ensures
            form_shows(r, None),
    {
        KnobForm {
            name: String::new(),
            rotation_charging: 180,
            rotation_not_charging: 0,
            art_mode_charging: PowerModeConfig { enabled: true, timeout_sec: 60 },
            dim_charging: PowerModeConfig { enabled: true, timeout_sec: 120 },
            sleep_charging: PowerModeConfig { enabled: false, timeout_sec: 0 },
            deep_sleep_charging: PowerModeConfig { enabled: false, timeout_sec: 0 },
            art_mode_battery: PowerModeConfig { enabled: true, timeout_sec: 30 },
            dim_battery: PowerModeConfig { enabled: true, timeout_sec: 30 },
            sleep_battery: PowerModeConfig { enabled: true, timeout_sec: 60 },
            deep_sleep_battery: PowerModeConfig { enabled: true, timeout_sec: 300 },
            wifi_power_save: false,
            cpu_freq_scaling: false,
            sleep_poll_stopped: 60,
        }
    }

    /// The form for a stored configuration.
    pub fn load(config: Option<KnobConfig>) -> (r: Self)
        ensures
            form_shows(r, config),
    {
        let c = match config {
            Some(c) => c,
            None => {
                return KnobForm::new();
            },
        };
        KnobForm {
            name: match c.name {
                Some(name) => name,
                None => String::new(),
            },
            rotation_charging: match c.rotation_charging {
                Some(rotation) => rotation,
                None => 180,
            },
            rotation_not_charging: match c.rotation_not_charging {
                Some(rotation) => rotation,
                None => 0,
            },
            art_mode_charging: mode_or(c.art_mode_charging, true, 60),
            dim_charging: mode_or(c.dim_charging, true, 120),
            sleep_charging: mode_or(c.sleep_charging, false, 0),
            deep_sleep_charging: mode_or(c.deep_sleep_charging, false, 0),
            art_mode_battery: mode_or(c.art_mode_battery, true, 30),
            dim_battery: mode_or(c.dim_battery, true, 30),
            sleep_battery: mode_or(c.sleep_battery, true, 60),
            deep_sleep_battery: mode_or(c.deep_sleep_battery, true, 300),
            wifi_power_save: match c.wifi_power_save_enabled {
                Some(enabled) => enabled,
                None => false,
            },
            cpu_freq_scaling: match c.cpu_freq_scaling_enabled {
                Some(enabled) => enabled,
                None => false,
            },
            sleep_poll_stopped: match c.sleep_poll_stopped_sec {
                Some(seconds) => seconds,
                None => 60,
            },
        }
    }

    /// The configuration to store.
    pub fn to_config(&self) -> (r: KnobConfig)
        ensures
            config_holds(r, *self),
    {
        KnobConfig {
            name: non_empty(self.name.clone()),
            rotation_charging: Some(self.rotation_charging),
            rotation_not_charging: Some(self.rotation_not_charging),
            art_mode_charging: Some(self.art_mode_charging),
            dim_charging: Some(self.dim_charging),
            sleep_charging: Some(self.sleep_charging),
            deep_sleep_charging: Some(self.deep_sleep_charging),
            art_mode_battery: Some(self.art_mode_battery),
            dim_battery: Some(self.dim_battery),
            sleep_battery: Some(self.sleep_battery),
            deep_sleep_battery: Some(self.deep_sleep_battery),
            wifi_power_save_enabled: Some(self.wifi_power_save),
            cpu_freq_scaling_enabled: Some(self.cpu_freq_scaling),
            sleep_poll_stopped_sec: Some(self.sleep_poll_stopped),
        }
    }

    /// A rotation was picked; text that is no number changes nothing.
    pub fn pick_rotation(&mut self, charging: bool, text: &str)
        ensures
            match parsed_signed(text@, -2147483648, 2147483647) {
                Some(rotation) => if charging {
                    final(self).rotation_charging == rotation && *final(self) == (KnobForm {
                        rotation_charging: final(self).rotation_charging,
                        ..*old(self)
                    })
                } else {
                    final(self).rotation_not_charging == rotation && *final(self) == (KnobForm {
                        rotation_not_charging: final(self).rotation_not_charging,
                        ..*old(self)
                    })
                },
                None => *final(self) == *old(self),
            },
    {
        if let Some(rotation) = parse_i32(text) {
            if charging {
                self.rotation_charging = rotation;
            } else {
                self.rotation_not_charging = rotation;
            }
        }
    }

    /// A poll interval was typed; text that is no number changes nothing.
    pub fn type_poll_interval(&mut self, text: &str)
        ensures
            match parsed_unsigned(text@, 4294967295) {
                Some(seconds) => final(self).sleep_poll_stopped == seconds && *final(self) == (
                KnobForm { sleep_poll_stopped: final(self).sleep_poll_stopped, ..*old(self) }),
                None => *final(self) == *old(self),
            },
    {
        if let Some(seconds) = parse_u32(text) {
            self.sleep_poll_stopped = seconds;
        }
    }
}

/// A stored form is loaded back as it was.
pub proof fn stored_form_loads_back(form: KnobForm, config: KnobConfig, loaded: KnobForm)
    requires
        config_holds(config, form),
        form_shows(loaded, Some(config)),
    ensures
        loaded.name@ == form.name@,
        loaded == (KnobForm { name: loaded.name, ..form }),
{
    if form.name@.len() == 0 {
        assert(form.name@ =~= Seq::<char>::empty());
    }
}

/// Each value of a configuration is shown in the field of its own name.
pub proof fn values_are_shown_under_their_names(config: KnobConfig, form: KnobForm)
    requires
        form_shows(form, Some(config)),
    ensures
        config.name is Some ==> form.name@ == config.name->0@,
        config.name is None ==> form.name@.len() == 0,
        forall|v: i32| config.rotation_charging == Some(v) ==> form.rotation_charging == v,
        forall|v: i32| config.rotation_not_charging == Some(v) ==> form.rotation_not_charging == v,
        config.art_mode_charging is Some ==> Some(form.art_mode_charging)
            == config.art_mode_charging,
        config.dim_charging is Some ==> Some(form.dim_charging) == config.dim_charging,
        config.sleep_charging is Some ==> Some(form.sleep_charging) == config.sleep_charging,
        config.deep_sleep_charging is Some ==> Some(form.deep_sleep_charging)
            == config.deep_sleep_charging,
        config.art_mode_battery is Some ==> Some(form.art_mode_battery)
            == config.art_mode_battery,
        config.dim_battery is Some ==> Some(form.dim_battery) == config.dim_battery,
        config.sleep_battery is Some ==> Some(form.sleep_battery) == config.sleep_battery,
        config.deep_sleep_battery is Some ==> Some(form.deep_sleep_battery)
            == config.deep_sleep_battery,
        config.wifi_power_save_enabled is Some ==> Some(form.wifi_power_save)
            == config.wifi_power_save_enabled,
        config.cpu_freq_scaling_enabled is Some ==> Some(form.cpu_freq_scaling)
            == config.cpu_freq_scaling_enabled,
        config.sleep_poll_stopped_sec is Some ==> Some(form.sleep_poll_stopped)
            == config.sleep_poll_stopped_sec,
{
}

/// Each field of the form is stored under its own name; an empty name is stored as none.
pub proof fn fields_are_stored_under_their_names(config: KnobConfig, form: KnobForm)
    requires
        config_holds(config, form),
    ensures
        config.name is Some <==> form.name@.len() > 0,
        config.name is Some ==> config.name->0@ == form.name@,
        config.rotation_charging == Some(form.rotation_charging),
        config.rotation_not_charging == Some(form.rotation_not_charging),
        config.art_mode_charging == Some(form.art_mode_charging),
        config.dim_charging == Some(form.dim_charging),
        config.sleep_charging == Some(form.sleep_charging),
        config.deep_sleep_charging == Some(form.deep_sleep_charging),
        config.art_mode_battery == Some(form.art_mode_battery),
        config.dim_battery == Some(form.dim_battery),
        config.sleep_battery == Some(form.sleep_battery),
        config.deep_sleep_battery == Some(form.deep_sleep_battery),
        config.wifi_power_save_enabled == Some(form.wifi_power_save),
        config.cpu_freq_scaling_enabled == Some(form.cpu_freq_scaling),
        config.sleep_poll_stopped_sec == Some(form.sleep_poll_stopped),
{
}

/// What a controller does by default: on the charger it shows art after a minute and
/// dims after two, and stays awake; on battery it does so after half a minute, sleeps
/// after a minute and powers off after five.
pub proof fn defaults_keep_a_charging_controller_awake(form: KnobForm)
    requires
        form_shows(form, None),
    ensures
        form.name@.len() == 0,
        form.rotation_charging == 180 && form.rotation_not_charging == 0,
        form.art_mode_charging.enabled && form.art_mode_charging.timeout_sec == 60,
        form.dim_charging.enabled && form.dim_charging.timeout_sec == 120,
        !form.sleep_charging.enabled && form.sleep_charging.timeout_sec == 0,
        !form.deep_sleep_charging.enabled && form.deep_sleep_charging.timeout_sec == 0,
        form.art_mode_battery.enabled && form.art_mode_battery.timeout_sec == 30,
        form.dim_battery.enabled && form.dim_battery.timeout_sec == 30,
        form.sleep_battery.enabled && form.sleep_battery.timeout_sec == 60,
        form.deep_sleep_battery.enabled && form.deep_sleep_battery.timeout_sec == 300,
        !form.wifi_power_save && !form.cpu_freq_scaling && form.sleep_poll_stopped == 60,
{
}

/// A configuration without any value is shown like none at all.
pub proof fn empty_config_shows_defaults(config: KnobConfig, a: KnobForm, b: KnobForm)
    requires
        config.name is None,
        config.rotation_charging is None,
        config.rotation_not_charging is None,
        config.art_mode_charging is None,
        config.dim_charging is None,
        config.sleep_charging is None,
        config.deep_sleep_charging is None,
        config.art_mode_battery is None,
        config.dim_battery is None,
        config.sleep_battery is None,
        config.deep_sleep_battery is None,
        config.wifi_power_save_enabled is None,
        config.cpu_freq_scaling_enabled is None,
        config.sleep_poll_stopped_sec is None,
        form_shows(a, Some(config)),
        form_shows(b, None),
    ensures
        a.name@ == b.name@,
        a == (KnobForm { name: a.name, ..b }),
{
}

/// The address of a controller's configuration.
pub fn knob_config_url(knob_id: &str) -> (r: String)
    ensures
        r@ == keyed_address("/knob/config?knob_id="@, knob_id@),
{
    address_with("/knob/config?knob_id=", knob_id)
}

/// A configuration to store, and where.
pub struct KnobSave {
    pub url: String,
    pub config: KnobConfig,
}

/// The configuration dialog.
pub struct ConfigDialog {
    pub open: bool,
    pub knob_id: Option<String>,
    pub loading: bool,
    pub status: Option<String>,
    pub form: KnobForm,
}

impl ConfigDialog {
    pub fn new() -> (r: Self)
        ensures
            !r.open && !r.loading,
            r.knob_id is None && r.status is None,
            form_shows(r.form, None),
    {
        ConfigDialog {
            open: false,
            knob_id: None,
            loading: false,
            status: None,
            form: KnobForm::new(),
        }
    }

    /// The dialog opens for a controller; gives the address to fetch its
    /// configuration from.
    pub fn open_for(&mut self, knob_id: &str) -> (url: String)
        ensures
            final(self).open && final(self).loading,
            opt_text(final(self).knob_id) == Some(knob_id@),
            final(self).status is None,
            final(self).form == old(self).form,
            url@ == keyed_address("/knob/config?knob_id="@, knob_id@),
    {
        self.knob_id = Some(knob_id.to_owned());
        self.open = true;
        self.loading = true;
        self.status = None;
        knob_config_url(knob_id)
    }

    /// The configuration arrived, or could not be fetched.
    pub fn loaded(&mut self, answer: Result<Option<KnobConfig>, String>)
        ensures
            !final(self).loading,
            final(self).open == old(self).open,
            final(self).knob_id == old(self).knob_id,
            match answer {
                Ok(config) => form_shows(final(self).form, config) && final(self).status == old(
                    self,
                ).status,
                Err(error) => final(self).form == old(self).form && opt_text(final(self).status)
                    == Some("Error: "@ + error@),
            },
    {
        match answer {
            Ok(config) => {
                self.form = KnobForm::load(config);
            },
            Err(error) => {
                self.status = Some(cat2("Error: ", error.as_str()));
            },
        }
        self.loading = false;
    }

    /// Save was pressed. Gives the address and what to store, where the dialog is
    /// about a controller.
    pub fn save(&mut self) -> (r: Option<KnobSave>)
        ensures
            r is Some <==> old(self).knob_id is Some,
            r is None ==> *final(self) == *old(self),
            r is Some ==> {
                &&& opt_text(final(self).status) == Some("Saving..."@)
                &&& *final(self) == (ConfigDialog { status: final(self).status, ..*old(self) })
                &&& r->0.url@ == keyed_address("/knob/config?knob_id="@, old(self).knob_id->0@)
                &&& config_holds(r->0.config, old(self).form)
            },
    {
        match &self.knob_id {
            Some(knob_id) => {
                let url = knob_config_url(knob_id.as_str());
                let config = self.form.to_config();
                self.status = Some("Saving...".to_owned());
                Some(KnobSave { url, config })
            },
            None => None,
        }
    }

    /// The answer to a save. After a success the dialog closes and the controllers
    /// are fetched again.
    pub fn saved(&mut self, answer: Result<(), String>) -> (refresh: bool)
        ensures
            refresh == (answer is Ok),
            match answer {
                Ok(_) => *final(self) == (ConfigDialog { open: false, ..*old(self) }),
                Err(error) => opt_text(final(self).status) == Some("Error: "@ + error@)
                    && *final(self) == (ConfigDialog { status: final(self).status, ..*old(self) }),
            },
    {
        match answer {
            Ok(_) => {
                self.open = false;
                true
            },
            Err(error) => {
                self.status = Some(cat2("Error: ", error.as_str()));
                false
            },
        }
    }

    /// The dialog was closed.
    pub fn close(&mut self)
        ensures
            *final(self) == (ConfigDialog { open: false, ..*old(self) }),
    {
        self.open = false;
    }
}

/// The class of a save status: errors stand out.
pub fn save_status_class(status: &str) -> (r: &'static str)
    ensures
        r@ == (if has_prefix(status@, "Error"@) {
            "status-err"@
        } else {
            "text-muted"@
        }),
{
    if starts_with(status, "Error") {
        "status-err"
    } else {
        "text-muted"
    }
}

// ── Firmware ────────────────────────────────────────────────────────────────

/// The bridge's answer to a firmware download.
#[derive(Debug)]
pub struct FetchFirmwareResponse {
    pub version: Option<String>,
    pub error: Option<String>,
}

/// What came of a download.
#[derive(Debug)]
pub struct FirmwareMessage {
    pub is_error: bool,
    pub text: String,
}

/// The state of the firmware section.
pub struct FirmwareFetch {
    pub fetching: bool,
    pub message: Option<FirmwareMessage>,
}

impl FirmwareFetch {
    pub fn new() -> (r: Self)
        ensures
            !r.fetching,
            r.message is None,
    {
        FirmwareFetch { fetching: false, message: None }
    }

    /// A download was asked for.
    pub fn start(&mut self)
        ensures
            final(self).fetching,
            final(self).message is None,
    {
        self.fetching = true;
        self.message = None;
    }

    /// The download came to an end. A version is announced and fetched again; an
    /// answer with neither version nor error leaves the message as it was.
    pub fn finished(&mut self, answer: Result<FetchFirmwareResponse, String>) -> (refresh: bool)
        ensures
            !final(self).fetching,
            refresh == (answer is Ok && answer->Ok_0.version is Some),
            match answer {
                Ok(response) => if response.version is Some {
                    final(self).message is Some && !final(self).message->0.is_error
                        && final(self).message->0.text@ == "Downloaded v"@ + response.version->0@
                } else if response.error is Some {
                    final(self).message == Some(
                        FirmwareMessage { is_error: true, text: response.error->0 },
                    )
                } else {
                    final(self).message == old(self).message
                },
                Err(error) => final(self).message == Some(
                    FirmwareMessage { is_error: true, text: error },
                ),
            },
    {
        self.fetching = false;
        match answer {
            Ok(response) => match response.version {
                Some(version) => {
                    self.message = Some(
                        FirmwareMessage {
                            is_error: false,
                            text: cat2("Downloaded v", version.as_str()),
                        },
                    );
                    true
                },
                None => {
                    if let Some(error) = response.error {
                        self.message = Some(FirmwareMessage { is_error: true, text: error });
                    }
                    false
                },
            },
            Err(error) => {
                self.message = Some(FirmwareMessage { is_error: true, text: error });
                false
            },
        }
    }

    /// The line that shows the message.
    pub fn line(&self) -> (r: Option<StatusText>)
        ensures
            match r {
                Some(line) => self.message is Some && (if self.message->0.is_error {
                    line.shows("status-err"@, self.message->0.text@)
                } else {
                    line.shows("status-ok"@, "✓ "@ + self.message->0.text@)
                }),
                None => self.message is None,
            },
    {
        match &self.message {
            Some(message) => if message.is_error {
                Some(StatusText { class: "status-err", text: message.text.clone() })
            } else {
                Some(StatusText { class: "status-ok", text: cat2("✓ ", message.text.as_str()) })
            },
            None => None,
        }
    }
}

/// The installed firmware in words.
pub fn firmware_text(version: Option<&str>) -> (r: String)
    ensures
        r@ == (match version {
            Some(version) => "v"@ + version@,
            None => "Not installed"@,
        }),
{
    match version {
        Some(version) => cat2("v", version),
        None => "Not installed".to_owned(),
    }
}

/// What stands where the controllers go.
#[derive(Clone, Copy, Debug, PartialEq, Eq, Structural)]
pub enum KnobListPanel {
    Loading,
    Empty,
    Table,
}

/// Picks what stands where the controllers go. A fetch that failed counts as one
/// without controllers.
pub fn knob_list_panel(knob_count: Option<Option<usize>>) -> (r: KnobListPanel)
    ensures
        r is Loading <==> knob_count is None,
        r is Table <==> (knob_count matches Some(Some(count)) && count > 0),
        r is Empty <==> knob_count == Some(None::<usize>) || knob_count == Some(Some(0usize)),
{
    match knob_count {
        None => KnobListPanel::Loading,
        Some(None) => KnobListPanel::Empty,
        Some(Some(count)) => if count == 0 {
            KnobListPanel::Empty
        } else {
            KnobListPanel::Table
        },
    }
}

} // verus!
