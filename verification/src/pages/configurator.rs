//! Configurator page: describe a layout, see it on the device, keep it, and say
//! under which conditions a device shows it.

use crate::pages::knobs::KnobDevice;
use crate::seqs::derefs;
use crate::text::{
    cat2, cat3, cat5, join, joined, lowercase, opt_text, same, strip_prefix, texts, to_lowercase,
    trim, trimmed,
};
use vstd::prelude::*;
use vstd::string::StringSliceAdditionalSpecFns;
use vstd::utf8::{decode_utf8, encode_utf8, is_char_boundary};

verus! {

// ── Layouts ─────────────────────────────────────────────────────────────────

/// A line of text on a screen.
#[derive(Debug)]
pub struct LineDef {
    pub text: String,
    pub style: String,
}

/// What an element looks like.
#[derive(Debug)]
pub struct DisplayDef {
    pub icon: Option<String>,
    pub label: Option<String>,
    pub active: Option<bool>,
}

/// What an element does.
#[derive(Debug)]
pub struct ActionDef {
    pub action: String,
    /// The action's parameters, as JSON text.
    pub params: Option<String>,
}

/// An element of a screen.
#[derive(Debug)]
pub struct ElementDef {
    pub display: DisplayDef,
    pub on_tap: Option<ActionDef>,
    pub on_long_press: Option<ActionDef>,
}

/// A screen of a layout.
#[derive(Debug)]
pub struct ScreenDef {
    pub screen_type: String,
    pub id: String,
    pub lines: Vec<LineDef>,
    pub elements: Option<Vec<ElementDef>>,
    pub background_color: Option<String>,
    pub image_url: Option<String>,
}

/// Which transport controls are available.
#[derive(Clone, Copy, Debug, PartialEq, Eq, Structural)]
pub struct TransportState {
    pub play: bool,
    pub pause: bool,
    pub next: bool,
    pub prev: bool,
}

/// The fast-changing part of a manifest.
#[derive(Debug)]
pub struct FastState {
    pub zone_id: String,
    pub is_playing: bool,
    pub seek_position: Option<i64>,
    pub length: Option<u32>,
    pub transport: Option<TransportState>,
}

/// A generated layout.
#[derive(Debug)]
pub struct ManifestResponse {
    pub version: u32,
    pub sha: String,
    pub screens: Vec<ScreenDef>,
    pub fast: Option<FastState>,
}

/// The order in which screens are reached.
#[derive(Debug)]
pub struct NavDef {
    pub order: Vec<String>,
    pub default: String,
}

/// A saved layout.
#[derive(Debug)]
pub struct LayoutSummary {
    pub id: String,
    pub name: String,
    pub screens: Vec<ScreenDef>,
    pub nav: Option<NavDef>,
}

/// Whether the configurator may be used. A licence that could not be fetched counts
/// as none.
pub fn is_licensed(configured: Option<bool>) -> (r: bool)
    ensures
        r == (configured == Some(true)),
{
    match configured {
        Some(configured) => configured,
        None => false,
    }
}

// ── Preview ─────────────────────────────────────────────────────────────────

/// `at` is the first media screen.
pub open spec fn is_media_screen(screens: Seq<ScreenDef>, at: int) -> bool {
    &&& 0 <= at < screens.len()
    &&& screens[at].screen_type@ == "media"@
    &&& forall|j: int| 0 <= j < at ==> (#[trigger] screens[j]).screen_type@ != "media"@
}

/// The screen that the preview shows: the first media screen.
pub fn media_screen(manifest: Option<&ManifestResponse>) -> (r: Option<&ScreenDef>)
    ensures
        match r {
            Some(screen) => manifest is Some && exists|at: int|
                #[trigger] is_media_screen(manifest->0.screens@, at) && *screen
                    == manifest->0.screens@[at],
            None => manifest is None || forall|j: int|
                0 <= j < manifest->0.screens@.len() ==> (
                #[trigger] manifest->0.screens@[j]).screen_type@ != "media"@,
        },
{
    let source = match manifest {
        Some(manifest) => manifest,
        None => {
            return None;
        },
    };
    let mut i: usize = 0;
    while i < source.screens.len()
        invariant
            manifest == Some(source),
            i <= source.screens@.len(),
            forall|j: int|
                0 <= j < i ==> (#[trigger] source.screens@[j]).screen_type@ != "media"@,
        decreases source.screens@.len() - i,
    {
        if same(source.screens[i].screen_type.as_str(), "media") {
            let screen = &source.screens[i];
            assert(is_media_screen(source.screens@, i as int));
            assert(*screen == source.screens@[i as int]);
            return Some(screen);
        }
        i = i + 1;
    }
    None
}

/// Whether the preview shows playback.
pub fn preview_is_playing(manifest: Option<&ManifestResponse>) -> (r: bool)
    ensures
        r == (manifest is Some && manifest->0.fast is Some && manifest->0.fast->0.is_playing),
{
    match manifest {
        Some(manifest) => match &manifest.fast {
            Some(fast) => fast.is_playing,
            None => false,
        },
        None => false,
    }
}

/// How far into the track playback is: elapsed seconds out of all seconds.
#[derive(Clone, Copy, Debug, PartialEq, Eq, Structural)]
pub struct SeekFraction {
    pub elapsed: u32,
    pub length: u32,
}

/// A position between the start and the end of a track.
pub open spec fn kept_within(position: int, length: int) -> int {
    if position < 0 {
        0
    } else if position > length {
        length
    } else {
        position
    }
}

/// A position within the track is shown as it is, one outside at the nearer end; a later
/// position is never shown as an earlier one.
pub proof fn positions_stay_within_the_track(a: int, b: int, length: int)
    requires
        0 <= length,
        a <= b,
    ensures
        0 <= kept_within(a, length) <= kept_within(b, length) <= length,
        0 <= a <= length ==> kept_within(a, length) == a,
        a <= 0 ==> kept_within(a, length) == 0,
        b >= length ==> kept_within(b, length) == length,
{
}

/// How far into the track playback is, kept between start and end. Without a
/// position or a length there is nothing to show.
pub fn seek_fraction(fast: &FastState) -> (r: Option<SeekFraction>)
    ensures
        r is Some <==> fast.seek_position is Some && fast.length is Some && fast.length->0 > 0,
        r is Some ==> {
            let position = fast.seek_position->0;
            let length = fast.length->0;
            &&& r->0.length == length
            &&& r->0.elapsed == kept_within(position as int, length as int)
            &&& r->0.elapsed == (if position < 0 {
                0
            } else if position > length {
                length as int
            } else {
                position as int
            })
        },
{
    match (fast.seek_position, fast.length) {
        (Some(position), Some(length)) => if length > 0 {
            let elapsed: u32 = if position < 0 {
                0
            } else if position > length as i64 {
                length
            } else {
                position as u32
            };
            Some(SeekFraction { elapsed, length })
        } else {
            None
        },
        _ => None,
    }
}

/// The symbol for an icon's name; an unknown name gets a dot.
pub open spec fn icon_text(name: Seq<char>) -> Seq<char> {
    if name == "skip_previous"@ {
        "\u{23EE}"@
    } else if name == "play_arrow"@ {
        "\u{25B6}"@
    } else if name == "pause"@ {
        "\u{23F8}"@
    } else if name == "skip_next"@ {
        "\u{23ED}"@
    } else if name == "stop"@ {
        "\u{23F9}"@
    } else if name == "volume_off"@ || name == "volume_mute"@ {
        "\u{1F507}"@
    } else if name == "forward_30"@ {
        "30\u{00BB}"@
    } else if name == "forward_10"@ {
        "10\u{00BB}"@
    } else if name == "replay_30"@ {
        "\u{00AB}30"@
    } else if name == "replay_10"@ {
        "\u{00AB}10"@
    } else if name == "shuffle"@ {
        "\u{1F500}"@
    } else if name == "repeat"@ {
        "\u{1F501}"@
    } else {
        "\u{25CF}"@
    }
}

/// The symbol for an icon's name.
pub fn icon_char(name: &str) -> (r: &'static str)
    ensures
        r@ == icon_text(name@),
{
    if same(name, "skip_previous") {
        "\u{23EE}"
    } else if same(name, "play_arrow") {
        "\u{25B6}"
    } else if same(name, "pause") {
        "\u{23F8}"
    } else if same(name, "skip_next") {
        "\u{23ED}"
    } else if same(name, "stop") {
        "\u{23F9}"
    } else if same(name, "volume_off") || same(name, "volume_mute") {
        "\u{1F507}"
    } else if same(name, "forward_30") {
        "30\u{00BB}"
    } else if same(name, "forward_10") {
        "10\u{00BB}"
    } else if same(name, "replay_30") {
        "\u{00AB}30"
    } else if same(name, "replay_10") {
        "\u{00AB}10"
    } else if same(name, "shuffle") {
        "\u{1F500}"
    } else if same(name, "repeat") {
        "\u{1F501}"
    } else {
        "\u{25CF}"
    }
}

/// A transport symbol of the preview.
#[derive(Clone, Copy, Debug)]
pub struct TransportIcon {
    pub icon: &'static str,
    pub active: bool,
}

/// What a transport symbol shows.
pub open spec fn icon_model(t: TransportIcon) -> (Seq<char>, bool) {
    (t.icon@, t.active)
}

/// The element has a symbol.
pub open spec fn has_icon(e: ElementDef) -> bool {
    e.display.icon is Some
}

/// What an element with a symbol shows.
pub open spec fn element_model(e: ElementDef) -> (Seq<char>, bool) {
    (icon_text(e.display.icon->0@), e.display.active == Some(true))
}

/// The transport symbols of the preview: those of the elements, or back, play and
/// forward where there are no elements.
pub open spec fn transport_model(elements: Seq<ElementDef>, is_playing: bool) -> Seq<
    (Seq<char>, bool),
> {
    if elements.len() == 0 {
        seq![
            ("\u{23EE}"@, false),
            (
                if is_playing {
                    "\u{23F8}"@
                } else {
                    "\u{25B6}"@
                },
                true,
            ),
            ("\u{23ED}"@, false),
        ]
    } else {
        elements.filter(|e: ElementDef| has_icon(e)).map_values(|e: ElementDef| element_model(e))
    }
}

/// The transport symbols of the preview.
pub fn transport_icons(elements: &Vec<ElementDef>, is_playing: bool) -> (r: Vec<TransportIcon>)
    ensures
        r@.map_values(|t: TransportIcon| icon_model(t)) == transport_model(elements@, is_playing),
{
    let mut icons: Vec<TransportIcon> = Vec::new();
    if elements.len() == 0 {
        let play = if is_playing {
            "\u{23F8}"
        } else {
            "\u{25B6}"
        };
        icons.push(TransportIcon { icon: "\u{23EE}", active: false });
        icons.push(TransportIcon { icon: play, active: true });
        icons.push(TransportIcon { icon: "\u{23ED}", active: false });
        assert(icons@.map_values(|t: TransportIcon| icon_model(t)) =~= transport_model(
            elements@,
            is_playing,
        ));
        return icons;
    }
    let ghost keep = |e: ElementDef| has_icon(e);
    let ghost show = |e: ElementDef| element_model(e);
    let ghost model = |t: TransportIcon| icon_model(t);
    let mut i: usize = 0;
    proof {
        crate::seqs::filter_empty(elements@, keep);
        assert(icons@.map_values(model) =~= elements@.take(0).filter(keep).map_values(show));
    }
    while i < elements.len()
        invariant
            i <= elements@.len(),
            keep == (|e: ElementDef| has_icon(e)),
            show == (|e: ElementDef| element_model(e)),
            model == (|t: TransportIcon| icon_model(t)),
            icons@.map_values(model) == elements@.take(i as int).filter(keep).map_values(show),
        decreases elements@.len() - i,
    {
        let ghost before = icons@;
        let ghost kept = elements@.take(i as int).filter(keep);
        proof {
            crate::seqs::filter_step(elements@, i as int, keep);
        }
        let element = &elements[i];
        if let Some(icon) = &element.display.icon {
            let active = match element.display.active {
                Some(active) => active,
                None => false,
            };
            let shown = TransportIcon { icon: icon_char(icon.as_str()), active };
            icons.push(shown);
            assert(before.push(shown).map_values(model) =~= before.map_values(model).push(
                icon_model(shown),
            ));
            assert(kept.push(*element).map_values(show) =~= kept.map_values(show).push(
                element_model(*element),
            ));
        }
        i = i + 1;
    }
    assert(elements@.take(i as int) =~= elements@);
    icons
}

/// A line of text in the preview.
#[derive(Debug)]
pub struct DisplayLine {
    pub text: String,
    pub color: &'static str,
}

/// The colour of a line's style.
pub open spec fn line_color(style: Seq<char>) -> Seq<char> {
    if style == "title"@ {
        "#ffffff"@
    } else if style == "subtitle"@ {
        "#9ca3af"@
    } else {
        "#6b7280"@
    }
}

fn color_of(style: &str) -> (r: &'static str)
    ensures
        r@ == line_color(style@),
{
    if same(style, "title") {
        "#ffffff"
    } else if same(style, "subtitle") {
        "#9ca3af"
    } else {
        "#6b7280"
    }
}

/// How many lines the round preview has room for.
pub open spec fn dial_line_count(lines: Seq<LineDef>) -> int {
    if lines.len() == 0 {
        1
    } else if lines.len() < 3 {
        lines.len() as int
    } else {
        3
    }
}

/// The lines of the round preview: the first three, or a note where there are none.
pub fn dial_lines(lines: &Vec<LineDef>) -> (r: Vec<DisplayLine>)
    ensures
        r@.len() == dial_line_count(lines@),
        lines@.len() == 0 ==> r@[0].text@ == "No manifest"@ && r@[0].color@ == "#6b7280"@,
        lines@.len() > 0 ==> forall|i: int|
            0 <= i < r@.len() ==> (#[trigger] r@[i]).text@ == lines@[i].text@ && r@[i].color@
                == line_color(lines@[i].style@),
{
    let mut shown: Vec<DisplayLine> = Vec::new();
    if lines.len() == 0 {
        shown.push(DisplayLine { text: "No manifest".to_owned(), color: "#6b7280" });
        return shown;
    }
    let mut i: usize = 0;
    while i < lines.len() && i < 3
        invariant
            i <= lines@.len(),
            i <= 3,
            shown@.len() == i,
            forall|j: int|
                0 <= j < i ==> (#[trigger] shown@[j]).text@ == lines@[j].text@ && shown@[j].color@
                    == line_color(lines@[j].style@),
        decreases 3 - i,
    {
        let line = &lines[i];
        shown.push(DisplayLine { text: line.text.clone(), color: color_of(line.style.as_str()) });
        i = i + 1;
    }
    shown
}

/// Where a line of the round preview stands: sixteen units below the one before.
pub fn dial_line_y(index: u32) -> (r: u64)
    ensures
        r == 160 + 16 * index,
{
    160 + 16 * (index as u64)
}

/// Where a transport symbol of the round preview stands: the symbols are centred
/// and twenty-eight units apart.
pub open spec fn icon_place(index: int, total: int) -> int {
    140 - 14 * (total - 1) + 28 * index
}

/// Where a transport symbol of the round preview stands.
pub fn dial_icon_x(index: u32, total: u32) -> (r: i64)
    ensures
        r == icon_place(index as int, total as int),
{
    140 - 14 * (total as i64 - 1) + 28 * (index as i64)
}

/// The symbols stand symmetrically about the centre of the dial.
pub proof fn dial_icons_are_centred(index: int, total: int)
    requires
        0 <= index < total,
    ensures
        icon_place(index, total) + icon_place(total - 1 - index, total) == 2 * 140,
{
}

/// The colour that stands in for the artwork.
pub fn art_color(background: Option<&str>) -> (r: &str)
    ensures
        r@ == (match background {
            Some(color) => color@,
            None => "#1a1a2e"@,
        }),
{
    match background {
        Some(color) => color,
        None => "#1a1a2e",
    }
}

/// The shape that previews a type of device.
#[derive(Clone, Copy, Debug, PartialEq, Eq, Structural)]
pub enum PreviewShape {
    Dial,
    Rect { rounded: bool },
}

/// The shape that previews a type of device: a frame is a plain rectangle, a tough
/// device a rounded one, and everything else a dial.
pub fn preview_shape(device_type: &str) -> (r: PreviewShape)
    ensures
        r == (if device_type@ == "Frame"@ {
            PreviewShape::Rect { rounded: false }
        } else if device_type@ == "Tough"@ {
            PreviewShape::Rect { rounded: true }
        } else {
            PreviewShape::Dial
        }),
{
    proof {
        reveal_strlit("Frame");
        reveal_strlit("Tough");
        assert("Frame"@[0] != "Tough"@[0]);
    }
    if same(device_type, "Frame") {
        PreviewShape::Rect { rounded: false }
    } else if same(device_type, "Tough") {
        PreviewShape::Rect { rounded: true }
    } else {
        PreviewShape::Dial
    }
}

/// The class of a line in the rectangular preview.
pub fn rect_line_class(style: &str) -> (r: &'static str)
    ensures
        r@ == (if style@ == "title"@ {
            "text-white text-sm font-semibold truncate"@
        } else if style@ == "subtitle"@ {
            "text-gray-400 text-xs truncate"@
        } else {
            "text-gray-500 text-xs truncate"@
        }),
{
    if same(style, "title") {
        "text-white text-sm font-semibold truncate"
    } else if same(style, "subtitle") {
        "text-gray-400 text-xs truncate"
    } else {
        "text-gray-500 text-xs truncate"
    }
}

/// What tapping an element does; nothing where tapping does nothing.
pub open spec fn title_text(element: ElementDef) -> Seq<char> {
    match element.on_tap {
        Some(action) => action.action@,
        None => ""@,
    }
}

/// An element is hinted at by what tapping it does; one that does nothing has no hint.
pub proof fn hints_tell_what_tapping_does(element: ElementDef)
    ensures
        element.on_tap is Some ==> title_text(element) == element.on_tap->0.action@,
        element.on_tap is None ==> title_text(element).len() == 0,
        element.display.icon is Some && element.on_tap is Some ==> ({
            let (icon, active, title) = rect_element_model(element);
            title == element.on_tap->0.action@ && active == (element.display.active == Some(true))
        }),
{
    reveal_strlit("");
}

/// The hint on an element of the rectangular preview: what tapping it does.
pub fn element_title(element: &ElementDef) -> (r: &str)
    ensures
        r@ == title_text(*element),
{
    match &element.on_tap {
        Some(action) => action.action.as_str(),
        None => "",
    }
}

/// A symbol of the rectangular preview.
#[derive(Debug)]
pub struct RectIcon {
    pub icon: &'static str,
    pub active: bool,
    /// The hint on it.
    pub title: String,
}

/// What a symbol of the rectangular preview shows, with its hint.
pub open spec fn rect_icon_model(icon: RectIcon) -> (Seq<char>, bool, Seq<char>) {
    (icon.icon@, icon.active, icon.title@)
}

/// What an element with a symbol shows in the rectangular preview.
pub open spec fn rect_element_model(e: ElementDef) -> (Seq<char>, bool, Seq<char>) {
    (icon_text(e.display.icon->0@), e.display.active == Some(true), title_text(e))
}

/// The symbols of the rectangular preview: one for each element that has one, in
/// their order.
pub fn rect_icons(elements: &Vec<ElementDef>) -> (r: Vec<RectIcon>)
    ensures
        r@.map_values(|icon: RectIcon| rect_icon_model(icon)) == elements@.filter(
            |e: ElementDef| has_icon(e),
        ).map_values(|e: ElementDef| rect_element_model(e)),
{
    let ghost keep = |e: ElementDef| has_icon(e);
    let ghost show = |e: ElementDef| rect_element_model(e);
    let ghost model = |icon: RectIcon| rect_icon_model(icon);
    let mut icons: Vec<RectIcon> = Vec::new();
    let mut i: usize = 0;
    proof {
        crate::seqs::filter_empty(elements@, keep);
        assert(icons@.map_values(model) =~= elements@.take(0).filter(keep).map_values(show));
    }
    while i < elements.len()
        invariant
            i <= elements@.len(),
            keep == (|e: ElementDef| has_icon(e)),
            show == (|e: ElementDef| rect_element_model(e)),
            model == (|icon: RectIcon| rect_icon_model(icon)),
            icons@.map_values(model) == elements@.take(i as int).filter(keep).map_values(show),
        decreases elements@.len() - i,
    {
        let ghost before = icons@;
        let ghost kept = elements@.take(i as int).filter(keep);
        proof {
            crate::seqs::filter_step(elements@, i as int, keep);
        }
        let element = &elements[i];
        if let Some(icon) = &element.display.icon {
            let active = match element.display.active {
                Some(active) => active,
                None => false,
            };
            let shown = RectIcon {
                icon: icon_char(icon.as_str()),
                active,
                title: element_title(element).to_owned(),
            };
            icons.push(shown);
            assert(before.push(shown).map_values(model) =~= before.map_values(model).push(
                rect_icon_model(shown),
            ));
            assert(kept.push(*element).map_values(show) =~= kept.map_values(show).push(
                rect_element_model(*element),
            ));
        }
        i = i + 1;
    }
    assert(elements@.take(i as int) =~= elements@);
    icons
}

/// Whether a device goes by its id: it has no name and no address.
pub open spec fn goes_by_id(knob: KnobDevice) -> bool {
    !(knob.name is Some && knob.name->0@.len() > 0) && !(knob.status is Some && knob.status->0.ip is Some
        && knob.status->0.ip->0@.len() > 0)
}

/// Whether a device goes by its id.
pub fn shows_id(knob: &KnobDevice) -> (r: bool)
    ensures
        r == goes_by_id(*knob),
{
    if let Some(name) = &knob.name {
        if !name.as_str().is_empty() {
            return false;
        }
    }
    if let Some(status) = &knob.status {
        if let Some(ip) = &status.ip {
            return ip.as_str().is_empty();
        }
    }
    true
}

/// The name of a device in the device list: its own, its address, or its id. An id
/// of more than twelve bytes is cut after the twelfth.
pub open spec fn device_name(knob: KnobDevice) -> Seq<char> {
    let bytes = encode_utf8(knob.knob_id@);
    if knob.name is Some && knob.name->0@.len() > 0 {
        knob.name->0@
    } else if knob.status is Some && knob.status->0.ip is Some && knob.status->0.ip->0@.len() > 0 {
        "Device @ "@ + knob.status->0.ip->0@
    } else if bytes.len() > 12 {
        decode_utf8(bytes.subrange(0, 12)) + "..."@
    } else {
        knob.knob_id@
    }
}

/// The name of a device in the device list. An id that is cut must not be cut
/// within a character.
pub fn device_display_name(knob: &KnobDevice) -> (r: String)
    requires
        goes_by_id(*knob) && encode_utf8(knob.knob_id@).len() > 12 ==> is_char_boundary(
            encode_utf8(knob.knob_id@),
            12,
        ),
    ensures
        r@ == device_name(*knob),
{
    if let Some(name) = &knob.name {
        if !name.as_str().is_empty() {
            return name.clone();
        }
    }
    if let Some(status) = &knob.status {
        if let Some(ip) = &status.ip {
            if !ip.as_str().is_empty() {
                return cat2("Device @ ", ip.as_str());
            }
        }
    }
    let id: &str = knob.knob_id.as_str();
    if id.as_bytes().len() > 12 {
        let (head, tail) = id.split_at(12);
        proof {
            vstd::utf8::encode_utf8_decode_utf8(head@);
            assert(head@ == decode_utf8(head.spec_bytes()));
        }
        cat2(head, "...")
    } else {
        knob.knob_id.clone()
    }
}

// ── Palette ─────────────────────────────────────────────────────────────────

/// An element that can be asked for.
#[derive(Clone, Copy, Debug)]
pub struct PaletteElement {
    pub icon: &'static str,
    pub label: &'static str,
    pub description: &'static str,
    pub category: &'static str,
}

/// What an element of the palette shows.
pub struct PaletteModel {
    pub icon: Seq<char>,
    pub label: Seq<char>,
    pub description: Seq<char>,
    pub category: Seq<char>,
}

impl PaletteElement {
    pub open spec fn model(self) -> PaletteModel {
        PaletteModel {
            icon: self.icon@,
            label: self.label@,
            description: self.description@,
            category: self.category@,
        }
    }
}

/// An element of the palette.
pub open spec fn palette_entry(
    icon: Seq<char>,
    label: Seq<char>,
    description: Seq<char>,
    category: Seq<char>,
) -> PaletteModel {
    PaletteModel { icon, label, description, category }
}

/// The elements that can be asked for, grouped by category.
pub open spec fn palette_model() -> Seq<PaletteModel> {
    seq![
        palette_entry("\u{25B6}"@, "Play/Pause"@, "Add a play/pause toggle"@, "Transport"@),
        palette_entry("\u{23EE}"@, "Previous"@, "Add a previous track button"@, "Transport"@),
        palette_entry("\u{23ED}"@, "Next"@, "Add a next track button"@, "Transport"@),
        palette_entry("\u{23F9}"@, "Stop"@, "Add a stop button"@, "Transport"@),
        palette_entry("\u{1F500}"@, "Shuffle"@, "Add a shuffle toggle"@, "Transport"@),
        palette_entry("\u{1F501}"@, "Repeat"@, "Add a repeat toggle"@, "Transport"@),
        palette_entry("30\u{00BB}"@, "+30s"@, "Add a 30-second forward skip"@, "Seek"@),
        palette_entry("10\u{00BB}"@, "+10s"@, "Add a 10-second forward skip"@, "Seek"@),
        palette_entry("\u{00AB}30"@, "-30s"@, "Add a 30-second replay"@, "Seek"@),
        palette_entry("\u{00AB}10"@, "-10s"@, "Add a 10-second replay"@, "Seek"@),
        palette_entry("\u{1F507}"@, "Mute"@, "Add a mute toggle"@, "Volume"@),
    ]
}

/// Returns the available elements grouped by category.
pub fn palette_elements() -> (r: Vec<PaletteElement>)
    ensures
        r@.map_values(|e: PaletteElement| e.model()) == palette_model(),
{
    let mut r: Vec<PaletteElement> = Vec::new();
    // Transport
    r.push(
        PaletteElement {
            icon: "\u{25B6}",
            label: "Play/Pause",
            description: "Add a play/pause toggle",
            category: "Transport",
        },
    );
    r.push(
        PaletteElement {
            icon: "\u{23EE}",
            label: "Previous",
            description: "Add a previous track button",
            category: "Transport",
        },
    );
    r.push(
        PaletteElement {
            icon: "\u{23ED}",
            label: "Next",
            description: "Add a next track button",
            category: "Transport",
        },
    );
    r.push(
        PaletteElement {
            icon: "\u{23F9}",
            label: "Stop",
            description: "Add a stop button",
            category: "Transport",
        },
    );
    r.push(
        PaletteElement {
            icon: "\u{1F500}",
            label: "Shuffle",
            description: "Add a shuffle toggle",
            category: "Transport",
        },
    );
    r.push(
        PaletteElement {
            icon: "\u{1F501}",
            label: "Repeat",
            description: "Add a repeat toggle",
            category: "Transport",
        },
    );
    // Seek
    r.push(
        PaletteElement {
            icon: "30\u{00BB}",
            label: "+30s",
            description: "Add a 30-second forward skip",
            category: "Seek",
        },
    );
    r.push(
        PaletteElement {
            icon: "10\u{00BB}",
            label: "+10s",
            description: "Add a 10-second forward skip",
            category: "Seek",
        },
    );
    r.push(
        PaletteElement {
            icon: "\u{00AB}30",
            label: "-30s",
            description: "Add a 30-second replay",
            category: "Seek",
        },
    );
    r.push(
        PaletteElement {
            icon: "\u{00AB}10",
            label: "-10s",
            description: "Add a 10-second replay",
            category: "Seek",
        },
    );
    // Volume
    r.push(
        PaletteElement {
            icon: "\u{1F507}",
            label: "Mute",
            description: "Add a mute toggle",
            category: "Volume",
        },
    );
    assert(r@.map_values(|e: PaletteElement| e.model()) =~= palette_model());
    r
}

/// A sequence without the elements that repeat the one before them.
pub open spec fn dedup(s: Seq<Seq<char>>) -> Seq<Seq<char>>
    decreases s.len(),
{
    if s.len() <= 1 {
        s
    } else if s[s.len() - 1] == s[s.len() - 2] {
        dedup(s.subrange(0, s.len() - 1))
    } else {
        dedup(s.subrange(0, s.len() - 1)).push(s[s.len() - 1])
    }
}

/// The categories of the palette's elements, element by element.
pub open spec fn categories_of(elements: Seq<PaletteElement>) -> Seq<Seq<char>> {
    elements.map_values(|e: PaletteElement| e.category@)
}

/// The categories of the palette in order, each run named once.
pub fn palette_categories(elements: &Vec<PaletteElement>) -> (r: Vec<&'static str>)
    ensures
        r@.map_values(|c: &'static str| c@) == dedup(categories_of(elements@)),
{
    let ghost all = categories_of(elements@);
    let ghost text = |c: &'static str| c@;
    let mut r: Vec<&'static str> = Vec::new();
    let mut i: usize = 0;
    assert(r@.map_values(text) =~= dedup(all.subrange(0, 0)));
    while i < elements.len()
        invariant
            i <= elements@.len(),
            all == categories_of(elements@),
            text == (|c: &'static str| c@),
            r@.map_values(text) == dedup(all.subrange(0, i as int)),
        decreases elements@.len() - i,
    {
        let ghost upto = all.subrange(0, i + 1);
        let ghost before = r@;
        assert(upto.subrange(0, upto.len() - 1) =~= all.subrange(0, i as int));
        let category = elements[i].category;
        if i == 0 || !same(elements[i - 1].category, category) {
            r.push(category);
            assert(before.push(category).map_values(text) =~= before.map_values(text).push(
                category@,
            ));
            if i == 0 {
                assert(upto =~= seq![category@]);
                assert(before.map_values(text) =~= Seq::<Seq<char>>::empty());
            }
        }
        i = i + 1;
    }
    assert(all.subrange(0, i as int) =~= all);
    r
}

/// The elements of a category, in their order.
pub fn palette_members<'a>(elements: &'a Vec<PaletteElement>, category: &str) -> (r: Vec<
    &'a PaletteElement,
>)
    ensures
        derefs(r@) == elements@.filter(|e: PaletteElement| e.category@ == category@),
{
    let ghost keep = |e: PaletteElement| e.category@ == category@;
    let mut members: Vec<&'a PaletteElement> = Vec::new();
    let mut i: usize = 0;
    proof {
        crate::seqs::filter_empty(elements@, keep);
        assert(derefs(members@) =~= elements@.take(0).filter(keep));
    }
    while i < elements.len()
        invariant
            i <= elements@.len(),
            keep == (|e: PaletteElement| e.category@ == category@),
            derefs(members@) == elements@.take(i as int).filter(keep),
        decreases elements@.len() - i,
    {
        let ghost before = members@;
        proof {
            crate::seqs::filter_step(elements@, i as int, keep);
        }
        if same(elements[i].category, category) {
            members.push(&elements[i]);
            assert(derefs(members@) =~= derefs(before).push(elements@[i as int]));
        }
        i = i + 1;
    }
    assert(elements@.take(i as int) =~= elements@);
    members
}

/// The description box after an element of the palette was picked: the element, or
/// the text so far with the element added.
pub fn prompt_with(current: &str, description: &str) -> (r: String)
    ensures
        r@ == (if trimmed(current@).len() == 0 {
            description@
        } else {
            trimmed(current@) + ", "@ + lowercase(description@)
        }),
{
    let text = trim(current);
    if text.as_str().is_empty() {
        description.to_owned()
    } else {
        cat3(text.as_str(), ", ", to_lowercase(description).as_str())
    }
}

// ── Chat ────────────────────────────────────────────────────────────────────

/// A message of the chat.
#[derive(Debug)]
pub struct ChatMessage {
    pub is_user: bool,
    pub text: String,
}

/// One message was added at the end.
pub open spec fn added(
    before: Seq<ChatMessage>,
    after: Seq<ChatMessage>,
    is_user: bool,
    text: Seq<char>,
) -> bool {
    &&& after.len() == before.len() + 1
    &&& after.take(before.len() as int) == before
    &&& after[before.len() as int].is_user == is_user
    &&& after[before.len() as int].text@ == text
}

/// What is asked of the layout generator.
#[derive(Debug)]
pub struct GenerateRequest {
    pub prompt: String,
    pub device_type: Option<String>,
}

/// The chat with the layout generator.
pub struct Chat {
    pub input: String,
    pub messages: Vec<ChatMessage>,
    pub loading: bool,
}

impl Chat {
    pub fn new() -> (r: Self)
        ensures
            r.input@.len() == 0,
            r.messages@.len() == 0,
            !r.loading,
    {
        Chat { input: String::new(), messages: Vec::new(), loading: false }
    }

    /// Adds a message of the page's own.
    pub fn note(&mut self, text: String)
        ensures
            added(old(self).messages@, final(self).messages@, false, text@),
            final(self).input == old(self).input,
            final(self).loading == old(self).loading,
    {
        self.messages.push(ChatMessage { is_user: false, text });
        assert(self.messages@.take(old(self).messages@.len() as int) =~= old(self).messages@);
    }

    /// Send was pressed. Nothing is sent while an answer is awaited or where there
    /// is nothing but space; else the text becomes a message and the box empties.
    pub fn send(&mut self, device_type: &str) -> (r: Option<GenerateRequest>)
        ensures
            r is Some <==> trimmed(old(self).input@).len() > 0 && !old(self).loading,
            r is None ==> *final(self) == *old(self),
            r is Some ==> {
                &&& final(self).loading
                &&& final(self).input@.len() == 0
                &&& added(
                    old(self).messages@,
                    final(self).messages@,
                    true,
                    trimmed(old(self).input@),
                )
                &&& r->0.prompt@ == trimmed(old(self).input@)
                &&& opt_text(r->0.device_type) == Some(lowercase(device_type@))
            },
    {
        let input = trim(self.input.as_str());
        if input.as_str().is_empty() || self.loading {
            return None;
        }
        self.messages.push(ChatMessage { is_user: true, text: input.clone() });
        assert(self.messages@.take(old(self).messages@.len() as int) =~= old(self).messages@);
        self.input = String::new();
        self.loading = true;
        Some(GenerateRequest { prompt: input, device_type: Some(to_lowercase(device_type)) })
    }

    /// The generator answered. A layout replaces the preview; an error is told and
    /// leaves the preview.
    pub fn answered(
        &mut self,
        preview: &mut Option<ManifestResponse>,
        answer: Result<ManifestResponse, String>,
    )
        ensures
            !final(self).loading,
            final(self).input == old(self).input,
            match answer {
                Ok(manifest) => *final(preview) == Some(manifest) && added(
                    old(self).messages@,
                    final(self).messages@,
                    false,
                    "ok:Layout updated."@,
                ),
                Err(error) => *final(preview) == *old(preview) && added(
                    old(self).messages@,
                    final(self).messages@,
                    false,
                    "error:"@ + error@,
                ),
            },
    {
        match answer {
            Ok(manifest) => {
                *preview = Some(manifest);
                self.note("ok:Layout updated.".to_owned());
            },
            Err(error) => {
                self.note(cat2("error:", error.as_str()));
            },
        }
        self.loading = false;
    }

    /// The preview was reset.
    pub fn reset(&mut self, preview: &mut Option<ManifestResponse>)
        ensures
            *final(preview) is None,
            added(old(self).messages@, final(self).messages@, false, "ok:Layout cleared."@),
            final(self).input == old(self).input,
            final(self).loading == old(self).loading,
    {
        *preview = None;
        self.note("ok:Layout cleared.".to_owned());
    }

    /// A saved layout becomes the preview.
    pub fn load_layout(&mut self, preview: &mut Option<ManifestResponse>, layout: LayoutSummary)
        ensures
            (*final(preview)) is Some,
            (*final(preview))->0.screens == layout.screens,
            (*final(preview))->0.version == 0,
            (*final(preview))->0.sha@.len() == 0,
            (*final(preview))->0.fast is None,
            added(
                old(self).messages@,
                final(self).messages@,
                false,
                "ok:Loaded layout \""@ + layout.name@ + "\"."@,
            ),
            final(self).input == old(self).input,
            final(self).loading == old(self).loading,
    {
        *preview =
        Some(
            ManifestResponse {
                version: 0,
                sha: String::new(),
                screens: layout.screens,
                fast: None,
            },
        );
        self.note(cat3("ok:Loaded layout \"", layout.name.as_str(), "\"."));
    }

    /// The condition stack was stored, or could not be.
    pub fn stack_saved(&mut self, answer: Result<(), String>)
        ensures
            final(self).input == old(self).input,
            final(self).loading == old(self).loading,
            added(
                old(self).messages@,
                final(self).messages@,
                false,
                match answer {
                    Ok(_) => "ok:Condition stack saved."@,
                    Err(error) => "error:Stack save failed: "@ + error@,
                },
            ),
    {
        match answer {
            Ok(_) => {
                self.note("ok:Condition stack saved.".to_owned());
            },
            Err(error) => {
                self.note(cat2("error:Stack save failed: ", error.as_str()));
            },
        }
    }
}

/// How a message of the chat is shown.
#[derive(Debug)]
pub struct ShownMessage {
    pub class: &'static str,
    pub text: String,
}

/// How a message is shown: the page's own messages carry their kind in front, which
/// becomes a colour and is not shown.
pub fn shown_message(message: &ChatMessage) -> (r: ShownMessage)
    ensures
        message.is_user ==> r.class@ == "inline-block bg-blue-900 rounded px-2 py-1"@ && r.text@
            == message.text@,
        !message.is_user ==> (if crate::text::has_prefix(message.text@, "error:"@) {
            r.class@ == "inline-block bg-red-900 text-red-200 rounded px-2 py-1"@ && "error:"@
                + r.text@ == message.text@
        } else if crate::text::has_prefix(message.text@, "ok:"@) {
            r.class@ == "inline-block bg-green-900 text-green-200 rounded px-2 py-1"@ && "ok:"@
                + r.text@ == message.text@
        } else {
            r.class@ == "inline-block bg-base-200 rounded px-2 py-1"@ && r.text@ == message.text@
        }),
{
    if message.is_user {
        return ShownMessage {
            class: "inline-block bg-blue-900 rounded px-2 py-1",
            text: message.text.clone(),
        };
    }
    if let Some(text) = strip_prefix(message.text.as_str(), "error:") {
        assert("error:"@ + text@ =~= message.text@);
        return ShownMessage {
            class: "inline-block bg-red-900 text-red-200 rounded px-2 py-1",
            text,
        };
    }
    if let Some(text) = strip_prefix(message.text.as_str(), "ok:") {
        assert("ok:"@ + text@ =~= message.text@);
        return ShownMessage {
            class: "inline-block bg-green-900 text-green-200 rounded px-2 py-1",
            text,
        };
    }
    ShownMessage {
        class: "inline-block bg-base-200 rounded px-2 py-1",
        text: message.text.clone(),
    }
}

// ── Keeping layouts ─────────────────────────────────────────────────────────

/// A layout to keep.
pub struct SaveLayoutRequest<'a> {
    pub name: String,
    pub screens: &'a Vec<ScreenDef>,
    pub nav: NavDef,
}

/// What pressing Save comes to.
pub enum SaveLayout<'a> {
    /// There is no name.
    Unnamed,
    /// There is nothing to keep.
    NothingToSave,
    Send(SaveLayoutRequest<'a>),
}

/// The ids of screens, in order.
pub open spec fn screen_ids(screens: Seq<ScreenDef>) -> Seq<Seq<char>> {
    screens.map_values(|s: ScreenDef| s.id@)
}

/// What pressing Save comes to. The screens are reached in their order, starting
/// with the first.
pub fn save_layout<'a>(name: &str, preview: Option<&'a ManifestResponse>) -> (r: SaveLayout<'a>)
    ensures
        match r {
            SaveLayout::Unnamed => trimmed(name@).len() == 0,
            SaveLayout::NothingToSave => trimmed(name@).len() > 0 && (preview is None
                || preview->0.screens@.len() == 0),
            SaveLayout::Send(request) => {
                &&& trimmed(name@).len() > 0
                &&& preview is Some
                &&& preview->0.screens@.len() > 0
                &&& request.name@ == trimmed(name@)
                &&& *request.screens == preview->0.screens
                &&& texts(request.nav.order@) == screen_ids(preview->0.screens@)
                &&& request.nav.default@ == preview->0.screens@[0].id@
            },
        },
{
    let name = trim(name);
    if name.as_str().is_empty() {
        return SaveLayout::Unnamed;
    }
    let preview = match preview {
        Some(preview) => preview,
        None => {
            return SaveLayout::NothingToSave;
        },
    };
    if preview.screens.len() == 0 {
        return SaveLayout::NothingToSave;
    }
    let mut order: Vec<String> = Vec::new();
    let mut i: usize = 0;
    while i < preview.screens.len()
        invariant
            i <= preview.screens@.len(),
            order@.len() == i,
            forall|j: int| 0 <= j < i ==> (#[trigger] order@[j])@ == preview.screens@[j].id@,
        decreases preview.screens@.len() - i,
    {
        order.push(preview.screens[i].id.clone());
        i = i + 1;
    }
    assert(texts(order@) =~= screen_ids(preview.screens@));
    SaveLayout::Send(
        SaveLayoutRequest {
            name,
            screens: &preview.screens,
            nav: NavDef { order, default: preview.screens[0].id.clone() },
        },
    )
}

/// The saved layouts, and the box for a new layout's name.
pub struct LayoutShelf {
    pub layouts: Vec<LayoutSummary>,
    pub show_save_input: bool,
    pub name_input: String,
}

impl LayoutShelf {
    pub fn new() -> (r: Self)
        ensures
            r.layouts@.len() == 0,
            !r.show_save_input,
            r.name_input@.len() == 0,
    {
        LayoutShelf { layouts: Vec::new(), show_save_input: false, name_input: String::new() }
    }

    /// The name box was cancelled.
    pub fn cancel_save(&mut self)
        ensures
            final(self).layouts == old(self).layouts,
            !final(self).show_save_input,
            final(self).name_input@.len() == 0,
    {
        self.show_save_input = false;
        self.name_input = String::new();
    }

    /// A layout was kept, or could not be.
    pub fn saved(&mut self, chat: &mut Chat, answer: Result<LayoutSummary, String>)
        ensures
            final(chat).input == old(chat).input,
            final(chat).loading == old(chat).loading,
            match answer {
                Ok(layout) => {
                    &&& final(self).layouts@ == old(self).layouts@.push(layout)
                    &&& !final(self).show_save_input
                    &&& final(self).name_input@.len() == 0
                    &&& added(
                        old(chat).messages@,
                        final(chat).messages@,
                        false,
                        "ok:Layout \""@ + layout.name@ + "\" saved."@,
                    )
                },
                Err(error) => {
                    &&& *final(self) == *old(self)
                    &&& added(
                        old(chat).messages@,
                        final(chat).messages@,
                        false,
                        "error:Save failed: "@ + error@,
                    )
                },
            },
    {
        match answer {
            Ok(layout) => {
                chat.note(cat3("ok:Layout \"", layout.name.as_str(), "\" saved."));
                self.layouts.push(layout);
                self.cancel_save();
            },
            Err(error) => {
                chat.note(cat2("error:Save failed: ", error.as_str()));
            },
        }
    }

    /// A layout was deleted, or could not be.
    pub fn deleted(&mut self, chat: &mut Chat, id: &str, answer: Result<(), String>)
        ensures
            final(self).show_save_input == old(self).show_save_input,
            final(self).name_input == old(self).name_input,
            final(chat).input == old(chat).input,
            final(chat).loading == old(chat).loading,
            match answer {
                Ok(_) => final(self).layouts@ == old(self).layouts@.filter(
                    |l: LayoutSummary| l.id@ != id@,
                ) && added(
                    old(chat).messages@,
                    final(chat).messages@,
                    false,
                    "ok:Layout deleted."@,
                ),
                Err(error) => final(self).layouts == old(self).layouts && added(
                    old(chat).messages@,
                    final(chat).messages@,
                    false,
                    "error:Delete failed: "@ + error@,
                ),
            },
    {
        match answer {
            Ok(_) => {
                remove_layout(&mut self.layouts, id);
                chat.note("ok:Layout deleted.".to_owned());
            },
            Err(error) => {
                chat.note(cat2("error:Delete failed: ", error.as_str()));
            },
        }
    }
}

fn remove_layout(layouts: &mut Vec<LayoutSummary>, id: &str)
    ensures
        final(layouts)@ == old(layouts)@.filter(|l: LayoutSummary| l.id@ != id@),
{
    let ghost all = layouts@;
    let ghost keep = |l: LayoutSummary| l.id@ != id@;
    let ghost mut seen: int = 0;
    let mut i: usize = 0;
    proof {
        crate::seqs::filter_empty(all, keep);
        assert(layouts@ =~= all.take(0).filter(keep) + all.subrange(0, all.len() as int));
    }
    while i < layouts.len()
        invariant
            0 <= seen <= all.len(),
            keep == (|l: LayoutSummary| l.id@ != id@),
            i == all.take(seen).filter(keep).len(),
            layouts@ == all.take(seen).filter(keep) + all.subrange(seen, all.len() as int),
        decreases all.len() - seen,
    {
        let ghost kept = all.take(seen).filter(keep);
        let ghost before = layouts@;
        assert(seen < all.len());
        assert(before[i as int] == all[seen]);
        proof {
            crate::seqs::filter_step(all, seen, keep);
        }
        if same(layouts[i].id.as_str(), id) {
            layouts.remove(i);
            assert(layouts@ =~= kept + all.subrange(seen + 1, all.len() as int));
        } else {
            i = i + 1;
            assert(layouts@ =~= kept.push(all[seen]) + all.subrange(seen + 1, all.len() as int));
        }
        proof {
            seen = seen + 1;
        }
    }
    assert(seen == all.len());
    assert(all.take(seen) =~= all);
    assert(layouts@ =~= all.filter(keep));
}

// ── Condition stack ─────────────────────────────────────────────────────────

/// A condition under which a layout is shown.
#[derive(Debug)]
pub struct ConditionDef {
    pub field: String,
    pub op: String,
    pub value: Option<String>,
}

/// A layout with the conditions under which it is shown.
#[derive(Debug)]
pub struct StackEntryDef {
    pub layout_id: String,
    pub conditions: Vec<ConditionDef>,
    pub enabled: bool,
}

/// A stored entry that does not say so is enabled.
pub fn default_true_val() -> (r: bool)
    ensures
        r,
{
    true
}

/// A condition in words.
pub open spec fn condition_text(c: ConditionDef) -> Seq<char> {
    match c.value {
        Some(value) => c.field@ + " "@ + c.op@ + " "@ + value@,
        None => c.field@ + " "@ + c.op@,
    }
}

/// A condition in words.
pub fn condition_display(condition: &ConditionDef) -> (r: String)
    ensures
        r@ == condition_text(*condition),
{
    match &condition.value {
        Some(value) => cat5(
            condition.field.as_str(),
            " ",
            condition.op.as_str(),
            " ",
            value.as_str(),
        ),
        None => cat3(condition.field.as_str(), " ", condition.op.as_str()),
    }
}

/// The conditions of an entry in words.
pub fn conditions_summary(conditions: &Vec<ConditionDef>) -> (r: String)
    ensures
        r@ == (if conditions@.len() == 0 {
            "No conditions"@
        } else {
            joined(conditions@.map_values(|c: ConditionDef| condition_text(c)), ", "@)
        }),
{
    if conditions.len() == 0 {
        return "No conditions".to_owned();
    }
    let mut parts: Vec<String> = Vec::new();
    let mut i: usize = 0;
    while i < conditions.len()
        invariant
            i <= conditions@.len(),
            parts@.len() == i,
            forall|j: int|
                0 <= j < i ==> (#[trigger] parts@[j])@ == condition_text(conditions@[j]),
        decreases conditions@.len() - i,
    {
        parts.push(condition_display(&conditions[i]));
        i = i + 1;
    }
    assert(texts(parts@) =~= conditions@.map_values(|c: ConditionDef| condition_text(c)));
    join(&parts, ", ")
}

/// The name of the first saved layout with an id; the id itself where none has it.
pub open spec fn layout_name_of(layouts: Seq<LayoutSummary>, id: Seq<char>) -> Seq<char>
    decreases layouts.len(),
{
    if layouts.len() == 0 {
        id
    } else if layouts[0].id@ == id {
        layouts[0].name@
    } else {
        layout_name_of(layouts.subrange(1, layouts.len() as int), id)
    }
}

/// The name of a stack entry's layout.
pub fn entry_layout_name(layouts: &Vec<LayoutSummary>, layout_id: &str) -> (r: String)
    ensures
        r@ == layout_name_of(layouts@, layout_id@),
{
    let mut i: usize = 0;
    assert(layouts@.subrange(0, layouts@.len() as int) =~= layouts@);
    while i < layouts.len()
        invariant
            i <= layouts@.len(),
            layout_name_of(layouts@, layout_id@) == layout_name_of(
                layouts@.subrange(i as int, layouts@.len() as int),
                layout_id@,
            ),
        decreases layouts@.len() - i,
    {
        let ghost rest = layouts@.subrange(i as int, layouts@.len() as int);
        if same(layouts[i].id.as_str(), layout_id) {
            return layouts[i].name.clone();
        }
        assert(rest.subrange(1, rest.len() as int) =~= layouts@.subrange(
            i + 1,
            layouts@.len() as int,
        ));
        i = i + 1;
    }
    layout_id.to_owned()
}

/// The condition stack of the selected device, and the form for a new entry.
pub struct StackEditor {
    pub selected_device: Option<String>,
    pub entries: Vec<StackEntryDef>,
    pub loading: bool,
    pub show_add_entry: bool,
    pub new_layout_id: String,
    pub new_conditions: Vec<ConditionDef>,
    pub cond_field: String,
    pub cond_op: String,
    pub cond_value: String,
}

/// The address of a device's condition stack.
pub open spec fn stack_address(device: Seq<char>) -> Seq<char> {
    "/api/devices/"@ + device + "/stack"@
}

impl StackEditor {
    pub fn new() -> (r: Self)
        ensures
            r.selected_device is None,
            r.entries@.len() == 0,
            !r.loading && !r.show_add_entry,
            r.new_layout_id@.len() == 0,
            r.new_conditions@.len() == 0,
            r.cond_field@ == "zone_name"@,
            r.cond_op@ == "equals"@,
            r.cond_value@.len() == 0,
    {
        StackEditor {
            selected_device: None,
            entries: Vec::new(),
            loading: false,
            show_add_entry: false,
            new_layout_id: String::new(),
            new_conditions: Vec::new(),
            cond_field: "zone_name".to_owned(),
            cond_op: "equals".to_owned(),
            cond_value: String::new(),
        }
    }

    /// Another device was selected, or none. Gives the address to fetch its stack
    /// from; without a device the stack is empty.
    pub fn select(&mut self, device: String) -> (fetch: Option<String>)
        ensures
            device@.len() == 0 ==> final(self).selected_device is None && fetch is None
                && final(self).entries@.len() == 0 && final(self).loading == old(self).loading,
            device@.len() > 0 ==> final(self).selected_device == Some(device) && opt_text(fetch)
                == Some(stack_address(device@)) && final(self).loading && final(self).entries
                == old(self).entries,
            final(self).show_add_entry == old(self).show_add_entry,
            final(self).new_layout_id == old(self).new_layout_id,
            final(self).new_conditions == old(self).new_conditions,
            final(self).cond_field == old(self).cond_field,
            final(self).cond_op == old(self).cond_op,
            final(self).cond_value == old(self).cond_value,
    {
        if device.as_str().is_empty() {
            self.selected_device = None;
            self.entries = Vec::new();
            None
        } else {
            let url = cat3("/api/devices/", device.as_str(), "/stack");
            self.selected_device = Some(device);
            self.loading = true;
            Some(url)
        }
    }

    /// A stack arrived, or could not be fetched. An answer for a device that is no
    /// longer selected is dropped.
    pub fn fetched(&mut self, device: &str, answer: Option<Vec<StackEntryDef>>)
        ensures
            !final(self).loading,
            opt_text(old(self).selected_device) == Some(device@) && answer is Some
                ==> final(self).entries == answer->0,
            opt_text(old(self).selected_device) == Some(device@) && answer is None
                ==> final(self).entries@.len() == 0,
            opt_text(old(self).selected_device) != Some(device@) ==> final(self).entries == old(
                self,
            ).entries,
            *final(self) == (StackEditor {
                entries: final(self).entries,
                loading: false,
                ..*old(self)
            }),
    {
        if crate::text::opt_is(&self.selected_device, device) {
            match answer {
                Some(entries) => {
                    self.entries = entries;
                },
                None => {
                    self.entries = Vec::new();
                },
            }
        }
        self.loading = false;
    }

    /// Where to store the stack: nowhere without a device.
    pub fn save_address(&self) -> (r: Option<String>)
        ensures
            opt_text(r) == (match self.selected_device {
                Some(device) => Some(stack_address(device@)),
                None => None,
            }),
    {
        match &self.selected_device {
            Some(device) => Some(cat3("/api/devices/", device.as_str(), "/stack")),
            None => None,
        }
    }

    /// Adds the typed condition to the new entry. The default condition, and a
    /// blank value, have none.
    pub fn add_condition(&mut self)
        ensures
            final(self).cond_value@.len() == 0,
            final(self).new_conditions@.len() == old(self).new_conditions@.len() + 1,
            final(self).new_conditions@.take(old(self).new_conditions@.len() as int) == old(
                self,
            ).new_conditions@,
            ({
                let added = final(self).new_conditions@.last();
                &&& added.field == old(self).cond_field
                &&& added.op == old(self).cond_op
                &&& opt_text(added.value) == (if old(self).cond_field@ == "default"@ || trimmed(
                    old(self).cond_value@,
                ).len() == 0 {
                    None
                } else {
                    Some(trimmed(old(self).cond_value@))
                })
            }),
            *final(self) == (StackEditor {
                new_conditions: final(self).new_conditions,
                cond_value: final(self).cond_value,
                ..*old(self)
            }),
    {
        let value_text = trim(self.cond_value.as_str());
        let value = if same(self.cond_field.as_str(), "default") || value_text.as_str().is_empty() {
            None
        } else {
            Some(value_text)
        };
        self.new_conditions.push(
            ConditionDef { field: self.cond_field.clone(), op: self.cond_op.clone(), value },
        );
        assert(self.new_conditions@.take(old(self).new_conditions@.len() as int) =~= old(
            self,
        ).new_conditions@);
        self.cond_value = String::new();
    }

    /// Takes a condition out of the new entry.
    pub fn remove_condition(&mut self, index: usize)
        requires
            index < old(self).new_conditions@.len(),
        ensures
            final(self).new_conditions@ == old(self).new_conditions@.remove(index as int),
            *final(self) == (StackEditor {
                new_conditions: final(self).new_conditions,
                ..*old(self)
            }),
    {
        self.new_conditions.remove(index);
    }

    /// Adds the new entry, enabled, at the end of the stack and clears its form.
    /// Without a layout nothing happens.
    pub fn add_entry(&mut self)
        ensures
            old(self).new_layout_id@.len() == 0 ==> *final(self) == *old(self),
            old(self).new_layout_id@.len() > 0 ==> {
                &&& final(self).entries@ == old(self).entries@.push(
                    StackEntryDef {
                        layout_id: old(self).new_layout_id,
                        conditions: old(self).new_conditions,
                        enabled: true,
                    },
                )
                &&& final(self).new_layout_id@.len() == 0
                &&& final(self).new_conditions@.len() == 0
                &&& !final(self).show_add_entry
                &&& *final(self) == (StackEditor {
                    entries: final(self).entries,
                    new_layout_id: final(self).new_layout_id,
                    new_conditions: final(self).new_conditions,
                    show_add_entry: false,
                    ..*old(self)
                })
            },
    {
        if self.new_layout_id.as_str().is_empty() {
            return;
        }
        let mut layout_id = String::new();
        let mut conditions: Vec<ConditionDef> = Vec::new();
        std::mem::swap(&mut layout_id, &mut self.new_layout_id);
        std::mem::swap(&mut conditions, &mut self.new_conditions);
        self.entries.push(StackEntryDef { layout_id, conditions, enabled: true });
        self.show_add_entry = false;
    }

    /// The form for a new entry was cancelled.
    pub fn cancel_entry(&mut self)
        ensures
            !final(self).show_add_entry,
            final(self).new_layout_id@.len() == 0,
            final(self).new_conditions@.len() == 0,
            final(self).cond_value@.len() == 0,
            final(self).selected_device == old(self).selected_device,
            final(self).entries == old(self).entries,
            final(self).loading == old(self).loading,
            final(self).cond_field == old(self).cond_field,
            final(self).cond_op == old(self).cond_op,
    {
        self.show_add_entry = false;
        self.new_layout_id = String::new();
        self.new_conditions = Vec::new();
        self.cond_value = String::new();
    }

    /// Takes an entry out of the stack; the others keep their order.
    pub fn remove_entry(&mut self, index: usize)
        requires
            index < old(self).entries@.len(),
        ensures
            final(self).entries@ == old(self).entries@.remove(index as int),
            *final(self) == (StackEditor { entries: final(self).entries, ..*old(self) }),
    {
        self.entries.remove(index);
    }

    /// Switches an entry on or off.
    pub fn set_enabled(&mut self, index: usize, enabled: bool)
        requires
            index < old(self).entries@.len(),
        ensures
            final(self).entries@ == old(self).entries@.update(
                index as int,
                StackEntryDef { enabled, ..old(self).entries@[index as int] },
            ),
            *final(self) == (StackEditor { entries: final(self).entries, ..*old(self) }),
    {
        self.entries[index].enabled = enabled;
    }

    /// Whether the note that the stack is empty is shown.
    pub fn shows_empty_note(&self) -> (r: bool)
        ensures
            r == (!self.loading && self.entries@.len() == 0 && !self.show_add_entry),
    {
        !self.loading && self.entries.len() == 0 && !self.show_add_entry
    }
}

// ── What the preview and the lists show ─────────────────────────────────────

/// The symbols of the three standard buttons are those of their names, and the middle one
/// tells what it would do: pause while something plays, play while nothing does.
pub proof fn standard_buttons_show_their_icons(is_playing: bool)
    ensures
        ({
            let shown = transport_model(Seq::empty(), is_playing);
            &&& shown.len() == 3
            &&& shown[0] == (icon_text("skip_previous"@), false)
            &&& shown[2] == (icon_text("skip_next"@), false)
            &&& is_playing ==> shown[1] == (icon_text("pause"@), true)
            &&& !is_playing ==> shown[1] == (icon_text("play_arrow"@), true)
        }),
{
    reveal_strlit("skip_previous");
    reveal_strlit("skip_next");
    reveal_strlit("pause");
    reveal_strlit("play_arrow");
    assert("skip_previous"@.len() == 13 && "skip_next"@.len() == 9 && "pause"@.len() == 5
        && "play_arrow"@.len() == 10);
}

/// An element of the palette shows the symbol that the element itself has: stopping,
/// shuffling, repeating, muting, and skipping by ten or thirty seconds either way.
pub proof fn palette_shows_the_icons_of_its_elements()
    ensures
        palette_model()[0].icon == icon_text("play_arrow"@),
        palette_model()[1].icon == icon_text("skip_previous"@),
        palette_model()[2].icon == icon_text("skip_next"@),
        palette_model()[3].icon == icon_text("stop"@),
        palette_model()[4].icon == icon_text("shuffle"@),
        palette_model()[5].icon == icon_text("repeat"@),
        palette_model()[6].icon == icon_text("forward_30"@),
        palette_model()[7].icon == icon_text("forward_10"@),
        palette_model()[8].icon == icon_text("replay_30"@),
        palette_model()[9].icon == icon_text("replay_10"@),
        palette_model()[10].icon == icon_text("volume_mute"@),
        icon_text("volume_off"@) == icon_text("volume_mute"@),
{
    icon_names_differ();
}

/// The elements that seek say in their label and in what they ask for how far and which way
/// they go.
pub proof fn palette_tells_how_far_it_seeks()
    ensures
        palette_model()[6].label == "+30s"@ && palette_model()[6].description
            == "Add a 30-second forward skip"@,
        palette_model()[7].label == "+10s"@ && palette_model()[7].description
            == "Add a 10-second forward skip"@,
        palette_model()[8].label == "-30s"@ && palette_model()[8].description
            == "Add a 30-second replay"@,
        palette_model()[9].label == "-10s"@ && palette_model()[9].description
            == "Add a 10-second replay"@,
        forall|i: int| 6 <= i < 10 ==> (#[trigger] palette_model()[i]).category == "Seek"@,
        palette_model()[10].label == "Mute"@ && palette_model()[10].category == "Volume"@,
{
}

proof fn icon_names_differ()
    ensures
        "skip_previous"@.len() == 13 && "play_arrow"@.len() == 10 && "pause"@.len() == 5
            && "skip_next"@.len() == 9 && "stop"@.len() == 4 && "volume_off"@.len() == 10
            && "volume_mute"@.len() == 11 && "forward_30"@.len() == 10 && "forward_10"@.len() == 10
            && "replay_30"@.len() == 9 && "replay_10"@.len() == 9 && "shuffle"@.len() == 7
            && "repeat"@.len() == 6,
        "play_arrow"@[0] == 'p' && "volume_off"@[0] == 'v' && "forward_30"@[0] == 'f'
            && "forward_10"@[0] == 'f' && "forward_30"@[8] == '3' && "forward_10"@[8] == '1',
        "skip_next"@[0] == 's' && "replay_30"@[0] == 'r' && "replay_10"@[0] == 'r'
            && "replay_30"@[7] == '3' && "replay_10"@[7] == '1',
{
    reveal_strlit("skip_previous");
    reveal_strlit("play_arrow");
    reveal_strlit("pause");
    reveal_strlit("skip_next");
    reveal_strlit("stop");
    reveal_strlit("volume_off");
    reveal_strlit("volume_mute");
    reveal_strlit("forward_30");
    reveal_strlit("forward_10");
    reveal_strlit("replay_30");
    reveal_strlit("replay_10");
    reveal_strlit("shuffle");
    reveal_strlit("repeat");
}

/// Which symbol a name stands for; a name that stands for none shows a dot.
pub proof fn unknown_icons_show_a_dot(name: Seq<char>)
    ensures
        name == "skip_previous"@ ==> icon_text(name) == "\u{23EE}"@,
        name == "play_arrow"@ ==> icon_text(name) == "\u{25B6}"@,
        name == "pause"@ ==> icon_text(name) == "\u{23F8}"@,
        name == "skip_next"@ ==> icon_text(name) == "\u{23ED}"@,
        name == "stop"@ ==> icon_text(name) == "\u{23F9}"@,
        name == "volume_off"@ || name == "volume_mute"@ ==> icon_text(name) == "\u{1F507}"@,
        name == "forward_30"@ ==> icon_text(name) == "30\u{00BB}"@,
        name == "forward_10"@ ==> icon_text(name) == "10\u{00BB}"@,
        name == "replay_30"@ ==> icon_text(name) == "\u{00AB}30"@,
        name == "replay_10"@ ==> icon_text(name) == "\u{00AB}10"@,
        name == "shuffle"@ ==> icon_text(name) == "\u{1F500}"@,
        name == "repeat"@ ==> icon_text(name) == "\u{1F501}"@,
        name != "skip_previous"@ && name != "play_arrow"@ && name != "pause"@ && name
            != "skip_next"@ && name != "stop"@ && name != "volume_off"@ && name != "volume_mute"@
            && name != "forward_30"@ && name != "forward_10"@ && name != "replay_30"@ && name
            != "replay_10"@ && name != "shuffle"@ && name != "repeat"@ ==> icon_text(name)
            == "\u{25CF}"@,
{
    icon_names_differ();
}

/// Elements are shown one after the other: a further element adds its symbol at the end,
/// lit just where it is active, or nothing where it has none.
pub proof fn elements_show_in_their_order(
    elements: Seq<ElementDef>,
    element: ElementDef,
    is_playing: bool,
)
    requires
        elements.len() > 0,
    ensures
        element.display.icon is None ==> transport_model(elements.push(element), is_playing)
            == transport_model(elements, is_playing),
        element.display.icon is Some ==> transport_model(elements.push(element), is_playing)
            == transport_model(elements, is_playing).push(
            (icon_text(element.display.icon->0@), element.display.active == Some(true)),
        ),
        element.display.icon is Some ==> rect_element_model(element) == (
            icon_text(element.display.icon->0@),
            element.display.active == Some(true),
            match element.on_tap {
                Some(action) => action.action@,
                None => ""@,
            },
        ),
        has_icon(element) <==> element.display.icon is Some,
{
    let keep = |e: ElementDef| has_icon(e);
    let show = |e: ElementDef| element_model(e);
    reveal(Seq::filter);
    assert(elements.push(element).drop_last() =~= elements);
    let kept = elements.filter(keep);
    if element.display.icon is Some {
        assert(kept.push(element).map_values(show) =~= kept.map_values(show).push(
            element_model(element),
        ));
    }
}

/// The title stands out most, the subtitle next, and any other line least.
pub proof fn line_styles_have_their_colors(style: Seq<char>)
    ensures
        style == "title"@ ==> line_color(style) == "#ffffff"@,
        style == "subtitle"@ ==> line_color(style) == "#9ca3af"@,
        style != "title"@ && style != "subtitle"@ ==> line_color(style) == "#6b7280"@,
{
    reveal_strlit("title");
    reveal_strlit("subtitle");
    assert("title"@.len() != "subtitle"@.len());
}

/// The round preview shows every line up to the third, and always one.
pub proof fn dial_shows_up_to_three_lines(lines: Seq<LineDef>)
    ensures
        1 <= dial_line_count(lines) <= 3,
        lines.len() == 0 ==> dial_line_count(lines) == 1,
        1 <= lines.len() <= 3 ==> dial_line_count(lines) == lines.len(),
        lines.len() > 3 ==> dial_line_count(lines) == 3,
{
}

/// The symbols stand in a row, twenty-eight units apart.
pub proof fn dial_icons_stand_apart(index: int, total: int)
    ensures
        icon_place(index + 1, total) == icon_place(index, total) + 28,
{
}

/// A device goes by its name, else by its address, else by its id; a long id is cut
/// behind its first twelve bytes.
pub proof fn devices_go_by_the_best_name(knob: KnobDevice)
    ensures
        knob.name is Some && knob.name->0@.len() > 0 ==> device_name(knob) == knob.name->0@
            && !goes_by_id(knob),
        !(knob.name is Some && knob.name->0@.len() > 0) && knob.status is Some
            && knob.status->0.ip is Some && knob.status->0.ip->0@.len() > 0 ==> device_name(knob)
            == "Device @ "@ + knob.status->0.ip->0@ && !goes_by_id(knob),
        !(knob.name is Some && knob.name->0@.len() > 0) && !(knob.status is Some
            && knob.status->0.ip is Some && knob.status->0.ip->0@.len() > 0) ==> goes_by_id(knob)
            && (encode_utf8(knob.knob_id@).len() <= 12 ==> device_name(knob) == knob.knob_id@) && (
        encode_utf8(knob.knob_id@).len() > 12 ==> device_name(knob) == decode_utf8(
            encode_utf8(knob.knob_id@).subrange(0, 12),
        ) + "..."@),
{
}

/// Naming runs once names no category twice in a row, and leaves none out: a further
/// element adds its category just where it differs from the last.
pub proof fn runs_are_named_once(s: Seq<Seq<char>>, next: Seq<char>)
    ensures
        s.len() == 0 ==> dedup(s.push(next)) == seq![next],
        s.len() > 0 && s.last() == next ==> dedup(s.push(next)) == dedup(s),
        s.len() > 0 && s.last() != next ==> dedup(s.push(next)) == dedup(s).push(next),
{
    let longer = s.push(next);
    assert(longer.subrange(0, longer.len() - 1) =~= s);
    if s.len() == 0 {
        assert(longer =~= seq![next]);
    }
}

/// A layout is called by its name where it is in the list, the first of its id, and by its
/// id where it is not.
pub proof fn layouts_are_called_by_their_name(layouts: Seq<LayoutSummary>, id: Seq<char>, k: int)
    ensures
        0 <= k < layouts.len() && layouts[k].id@ == id && (forall|j: int|
            0 <= j < k ==> (#[trigger] layouts[j]).id@ != id) ==> layout_name_of(layouts, id)
            == layouts[k].name@,
        (forall|j: int| 0 <= j < layouts.len() ==> (#[trigger] layouts[j]).id@ != id)
            ==> layout_name_of(layouts, id) == id,
    decreases layouts.len(),
{
    if layouts.len() > 0 {
        let rest = layouts.subrange(1, layouts.len() as int);
        layouts_are_called_by_their_name(rest, id, k - 1);
        if forall|j: int| 0 <= j < layouts.len() ==> (#[trigger] layouts[j]).id@ != id {
            assert forall|j: int| 0 <= j < rest.len() implies (#[trigger] rest[j]).id@ != id by {
                assert(layouts[j + 1] == rest[j]);
            }
        }
        if 0 < k < layouts.len() && forall|j: int|
            0 <= j < k ==> (#[trigger] layouts[j]).id@ != id {
            assert forall|j: int| 0 <= j < k - 1 implies (#[trigger] rest[j]).id@ != id by {
                assert(layouts[j + 1] == rest[j]);
            }
        }
    }
}

/// A condition reads field, operator and value, in that order, with a blank between each
/// two; without a value it ends with the operator.
pub proof fn conditions_read_in_order(c: ConditionDef)
    ensures
        c.value is Some ==> condition_text(c) == c.field@ + " "@ + c.op@ + " "@ + c.value->0@,
        c.value is None ==> condition_text(c) == c.field@ + " "@ + c.op@,
{
}

/// A device's stack has an address of its own, in which the device stands as it is.
pub proof fn stacks_have_their_own_address(device: Seq<char>)
    ensures
        stack_address(device) == "/api/devices/"@ + device + "/stack"@,
        stack_address(device).subrange(13, 13 + device.len() as int) == device,
{
    reveal_strlit("/api/devices/");
    assert(stack_address(device).subrange(13, 13 + device.len() as int) =~= device);
}

/// The media screen is the first of its type: there is no other.
pub proof fn media_screen_is_the_first(screens: Seq<ScreenDef>, a: int, b: int)
    requires
        is_media_screen(screens, a),
        is_media_screen(screens, b),
    ensures
        a == b,
        screens[a].screen_type@ == "media"@,
{
    if a < b {
        assert(screens[a].screen_type@ != "media"@);
    } else if b < a {
        assert(screens[b].screen_type@ != "media"@);
    }
}

/// A screen that is a media screen is the one that is shown where all before it are not,
/// wherever it stands.
pub proof fn first_media_screen_is_shown(screens: Seq<ScreenDef>, at: int)
    requires
        0 <= at < screens.len(),
        screens[at].screen_type@ == "media"@,
        forall|j: int| 0 <= j < at ==> (#[trigger] screens[j]).screen_type@ != "media"@,
    ensures
        is_media_screen(screens, at),
{
}

/// A message goes to the end of the chat and leaves what was said.
pub proof fn messages_go_to_the_end(
    before: Seq<ChatMessage>,
    after: Seq<ChatMessage>,
    is_user: bool,
    text: Seq<char>,
    i: int,
)
    requires
        added(before, after, is_user, text),
    ensures
        after.last().is_user == is_user,
        after.last().text@ == text,
        0 <= i < before.len() ==> after[i] == before[i],
{
    if 0 <= i < before.len() {
        assert(after.take(before.len() as int)[i] == after[i]);
    }
}

} // verus!
