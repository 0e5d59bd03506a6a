//! Library page: browsing and searching a provider's collection, and playing from
//! it on the armed zone.
//!
//! Source, view and location are part of the address; the armed zone is a
//! preference of the browser and never is.

use crate::api::{find_by_id, zone_by_id, Zone};
use crate::now_playing::{NowPlaying, NowPlayingMap};
use crate::seqs::{derefs, first_found, first_missing, first_where};
use crate::sse::{is_lms_link, is_roon_link, SseEvent};
use crate::text::{
    as_opt_str, cat2, contains, lowercase, occurs_in, opt_is, opt_same, opt_str, opt_text, same,
    texts, to_lowercase, trim, trimmed,
};
use crate::url::{based, href};
use vstd::prelude::*;

verus! {

/// How many items a page of a level holds.
pub const PAGE_LIMIT: u32 = 30;

/// How long typing has to pause before a search goes out.
pub const SEARCH_DEBOUNCE_MS: u64 = 300;

/// Where browser storage keeps the layout.
pub const LIBRARY_LAYOUT_STORAGE_KEY: &'static str = "uhc.library.view";

/// Where browser storage keeps the armed zone.
pub const ARMED_ZONE_STORAGE_KEY: &'static str = "uhc.armed_zone";

// ── Tabs ────────────────────────────────────────────────────────────────────

/// The ways into a collection.
#[derive(Clone, Copy, PartialEq, Eq, Debug, Structural)]
pub enum Tab {
    Browse,
    Playlists,
    Favorites,
    Radio,
}

impl Tab {
    /// The name of a tab in addresses.
    pub open spec fn name(self) -> Seq<char> {
        match self {
            Tab::Browse => "browse"@,
            Tab::Playlists => "playlists"@,
            Tab::Favorites => "favorites"@,
            Tab::Radio => "radio"@,
        }
    }

    /// The tab that a name stands for; any other text stands for `Browse`.
    pub open spec fn named(name: Seq<char>) -> Tab {
        if name == "playlists"@ {
            Tab::Playlists
        } else if name == "favorites"@ {
            Tab::Favorites
        } else if name == "radio"@ {
            Tab::Radio
        } else {
            Tab::Browse
        }
    }

    pub fn parse(value: &str) -> (r: Self)
        ensures
            r == Tab::named(value@),
    {
        if same(value, "playlists") {
            Tab::Playlists
        } else if same(value, "favorites") {
            Tab::Favorites
        } else if same(value, "radio") {
            Tab::Radio
        } else {
            Tab::Browse
        }
    }

    pub fn as_str(self) -> (r: &'static str)
        ensures
            r@ == self.name(),
    {
        match self {
            Tab::Browse => "browse",
            Tab::Playlists => "playlists",
            Tab::Favorites => "favorites",
            Tab::Radio => "radio",
        }
    }

    /// The verb that lists a tab's root. Favorites and Radio share one.
    pub open spec fn verb(self) -> Seq<char> {
        match self {
            Tab::Browse => "browse"@,
            Tab::Playlists => "playlists"@,
            Tab::Favorites => "favorites"@,
            Tab::Radio => "favorites"@,
        }
    }

    pub fn action(self) -> (r: &'static str)
        ensures
            r@ == self.verb(),
    {
        match self {
            Tab::Browse => "browse",
            Tab::Playlists => "playlists",
            Tab::Favorites | Tab::Radio => "favorites",
        }
    }

    /// The kind of media that tells tabs with one verb apart.
    pub open spec fn media(self) -> Option<Seq<char>> {
        match self {
            Tab::Radio => Some("radio"@),
            Tab::Favorites => Some("tracks"@),
            Tab::Browse => None,
            Tab::Playlists => None,
        }
    }

    pub fn media_type(self) -> (r: Option<&'static str>)
        ensures
            opt_str(r) == self.media(),
    {
        match self {
            Tab::Radio => Some("radio"),
            Tab::Favorites => Some("tracks"),
            _ => None,
        }
    }

    pub fn label(self) -> (r: &'static str)
        ensures
            r@ == (match self {
                Tab::Browse => "Browse"@,
                Tab::Playlists => "Playlists"@,
                Tab::Favorites => "Favorites"@,
                Tab::Radio => "Radio"@,
            }),
    {
        match self {
            Tab::Browse => "Browse",
            Tab::Playlists => "Playlists",
            Tab::Favorites => "Favorites",
            Tab::Radio => "Radio",
        }
    }
}

proof fn tab_names_differ()
    ensures
        Tab::Browse.name() != Tab::Playlists.name(),
        Tab::Browse.name() != Tab::Favorites.name(),
        Tab::Browse.name() != Tab::Radio.name(),
        Tab::Playlists.name() != Tab::Favorites.name(),
        Tab::Playlists.name() != Tab::Radio.name(),
        Tab::Favorites.name() != Tab::Radio.name(),
{
    reveal_strlit("browse");
    reveal_strlit("playlists");
    reveal_strlit("favorites");
    reveal_strlit("radio");
    assert("playlists"@[0] == 'p' && "favorites"@[0] == 'f' && "browse"@[0] == 'b' && "radio"@[0]
        == 'r');
}

/// A tab's name in an address is read back as that tab.
pub proof fn tab_name_round_trip(tab: Tab)
    ensures
        Tab::named(tab.name()) == tab,
{
    tab_names_differ();
}

/// The listing of a tab's root tells every two tabs apart.
pub proof fn tab_listings_differ(a: Tab, b: Tab)
    requires
        a.verb() == b.verb(),
        a.media() == b.media(),
    ensures
        a == b,
{
    tab_names_differ();
    reveal_strlit("radio");
    reveal_strlit("tracks");
    assert("radio"@[0] == 'r' && "tracks"@[0] == 't');
}

/// Three names open a tab of their own; every other text opens the first.
pub proof fn other_names_open_browse(name: Seq<char>)
    ensures
        Tab::named(name) == Tab::Playlists <==> name == "playlists"@,
        Tab::named(name) == Tab::Favorites <==> name == "favorites"@,
        Tab::named(name) == Tab::Radio <==> name == "radio"@,
{
    tab_names_differ();
}

/// Two tabs are listed by one verb just where both hold favorites, and only such tabs
/// name a kind of media. Any other tab is listed by its own name.
pub proof fn favorites_and_radio_share_a_verb(a: Tab, b: Tab)
    ensures
        a != b && a.verb() == b.verb() <==> (a == Tab::Favorites && b == Tab::Radio) || (a
            == Tab::Radio && b == Tab::Favorites),
        a.media() is Some <==> a == Tab::Favorites || a == Tab::Radio,
        a != Tab::Radio ==> a.verb() == a.name(),
        a == Tab::Radio ==> a.media() == Some(a.name()),
        a == Tab::Favorites ==> a.media() == Some("tracks"@),
        Tab::named(a.verb()) == (if a == Tab::Radio {
            Tab::Favorites
        } else {
            a
        }),
{
    tab_names_differ();
}

/// Every tab, in the order in which they are shown.
pub open spec fn every_tab() -> Seq<Tab> {
    seq![Tab::Browse, Tab::Playlists, Tab::Favorites, Tab::Radio]
}

/// Every tab, in the order in which they are shown.
pub fn all_tabs() -> (r: Vec<Tab>)
    ensures
        r@ == every_tab(),
{
    let mut tabs: Vec<Tab> = Vec::new();
    tabs.push(Tab::Browse);
    tabs.push(Tab::Playlists);
    tabs.push(Tab::Favorites);
    tabs.push(Tab::Radio);
    assert(tabs@ =~= every_tab());
    tabs
}

/// A list of tab names holds a tab's.
pub open spec fn serves(library_tabs: Seq<String>, tab: Tab) -> bool {
    exists|i: int| 0 <= i < library_tabs.len() && (#[trigger] library_tabs[i])@ == tab.name()
}

/// A tab is served by whichever entry of the list names it, and only by one that does.
pub proof fn named_tabs_are_served(library_tabs: Seq<String>, tab: Tab, i: int)
    ensures
        0 <= i < library_tabs.len() && library_tabs[i]@ == tab.name() ==> serves(library_tabs, tab),
        (forall|k: int| 0 <= k < library_tabs.len() ==> (#[trigger] library_tabs[k])@ != tab.name())
            ==> !serves(library_tabs, tab),
{
}

fn is_served(library_tabs: &[String], tab: Tab) -> (r: bool)
    ensures
        r == serves(library_tabs@, tab),
{
    let mut i: usize = 0;
    while i < library_tabs.len()
        invariant
            i <= library_tabs@.len(),
            forall|j: int| 0 <= j < i ==> (#[trigger] library_tabs@[j])@ != tab.name(),
        decreases library_tabs@.len() - i,
    {
        if same(library_tabs[i].as_str(), tab.as_str()) {
            return true;
        }
        i = i + 1;
    }
    false
}

/// The tabs to show: those that the provider serves, in their fixed order. Without
/// any information every tab is shown.
pub open spec fn shown_tabs(library_tabs: Seq<String>) -> Seq<Tab> {
    if library_tabs.len() == 0 {
        every_tab()
    } else {
        every_tab().filter(|tab: Tab| serves(library_tabs, tab))
    }
}

/// Which tabs to render for the current browse zone. `library_tabs` is the
/// server's per-provider list; an empty list means "no information".
pub fn visible_tabs_for(library_tabs: &[String]) -> (r: Vec<Tab>)
    ensures
        r@ == shown_tabs(library_tabs@),
{
    let all = all_tabs();
    if library_tabs.len() == 0 {
        return all;
    }
    let ghost keep = |tab: Tab| serves(library_tabs@, tab);
    let mut visible: Vec<Tab> = Vec::new();
    let mut i: usize = 0;
    proof {
        crate::seqs::filter_empty(all@, keep);
    }
    while i < all.len()
        invariant
            i <= all@.len(),
            keep == (|tab: Tab| serves(library_tabs@, tab)),
            visible@ == all@.take(i as int).filter(keep),
        decreases all@.len() - i,
    {
        proof {
            crate::seqs::filter_step(all@, i as int, keep);
        }
        let tab: Tab = all[i];
        if is_served(library_tabs, tab) {
            visible.push(tab);
        }
        i = i + 1;
    }
    assert(all@.take(i as int) =~= all@);
    visible
}

/// The tab actually shown: the requested one where it is visible, otherwise
/// `Browse`.
pub fn effective_tab(requested: Tab, visible: &[Tab]) -> (r: Tab)
    ensures
        r == (if visible@.contains(requested) {
            requested
        } else {
            Tab::Browse
        }),
{
    let mut i: usize = 0;
    while i < visible.len()
        invariant
            i <= visible@.len(),
            forall|j: int| 0 <= j < i ==> visible@[j] != requested,
        decreases visible@.len() - i,
    {
        if visible[i] == requested {
            assert(visible@.contains(requested));
            return requested;
        }
        i = i + 1;
    }
    Tab::Browse
}

/// A tab is shown exactly where the provider serves it, or says nothing at all.
pub proof fn shown_tabs_are_served(library_tabs: Seq<String>, tab: Tab)
    ensures
        shown_tabs(library_tabs).contains(tab) <==> (library_tabs.len() == 0 || serves(
            library_tabs,
            tab,
        )),
{
    let all = every_tab();
    assert(all[0] == Tab::Browse && all[1] == Tab::Playlists && all[2] == Tab::Favorites && all[3]
        == Tab::Radio);
    assert(all.contains(tab));
    if library_tabs.len() > 0 {
        let keep = |t: Tab| serves(library_tabs, t);
        let kept = all.filter(keep);
        if kept.contains(tab) {
            let i = choose|i: int| 0 <= i < kept.len() && kept[i] == tab;
            all.lemma_filter_pred(keep, i);
        }
        if serves(library_tabs, tab) {
            let i = choose|i: int| 0 <= i < all.len() && all[i] == tab;
            all.lemma_filter_contains(keep, i);
        }
    }
}

/// A tab is shown just where the provider's list holds its name or is empty, and shown
/// tabs keep their order: browsing, playlists, favorites, radio.
pub proof fn shown_tabs_keep_their_order(library_tabs: Seq<String>, i: int, j: int)
    requires
        0 <= i < j < shown_tabs(library_tabs).len(),
    ensures
        ({
            let a = shown_tabs(library_tabs)[i];
            let b = shown_tabs(library_tabs)[j];
            &&& a != b
            &&& b != Tab::Browse
            &&& a != Tab::Radio
            &&& a == Tab::Favorites ==> b == Tab::Radio
            &&& b == Tab::Playlists ==> a == Tab::Browse
            &&& library_tabs.len() > 0 ==> exists|k: int|
                0 <= k < library_tabs.len() && (#[trigger] library_tabs[k])@ == a.name()
        }),
{
    let all = every_tab();
    let keep = |tab: Tab| serves(library_tabs, tab);
    if library_tabs.len() > 0 {
        reveal_with_fuel(Seq::filter, 5);
        let three = all.drop_last();
        let two = three.drop_last();
        let one = two.drop_last();
        assert(one.drop_last() =~= Seq::<Tab>::empty());
        assert(one.filter(keep) =~= if keep(Tab::Browse) {
            seq![Tab::Browse]
        } else {
            Seq::empty()
        });
        let shown = all.filter(keep);
        all.lemma_filter_pred(keep, i);
        assert(shown[i] == shown_tabs(library_tabs)[i]);
        assert(keep(shown[i]));
    }
}

/// The tab that a deep link lands on: the one it names where the provider serves
/// it, `Browse` where it does not. A provider that serves `Browse` therefore never
/// lands on a tab that it refuses.
pub proof fn deep_link_lands_on_a_served_tab(library_tabs: Seq<String>, requested: Tab, landed: Tab)
    requires
        landed == (if shown_tabs(library_tabs).contains(requested) {
            requested
        } else {
            Tab::Browse
        }),
        library_tabs.len() == 0 || serves(library_tabs, Tab::Browse),
    ensures
        shown_tabs(library_tabs).contains(landed),
{
    shown_tabs_are_served(library_tabs, Tab::Browse);
}

// ── Layout ──────────────────────────────────────────────────────────────────

/// How items are laid out.
#[derive(Clone, Copy, Debug, PartialEq, Eq, Structural)]
pub enum LibraryLayout {
    Auto,
    List,
    Cards,
}

impl Default for LibraryLayout {
    fn default() -> (r: Self)
        ensures
            r == LibraryLayout::Auto,
    {
        LibraryLayout::Auto
    }
}

impl LibraryLayout {
    /// The name under which a layout is stored.
    pub open spec fn name(self) -> Seq<char> {
        match self {
            LibraryLayout::Auto => "auto"@,
            LibraryLayout::List => "list"@,
            LibraryLayout::Cards => "cards"@,
        }
    }

    /// The layout that a stored name stands for.
    pub open spec fn named(name: Seq<char>) -> LibraryLayout {
        if name == "list"@ {
            LibraryLayout::List
        } else if name == "cards"@ {
            LibraryLayout::Cards
        } else {
            LibraryLayout::Auto
        }
    }

    pub fn as_str(self) -> (r: &'static str)
        ensures
            r@ == self.name(),
    {
        match self {
            LibraryLayout::Auto => "auto",
            LibraryLayout::List => "list",
            LibraryLayout::Cards => "cards",
        }
    }

    pub fn parse(value: &str) -> (r: Self)
        ensures
            r == LibraryLayout::named(value@),
    {
        if same(value, "list") {
            LibraryLayout::List
        } else if same(value, "cards") {
            LibraryLayout::Cards
        } else {
            LibraryLayout::Auto
        }
    }

    /// The layout that storage holds; the automatic one where there is none.
    pub fn restore(stored: Option<&str>) -> (r: Self)
        ensures
            r == (match stored {
                Some(name) => LibraryLayout::named(name@),
                None => LibraryLayout::Auto,
            }),
    {
        match stored {
            Some(name) => LibraryLayout::parse(name),
            None => LibraryLayout::Auto,
        }
    }
}

/// A stored layout is read back as the layout that was stored.
pub proof fn layout_name_round_trip(layout: LibraryLayout)
    ensures
        LibraryLayout::named(layout.name()) == layout,
{
    reveal_strlit("auto");
    reveal_strlit("list");
    reveal_strlit("cards");
    assert("auto"@[0] == 'a' && "list"@[0] == 'l' && "cards"@[0] == 'c');
}

/// One item of a level: a folder that can be opened, something that can be played,
/// or both.
#[derive(Clone, Debug)]
pub struct CollectionItem {
    pub title: String,
    pub subtitle: Option<String>,
    pub image: Option<String>,
    pub item_ref: Option<String>,
    pub location: Option<String>,
}

impl Default for CollectionItem {
    fn default() -> (r: Self)
        ensures
            r.title@.len() == 0,
            r.subtitle is None && r.image is None,
            r.item_ref is None && r.location is None,
    {
        CollectionItem {
            title: String::new(),
            subtitle: None,
            image: None,
            item_ref: None,
            location: None,
        }
    }
}

/// The item can be played.
pub open spec fn playable(item: CollectionItem) -> bool {
    item.item_ref is Some
}

/// Whether items are laid out as cards. Left to itself, a level does so where at
/// least half of its items can be played.
pub open spec fn uses_cards(layout: LibraryLayout, items: Seq<CollectionItem>) -> bool {
    match layout {
        LibraryLayout::Cards => true,
        LibraryLayout::List => false,
        LibraryLayout::Auto => items.len() > 0 && items.filter(
            |item: CollectionItem| playable(item),
        ).len() * 2 >= items.len(),
    }
}

/// Whether items are laid out as cards.
pub fn library_uses_cards(layout: LibraryLayout, items: &[CollectionItem]) -> (r: bool)
    ensures
        r == uses_cards(layout, items@),
{
    match layout {
        LibraryLayout::Cards => true,
        LibraryLayout::List => false,
        LibraryLayout::Auto => {
            let ghost keep = |item: CollectionItem| playable(item);
            let mut count: usize = 0;
            let mut i: usize = 0;
            proof {
                crate::seqs::filter_empty(items@, keep);
            }
            while i < items.len()
                invariant
                    i <= items@.len(),
                    count <= i,
                    keep == (|item: CollectionItem| playable(item)),
                    count == items@.take(i as int).filter(keep).len(),
                decreases items@.len() - i,
            {
                proof {
                    crate::seqs::filter_step(items@, i as int, keep);
                }
                if items[i].item_ref.is_some() {
                    count = count + 1;
                }
                i = i + 1;
            }
            assert(items@.take(i as int) =~= items@);
            items.len() > 0 && count >= items.len() - count
        },
    }
}

/// The items of two opposite filters add up to all.
proof fn opposite_filters_add_up(
    items: Seq<CollectionItem>,
    keep: spec_fn(CollectionItem) -> bool,
    drop: spec_fn(CollectionItem) -> bool,
)
    requires
        forall|item: CollectionItem| #[trigger] keep(item) <==> !drop(item),
    ensures
        items.filter(keep).len() + items.filter(drop).len() == items.len(),
    decreases items.len(),
{
    reveal(Seq::filter);
    if items.len() > 0 {
        opposite_filters_add_up(items.drop_last(), keep, drop);
        assert(keep(items.last()) <==> !drop(items.last()));
    }
}

/// A chosen layout is kept whatever there is to show. Left to itself, a level shows
/// cards just where it has items and no more folders than items that can be played.
pub proof fn automatic_layout_follows_the_majority(items: Seq<CollectionItem>)
    ensures
        uses_cards(LibraryLayout::Cards, items),
        !uses_cards(LibraryLayout::List, items),
        uses_cards(LibraryLayout::Auto, items) <==> items.len() > 0 && items.filter(
            |item: CollectionItem| item.item_ref is None,
        ).len() <= items.filter(|item: CollectionItem| item.item_ref is Some).len(),
{
    let plays = |item: CollectionItem| item.item_ref is Some;
    let opens = |item: CollectionItem| item.item_ref is None;
    opposite_filters_add_up(items, plays, opens);
    assert(plays =~= (|item: CollectionItem| playable(item)));
}

// ── Addresses ───────────────────────────────────────────────────────────────

/// The addresses of the library.
#[derive(Debug)]
pub enum LibraryRoute {
    LibraryHome,
    LibrarySource { source: String },
    LibraryView { source: String, view: String },
    LibraryLocation { source: String, view: String, location: String },
}

/// What an address says: a source, a view of it, and a place in it.
pub struct RouteState {
    pub source: Option<Seq<char>>,
    pub view: Option<Seq<char>>,
    pub location: Option<Seq<char>>,
}

impl LibraryRoute {
    /// What the address says.
    pub open spec fn state(self) -> RouteState {
        match self {
            LibraryRoute::LibraryHome => RouteState { source: None, view: None, location: None },
            LibraryRoute::LibrarySource { source } => RouteState {
                source: Some(source@),
                view: None,
                location: None,
            },
            LibraryRoute::LibraryView { source, view } => RouteState {
                source: Some(source@),
                view: Some(view@),
                location: None,
            },
            LibraryRoute::LibraryLocation { source, view, location } => RouteState {
                source: Some(source@),
                view: Some(view@),
                location: Some(location@),
            },
        }
    }
}

/// The address for a source, a view and a location, in its shortest form: a root
/// that is browsed needs no view, and a location needs one.
pub open spec fn route_for(
    source: Option<Seq<char>>,
    view: Option<Seq<char>>,
    location: Option<Seq<char>>,
) -> RouteState {
    let named = view is Some && view->0.len() > 0;
    if source is None {
        RouteState { source: None, view: None, location: None }
    } else if named && location is Some {
        RouteState { source, view, location }
    } else if named && view != Some("browse"@) {
        RouteState { source, view, location: None }
    } else {
        RouteState { source, view: None, location: None }
    }
}

/// The address for a source, a view and a location.
pub fn library_route(
    source: Option<String>,
    view: Option<String>,
    location: Option<String>,
) -> (r: LibraryRoute)
    ensures
        r.state() == route_for(opt_text(source), opt_text(view), opt_text(location)),
{
    let source = match source {
        Some(source) => source,
        None => {
            return LibraryRoute::LibraryHome;
        },
    };
    let view = match view {
        Some(view) => crate::text::non_empty(view),
        None => None,
    };
    match (view, location) {
        (Some(view), Some(location)) => LibraryRoute::LibraryLocation { source, view, location },
        (Some(view), None) => if !same(view.as_str(), "browse") {
            LibraryRoute::LibraryView { source, view }
        } else {
            LibraryRoute::LibrarySource { source }
        },
        _ => LibraryRoute::LibrarySource { source },
    }
}

/// The tab that an address asks for.
pub open spec fn requested_tab(state: RouteState) -> Tab {
    match state.view {
        Some(view) => Tab::named(view),
        None => Tab::Browse,
    }
}

/// The tab that an address asks for.
pub fn route_tab(view: Option<&str>) -> (r: Tab)
    ensures
        r == (match view {
            Some(view) => Tab::named(view@),
            None => Tab::Browse,
        }),
{
    match view {
        Some(view) => Tab::parse(view),
        None => Tab::Browse,
    }
}

/// Where the user is in the library can be read off the address: going to a tab of
/// a source, or to a location below it, gives an address that leads back there.
pub proof fn addresses_lead_back(source: Seq<char>, tab: Tab, location: Option<Seq<char>>)
    ensures
        route_for(Some(source), Some(tab.name()), location).source == Some(source),
        requested_tab(route_for(Some(source), Some(tab.name()), location)) == tab,
        route_for(Some(source), Some(tab.name()), location).location == location,
{
    tab_name_round_trip(tab);
    reveal_strlit("browse");
    reveal_strlit("playlists");
    reveal_strlit("favorites");
    reveal_strlit("radio");
}

/// An address keeps its source always, its location just below a view that is named,
/// and its view unless it is the first one at its root. Without a source it says
/// nothing.
pub proof fn addresses_keep_what_they_need(
    source: Option<Seq<char>>,
    view: Option<Seq<char>>,
    location: Option<Seq<char>>,
)
    ensures
        ({
            let r = route_for(source, view, location);
            &&& r.source == source
            &&& r.view is Some || r.location is None
            &&& r.location is Some ==> r.location == location
            &&& r.location is None <==> location is None || source is None || view is None
                || view->0.len() == 0
            &&& r.view is Some ==> r.view == view
            &&& r.view is None <==> source is None || view is None || view->0.len() == 0 || (view
                == Some("browse"@) && location is None)
        }),
{
}

// ── Zones ───────────────────────────────────────────────────────────────────

/// Whether an event makes the page fetch the zone list again: structural changes
/// only. `ZoneUpdated` comes in a steady stream while a zone plays, and what plays
/// is fetched separately.
pub open spec fn restarts_zones(e: SseEvent) -> bool {
    e is ZoneDiscovered || e is ZoneRemoved || is_roon_link(e) || is_lms_link(e)
}

/// Whether an event makes the page fetch the zone list again.
pub fn should_restart_zones(event: Option<&SseEvent>) -> (r: bool)
    ensures
        r == (event is Some && restarts_zones(*event->0)),
{
    match event {
        Some(
            SseEvent::ZoneDiscovered { .. }
            | SseEvent::ZoneRemoved { .. }
            | SseEvent::RoonConnected
            | SseEvent::RoonDisconnected
            | SseEvent::LmsConnected
            | SseEvent::LmsDisconnected,
        ) => true,
        _ => false,
    }
}

/// No event of a zone that merely plays makes the page fetch the zone list.
pub proof fn playback_never_restarts_zones(e: SseEvent)
    requires
        e is ZoneUpdated || crate::sse::is_playback(e) || e is LmsPlayerStateChanged,
    ensures
        !restarts_zones(e),
{
}

/// The zone list is fetched again where a zone came or went, or where the connection to
/// one of the two servers did, and at no other event.
pub proof fn structure_restarts_zones(e: SseEvent)
    ensures
        e is ZoneDiscovered || e is ZoneRemoved || e is RoonConnected || e is RoonDisconnected
            || e is LmsConnected || e is LmsDisconnected <==> restarts_zones(e),
{
}

/// Zones present in the list with nothing known of what they play: the ones worth
/// fetching.
pub fn missing_now_playing_zones<'a>(list: &'a [Zone], now_playing: &NowPlayingMap) -> (r: Vec<
    &'a Zone,
>)
    ensures
        derefs(r@) == list@.filter(|zone: Zone| !now_playing@.contains_key(zone.zone_id@)),
{
    let ghost keep = |zone: Zone| !now_playing@.contains_key(zone.zone_id@);
    let mut missing: Vec<&'a Zone> = Vec::new();
    let mut i: usize = 0;
    proof {
        crate::seqs::filter_empty(list@, keep);
        assert(derefs(missing@) =~= list@.take(0).filter(keep));
    }
    while i < list.len()
        invariant
            i <= list@.len(),
            keep == (|zone: Zone| !now_playing@.contains_key(zone.zone_id@)),
            derefs(missing@) == list@.take(i as int).filter(keep),
        decreases list@.len() - i,
    {
        let ghost before = missing@;
        proof {
            crate::seqs::filter_step(list@, i as int, keep);
        }
        if !now_playing.contains_key(list[i].zone_id.as_str()) {
            missing.push(&list[i]);
            assert(derefs(missing@) =~= derefs(before).push(list@[i as int]));
        }
        i = i + 1;
    }
    assert(list@.take(i as int) =~= list@);
    missing
}

/// Once something is known of every zone there is nothing to fetch: looking again
/// at a list without new zones asks for nothing.
pub proof fn known_zones_are_not_fetched_again(list: Seq<Zone>, known: Map<Seq<char>, NowPlaying>)
    requires
        forall|i: int| 0 <= i < list.len() ==> known.contains_key((#[trigger] list[i]).zone_id@),
    ensures
        list.filter(|zone: Zone| !known.contains_key(zone.zone_id@)).len() == 0,
    decreases list.len(),
{
    reveal(Seq::filter);
    let keep = |zone: Zone| !known.contains_key(zone.zone_id@);
    if list.len() > 0 {
        let shorter = list.drop_last();
        assert forall|i: int| 0 <= i < shorter.len() implies known.contains_key(
            (#[trigger] shorter[i]).zone_id@,
        ) by {
            assert(shorter[i] == list[i]);
        }
        known_zones_are_not_fetched_again(shorter, known);
        assert(known.contains_key(list[list.len() - 1].zone_id@));
    }
}

/// Fetching what is missing leaves nothing missing: once each of the missing zones
/// has been answered, a second look finds none.
pub proof fn fetching_missing_zones_settles(
    list: Seq<Zone>,
    before: Map<Seq<char>, NowPlaying>,
    after: Map<Seq<char>, NowPlaying>,
)
    requires
        forall|i: int|
            0 <= i < list.len() && !before.contains_key((#[trigger] list[i]).zone_id@)
                ==> after.contains_key(list[i].zone_id@),
        forall|id: Seq<char>| before.contains_key(id) ==> after.contains_key(id),
    ensures
        list.filter(|zone: Zone| !after.contains_key(zone.zone_id@)).len() == 0,
{
    known_zones_are_not_fetched_again(list, after);
}

/// The zone to arm: the one the user last picked while it exists, else the first
/// that plays, else the first.
pub open spec fn armed_zone(
    zones: Seq<Zone>,
    playing: spec_fn(Zone) -> bool,
    last: Option<Seq<char>>,
) -> Option<Zone> {
    if last is Some && zone_by_id(zones, last->0) is Some {
        zone_by_id(zones, last->0)
    } else if first_where(zones, playing) is Some {
        first_where(zones, playing)
    } else if zones.len() > 0 {
        Some(zones[0])
    } else {
        None
    }
}

/// Resolve which zone is armed. `last` is the zone that the user last picked, as
/// browser storage keeps it.
pub fn resolve_armed_zone<'a>(
    zones: &'a [Zone],
    now_playing: &NowPlayingMap,
    last: Option<&str>,
) -> (r: Option<&'a Zone>)
    ensures
        match r {
            Some(zone) => armed_zone(
                zones@,
                |zone: Zone| now_playing.playing(zone.zone_id@),
                opt_str(last),
            ) == Some(*zone),
            None => zones@.len() == 0,
        },
{
    if let Some(last) = last {
        if let Some(zone) = find_by_id(zones, last) {
            return Some(zone);
        }
    }
    let ghost holds = |zone: Zone| now_playing.playing(zone.zone_id@);
    let mut i: usize = 0;
    while i < zones.len()
        invariant
            i <= zones@.len(),
            holds == (|zone: Zone| now_playing.playing(zone.zone_id@)),
            last is Some ==> zone_by_id(zones@, last->0@) is None,
            forall|j: int| 0 <= j < i ==> !holds(#[trigger] zones@[j]),
        decreases zones@.len() - i,
    {
        if now_playing.is_playing(zones[i].zone_id.as_str()) {
            proof {
                first_found(zones@, holds, i as int);
            }
            return Some(&zones[i]);
        }
        i = i + 1;
    }
    proof {
        first_missing(zones@, holds);
    }
    if zones.len() > 0 {
        Some(&zones[0])
    } else {
        None
    }
}

/// Where there are zones, one of them is armed; the one the user picked stays armed
/// while it exists, whatever plays elsewhere.
pub proof fn armed_zone_is_a_zone(
    zones: Seq<Zone>,
    playing: spec_fn(Zone) -> bool,
    last: Option<Seq<char>>,
)
    requires
        zones.len() > 0,
    ensures
        armed_zone(zones, playing, last) is Some,
        zones.contains(armed_zone(zones, playing, last)->0),
        last is Some && (exists|i: int| 0 <= i < zones.len() && zones[i].zone_id@ == last->0)
            ==> armed_zone(zones, playing, last)->0.zone_id@ == last->0,
{
    crate::seqs::first_where_is_member(zones, playing);
    if last is Some {
        let picked = |zone: Zone| zone.zone_id@ == last->0;
        crate::seqs::first_where_is_member(zones, picked);
        if exists|i: int| 0 <= i < zones.len() && zones[i].zone_id@ == last->0 {
            let i = choose|i: int| 0 <= i < zones.len() && zones[i].zone_id@ == last->0;
            assert(picked(zones[i]));
        }
    }
    assert(zones.contains(zones[0]));
}

/// The zone the user picked comes first, the first that plays second, and the first of
/// all last: a zone that only plays is armed just where the picked one is gone, and a
/// zone that does neither just where nothing plays.
pub proof fn picked_then_playing_then_first(
    zones: Seq<Zone>,
    playing: spec_fn(Zone) -> bool,
    last: Option<Seq<char>>,
    k: int,
)
    requires
        0 <= k < zones.len(),
    ensures
        last == Some(zones[k].zone_id@) && (forall|j: int|
            0 <= j < k ==> (#[trigger] zones[j]).zone_id@ != zones[k].zone_id@) ==> armed_zone(
            zones,
            playing,
            last,
        ) == Some(zones[k]),
        (last is None || forall|j: int|
            0 <= j < zones.len() ==> (#[trigger] zones[j]).zone_id@ != last->0) ==> {
            &&& playing(zones[k]) && (forall|j: int| 0 <= j < k ==> !playing(#[trigger] zones[j]))
                ==> armed_zone(zones, playing, last) == Some(zones[k])
            &&& (forall|j: int| 0 <= j < zones.len() ==> !playing(#[trigger] zones[j]))
                ==> armed_zone(zones, playing, last) == Some(zones[0])
        },
{
    if last is Some {
        let picked = |zone: Zone| zone.zone_id@ == last->0;
        if last == Some(zones[k].zone_id@) && forall|j: int|
            0 <= j < k ==> (#[trigger] zones[j]).zone_id@ != zones[k].zone_id@ {
            first_found(zones, picked, k);
        }
        if forall|j: int| 0 <= j < zones.len() ==> (#[trigger] zones[j]).zone_id@ != last->0 {
            first_missing(zones, picked);
        }
    }
    if playing(zones[k]) && forall|j: int| 0 <= j < k ==> !playing(#[trigger] zones[j]) {
        first_found(zones, playing, k);
    }
    if forall|j: int| 0 <= j < zones.len() ==> !playing(#[trigger] zones[j]) {
        first_missing(zones, playing);
    }
}

/// The zones whose source can be browsed.
pub fn browsable_zones<'a>(zones: &'a [Zone]) -> (r: Vec<&'a Zone>)
    ensures
        derefs(r@) == zones@.filter(|zone: Zone| zone.browse_supported),
{
    let ghost keep = |zone: Zone| zone.browse_supported;
    let mut found: Vec<&'a Zone> = Vec::new();
    let mut i: usize = 0;
    proof {
        crate::seqs::filter_empty(zones@, keep);
        assert(derefs(found@) =~= zones@.take(0).filter(keep));
    }
    while i < zones.len()
        invariant
            i <= zones@.len(),
            keep == (|zone: Zone| zone.browse_supported),
            derefs(found@) == zones@.take(i as int).filter(keep),
        decreases zones@.len() - i,
    {
        let ghost before = found@;
        proof {
            crate::seqs::filter_step(zones@, i as int, keep);
        }
        if zones[i].browse_supported {
            found.push(&zones[i]);
            assert(derefs(found@) =~= derefs(before).push(zones@[i as int]));
        }
        i = i + 1;
    }
    assert(zones@.take(i as int) =~= zones@);
    found
}

/// A source is among the zones'.
pub open spec fn offers_source(zones: Seq<Zone>, source: Seq<char>) -> bool {
    exists|i: int| 0 <= i < zones.len() && opt_text((#[trigger] zones[i]).source) == Some(source)
}

/// The source to browse: the address's where a zone offers it, else the armed
/// zone's where it can browse, else the first zone's that can.
pub open spec fn browsed_source(
    route_source: Option<Seq<char>>,
    armed: Option<Zone>,
    browsable: Seq<Zone>,
) -> Option<Seq<char>> {
    if route_source is Some && route_source->0.len() > 0 && offers_source(
        browsable,
        route_source->0,
    ) {
        route_source
    } else if armed is Some && armed->0.browse_supported && armed->0.source is Some {
        opt_text(armed->0.source)
    } else if browsable.len() > 0 {
        opt_text(browsable[0].source)
    } else {
        None
    }
}

/// Resolve which provider's library the page browses.
pub fn resolve_source(route_source: Option<&str>, armed: Option<&Zone>, browsable: &[&Zone]) -> (r:
    Option<String>)
    ensures
        opt_text(r) == browsed_source(
            opt_str(route_source),
            match armed {
                Some(zone) => Some(*zone),
                None => None,
            },
            derefs(browsable@),
        ),
{
    if let Some(source) = route_source {
        if !source.is_empty() {
            let mut i: usize = 0;
            while i < browsable.len()
                invariant
                    i <= browsable@.len(),
                    route_source == Some(source),
                    source@.len() > 0,
                    forall|j: int|
                        0 <= j < i ==> opt_text((#[trigger] derefs(browsable@)[j]).source) != Some(
                            source@,
                        ),
                decreases browsable@.len() - i,
            {
                assert(derefs(browsable@)[i as int] == *browsable@[i as int]);
                if opt_is(&browsable[i].source, source) {
                    return Some(source.to_owned());
                }
                i = i + 1;
            }
        }
    }
    if let Some(zone) = armed {
        if zone.browse_supported {
            if let Some(source) = &zone.source {
                return Some(source.clone());
            }
        }
    }
    if browsable.len() > 0 {
        browsable[0].source.clone()
    } else {
        None
    }
}

/// The address wins: a source that it names and a zone has is the one browsed, whatever
/// zone is armed. Without one, the armed zone decides where it can be browsed and has a
/// source, and without that the first zone that can be browsed.
pub proof fn address_wins_over_armed_zone(
    route_source: Option<Seq<char>>,
    armed: Option<Zone>,
    browsable: Seq<Zone>,
)
    ensures
        forall|i: int|
            0 <= i < browsable.len() && (#[trigger] browsable[i]).source is Some
                && browsable[i].source->0@.len() > 0 && route_source == Some(
                browsable[i].source->0@,
            ) ==> browsed_source(route_source, armed, browsable) == route_source,
        (route_source is None || route_source->0.len() == 0 || forall|i: int|
            0 <= i < browsable.len() ==> !((#[trigger] browsable[i]).source is Some
                && browsable[i].source->0@ == route_source->0)) ==> {
            &&& armed is Some && armed->0.browse_supported && armed->0.source is Some
                ==> browsed_source(route_source, armed, browsable) == Some(armed->0.source->0@)
            &&& !(armed is Some && armed->0.browse_supported && armed->0.source is Some)
                && browsable.len() > 0 && browsable[0].source is Some ==> browsed_source(
                route_source,
                armed,
                browsable,
            ) == Some(browsable[0].source->0@)
            &&& !(armed is Some && armed->0.browse_supported && armed->0.source is Some) && (
            browsable.len() == 0 || browsable[0].source is None) ==> browsed_source(
                route_source,
                armed,
                browsable,
            ) is None
        },
{
}

/// A zone can be browsed and belongs to a source.
pub open spec fn browses(zone: Zone, source: Option<Seq<char>>) -> bool {
    zone.browse_supported && opt_text(zone.source) == source
}

/// The zone that the page browses through: the armed one where it belongs to the
/// source, else the first that does.
pub open spec fn browse_zone(zones: Seq<Zone>, source: Option<Seq<char>>, armed: Option<Seq<char>>) -> Option<
    Zone,
> {
    let armed_match = first_where(
        zones,
        |zone: Zone| armed is Some && zone.zone_id@ == armed->0 && browses(zone, source),
    );
    if armed_match is Some {
        armed_match
    } else {
        first_where(zones, |zone: Zone| browses(zone, source))
    }
}

/// The zone that the page browses through.
pub fn browse_zone_id(zones: &[Zone], source: &Option<String>, armed: &Option<String>) -> (r: Option<
    String,
>)
    ensures
        opt_text(r) == (match browse_zone(zones@, opt_text(*source), opt_text(*armed)) {
            Some(zone) => Some(zone.zone_id@),
            None => None,
        }),
{
    let ghost wanted = opt_text(*source);
    let ghost target = opt_text(*armed);
    let ghost both = |zone: Zone|
        target is Some && zone.zone_id@ == target->0 && browses(zone, wanted);
    let ghost any = |zone: Zone| browses(zone, wanted);
    let mut i: usize = 0;
    while i < zones.len()
        invariant
            i <= zones@.len(),
            wanted == opt_text(*source),
            target == opt_text(*armed),
            both == (|zone: Zone|
                target is Some && zone.zone_id@ == target->0 && browses(zone, wanted)),
            forall|j: int| 0 <= j < i ==> !both(#[trigger] zones@[j]),
        decreases zones@.len() - i,
    {
        if let Some(id) = armed {
            if same(zones[i].zone_id.as_str(), id.as_str()) && opt_same(&zones[i].source, source)
                && zones[i].browse_supported {
                proof {
                    first_found(zones@, both, i as int);
                }
                return Some(zones[i].zone_id.clone());
            }
        }
        i = i + 1;
    }
    proof {
        first_missing(zones@, both);
    }
    let mut k: usize = 0;
    while k < zones.len()
        invariant
            k <= zones@.len(),
            wanted == opt_text(*source),
            target == opt_text(*armed),
            both == (|zone: Zone|
                target is Some && zone.zone_id@ == target->0 && browses(zone, wanted)),
            any == (|zone: Zone| browses(zone, wanted)),
            first_where(zones@, both) is None,
            forall|j: int| 0 <= j < k ==> !any(#[trigger] zones@[j]),
        decreases zones@.len() - k,
    {
        if zones[k].browse_supported && opt_same(&zones[k].source, source) {
            proof {
                first_found(zones@, any, k as int);
            }
            return Some(zones[k].zone_id.clone());
        }
        k = k + 1;
    }
    proof {
        first_missing(zones@, any);
    }
    None
}

/// The page browses through a zone of the source that can be browsed: the armed one
/// where it is such a zone, else the first, and none just where there is none.
pub proof fn browse_zone_serves_the_source(
    zones: Seq<Zone>,
    source: Option<Seq<char>>,
    armed: Option<Seq<char>>,
    k: int,
)
    requires
        0 <= k < zones.len(),
        zones[k].browse_supported,
        source == (match zones[k].source {
            Some(name) => Some(name@),
            None => None,
        }),
    ensures
        browse_zone(zones, source, armed) is Some,
        zones.contains(browse_zone(zones, source, armed)->0),
        browse_zone(zones, source, armed)->0.browse_supported,
        source is Some ==> browse_zone(zones, source, armed)->0.source is Some && browse_zone(
            zones,
            source,
            armed,
        )->0.source->0@ == source->0,
        armed == Some(zones[k].zone_id@) ==> browse_zone(zones, source, armed)->0.zone_id@
            == zones[k].zone_id@,
        (forall|j: int|
            0 <= j < zones.len() ==> armed != Some((#[trigger] zones[j]).zone_id@)) && (forall|
            j: int,
        |
            0 <= j < k ==> !((#[trigger] zones[j]).browse_supported && source == (
            match zones[j].source {
                Some(name) => Some(name@),
                None => None,
            }))) ==> browse_zone(zones, source, armed) == Some(zones[k]),
{
    let both = |zone: Zone| armed is Some && zone.zone_id@ == armed->0 && browses(zone, source);
    let any = |zone: Zone| browses(zone, source);
    crate::seqs::first_where_is_member(zones, both);
    crate::seqs::first_where_is_member(zones, any);
    assert(any(zones[k]));
    if armed == Some(zones[k].zone_id@) {
        assert(both(zones[k]));
    }
    if forall|j: int| 0 <= j < zones.len() ==> armed != Some((#[trigger] zones[j]).zone_id@) {
        first_missing(zones, both);
        if forall|j: int|
            0 <= j < k ==> !((#[trigger] zones[j]).browse_supported && source == (
            match zones[j].source {
                Some(name) => Some(name@),
                None => None,
            })) {
            first_found(zones, any, k);
        }
    }
}

/// Without a zone of the source that can be browsed, there is nothing to browse through.
pub proof fn unbrowsable_source_has_no_zone(
    zones: Seq<Zone>,
    source: Option<Seq<char>>,
    armed: Option<Seq<char>>,
)
    requires
        forall|j: int|
            0 <= j < zones.len() ==> !((#[trigger] zones[j]).browse_supported && source == (
            match zones[j].source {
                Some(name) => Some(name@),
                None => None,
            })),
    ensures
        browse_zone(zones, source, armed) is None,
{
    let both = |zone: Zone| armed is Some && zone.zone_id@ == armed->0 && browses(zone, source);
    let any = |zone: Zone| browses(zone, source);
    first_missing(zones, both);
    first_missing(zones, any);
}

/// The tabs to show for the zone that is browsed through; without one, nothing is
/// known of them.
pub fn visible_tabs_of(zones: &[Zone], browse_zone: &Option<String>) -> (r: Vec<Tab>)
    ensures
        r@ == (if browse_zone is Some && zone_by_id(zones@, browse_zone->0@) is Some {
            shown_tabs(zone_by_id(zones@, browse_zone->0@)->0.library_tabs@)
        } else {
            every_tab()
        }),
{
    if let Some(id) = browse_zone {
        if let Some(zone) = find_by_id(zones, id.as_str()) {
            return visible_tabs_for(zone.library_tabs.as_slice());
        }
    }
    all_tabs()
}

/// The sources of the zones, each once, in the order in which they first occur.
pub open spec fn distinct_sources(zones: Seq<Zone>) -> Seq<Seq<char>>
    decreases zones.len(),
{
    if zones.len() == 0 {
        Seq::empty()
    } else {
        let before = distinct_sources(zones.subrange(0, zones.len() - 1));
        match zones[zones.len() - 1].source {
            Some(source) => if before.contains(source@) {
                before
            } else {
                before.push(source@)
            },
            None => before,
        }
    }
}

/// The sources to choose from.
pub fn library_sources(browsable: &[&Zone]) -> (r: Vec<String>)
    ensures
        texts(r@) == distinct_sources(derefs(browsable@)),
{
    let ghost all = derefs(browsable@);
    let mut seen: Vec<String> = Vec::new();
    let mut i: usize = 0;
    assert(texts(seen@) =~= distinct_sources(all.subrange(0, 0)));
    while i < browsable.len()
        invariant
            i <= browsable@.len(),
            all == derefs(browsable@),
            texts(seen@) == distinct_sources(all.subrange(0, i as int)),
        decreases browsable@.len() - i,
    {
        let ghost upto = all.subrange(0, i + 1);
        let ghost before = seen@;
        assert(upto.subrange(0, upto.len() - 1) =~= all.subrange(0, i as int));
        assert(upto[i as int] == *browsable@[i as int]);
        if let Some(source) = &browsable[i].source {
            if !crate::text::list_contains(&seen, source.as_str()) {
                seen.push(source.clone());
                assert(texts(seen@) =~= texts(before).push(source@));
            }
        }
        i = i + 1;
    }
    assert(all.subrange(0, i as int) =~= all);
    seen
}

/// Every source occurs once among those to choose from, and none is left out.
pub proof fn sources_are_complete_and_distinct(zones: Seq<Zone>)
    ensures
        distinct_sources(zones).no_duplicates(),
        forall|source: Seq<char>| #[trigger]
            distinct_sources(zones).contains(source) <==> offers_source(zones, source),
    decreases zones.len(),
{
    if zones.len() > 0 {
        let n = zones.len() - 1;
        let shorter = zones.subrange(0, n);
        sources_are_complete_and_distinct(shorter);
        let before = distinct_sources(shorter);
        let after = distinct_sources(zones);
        assert forall|source: Seq<char>| #[trigger]
            after.contains(source) <==> offers_source(zones, source) by {
            assert(before.contains(source) <==> offers_source(shorter, source));
            if offers_source(shorter, source) {
                let i = choose|i: int|
                    0 <= i < shorter.len() && opt_text((#[trigger] shorter[i]).source) == Some(
                        source,
                    );
                assert(zones[i] == shorter[i]);
            }
            if offers_source(zones, source) {
                let i = choose|i: int|
                    0 <= i < zones.len() && opt_text((#[trigger] zones[i]).source) == Some(source);
                if i < n {
                    assert(shorter[i] == zones[i]);
                }
            }
            if after != before {
                assert(after == before.push(zones[n].source->0@));
                assert(after[n_last(after)] == zones[n].source->0@);
                if before.contains(source) {
                    let k = choose|k: int| 0 <= k < before.len() && before[k] == source;
                    assert(after[k] == source);
                }
                if after.contains(source) {
                    let k = choose|k: int| 0 <= k < after.len() && after[k] == source;
                    if k < before.len() {
                        assert(before[k] == source);
                    } else {
                        assert(zones[n].source->0@ == source);
                    }
                }
            }
            if opt_text(zones[n].source) == Some(source) {
                assert(offers_source(zones, source));
            }
        }
    }
}

spec fn n_last(s: Seq<Seq<char>>) -> int {
    s.len() - 1
}

/// The sources stand in the order in which the zones first have them.
pub proof fn sources_stand_in_order_of_appearance(zones: Seq<Zone>, a: int, b: int)
    requires
        0 <= a < b < distinct_sources(zones).len(),
    ensures
        exists|p: int|
            0 <= p < zones.len() && (#[trigger] zones[p]).source is Some && zones[p].source->0@
                == distinct_sources(zones)[a] && forall|q: int|
                0 <= q <= p ==> !((#[trigger] zones[q]).source is Some && zones[q].source->0@
                    == distinct_sources(zones)[b]),
    decreases zones.len(),
{
    let n = zones.len() - 1;
    let shorter = zones.subrange(0, n);
    let before = distinct_sources(shorter);
    let after = distinct_sources(zones);
    sources_are_complete_and_distinct(shorter);
    if b < before.len() {
        sources_stand_in_order_of_appearance(shorter, a, b);
        let p = choose|p: int|
            0 <= p < shorter.len() && (#[trigger] shorter[p]).source is Some
                && shorter[p].source->0@ == before[a] && forall|q: int|
                0 <= q <= p ==> !((#[trigger] shorter[q]).source is Some && shorter[q].source->0@
                    == before[b]);
        assert(zones[p] == shorter[p]);
        assert forall|q: int| 0 <= q <= p implies !((#[trigger] zones[q]).source is Some
            && zones[q].source->0@ == after[b]) by {
            assert(shorter[q] == zones[q]);
        }
    } else {
        assert(before.contains(before[a]));
        assert(offers_source(shorter, before[a]));
        let p = choose|p: int|
            0 <= p < shorter.len() && opt_text((#[trigger] shorter[p]).source) == Some(before[a]);
        assert(zones[p] == shorter[p]);
        assert(!before.contains(after[b]));
        assert(!offers_source(shorter, after[b]));
        assert forall|q: int| 0 <= q <= p implies !((#[trigger] zones[q]).source is Some
            && zones[q].source->0@ == after[b]) by {
            assert(shorter[q] == zones[q]);
        }
    }
}

/// The source to go to when a zone is armed: its own, or the selected one where it
/// has none.
pub fn armed_source(zones: &[Zone], zone_id: &str, selected: &Option<String>) -> (r: Option<String>)
    ensures
        opt_text(r) == (if zone_by_id(zones@, zone_id@) is Some && zone_by_id(
            zones@,
            zone_id@,
        )->0.source is Some {
            opt_text(zone_by_id(zones@, zone_id@)->0.source)
        } else {
            opt_text(*selected)
        }),
{
    if let Some(zone) = find_by_id(zones, zone_id) {
        if let Some(source) = &zone.source {
            return Some(source.clone());
        }
    }
    selected.clone()
}

// ── Loading a level ─────────────────────────────────────────────────────────

/// A level load that failed. `unreachable` is set only where the request itself
/// failed; a refusal reached the provider.
#[derive(Clone, Debug)]
pub struct LevelError {
    pub message: String,
    pub unreachable: bool,
}

/// A step of the way to a level.
#[derive(Clone, Debug)]
pub struct CollectionBreadcrumb {
    pub title: String,
    pub location: String,
}

/// A page of a level.
#[derive(Debug)]
pub struct CollectionPage {
    pub items: Vec<CollectionItem>,
    pub next_offset: Option<u32>,
    pub breadcrumbs: Vec<CollectionBreadcrumb>,
}

/// What came of a request for a page.
pub enum PageOutcome {
    Page(CollectionPage),
    /// The provider refused, and says why.
    Refused(String),
    /// The request did not get through.
    Unreachable(String),
}

/// What is asked of the bridge for a page of a level.
#[derive(Debug)]
pub struct CollectionsRequest {
    pub zone_id: String,
    pub action: String,
    pub location: Option<String>,
    pub media_type: Option<String>,
    pub limit: u32,
    pub offset: u32,
}

/// Select the offset for a level load. Continuation pages consume the provider's
/// cursor; a fresh load starts at zero whatever the cursor is.
pub fn next_request_offset(append: bool, next_offset: Option<u32>) -> (r: Option<u32>)
    ensures
        r == asked_offset(append, next_offset),
        r == (if append {
            next_offset
        } else {
            Some(0u32)
        }),
{
    if append {
        next_offset
    } else {
        Some(0)
    }
}

/// Where a load starts.
pub open spec fn asked_offset(append: bool, next_offset: Option<u32>) -> Option<u32> {
    if append {
        next_offset
    } else {
        Some(0u32)
    }
}

/// The verb and the kind of media that list a level.
pub open spec fn asked_listing(tab: Tab, location: Option<Seq<char>>) -> (
    Seq<char>,
    Option<Seq<char>>,
) {
    if location is Some {
        ("browse"@, None)
    } else {
        (tab.verb(), tab.media())
    }
}

/// A fresh load starts at the beginning whatever the cursor, and reading on starts where
/// the cursor stands, or not at all.
pub proof fn fresh_loads_start_at_the_beginning(cursor: Option<u32>)
    ensures
        asked_offset(false, cursor) == Some(0u32),
        asked_offset(true, cursor) == cursor,
{
}

/// Below a root every tab is listed alike, by browsing; at the root every two tabs are
/// told apart.
pub proof fn locations_are_browsed_from_any_tab(a: Tab, b: Tab, location: Seq<char>)
    ensures
        asked_listing(a, Some(location)) == asked_listing(b, Some(location)),
        asked_listing(a, Some(location)) == asked_listing(Tab::Browse, None),
        asked_listing(a, None) == asked_listing(b, None) ==> a == b,
        asked_listing(a, None) == (a.verb(), a.media()),
{
    if asked_listing(a, None) == asked_listing(b, None) {
        tab_listings_differ(a, b);
    }
}

/// The request for a page: nothing without a zone to browse through, and nothing
/// where a continuation is asked for and there is none. Any level below a tab's
/// root is reached by its location and browsed, whatever tab it started from.
pub fn page_request(
    browse_zone: &Option<String>,
    tab: Tab,
    location: &Option<String>,
    append: bool,
    next_offset: Option<u32>,
) -> (r: Option<CollectionsRequest>)
    ensures
        r is Some <==> browse_zone is Some && asked_offset(append, next_offset) is Some,
        r is Some ==> Some(r->0.offset) == asked_offset(append, next_offset),
        r is Some ==> (r->0.action@, opt_text(r->0.media_type)) == asked_listing(
            tab,
            opt_text(*location),
        ),
        r is Some <==> browse_zone is Some && (append ==> next_offset is Some),
        r is Some ==> {
            &&& r->0.zone_id@ == browse_zone->0@
            &&& opt_text(r->0.location) == opt_text(*location)
            &&& r->0.action@ == (if location is Some {
                "browse"@
            } else {
                tab.verb()
            })
            &&& opt_text(r->0.media_type) == (if location is Some {
                None
            } else {
                tab.media()
            })
            &&& r->0.limit == 30
            &&& r->0.offset == (if append {
                next_offset->0
            } else {
                0
            })
        },
{
    let zone_id = match browse_zone {
        Some(zone_id) => zone_id.clone(),
        None => {
            return None;
        },
    };
    let offset: u32 = match next_request_offset(append, next_offset) {
        Some(offset) => offset,
        None => {
            return None;
        },
    };
    let (action, media_type) = if location.is_some() {
        ("browse".to_owned(), None)
    } else {
        let media_type = match tab.media_type() {
            Some(media_type) => Some(media_type.to_owned()),
            None => None,
        };
        (tab.action().to_owned(), media_type)
    };
    Some(
        CollectionsRequest {
            zone_id,
            action,
            location: location.clone(),
            media_type,
            limit: PAGE_LIMIT,
            offset,
        },
    )
}

/// The level that is shown.
pub struct Level {
    pub items: Vec<CollectionItem>,
    pub next_offset: Option<u32>,
    pub loading: bool,
    pub error: Option<LevelError>,
    pub breadcrumbs: Vec<CollectionBreadcrumb>,
}

/// What a level shows: its items, where they go on, and the way to it.
pub struct LevelContent {
    pub items: Seq<CollectionItem>,
    pub next_offset: Option<u32>,
    pub breadcrumbs: Seq<CollectionBreadcrumb>,
}

/// The content once a page came: a continuation adds its items and keeps the way
/// here, a fresh page replaces everything. A fresh load that fails empties the
/// level, so that nothing stale is left under the error; a continuation that fails
/// leaves what is there.
pub open spec fn content_after(before: LevelContent, append: bool, outcome: PageOutcome) -> LevelContent {
    match outcome {
        PageOutcome::Page(page) => if append {
            LevelContent {
                items: before.items + page.items@,
                next_offset: page.next_offset,
                breadcrumbs: before.breadcrumbs,
            }
        } else {
            LevelContent {
                items: page.items@,
                next_offset: page.next_offset,
                breadcrumbs: page.breadcrumbs@,
            }
        },
        _ => if append {
            before
        } else {
            LevelContent {
                items: Seq::empty(),
                next_offset: None,
                breadcrumbs: Seq::empty(),
            }
        },
    }
}

impl Level {
    pub open spec fn content(self) -> LevelContent {
        LevelContent {
            items: self.items@,
            next_offset: self.next_offset,
            breadcrumbs: self.breadcrumbs@,
        }
    }

    pub fn new() -> (r: Self)
        ensures
            r.items@.len() == 0,
            r.next_offset is None,
            !r.loading,
            r.error is None,
            r.breadcrumbs@.len() == 0,
    {
        Level {
            items: Vec::new(),
            next_offset: None,
            loading: false,
            error: None,
            breadcrumbs: Vec::new(),
        }
    }

    /// A page was asked for.
    pub fn begin(&mut self)
        ensures
            *final(self) == (Level { loading: true, error: None, ..*old(self) }),
    {
        self.loading = true;
        self.error = None;
    }

    /// A page came, or did not.
    pub fn load_page(&mut self, append: bool, outcome: PageOutcome)
        ensures
            !final(self).loading,
            final(self).content() == content_after(old(self).content(), append, outcome),
            match outcome {
                PageOutcome::Page(_) => final(self).error == old(self).error,
                PageOutcome::Refused(message) => final(self).error == Some(
                    LevelError { message, unreachable: false },
                ),
                PageOutcome::Unreachable(message) => final(self).error == Some(
                    LevelError { message, unreachable: true },
                ),
            },
    {
        match outcome {
            PageOutcome::Page(page) => {
                if append {
                    let mut more = page.items;
                    self.items.append(&mut more);
                } else {
                    self.items = page.items;
                    self.breadcrumbs = page.breadcrumbs;
                }
                self.next_offset = page.next_offset;
            },
            PageOutcome::Refused(message) => {
                self.error = Some(LevelError { message, unreachable: false });
                if !append {
                    self.clear();
                }
            },
            PageOutcome::Unreachable(message) => {
                self.error = Some(LevelError { message, unreachable: true });
                if !append {
                    self.clear();
                }
            },
        }
        self.loading = false;
    }

    fn clear(&mut self)
        ensures
            final(self).items@ == Seq::<CollectionItem>::empty(),
            final(self).next_offset is None,
            final(self).breadcrumbs@ == Seq::<CollectionBreadcrumb>::empty(),
            final(self).error == old(self).error,
            final(self).loading == old(self).loading,
    {
        self.items = Vec::new();
        self.next_offset = None;
        self.breadcrumbs = Vec::new();
    }
}

/// A fresh load does not depend on what was there before, whether it succeeds or
/// fails.
pub proof fn fresh_load_forgets_the_past(a: LevelContent, b: LevelContent, outcome: PageOutcome)
    ensures
        content_after(a, false, outcome) == content_after(b, false, outcome),
{
}

/// Reading on shows the pages one after the other, with the cursor of the last.
pub proof fn continuation_pages_add_up(
    before: LevelContent,
    first: CollectionPage,
    second: CollectionPage,
)
    ensures
        ({
            let one = content_after(before, false, PageOutcome::Page(first));
            let both = content_after(one, true, PageOutcome::Page(second));
            &&& both.items == first.items@ + second.items@
            &&& both.next_offset == second.next_offset
            &&& both.breadcrumbs == first.breadcrumbs@
        }),
{
}

/// A continuation that fails can be asked for again: the cursor is still there.
pub proof fn failed_continuation_keeps_cursor(before: LevelContent, message: String)
    ensures
        content_after(before, true, PageOutcome::Refused(message)) == before,
        content_after(before, true, PageOutcome::Unreachable(message)) == before,
{
}

/// Nothing stale stands under the error of a fresh load, and nothing that was read is
/// lost by one that reads on.
pub proof fn failed_fresh_load_empties_the_level(before: LevelContent, message: String)
    ensures
        content_after(before, false, PageOutcome::Refused(message)).items.len() == 0,
        content_after(before, false, PageOutcome::Refused(message)).next_offset is None,
        content_after(before, false, PageOutcome::Refused(message)).breadcrumbs.len() == 0,
        content_after(before, false, PageOutcome::Unreachable(message)) == content_after(
            before,
            false,
            PageOutcome::Refused(message),
        ),
{
}

/// A page shows its own items and cursor whatever was there: alone where the load was
/// fresh, behind what was there where it reads on.
pub proof fn page_ends_the_level(before: LevelContent, append: bool, page: CollectionPage)
    ensures
        ({
            let after = content_after(before, append, PageOutcome::Page(page));
            let kept = if append {
                before.items.len()
            } else {
                0
            };
            &&& after.next_offset == page.next_offset
            &&& after.items.len() == kept + page.items@.len()
            &&& forall|i: int|
                0 <= i < page.items@.len() ==> after.items[kept + i] == #[trigger] page.items@[i]
            &&& forall|i: int| 0 <= i < kept ==> after.items[i] == #[trigger] before.items[i]
            &&& append ==> after.breadcrumbs == before.breadcrumbs
            &&& !append ==> after.breadcrumbs == page.breadcrumbs@
        }),
{
}

/// Where a breadcrumb leads: the first to the root, each other to its location.
pub fn crumb_location(breadcrumbs: &[CollectionBreadcrumb], index: usize) -> (r: Option<String>)
    ensures
        opt_text(r) == (if 0 < index && index - 1 < breadcrumbs@.len() {
            Some(breadcrumbs@[index - 1].location@)
        } else {
            None
        }),
{
    if index > 0 && index - 1 < breadcrumbs.len() {
        Some(breadcrumbs[index - 1].location.clone())
    } else {
        None
    }
}

// ── Playing ─────────────────────────────────────────────────────────────────

/// What came of asking to play something.
pub enum PlayOutcome {
    Accepted,
    Refused(String),
    Unreachable(String),
}

/// What to tell after asking to play something.
pub open spec fn play_text(action: Seq<char>, outcome: PlayOutcome) -> Seq<char> {
    match outcome {
        PlayOutcome::Accepted => if action == "queue"@ {
            "Added to queue"@
        } else if action == "next"@ {
            "Playing next"@
        } else {
            "Playing"@
        },
        PlayOutcome::Refused(message) => message@,
        PlayOutcome::Unreachable(message) => message@,
    }
}

/// What to tell after asking to play something.
pub fn play_message(action: &str, outcome: PlayOutcome) -> (r: String)
    ensures
        r@ == play_text(action@, outcome),
{
    match outcome {
        PlayOutcome::Accepted => if same(action, "queue") {
            "Added to queue".to_owned()
        } else if same(action, "next") {
            "Playing next".to_owned()
        } else {
            "Playing".to_owned()
        },
        PlayOutcome::Refused(message) => message,
        PlayOutcome::Unreachable(message) => message,
    }
}

/// A failure is told in the words that came with it, whatever was asked for. What was
/// accepted is told by where it goes: into the queue, next, or at once.
pub proof fn failures_speak_for_themselves(action: Seq<char>, message: String)
    ensures
        play_text(action, PlayOutcome::Refused(message)) == message@,
        play_text(action, PlayOutcome::Unreachable(message)) == message@,
        play_text(action, PlayOutcome::Accepted) == "Added to queue"@ <==> action == "queue"@,
        play_text(action, PlayOutcome::Accepted) == "Playing next"@ <==> action == "next"@,
        action != "queue"@ && action != "next"@ ==> play_text(action, PlayOutcome::Accepted)
            == "Playing"@,
{
    reveal_strlit("Added to queue");
    reveal_strlit("Playing next");
    reveal_strlit("Playing");
    reveal_strlit("queue");
    reveal_strlit("next");
    assert("queue"@.len() != "next"@.len());
    assert("Added to queue"@[0] != "Playing next"@[0]);
    assert("Added to queue"@[0] != "Playing"@[0]);
    assert("Playing next"@.len() != "Playing"@.len());
}

/// A passing message. Each message counts the generation up, so that the clearing
/// of an old one never takes a newer one with it.
pub struct StatusToast {
    pub message: Option<String>,
    pub generation: u64,
}

impl StatusToast {
    pub fn new() -> (r: Self)
        ensures
            r.message is None,
            r.generation == 0,
    {
        StatusToast { message: None, generation: 0 }
    }

    /// Something was asked for and is under way.
    pub fn working(&mut self)
        ensures
            opt_text(final(self).message) == Some("Working…"@),
            final(self).generation == old(self).generation,
    {
        self.message = Some("Working…".to_owned());
    }

    /// Shows a message; gives the generation to clear it by.
    pub fn show(&mut self, message: String) -> (generation: u64)
        ensures
            final(self).message == Some(message),
            final(self).generation == generation,
            generation == next_generation(old(self).generation),
    {
        self.message = Some(message);
        self.generation = self.generation.wrapping_add(1);
        self.generation
    }

    /// The time of a message is over.
    pub fn expire(&mut self, generation: u64)
        ensures
            final(self).generation == old(self).generation,
            old(self).generation == generation ==> final(self).message is None,
            old(self).generation != generation ==> final(self).message == old(self).message,
    {
        if self.generation == generation {
            self.message = None;
        }
    }

    /// The user went elsewhere: the message was about where they were.
    pub fn clear(&mut self)
        ensures
            final(self).message is None,
            final(self).generation == old(self).generation,
    {
        self.message = None;
    }
}

/// The generation after another; it starts again once the counter is full.
pub open spec fn next_generation(generation: u64) -> u64 {
    if generation == u64::MAX {
        0
    } else {
        (generation + 1) as u64
    }
}

/// A message outlives the clearing of the one before it.
pub proof fn newer_message_survives(generation: u64)
    ensures
        next_generation(generation) != generation,
{
}

/// The counter goes up by one and comes round.
pub proof fn generations_count_up(generation: u64)
    ensures
        generation < u64::MAX ==> next_generation(generation) == generation + 1,
        next_generation(u64::MAX) == 0,
{
}

// ── Searching ───────────────────────────────────────────────────────────────

/// A hit of a search over everything.
#[derive(Clone, Debug)]
pub struct SearchResult {
    pub title: String,
    pub subtitle: Option<String>,
    pub image: Option<String>,
    pub item_ref: Option<String>,
    pub location: Option<String>,
}

/// What came of a search.
pub enum SearchOutcome {
    Results(Vec<SearchResult>),
    Failed(String),
}

/// The search over everything. Each change of the query counts the generation up;
/// what belongs to an older generation is dropped.
pub struct GlobalSearch {
    pub generation: u64,
    pub results: Vec<SearchResult>,
    pub searching: bool,
    pub error: Option<String>,
}

impl GlobalSearch {
    pub fn new() -> (r: Self)
        ensures
            r.generation == 0,
            r.results@.len() == 0,
            !r.searching,
            r.error is None,
    {
        GlobalSearch { generation: 0, results: Vec::new(), searching: false, error: None }
    }

    /// The query changed. Gives the generation to search under once typing pauses;
    /// a blank query searches nothing and shows nothing.
    pub fn query_changed(&mut self, query: &str) -> (search: Option<u64>)
        requires
            old(self).generation < u64::MAX,
        ensures
            final(self).generation == old(self).generation + 1,
            final(self).error == old(self).error,
            trimmed(query@).len() == 0 ==> search is None && final(self).results@.len() == 0
                && !final(self).searching,
            trimmed(query@).len() > 0 ==> search == Some(final(self).generation)
                && final(self).results == old(self).results && final(self).searching == old(
                self,
            ).searching,
    {
        self.generation = self.generation + 1;
        if trim(query).as_str().is_empty() {
            self.results = Vec::new();
            self.searching = false;
            None
        } else {
            Some(self.generation)
        }
    }

    /// Typing paused. The search goes out unless a newer query has come.
    pub fn debounced(&mut self, generation: u64) -> (send: bool)
        ensures
            send == (old(self).generation == generation),
            *final(self) == (GlobalSearch {
                searching: old(self).searching || send,
                ..*old(self)
            }),
    {
        if self.generation != generation {
            return false;
        }
        self.searching = true;
        true
    }

    /// The search came back. An answer to an older query is dropped.
    pub fn answered(&mut self, generation: u64, outcome: SearchOutcome)
        ensures
            old(self).generation != generation ==> *final(self) == *old(self),
            old(self).generation == generation ==> {
                &&& final(self).generation == generation
                &&& !final(self).searching
                &&& match outcome {
                    SearchOutcome::Results(results) => final(self).results == results
                        && final(self).error is None,
                    SearchOutcome::Failed(message) => final(self).results@.len() == 0
                        && final(self).error == Some(message),
                }
            },
    {
        if self.generation != generation {
            return;
        }
        match outcome {
            SearchOutcome::Results(results) => {
                self.results = results;
                self.error = None;
            },
            SearchOutcome::Failed(message) => {
                self.results = Vec::new();
                self.error = Some(message);
            },
        }
        self.searching = false;
    }
}

/// Whether the page shows search results: the query is not blank.
pub fn is_searching(query: &str) -> (r: bool)
    ensures
        r == (trimmed(query@).len() > 0),
{
    !trim(query).as_str().is_empty()
}

/// An item matches where its title or its subtitle holds the needle, all in lower
/// case.
pub open spec fn matches_lowered(
    title: Seq<char>,
    subtitle: Option<Seq<char>>,
    needle: Seq<char>,
) -> bool {
    occurs_in(title, needle) || (subtitle is Some && occurs_in(subtitle->0, needle))
}

/// Whether an item matches, given its texts and the needle in lower case.
pub fn lowered_match(title: &str, subtitle: Option<&str>, needle: &str) -> (r: bool)
    ensures
        r == matches_lowered(title@, opt_str(subtitle), needle@),
{
    if contains(title, needle) {
        return true;
    }
    match subtitle {
        Some(subtitle) => contains(subtitle, needle),
        None => false,
    }
}

/// An item matches a query, whatever the case of either.
pub open spec fn item_matches(item: CollectionItem, query: Seq<char>) -> bool {
    matches_lowered(
        lowercase(item.title@),
        match item.subtitle {
            Some(subtitle) => Some(lowercase(subtitle@)),
            None => None,
        },
        lowercase(query),
    )
}

/// The items of the level that match the query; none where the query is blank.
pub fn local_matches<'a>(items: &'a [CollectionItem], query: &str) -> (r: Vec<&'a CollectionItem>)
    ensures
        derefs(r@) == (if trimmed(query@).len() == 0 {
            Seq::empty()
        } else {
            items@.filter(|item: CollectionItem| item_matches(item, query@))
        }),
{
    let mut found: Vec<&'a CollectionItem> = Vec::new();
    if !is_searching(query) {
        assert(derefs(found@) =~= Seq::<CollectionItem>::empty());
        return found;
    }
    let needle = to_lowercase(query);
    let ghost keep = |item: CollectionItem| item_matches(item, query@);
    let mut i: usize = 0;
    proof {
        crate::seqs::filter_empty(items@, keep);
        assert(derefs(found@) =~= items@.take(0).filter(keep));
    }
    while i < items.len()
        invariant
            i <= items@.len(),
            needle@ == lowercase(query@),
            keep == (|item: CollectionItem| item_matches(item, query@)),
            derefs(found@) == items@.take(i as int).filter(keep),
        decreases items@.len() - i,
    {
        let ghost before = found@;
        proof {
            crate::seqs::filter_step(items@, i as int, keep);
        }
        let title = to_lowercase(items[i].title.as_str());
        let subtitle = match &items[i].subtitle {
            Some(subtitle) => Some(to_lowercase(subtitle.as_str())),
            None => None,
        };
        if lowered_match(title.as_str(), as_opt_str(&subtitle), needle.as_str()) {
            found.push(&items[i]);
            assert(derefs(found@) =~= derefs(before).push(items@[i as int]));
        }
        i = i + 1;
    }
    assert(items@.take(i as int) =~= items@);
    found
}

/// An item matches just where the query stands somewhere in its title or subtitle once
/// case is set aside; so it matches its own title, and a subtitle can only help.
pub proof fn items_match_by_what_they_hold(item: CollectionItem, query: Seq<char>)
    ensures
        item_matches(item, query) <==> {
            ||| exists|a: Seq<char>, b: Seq<char>|
                #![trigger a + lowercase(query) + b]
                lowercase(item.title@) == a + lowercase(query) + b
            ||| item.subtitle is Some && exists|a: Seq<char>, b: Seq<char>|
                #![trigger a + lowercase(query) + b]
                lowercase(item.subtitle->0@) == a + lowercase(query) + b
        },
        item_matches(item, item.title@),
{
    crate::text::occurrence_splits_the_text(lowercase(item.title@), lowercase(query));
    if item.subtitle is Some {
        crate::text::occurrence_splits_the_text(lowercase(item.subtitle->0@), lowercase(query));
    }
    let title = lowercase(item.title@);
    crate::text::occurrence_splits_the_text(title, title);
    assert(Seq::<char>::empty() + title + Seq::<char>::empty() =~= title);
}

/// What stands under "Everywhere".
#[derive(Clone, Copy, Debug, PartialEq, Eq, Structural)]
pub enum EverywherePanel {
    Searching,
    Error,
    NoMatches,
    Results,
}

/// What stands under "Everywhere".
pub open spec fn everywhere_shown(searching: bool, failed: bool, result_count: int) -> EverywherePanel {
    if searching {
        EverywherePanel::Searching
    } else if failed {
        EverywherePanel::Error
    } else if result_count == 0 {
        EverywherePanel::NoMatches
    } else {
        EverywherePanel::Results
    }
}

/// Results of an earlier search are not shown while another runs, nor under an error, and
/// no match is told only once a search has ended without one.
pub proof fn results_show_once_the_search_has_ended(
    searching: bool,
    failed: bool,
    result_count: int,
)
    requires
        0 <= result_count,
    ensures
        everywhere_shown(searching, failed, result_count) == EverywherePanel::Results
            <==> !searching && !failed && result_count > 0,
        everywhere_shown(searching, failed, result_count) == EverywherePanel::NoMatches
            <==> !searching && !failed && result_count == 0,
        everywhere_shown(searching, failed, result_count) == EverywherePanel::Searching
            <==> searching,
{
}

/// Picks what stands under "Everywhere".
pub fn everywhere_panel(search: &GlobalSearch) -> (r: EverywherePanel)
    ensures
        r == everywhere_shown(search.searching, search.error is Some, search.results@.len() as int),
        r == (if search.searching {
            EverywherePanel::Searching
        } else if search.error is Some {
            EverywherePanel::Error
        } else if search.results@.len() == 0 {
            EverywherePanel::NoMatches
        } else {
            EverywherePanel::Results
        }),
{
    if search.searching {
        EverywherePanel::Searching
    } else if search.error.is_some() {
        EverywherePanel::Error
    } else if search.results.len() == 0 {
        EverywherePanel::NoMatches
    } else {
        EverywherePanel::Results
    }
}

// ── The page as a whole ─────────────────────────────────────────────────────

/// What the page shows.
#[derive(Clone, Copy, Debug, PartialEq, Eq, Structural)]
pub enum LibraryContent {
    NoSources,
    Error,
    Skeleton,
    Search,
    Empty,
    Rows { load_more: bool },
}

/// What the page shows.
pub open spec fn shown_content(
    has_sources: bool,
    failed: bool,
    loading: bool,
    item_count: int,
    searching: bool,
    more: bool,
) -> LibraryContent {
    if !has_sources {
        LibraryContent::NoSources
    } else if failed {
        LibraryContent::Error
    } else if loading && item_count == 0 {
        LibraryContent::Skeleton
    } else if searching {
        LibraryContent::Search
    } else if item_count == 0 {
        LibraryContent::Empty
    } else {
        LibraryContent::Rows { load_more: more }
    }
}

/// A missing source hides everything, and an error everything else; items that are there
/// are never hidden by loading, and nothing counts as empty before it has loaded. More is
/// offered just where there is more.
pub proof fn errors_hide_everything_else(
    has_sources: bool,
    failed: bool,
    loading: bool,
    item_count: int,
    searching: bool,
    more: bool,
)
    requires
        0 <= item_count,
    ensures
        ({
            let r = shown_content(has_sources, failed, loading, item_count, searching, more);
            &&& r == LibraryContent::NoSources <==> !has_sources
            &&& r == LibraryContent::Error <==> has_sources && failed
            &&& r == LibraryContent::Skeleton <==> has_sources && !failed && loading && item_count
                == 0
            &&& r == LibraryContent::Empty ==> !loading && !searching && item_count == 0
            &&& r == LibraryContent::Search ==> searching
            &&& has_sources && !failed && item_count > 0 && searching ==> r
                == LibraryContent::Search
            &&& has_sources && !failed && item_count > 0 && !searching ==> r
                == LibraryContent::Rows { load_more: more }
            &&& has_sources && !failed && !loading && item_count == 0 && searching ==> r
                == LibraryContent::Search
        }),
{
}

/// Picks what the page shows. An error comes before anything else that there is to
/// show of a source.
pub fn library_content(has_sources: bool, level: &Level, query: &str) -> (r: LibraryContent)
    ensures
        r == shown_content(
            has_sources,
            level.error is Some,
            level.loading,
            level.items@.len() as int,
            trimmed(query@).len() > 0,
            level.next_offset is Some,
        ),
        r == (if !has_sources {
            LibraryContent::NoSources
        } else if level.error is Some {
            LibraryContent::Error
        } else if level.loading && level.items@.len() == 0 {
            LibraryContent::Skeleton
        } else if trimmed(query@).len() > 0 {
            LibraryContent::Search
        } else if level.items@.len() == 0 {
            LibraryContent::Empty
        } else {
            LibraryContent::Rows { load_more: level.next_offset is Some }
        }),
{
    if !has_sources {
        LibraryContent::NoSources
    } else if level.error.is_some() {
        LibraryContent::Error
    } else if level.loading && level.items.len() == 0 {
        LibraryContent::Skeleton
    } else if is_searching(query) {
        LibraryContent::Search
    } else if level.items.len() == 0 {
        LibraryContent::Empty
    } else {
        LibraryContent::Rows { load_more: level.next_offset.is_some() }
    }
}

/// The heading over a failed level. Only a request that did not get through means
/// that the source cannot be reached.
pub fn error_heading(error: &LevelError, source_label: &str) -> (r: String)
    ensures
        r@ == (if error.unreachable {
            source_label@ + " isn't reachable right now."@
        } else {
            "This view isn't available."@
        }),
{
    if error.unreachable {
        cat2(source_label, " isn't reachable right now.")
    } else {
        "This view isn't available.".to_owned()
    }
}

/// The heading of a level without items.
pub fn empty_state_heading(tab: Tab) -> (r: &'static str)
    ensures
        r@ == (match tab {
            Tab::Browse => "Nothing here yet"@,
            Tab::Playlists => "No playlists yet"@,
            Tab::Favorites => "No favorites yet"@,
            Tab::Radio => "No radio stations yet"@,
        }),
{
    match tab {
        Tab::Browse => "Nothing here yet",
        Tab::Playlists => "No playlists yet",
        Tab::Favorites => "No favorites yet",
        Tab::Radio => "No radio stations yet",
    }
}

/// What to say of a level without items.
pub fn empty_state_body(tab: Tab) -> (r: &'static str)
    ensures
        r@ == (match tab {
            Tab::Browse => "This folder is empty."@,
            Tab::Playlists => "Playlists you create in this provider will show up here."@,
            Tab::Favorites => "The ♥ on any album or track lands here."@,
            Tab::Radio => "Radio stations you add will show up here."@,
        }),
{
    match tab {
        Tab::Browse => "This folder is empty.",
        Tab::Playlists => "Playlists you create in this provider will show up here.",
        Tab::Favorites => "The ♥ on any album or track lands here.",
        Tab::Radio => "Radio stations you add will show up here.",
    }
}

/// The source of an item's picture. The bridge gives complete addresses from the root
/// of the origin; below a base path they get it in front, else they are used as they
/// are.
pub fn image_src(base: &str, image: &str) -> (r: String)
    ensures
        r@ == based(base@, image@),
{
    href(base, image)
}

/// The title that the armed zone plays.
pub fn playing_title<'a>(now_playing: &'a NowPlayingMap, armed: &Option<String>) -> (r: Option<
    &'a str,
>)
    ensures
        opt_str(r) == (if armed is Some && now_playing@.contains_key(armed->0@) {
            opt_text(now_playing@[armed->0@].line1)
        } else {
            None
        }),
{
    match armed {
        Some(id) => match now_playing.get(id.as_str()) {
            Some(playing) => as_opt_str(&playing.line1),
            None => None,
        },
        None => None,
    }
}

/// Whether an item is the one that plays: it carries the title that does.
pub fn row_is_playing(item: &CollectionItem, playing_title: Option<&str>) -> (r: bool)
    ensures
        r == (opt_str(playing_title) == Some(item.title@)),
{
    match playing_title {
        Some(title) => same(title, item.title.as_str()),
        None => false,
    }
}

} // verus!
