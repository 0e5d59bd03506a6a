//! The zone list of the Settings page: visibility, order and names.
//!
//! Each zone change is a request to the bridge; the state here decides what is
//! sent, what is announced once the answer is there, and which typed name is kept.

use crate::pages::hqplayer::{playback_source_label, source_name};
use crate::text::{cat2, cat3, cat4, decimal, number, opt_text, same, trim, trimmed};
use vstd::hash_map::StringHashMap;
use vstd::prelude::*;

verus! {

/// A zone as the zone list manages it, hidden zones included.
#[derive(Debug)]
pub struct ManagedZone {
    pub zone_id: String,
    pub zone_name: String,
    /// The name that the zone's source gives it.
    pub provider_name: String,
    pub source: String,
    pub hidden: bool,
    pub renamed: bool,
}

impl ManagedZone {
    /// The zone's name with the name of its source, which tells zones of one name
    /// apart.
    pub fn qualified_label(&self) -> (r: String)
        ensures
            r@ == self.zone_name@ + " ("@ + source_name(Some(self.source@)) + ")"@,
    {
        let source = playback_source_label(Some(self.source.as_str()));
        cat4(self.zone_name.as_str(), " (", source.as_str(), ")")
    }
}

/// Which way a zone is moved.
#[derive(Clone, Copy, Debug, PartialEq, Eq, Structural)]
pub enum MoveDirection {
    Up,
    Down,
}

// ── Rows ────────────────────────────────────────────────────────────────────

/// How many of the first `n` zones are visible.
pub open spec fn visible_before(zones: Seq<ManagedZone>, n: int) -> int
    decreases n,
{
    if n <= 0 {
        0
    } else {
        visible_before(zones, n - 1) + (if zones[n - 1].hidden {
            0int
        } else {
            1
        })
    }
}

/// `at` is the first visible zone.
pub open spec fn is_first_visible(zones: Seq<ManagedZone>, at: int) -> bool {
    0 <= at < zones.len() && !zones[at].hidden && visible_before(zones, at) == 0
}

/// `at` is the last visible zone.
pub open spec fn is_last_visible(zones: Seq<ManagedZone>, at: int) -> bool {
    0 <= at < zones.len() && !zones[at].hidden && visible_before(zones, at + 1) == visible_before(
        zones,
        zones.len() as int,
    )
}

/// One row: its place among the visible zones, and whether it cannot move further.
#[derive(Clone, Copy, Debug, PartialEq, Eq, Structural)]
pub struct ZoneRow {
    /// The place, counted from one. A hidden zone has none.
    pub position: Option<usize>,
    pub at_top: bool,
    pub at_bottom: bool,
}

/// The rows of the zone list.
#[derive(Debug)]
pub struct ZoneRows {
    pub visible_total: usize,
    pub rows: Vec<ZoneRow>,
}

/// The row that a zone has in its list.
pub open spec fn row_of(zones: Seq<ManagedZone>, i: int) -> ZoneRow {
    ZoneRow {
        position: if zones[i].hidden {
            None
        } else {
            Some((visible_before(zones, i) + 1) as usize)
        },
        at_top: is_first_visible(zones, i),
        at_bottom: is_last_visible(zones, i),
    }
}

proof fn visible_before_bounds(zones: Seq<ManagedZone>, n: int)
    requires
        0 <= n,
    ensures
        0 <= visible_before(zones, n) <= n,
    decreases n,
{
    if n > 0 {
        visible_before_bounds(zones, n - 1);
    }
}

proof fn visible_before_monotone(zones: Seq<ManagedZone>, a: int, b: int)
    requires
        0 <= a <= b,
    ensures
        visible_before(zones, a) <= visible_before(zones, b),
    decreases b,
{
    if a < b {
        visible_before_monotone(zones, a, b - 1);
    }
}

/// Numbers the visible zones. Positions count visible zones only, because that is
/// the order every other surface shows.
pub fn zone_rows(zones: &Vec<ManagedZone>) -> (r: ZoneRows)
    ensures
        r.visible_total == visible_before(zones@, zones@.len() as int),
        r.rows@.len() == zones@.len(),
        forall|i: int| 0 <= i < zones@.len() ==> #[trigger] r.rows@[i] == row_of(zones@, i),
{
    let n: usize = zones.len();
    let mut visible_total: usize = 0;
    let mut i: usize = 0;
    while i < n
        invariant
            i <= n,
            n == zones@.len(),
            visible_total == visible_before(zones@, i as int),
            visible_total <= i,
        decreases n - i,
    {
        if !zones[i].hidden {
            visible_total = visible_total + 1;
        }
        i = i + 1;
    }
    let mut rows: Vec<ZoneRow> = Vec::new();
    let mut seen: usize = 0;
    let mut k: usize = 0;
    while k < n
        invariant
            k <= n,
            n == zones@.len(),
            visible_total == visible_before(zones@, n as int),
            seen == visible_before(zones@, k as int),
            seen <= k,
            rows@.len() == k,
            forall|j: int| 0 <= j < k ==> #[trigger] rows@[j] == row_of(zones@, j),
        decreases n - k,
    {
        if zones[k].hidden {
            rows.push(ZoneRow { position: None, at_top: false, at_bottom: false });
        } else {
            let at_top = seen == 0;
            seen = seen + 1;
            let at_bottom = seen == visible_total;
            rows.push(ZoneRow { position: Some(seen), at_top, at_bottom });
        }
        k = k + 1;
    }
    ZoneRows { visible_total, rows }
}

/// The visible zones are numbered from one to their count, in the order of the
/// list and without gaps.
pub proof fn positions_count_up(zones: Seq<ManagedZone>, a: int, b: int)
    requires
        0 <= a < b < zones.len(),
        zones.len() <= usize::MAX,
        !zones[a].hidden,
        !zones[b].hidden,
        forall|k: int| a < k < b ==> (#[trigger] zones[k]).hidden,
    ensures
        row_of(zones, b).position->0 == row_of(zones, a).position->0 + 1,
        1 <= row_of(zones, a).position->0,
        row_of(zones, b).position->0 <= visible_before(zones, zones.len() as int),
{
    visible_before_bounds(zones, a);
    visible_before_bounds(zones, b);
    hidden_run_keeps_count(zones, a + 1, b);
    visible_before_monotone(zones, b + 1, zones.len() as int);
}

proof fn hidden_run_keeps_count(zones: Seq<ManagedZone>, a: int, b: int)
    requires
        0 <= a <= b <= zones.len(),
        forall|k: int| a <= k < b ==> (#[trigger] zones[k]).hidden,
    ensures
        visible_before(zones, a) == visible_before(zones, b),
    decreases b,
{
    if a < b {
        hidden_run_keeps_count(zones, a, b - 1);
        assert(zones[b - 1].hidden);
    }
}

/// At most one row stops at the top: the first visible one. It is the row with
/// position one.
pub proof fn only_first_position_is_at_top(zones: Seq<ManagedZone>, i: int)
    requires
        0 <= i < zones.len(),
        zones.len() <= usize::MAX,
    ensures
        row_of(zones, i).at_top <==> row_of(zones, i).position == Some(1usize),
        row_of(zones, i).at_bottom <==> row_of(zones, i).position is Some && row_of(
            zones,
            i,
        ).position->0 == visible_before(zones, zones.len() as int),
{
    visible_before_bounds(zones, i);
    visible_before_bounds(zones, i + 1);
}

/// The place of a row in words.
pub fn position_text(position: Option<usize>, visible_total: usize) -> (r: String)
    ensures
        r@ == (match position {
            Some(position) => decimal(position as nat) + " of "@ + decimal(visible_total as nat),
            None => "Hidden"@,
        }),
{
    match position {
        Some(position) => {
            let place = number(position as u64);
            let total = number(visible_total as u64);
            cat3(place.as_str(), " of ", total.as_str())
        },
        None => "Hidden".to_owned(),
    }
}

/// The class of a move button. It stays in reach at the boundary and only dims.
pub fn move_button_class(at_boundary: bool) -> (r: &'static str)
    ensures
        r@ == (if at_boundary {
            "btn btn-outline btn-sm opacity-45"@
        } else {
            "btn btn-outline btn-sm"@
        }),
{
    if at_boundary {
        "btn btn-outline btn-sm opacity-45"
    } else {
        "btn btn-outline btn-sm"
    }
}

// ── Dragging ────────────────────────────────────────────────────────────────

/// Which zone is dragged, and over which row.
pub struct DragState {
    pub dragging: Option<String>,
    pub drop_target: Option<String>,
}

impl DragState {
    pub fn new() -> (r: Self)
        ensures
            r.dragging is None,
            r.drop_target is None,
    {
        DragState { dragging: None, drop_target: None }
    }

    /// A drag started on a row's handle.
    pub fn start(&mut self, zone_id: &str)
        ensures
            opt_text(final(self).dragging) == Some(zone_id@),
            final(self).drop_target == old(self).drop_target,
    {
        self.dragging = Some(zone_id.to_owned());
    }

    /// The pointer is over a row. That counts only while something is dragged.
    pub fn over(&mut self, zone_id: &str)
        ensures
            final(self).dragging == old(self).dragging,
            old(self).dragging is Some ==> opt_text(final(self).drop_target) == Some(zone_id@),
            old(self).dragging is None ==> final(self).drop_target == old(self).drop_target,
    {
        if self.dragging.is_some() {
            self.drop_target = Some(zone_id.to_owned());
        }
    }

    /// The drag ended without a drop.
    pub fn end(&mut self)
        ensures
            final(self).dragging is None,
            final(self).drop_target is None,
    {
        self.dragging = None;
        self.drop_target = None;
    }

    /// The drag ended on a row. Gives the last zone of the list that carries the
    /// dragged id, where there is one.
    pub fn drop_on(&mut self, zones: &Vec<ManagedZone>) -> (r: Option<usize>)
        ensures
            final(self).dragging is None,
            final(self).drop_target is None,
            match r {
                Some(i) => {
                    &&& old(self).dragging is Some
                    &&& i < zones@.len()
                    &&& zones@[i as int].zone_id@ == old(self).dragging->0@
                    &&& forall|j: int|
                        i < j < zones@.len() ==> (#[trigger] zones@[j]).zone_id@ != old(
                            self,
                        ).dragging->0@
                },
                None => old(self).dragging is None || forall|j: int|
                    0 <= j < zones@.len() ==> (#[trigger] zones@[j]).zone_id@ != old(
                        self,
                    ).dragging->0@,
            },
    {
        let found = match &self.dragging {
            Some(dragged) => last_with_id(zones, dragged.as_str()),
            None => None,
        };
        self.end();
        found
    }

    /// The class of a row.
    pub fn row_class(&self, zone_id: &str) -> (r: &'static str)
        ensures
            r@ == (if opt_text(self.drop_target) == Some(zone_id@) {
                "zone-row zone-row-drop-target border-b border-default"@
            } else if opt_text(self.dragging) == Some(zone_id@) {
                "zone-row zone-row-dragging border-b border-default"@
            } else {
                "zone-row border-b border-default"@
            }),
    {
        if crate::text::opt_is(&self.drop_target, zone_id) {
            "zone-row zone-row-drop-target border-b border-default"
        } else if crate::text::opt_is(&self.dragging, zone_id) {
            "zone-row zone-row-dragging border-b border-default"
        } else {
            "zone-row border-b border-default"
        }
    }
}

fn last_with_id(zones: &Vec<ManagedZone>, zone_id: &str) -> (r: Option<usize>)
    ensures
        match r {
            Some(i) => {
                &&& i < zones@.len()
                &&& zones@[i as int].zone_id@ == zone_id@
                &&& forall|j: int| i < j < zones@.len() ==> (#[trigger] zones@[j]).zone_id@ != zone_id@
            },
            None => forall|j: int|
                0 <= j < zones@.len() ==> (#[trigger] zones@[j]).zone_id@ != zone_id@,
        },
{
    let mut i: usize = zones.len();
    while i > 0
        invariant
            i <= zones@.len(),
            forall|j: int| i <= j < zones@.len() ==> (#[trigger] zones@[j]).zone_id@ != zone_id@,
        decreases i,
    {
        i = i - 1;
        if same(zones[i].zone_id.as_str(), zone_id) {
            return Some(i);
        }
    }
    None
}

// ── Changing zones ──────────────────────────────────────────────────────────

/// What is announced after a move: where the zone went, or that it could not.
pub open spec fn move_text(label: Seq<char>, direction: MoveDirection, moved: bool) -> Seq<char> {
    match direction {
        MoveDirection::Up => if moved {
            label + " moved up."@
        } else {
            label + " is already first."@
        },
        MoveDirection::Down => if moved {
            label + " moved down."@
        } else {
            label + " is already last."@
        },
    }
}

/// The announcement after a move.
pub fn move_announcement(label: &str, direction: MoveDirection, moved: bool) -> (r: String)
    ensures
        r@ == move_text(label@, direction, moved),
{
    match (moved, direction) {
        (true, MoveDirection::Up) => cat2(label, " moved up."),
        (true, MoveDirection::Down) => cat2(label, " moved down."),
        (false, MoveDirection::Up) => cat2(label, " is already first."),
        (false, MoveDirection::Down) => cat2(label, " is already last."),
    }
}

/// Whether the bridge's answer to a move says that the zone moved. An answer that
/// does not say so counts as a move.
pub fn moved_flag(body: &serde_json::Value) -> (r: bool)
    ensures
        r == (crate::pages::settings::flag_member(*body, "moved"@) != Some(false)),
{
    match crate::pages::settings::json_flag(body, "moved") {
        Some(moved) => moved,
        None => true,
    }
}

/// A name to send to the bridge.
pub struct ZoneNameRequest {
    pub zone_id: String,
    /// The new name; none resets the zone to its provider's name.
    pub name: Option<String>,
}

/// The state of the zone list's editing.
pub struct ZoneEditor {
    /// Announced to assistive technology after every zone change.
    pub status: String,
    pub error: Option<String>,
    /// Counts failed writes, so that a failure redraws the rows.
    pub revision: u32,
    /// In-progress name edits, by zone id.
    pub drafts: StringHashMap<String>,
}

impl ZoneEditor {
    pub fn new() -> (r: Self)
        ensures
            r.status@.len() == 0,
            r.error is None,
            r.revision == 0,
            r.drafts@ == Map::<Seq<char>, String>::empty(),
    {
        ZoneEditor {
            status: String::new(),
            error: None,
            revision: 0,
            drafts: StringHashMap::new(),
        }
    }

    /// The name field of a zone shows the draft while there is one, else the name.
    pub open spec fn shown_name(self, zone: ManagedZone) -> Seq<char> {
        if self.drafts@.contains_key(zone.zone_id@) {
            self.drafts@[zone.zone_id@]@
        } else {
            zone.zone_name@
        }
    }

    /// What the name field of a zone shows.
    pub fn name_value(&self, zone: &ManagedZone) -> (r: String)
        ensures
            r@ == self.shown_name(*zone),
    {
        match self.drafts.get(zone.zone_id.as_str()) {
            Some(draft) => draft.clone(),
            None => zone.zone_name.clone(),
        }
    }

    /// The user typed into a name field.
    pub fn typed(&mut self, zone_id: &str, text: String)
        ensures
            final(self).drafts@ == old(self).drafts@.insert(zone_id@, text),
            final(self).status == old(self).status,
            final(self).error == old(self).error,
            final(self).revision == old(self).revision,
    {
        self.drafts.insert(zone_id.to_owned(), text);
    }

    /// A write failed: the error is shown and the rows are redrawn.
    pub fn report_failure(&mut self, error: String)
        requires
            old(self).revision < u32::MAX,
        ensures
            final(self).error == Some(error),
            final(self).revision == old(self).revision + 1,
            final(self).status == old(self).status,
            final(self).drafts == old(self).drafts,
    {
        self.error = Some(error);
        self.revision = self.revision + 1;
    }

    fn announce(&mut self, status: String)
        ensures
            final(self).error is None,
            final(self).status == status,
            final(self).revision == old(self).revision,
            final(self).drafts == old(self).drafts,
    {
        self.error = None;
        self.status = status;
    }

    /// The answer to a change of visibility.
    pub fn visibility_answered(&mut self, label: &str, now_hidden: bool, answer: Result<(), String>)
        requires
            answer is Err ==> old(self).revision < u32::MAX,
        ensures
            final(self).drafts == old(self).drafts,
            match answer {
                Ok(_) => {
                    &&& final(self).error is None
                    &&& final(self).revision == old(self).revision
                    &&& final(self).status@ == label@ + (if now_hidden {
                        " hidden."@
                    } else {
                        " shown."@
                    })
                },
                Err(error) => {
                    &&& final(self).error == Some(error)
                    &&& final(self).revision == old(self).revision + 1
                    &&& final(self).status == old(self).status
                },
            },
    {
        match answer {
            Ok(_) => {
                let status = if now_hidden {
                    cat2(label, " hidden.")
                } else {
                    cat2(label, " shown.")
                };
                self.announce(status);
            },
            Err(error) => {
                self.report_failure(error);
            },
        }
    }

    /// A move button was pressed. At the boundary nothing is sent and the reason is
    /// announced; elsewhere the request goes out.
    pub fn move_pressed(&mut self, label: &str, direction: MoveDirection, at_boundary: bool) -> (send:
        bool)
        ensures
            send == !at_boundary,
            send ==> *final(self) == *old(self),
            !send ==> final(self).status@ == move_text(label@, direction, false)
                && final(self).error == old(self).error && final(self).revision == old(
                self,
            ).revision && final(self).drafts == old(self).drafts,
    {
        if at_boundary {
            self.status = move_announcement(label, direction, false);
            false
        } else {
            true
        }
    }

    /// The answer to a move. The bridge says whether the zone moved: a hidden zone
    /// can be first already although no visible row says so.
    pub fn move_answered(
        &mut self,
        label: &str,
        direction: MoveDirection,
        answer: Result<bool, String>,
    )
        requires
            answer is Err ==> old(self).revision < u32::MAX,
        ensures
            final(self).drafts == old(self).drafts,
            match answer {
                Ok(moved) => {
                    &&& final(self).error is None
                    &&& final(self).revision == old(self).revision
                    &&& final(self).status@ == move_text(label@, direction, moved)
                },
                Err(error) => {
                    &&& final(self).error == Some(error)
                    &&& final(self).revision == old(self).revision + 1
                    &&& final(self).status == old(self).status
                },
            },
    {
        match answer {
            Ok(moved) => {
                let status = move_announcement(label, direction, moved);
                self.announce(status);
            },
            Err(error) => {
                self.report_failure(error);
            },
        }
    }

    /// The answer to a drop of one zone onto another.
    pub fn drop_answered(&mut self, label: &str, target_label: &str, answer: Result<(), String>)
        requires
            answer is Err ==> old(self).revision < u32::MAX,
        ensures
            final(self).drafts == old(self).drafts,
            match answer {
                Ok(_) => {
                    &&& final(self).error is None
                    &&& final(self).revision == old(self).revision
                    &&& final(self).status@ == label@ + " moved to "@ + target_label@
                        + "'s position."@
                },
                Err(error) => {
                    &&& final(self).error == Some(error)
                    &&& final(self).revision == old(self).revision + 1
                    &&& final(self).status == old(self).status
                },
            },
    {
        match answer {
            Ok(_) => {
                let status = crate::text::cat4(label, " moved to ", target_label, "'s position.");
                self.announce(status);
            },
            Err(error) => {
                self.report_failure(error);
            },
        }
    }

    /// A name was committed. A name that differs from the zone's only in the space
    /// around it is no change: its draft is dropped and nothing is sent. An empty
    /// name asks for the provider's name back.
    pub fn rename(&mut self, zone: &ManagedZone, name: &str) -> (r: Option<ZoneNameRequest>)
        ensures
            final(self).status == old(self).status,
            final(self).error == old(self).error,
            final(self).revision == old(self).revision,
            trimmed(name@) == zone.zone_name@ ==> r is None && final(self).drafts@ == old(
                self,
            ).drafts@.remove(zone.zone_id@),
            trimmed(name@) != zone.zone_name@ ==> {
                &&& final(self).drafts == old(self).drafts
                &&& r is Some
                &&& r->0.zone_id@ == zone.zone_id@
                &&& opt_text(r->0.name) == (if trimmed(name@).len() == 0 {
                    None
                } else {
                    Some(trimmed(name@))
                })
            },
    {
        let wanted = trim(name);
        if same(wanted.as_str(), zone.zone_name.as_str()) {
            self.drafts.remove(zone.zone_id.as_str());
            return None;
        }
        Some(
            ZoneNameRequest {
                zone_id: zone.zone_id.clone(),
                name: crate::text::non_empty(wanted),
            },
        )
    }

    /// The answer to a rename. The draft goes only where it still holds what was
    /// sent: text typed meanwhile stays.
    pub fn rename_answered(
        &mut self,
        zone: &ManagedZone,
        request: &ZoneNameRequest,
        answer: Result<(), String>,
    )
        requires
            answer is Err ==> old(self).revision < u32::MAX,
        ensures
            match answer {
                Ok(_) => {
                    &&& final(self).error is None
                    &&& final(self).revision == old(self).revision
                    &&& final(self).status@ == (match request.name {
                        Some(name) => "Renamed to "@ + name@ + "."@,
                        None => "Name reset to "@ + zone.provider_name@ + "."@,
                    })
                },
                Err(error) => {
                    &&& final(self).error == Some(error)
                    &&& final(self).revision == old(self).revision + 1
                    &&& final(self).status == old(self).status
                },
            },
            final(self).drafts@ == drafts_after_rename(
                old(self).drafts@,
                zone.zone_id@,
                sent_name(*request),
            ),
    {
        match answer {
            Ok(_) => {
                let status = match &request.name {
                    Some(name) => cat3("Renamed to ", name.as_str(), "."),
                    None => cat3("Name reset to ", zone.provider_name.as_str(), "."),
                };
                self.announce(status);
            },
            Err(error) => {
                self.report_failure(error);
            },
        }
        let sent: &str = match &request.name {
            Some(name) => name.as_str(),
            None => "",
        };
        proof {
            reveal_strlit("");
            assert(""@ =~= Seq::<char>::empty());
        }
        let stale = match self.drafts.get(zone.zone_id.as_str()) {
            Some(draft) => same(trim(draft.as_str()).as_str(), sent),
            None => false,
        };
        if stale {
            self.drafts.remove(zone.zone_id.as_str());
        }
    }

    /// The user dismissed the error.
    pub fn dismiss_error(&mut self)
        ensures
            *final(self) == (ZoneEditor { error: None, ..*old(self) }),
    {
        self.error = None;
    }
}

/// The name that a request carries; a reset carries the empty one.
pub open spec fn sent_name(request: ZoneNameRequest) -> Seq<char> {
    match request.name {
        Some(name) => name@,
        None => Seq::empty(),
    }
}

/// The drafts once a rename is answered: the zone's own goes where it still spells
/// what was sent.
pub open spec fn drafts_after_rename(
    drafts: Map<Seq<char>, String>,
    zone_id: Seq<char>,
    sent: Seq<char>,
) -> Map<Seq<char>, String> {
    if drafts.contains_key(zone_id) && trimmed(drafts[zone_id]@) == sent {
        drafts.remove(zone_id)
    } else {
        drafts
    }
}

/// Text that the user types while a rename is under way survives the answer, and so
/// does every other zone's draft: the name fields still show them.
pub proof fn typing_during_rename_survives(
    before: ZoneEditor,
    after: ZoneEditor,
    renamed: ManagedZone,
    sent: Seq<char>,
    zone: ManagedZone,
)
    requires
        after.drafts@ == drafts_after_rename(before.drafts@, renamed.zone_id@, sent),
        before.drafts@.contains_key(zone.zone_id@),
        zone.zone_id@ != renamed.zone_id@ || trimmed(before.drafts@[zone.zone_id@]@) != sent,
    ensures
        after.shown_name(zone) == before.shown_name(zone),
{
}

// ── The list as a whole ─────────────────────────────────────────────────────

/// What stands where the zone list goes.
#[derive(Clone, Copy, Debug, PartialEq, Eq, Structural)]
pub enum ZoneListPanel {
    Loading,
    LoadFailed,
    Empty,
    Table,
}

/// What stands where the zone list goes.
pub open spec fn list_shown(zone_count: Option<Option<usize>>) -> ZoneListPanel {
    match zone_count {
        None => ZoneListPanel::Loading,
        Some(None) => ZoneListPanel::LoadFailed,
        Some(Some(count)) => if count == 0 {
            ZoneListPanel::Empty
        } else {
            ZoneListPanel::Table
        },
    }
}

/// A list that could not be fetched is not shown as one without zones, and the table shows
/// just where some zone was fetched.
pub proof fn failed_lists_are_not_empty_ones(zone_count: Option<Option<usize>>, count: usize)
    ensures
        list_shown(None) == ZoneListPanel::Loading,
        list_shown(Some(None)) == ZoneListPanel::LoadFailed,
        list_shown(zone_count) == ZoneListPanel::Empty <==> zone_count == Some(Some(0usize)),
        count > 0 ==> list_shown(Some(Some(count))) == ZoneListPanel::Table,
{
}

/// Picks what stands where the zone list goes. The outer option is whether the
/// fetch has come to an end, the inner one whether it succeeded.
pub fn zone_list_panel(zone_count: Option<Option<usize>>) -> (r: ZoneListPanel)
    ensures
        r == list_shown(zone_count),
        r == (match zone_count {
            None => ZoneListPanel::Loading,
            Some(None) => ZoneListPanel::LoadFailed,
            Some(Some(count)) => if count == 0 {
                ZoneListPanel::Empty
            } else {
                ZoneListPanel::Table
            },
        }),
{
    match zone_count {
        None => ZoneListPanel::Loading,
        Some(None) => ZoneListPanel::LoadFailed,
        Some(Some(count)) => if count == 0 {
            ZoneListPanel::Empty
        } else {
            ZoneListPanel::Table
        },
    }
}

/// The class of a name field.
pub fn name_field_class(hidden: bool) -> (r: &'static str)
    ensures
        r@ == (if hidden {
            "input w-full text-muted"@
        } else {
            "input w-full"@
        }),
{
    if hidden {
        "input w-full text-muted"
    } else {
        "input w-full"
    }
}

/// Positions count the visible zones: those before a place are as many as a filter of
/// them holds.
pub proof fn positions_count_visible_zones(zones: Seq<ManagedZone>, n: int)
    requires
        0 <= n <= zones.len(),
    ensures
        visible_before(zones, n) == zones.take(n).filter(|zone: ManagedZone| !zone.hidden).len(),
        n < zones.len() && zones.len() <= usize::MAX && zones[n].hidden ==> row_of(
            zones,
            n,
        ).position is None && !row_of(zones, n).at_top && !row_of(zones, n).at_bottom,
        n < zones.len() && zones.len() <= usize::MAX && !zones[n].hidden ==> row_of(
            zones,
            n,
        ).position == Some(
            (zones.take(n).filter(|zone: ManagedZone| !zone.hidden).len() + 1) as usize,
        ),
    decreases n,
{
    let keep = |zone: ManagedZone| !zone.hidden;
    if n == 0 {
        crate::seqs::filter_empty(zones, keep);
    } else {
        positions_count_visible_zones(zones, n - 1);
        crate::seqs::filter_step(zones, n - 1, keep);
    }
}

proof fn visible_in_between(zones: Seq<ManagedZone>, m: int, n: int)
    requires
        0 <= m <= n <= zones.len(),
    ensures
        visible_before(zones, m) <= visible_before(zones, n),
        (exists|j: int| m <= j < n && !(#[trigger] zones[j]).hidden) ==> visible_before(zones, m)
            < visible_before(zones, n),
        (forall|j: int| m <= j < n ==> (#[trigger] zones[j]).hidden) ==> visible_before(zones, m)
            == visible_before(zones, n),
    decreases n - m,
{
    if m < n {
        visible_in_between(zones, m, n - 1);
    }
}

/// A visible zone is at the top just where no visible zone stands before it, and at the
/// bottom just where none stands after it.
pub proof fn ends_are_the_outermost_visible_zones(zones: Seq<ManagedZone>, at: int, other: int)
    requires
        0 <= at < zones.len(),
        0 <= other < zones.len(),
        !zones[at].hidden,
        !zones[other].hidden,
    ensures
        other < at ==> !row_of(zones, at).at_top,
        other > at ==> !row_of(zones, at).at_bottom,
        (forall|j: int| 0 <= j < at ==> (#[trigger] zones[j]).hidden) ==> row_of(zones, at).at_top,
        (forall|j: int| at < j < zones.len() ==> (#[trigger] zones[j]).hidden) ==> row_of(
            zones,
            at,
        ).at_bottom,
{
    assert(visible_before(zones, 0) == 0);
    visible_in_between(zones, 0, at);
    visible_in_between(zones, at + 1, zones.len() as int);
}

/// A move is told by its direction where it happened, and by the end that was reached
/// where it did not.
pub proof fn moves_are_told_by_direction(label: Seq<char>)
    ensures
        move_text(label, MoveDirection::Up, true) == label + " moved up."@,
        move_text(label, MoveDirection::Down, true) == label + " moved down."@,
        move_text(label, MoveDirection::Up, false) == label + " is already first."@,
        move_text(label, MoveDirection::Down, false) == label + " is already last."@,
{
}

/// A name that is being typed is shown in place of the zone's.
pub proof fn typed_names_are_shown(editor: ZoneEditor, zone: ManagedZone, request: ZoneNameRequest)
    ensures
        editor.drafts@.contains_key(zone.zone_id@) ==> editor.shown_name(zone)
            == editor.drafts@[zone.zone_id@]@,
        !editor.drafts@.contains_key(zone.zone_id@) ==> editor.shown_name(zone) == zone.zone_name@,
        request.name is Some ==> sent_name(request) == request.name->0@,
        request.name is None ==> sent_name(request).len() == 0,
{
}

/// Once a rename is done, the draft that was sent is gone and every other stays.
pub proof fn sent_draft_is_done(
    drafts: Map<Seq<char>, String>,
    zone_id: Seq<char>,
    sent: Seq<char>,
    other: Seq<char>,
)
    ensures
        ({
            let after = drafts_after_rename(drafts, zone_id, sent);
            &&& drafts.contains_key(zone_id) && trimmed(drafts[zone_id]@) == sent
                ==> !after.contains_key(zone_id)
            &&& drafts.contains_key(zone_id) && trimmed(drafts[zone_id]@) != sent
                ==> after.contains_key(zone_id) && after[zone_id] == drafts[zone_id]
            &&& other != zone_id && drafts.contains_key(other) ==> after.contains_key(other)
                && after[other] == drafts[other]
            &&& !drafts.contains_key(other) ==> !after.contains_key(other)
        }),
{
}

} // verus!
