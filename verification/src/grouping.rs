//! Zones grouped by the protocol that they come through.

use crate::api::Zone;
use crate::seqs::derefs;
use crate::sorting::{
    arrange, arranged, is_permutation, order_by_rank, order_by_text, orders_ranks, orders_texts,
};
use crate::text::{lowercase, same, texts, to_lowercase};
use vstd::prelude::*;

verus! {

/// The zones of one source, by name.
pub struct ZoneGroup<'a> {
    pub source: String,
    pub zones: Vec<&'a Zone>,
}

/// The heading that a zone stands under: its source, or a common one where it has
/// none.
pub open spec fn zone_label(zone: Zone) -> Seq<char> {
    match zone.source {
        Some(source) => source@,
        None => "Other"@,
    }
}

fn label_of(zone: &Zone) -> (r: &str)
    ensures
        r@ == zone_label(*zone),
{
    match &zone.source {
        Some(source) => source.as_str(),
        None => "Other",
    }
}

/// The headings of the zones, each once, in the order in which they first occur.
pub open spec fn distinct_labels(zones: Seq<Zone>) -> Seq<Seq<char>>
    decreases zones.len(),
{
    if zones.len() == 0 {
        Seq::empty()
    } else {
        let before = distinct_labels(zones.subrange(0, zones.len() - 1));
        let label = zone_label(zones[zones.len() - 1]);
        if before.contains(label) {
            before
        } else {
            before.push(label)
        }
    }
}

/// The place of a source among the groups, from its name in lower case.
pub open spec fn lowered_rank(lower: Seq<char>) -> u8 {
    if lower == "roon"@ {
        0
    } else if lower == "lms"@ {
        1
    } else if lower == "openhome"@ {
        2
    } else if lower == "upnp"@ {
        3
    } else {
        4
    }
}

/// The place of a source among the groups.
pub open spec fn source_rank(source: Seq<char>) -> u8 {
    lowered_rank(lowercase(source))
}

/// The place of a source among the groups, from its name in lower case.
pub fn rank_of_lowered(lower: &str) -> (r: u8)
    ensures
        r == lowered_rank(lower@),
{
    if same(lower, "roon") {
        0
    } else if same(lower, "lms") {
        1
    } else if same(lower, "openhome") {
        2
    } else if same(lower, "upnp") {
        3
    } else {
        4
    }
}

/// The zones under a heading.
pub open spec fn zones_under(zones: Seq<Zone>, label: Seq<char>) -> Seq<Zone> {
    zones.filter(|zone: Zone| zone_label(zone) == label)
}

/// The names of zones.
pub open spec fn zone_names(zones: Seq<Zone>) -> Seq<Seq<char>> {
    zones.map_values(|zone: Zone| zone.zone_name@)
}

/// `listed` is `members` by name, equal names in the order in which they stand.
pub open spec fn by_name(members: Seq<Zone>, listed: Seq<Zone>) -> bool {
    exists|order: Seq<usize>| #[trigger]
        orders_texts(zone_names(members), order) && listed == arranged(members, order)
}

/// The places of headings.
pub open spec fn label_ranks(labels: Seq<Seq<char>>) -> Seq<u8> {
    labels.map_values(|label: Seq<char>| source_rank(label))
}

/// The groups: one for each heading, in the order of their places and then of their
/// first zone; under each its zones by name.
pub open spec fn is_grouping(zones: Seq<Zone>, groups: Seq<ZoneGroup>, order: Seq<usize>) -> bool {
    let labels = distinct_labels(zones);
    &&& orders_ranks(label_ranks(labels), order)
    &&& groups.len() == labels.len()
    &&& forall|g: int|
        0 <= g < groups.len() ==> (#[trigger] groups[g]).source@ == labels[order[g] as int]
            && by_name(zones_under(zones, groups[g].source@), derefs(groups[g].zones@))
}

fn collect_labels(zones: &[Zone]) -> (r: Vec<String>)
    ensures
        texts(r@) == distinct_labels(zones@),
{
    let mut labels: Vec<String> = Vec::new();
    let mut i: usize = 0;
    assert(texts(labels@) =~= distinct_labels(zones@.subrange(0, 0)));
    while i < zones.len()
        invariant
            i <= zones@.len(),
            texts(labels@) == distinct_labels(zones@.subrange(0, i as int)),
        decreases zones@.len() - i,
    {
        let ghost upto = zones@.subrange(0, i + 1);
        let ghost before = labels@;
        assert(upto.subrange(0, upto.len() - 1) =~= zones@.subrange(0, i as int));
        let label = label_of(&zones[i]);
        if !crate::text::list_contains(&labels, label) {
            labels.push(label.to_owned());
            assert(texts(labels@) =~= texts(before).push(label@));
        }
        i = i + 1;
    }
    assert(zones@.subrange(0, i as int) =~= zones@);
    labels
}

fn collect_members<'a>(zones: &'a [Zone], label: &str) -> (r: Vec<&'a Zone>)
    ensures
        derefs(r@) == zones_under(zones@, label@),
{
    let ghost keep = |zone: Zone| zone_label(zone) == label@;
    let mut members: Vec<&'a Zone> = Vec::new();
    let mut i: usize = 0;
    proof {
        crate::seqs::filter_empty(zones@, keep);
        assert(derefs(members@) =~= zones@.take(0).filter(keep));
    }
    while i < zones.len()
        invariant
            i <= zones@.len(),
            keep == (|zone: Zone| zone_label(zone) == label@),
            derefs(members@) == zones@.take(i as int).filter(keep),
        decreases zones@.len() - i,
    {
        let ghost before = members@;
        proof {
            crate::seqs::filter_step(zones@, i as int, keep);
        }
        if same(label_of(&zones[i]), label) {
            members.push(&zones[i]);
            assert(derefs(members@) =~= derefs(before).push(zones@[i as int]));
        }
        i = i + 1;
    }
    assert(zones@.take(i as int) =~= zones@);
    members
}

/// Puts zones in the order of their names, equal names in the order in which they
/// stand.
pub fn sorted_by_name<'a>(members: &Vec<&'a Zone>) -> (r: Vec<&'a Zone>)
    ensures
        by_name(derefs(members@), derefs(r@)),
{
    let mut names: Vec<&'a str> = Vec::new();
    let mut i: usize = 0;
    while i < members.len()
        invariant
            i <= members@.len(),
            names@.len() == i,
            forall|j: int| 0 <= j < i ==> (#[trigger] names@[j])@ == members@[j].zone_name@,
        decreases members@.len() - i,
    {
        let member: &'a Zone = members[i];
        names.push(member.zone_name.as_str());
        i = i + 1;
    }
    assert(names@.map_values(|key: &str| key@) =~= zone_names(derefs(members@)));
    let order = order_by_text(&names);
    let sorted = arrange(members, &order);
    assert(derefs(sorted@) =~= arranged(derefs(members@), order@));
    sorted
}

/// Groups zones by source.
pub fn group_zones_by_source<'a>(zones: &'a [Zone]) -> (r: Vec<ZoneGroup<'a>>)
    ensures
        exists|order: Seq<usize>| is_grouping(zones@, r@, order),
{
    let labels = collect_labels(zones);
    let ghost names = distinct_labels(zones@);
    let mut ranks: Vec<u8> = Vec::new();
    let mut i: usize = 0;
    while i < labels.len()
        invariant
            i <= labels@.len(),
            texts(labels@) == names,
            ranks@.len() == i,
            forall|j: int| 0 <= j < i ==> #[trigger] ranks@[j] == source_rank(names[j]),
        decreases labels@.len() - i,
    {
        assert(texts(labels@)[i as int] == labels@[i as int]@);
        let lower = to_lowercase(labels[i].as_str());
        ranks.push(rank_of_lowered(lower.as_str()));
        i = i + 1;
    }
    assert(ranks@ =~= label_ranks(names));
    let order = order_by_rank(&ranks);
    let mut groups: Vec<ZoneGroup<'a>> = Vec::new();
    let mut g: usize = 0;
    while g < order.len()
        invariant
            g <= order@.len(),
            texts(labels@) == names,
            names == distinct_labels(zones@),
            order@.len() == names.len(),
            is_permutation(order@, names.len() as int),
            groups@.len() == g,
            forall|j: int|
                0 <= j < g ==> (#[trigger] groups@[j]).source@ == names[order@[j] as int]
                    && by_name(
                    zones_under(zones@, groups@[j].source@),
                    derefs(groups@[j].zones@),
                ),
        decreases order@.len() - g,
    {
        let at: usize = order[g];
        assert(texts(labels@)[at as int] == labels@[at as int]@);
        let source = labels[at].clone();
        let members = collect_members(zones, source.as_str());
        let sorted = sorted_by_name(&members);
        groups.push(ZoneGroup { source, zones: sorted });
        g = g + 1;
    }
    assert(is_grouping(zones@, groups@, order@));
    groups
}

/// The headings are distinct, and each zone's is among them.
pub proof fn labels_are_complete_and_distinct(zones: Seq<Zone>)
    ensures
        distinct_labels(zones).no_duplicates(),
        forall|i: int|
            0 <= i < zones.len() ==> distinct_labels(zones).contains(
                zone_label(#[trigger] zones[i]),
            ),
    decreases zones.len(),
{
    if zones.len() > 0 {
        let n = zones.len() - 1;
        let shorter = zones.subrange(0, n);
        labels_are_complete_and_distinct(shorter);
        let before = distinct_labels(shorter);
        let after = distinct_labels(zones);
        let label = zone_label(zones[n]);
        if after != before {
            assert(after == before.push(label));
            assert(after[before.len() as int] == label);
        }
        assert forall|i: int| 0 <= i < zones.len() implies after.contains(
            zone_label(#[trigger] zones[i]),
        ) by {
            if i < n {
                assert(shorter[i] == zones[i]);
                let k = choose|k: int|
                    0 <= k < before.len() && before[k] == zone_label(shorter[i]);
                assert(after[k] == zone_label(zones[i]));
            }
        }
    }
}

/// A list by name holds what was listed.
proof fn by_name_keeps_members(members: Seq<Zone>, listed: Seq<Zone>, zone: Zone)
    requires
        by_name(members, listed),
    ensures
        listed.len() == members.len(),
        listed.contains(zone) <==> members.contains(zone),
{
    let order = choose|order: Seq<usize>| #[trigger]
        orders_texts(zone_names(members), order) && listed == arranged(members, order);
    if listed.contains(zone) {
        let i = choose|i: int| 0 <= i < listed.len() && listed[i] == zone;
        assert(members[order[i] as int] == zone);
    }
    if members.contains(zone) {
        let k = choose|k: int| 0 <= k < members.len() && members[k] == zone;
        crate::sorting::permutation_fits(order);
        crate::sorting::permutation_is_onto(order, members.len() as int, k as usize);
        let at = choose|at: int| 0 <= at < order.len() && #[trigger] order[at] == k as usize;
        assert(listed[at] == zone);
    }
}

/// Every zone stands in the group of its own heading and in no other; groups hold
/// nothing but zones of the list.
pub proof fn groups_partition_zones(
    zones: Seq<Zone>,
    groups: Seq<ZoneGroup>,
    order: Seq<usize>,
    zone: Zone,
)
    requires
        is_grouping(zones, groups, order),
    ensures
        forall|g: int|
            0 <= g < groups.len() ==> (derefs((#[trigger] groups[g]).zones@).contains(zone)
                <==> zones.contains(zone) && groups[g].source@ == zone_label(zone)),
        zones.contains(zone) ==> exists|g: int|
            0 <= g < groups.len() && (#[trigger] groups[g]).source@ == zone_label(zone),
        forall|g: int, h: int|
            0 <= g < groups.len() && 0 <= h < groups.len() && g != h ==> (
            #[trigger] groups[g]).source@ != (#[trigger] groups[h]).source@,
{
    let labels = distinct_labels(zones);
    labels_are_complete_and_distinct(zones);
    assert forall|g: int| 0 <= g < groups.len() implies (derefs(
        (#[trigger] groups[g]).zones@,
    ).contains(zone) <==> zones.contains(zone) && groups[g].source@ == zone_label(zone)) by {
        let label = groups[g].source@;
        let members = zones_under(zones, label);
        let keep = |z: Zone| zone_label(z) == label;
        by_name_keeps_members(members, derefs(groups[g].zones@), zone);
        if members.contains(zone) {
            let i = choose|i: int| 0 <= i < members.len() && members[i] == zone;
            zones.lemma_filter_pred(keep, i);
            zones.lemma_filter_contains_rev(keep, zone);
        }
        if zones.contains(zone) && label == zone_label(zone) {
            let i = choose|i: int| 0 <= i < zones.len() && zones[i] == zone;
            zones.lemma_filter_contains(keep, i);
        }
    }
    if zones.contains(zone) {
        let i = choose|i: int| 0 <= i < zones.len() && zones[i] == zone;
        let k = choose|k: int| 0 <= k < labels.len() && labels[k] == zone_label(zones[i]);
        crate::sorting::permutation_fits(order);
        crate::sorting::permutation_is_onto(order, labels.len() as int, k as usize);
        let g = choose|g: int| 0 <= g < order.len() && #[trigger] order[g] == k as usize;
        assert(groups[g].source@ == zone_label(zone));
    }
}

/// The zones of all groups, group after group.
pub open spec fn zones_in_groups(groups: Seq<ZoneGroup>) -> Seq<Zone>
    decreases groups.len(),
{
    if groups.len() == 0 {
        Seq::empty()
    } else {
        zones_in_groups(groups.drop_last()) + derefs(groups.last().zones@)
    }
}

/// The first `k` groups hold a zone as often as the list does where one of them has
/// its heading, and else not at all.
proof fn first_groups_count(
    zones: Seq<Zone>,
    groups: Seq<ZoneGroup>,
    order: Seq<usize>,
    k: int,
    zone: Zone,
)
    requires
        is_grouping(zones, groups, order),
        0 <= k <= groups.len(),
    ensures
        zones_in_groups(groups.take(k)).to_multiset().count(zone) == (if exists|g: int|
            0 <= g < k && (#[trigger] groups[g]).source@ == zone_label(zone) {
            zones.to_multiset().count(zone)
        } else {
            0
        }),
    decreases k,
{
    broadcast use vstd::multiset::group_multiset_axioms;
    broadcast use vstd::seq_lib::group_to_multiset_ensures;

    if k > 0 {
        let shorter = groups.take(k - 1);
        assert(groups.take(k).drop_last() =~= shorter);
        assert(groups.take(k).last() == groups[k - 1]);
        first_groups_count(zones, groups, order, k - 1, zone);
        groups_partition_zones(zones, groups, order, zone);
        let label = groups[k - 1].source@;
        let members = zones_under(zones, label);
        let listed = derefs(groups[k - 1].zones@);
        let within = choose|within: Seq<usize>| #[trigger]
            orders_texts(zone_names(members), within) && listed == arranged(members, within);
        crate::sorting::arranging_keeps_items(members, within);
        crate::seqs::filter_counts(zones, |z: Zone| zone_label(z) == label, zone);
        vstd::seq_lib::lemma_multiset_commutative(zones_in_groups(shorter), listed);
        if label == zone_label(zone) {
            assert forall|g: int| 0 <= g < k - 1 implies (#[trigger] groups[g]).source@
                != zone_label(zone) by {}
            assert(groups[k - 1].source@ == zone_label(zone));
        }
    }
}

/// Joined, the groups are the zones of the list in another order: none is lost, none
/// added and none repeated more often than the list has it.
pub proof fn joined_groups_are_the_zones(
    zones: Seq<Zone>,
    groups: Seq<ZoneGroup>,
    order: Seq<usize>,
)
    requires
        is_grouping(zones, groups, order),
    ensures
        zones_in_groups(groups).to_multiset() == zones.to_multiset(),
        zones_in_groups(groups).len() == zones.len(),
{
    broadcast use vstd::multiset::group_multiset_axioms;
    broadcast use vstd::seq_lib::group_to_multiset_ensures;

    let joined = zones_in_groups(groups);
    assert forall|zone: Zone| joined.to_multiset().count(zone) == zones.to_multiset().count(
        zone,
    ) by {
        assert(groups.take(groups.len() as int) =~= groups);
        first_groups_count(zones, groups, order, groups.len() as int, zone);
        groups_partition_zones(zones, groups, order, zone);
        if zones.to_multiset().count(zone) > 0 {
            assert(zones.contains(zone));
        }
    }
    assert(joined.to_multiset() =~= zones.to_multiset());
    assert(joined.to_multiset().len() == joined.len());
    assert(zones.to_multiset().len() == zones.len());
}

/// Roon comes first, then LMS, OpenHome and UPnP, then everything else.
pub proof fn groups_follow_source_rank(
    zones: Seq<Zone>,
    groups: Seq<ZoneGroup>,
    order: Seq<usize>,
    g: int,
    h: int,
)
    requires
        is_grouping(zones, groups, order),
        0 <= g < h < groups.len(),
    ensures
        source_rank(groups[g].source@) <= source_rank(groups[h].source@),
{
    let labels = distinct_labels(zones);
    assert(crate::sorting::rank_before(label_ranks(labels), order[g], order[h]));
}

/// The groups stand in the order of their names, case set aside: Roon before LMS, LMS
/// before OpenHome, OpenHome before UPnP, and UPnP before every other source.
pub proof fn named_sources_come_first(
    zones: Seq<Zone>,
    groups: Seq<ZoneGroup>,
    order: Seq<usize>,
    g: int,
    h: int,
)
    requires
        is_grouping(zones, groups, order),
        0 <= g < h < groups.len(),
    ensures
        ({
            let a = lowercase(groups[g].source@);
            let b = lowercase(groups[h].source@);
            &&& b == "roon"@ ==> a == "roon"@
            &&& b == "lms"@ ==> a == "roon"@ || a == "lms"@
            &&& b == "openhome"@ ==> a == "roon"@ || a == "lms"@ || a == "openhome"@
            &&& b == "upnp"@ ==> a == "roon"@ || a == "lms"@ || a == "openhome"@ || a == "upnp"@
        }),
{
    groups_follow_source_rank(zones, groups, order, g, h);
    reveal_strlit("roon");
    reveal_strlit("lms");
    reveal_strlit("openhome");
    reveal_strlit("upnp");
    assert("roon"@[0] == 'r' && "lms"@[0] == 'l' && "openhome"@[0] == 'o' && "upnp"@[0] == 'u');
}

/// The headings stand in the order in which the zones first have them.
proof fn labels_stand_in_order_of_appearance(zones: Seq<Zone>, a: int, b: int)
    requires
        0 <= a < b < distinct_labels(zones).len(),
    ensures
        exists|p: int|
            0 <= p < zones.len() && zone_label(#[trigger] zones[p]) == distinct_labels(zones)[a]
                && forall|q: int|
                0 <= q <= p ==> zone_label(#[trigger] zones[q]) != distinct_labels(zones)[b],
    decreases zones.len(),
{
    let n = zones.len() - 1;
    let shorter = zones.subrange(0, n);
    let before = distinct_labels(shorter);
    let after = distinct_labels(zones);
    labels_are_complete_and_distinct(shorter);
    if b < before.len() {
        labels_stand_in_order_of_appearance(shorter, a, b);
        let p = choose|p: int|
            0 <= p < shorter.len() && zone_label(#[trigger] shorter[p]) == before[a] && forall|
                q: int,
            |
                0 <= q <= p ==> zone_label(#[trigger] shorter[q]) != before[b];
        assert(zones[p] == shorter[p]);
        assert forall|q: int| 0 <= q <= p implies zone_label(#[trigger] zones[q]) != after[b] by {
            assert(shorter[q] == zones[q]);
        }
    } else {
        let p = label_has_a_zone(shorter, a);
        assert(zones[p] == shorter[p]);
        assert forall|q: int| 0 <= q <= p implies zone_label(#[trigger] zones[q]) != after[b] by {
            assert(shorter[q] == zones[q]);
            assert(before.contains(zone_label(shorter[q])));
        }
    }
}

/// Each heading is some zone's.
proof fn label_has_a_zone(zones: Seq<Zone>, a: int) -> (p: int)
    requires
        0 <= a < distinct_labels(zones).len(),
    ensures
        0 <= p < zones.len(),
        zone_label(zones[p]) == distinct_labels(zones)[a],
    decreases zones.len(),
{
    let n = zones.len() - 1;
    let shorter = zones.subrange(0, n);
    if a < distinct_labels(shorter).len() {
        let p = label_has_a_zone(shorter, a);
        assert(zones[p] == shorter[p]);
        p
    } else {
        n
    }
}

/// Sources that are not told apart by name keep the order in which the zones first have
/// them: a zone of the earlier group comes before every zone of the later one.
pub proof fn other_sources_keep_their_order(
    zones: Seq<Zone>,
    groups: Seq<ZoneGroup>,
    order: Seq<usize>,
    g: int,
    h: int,
)
    requires
        is_grouping(zones, groups, order),
        0 <= g < h < groups.len(),
        lowercase(groups[g].source@) == lowercase(groups[h].source@) || (forall|k: int|
            k == g || k == h ==> lowercase((#[trigger] groups[k]).source@) != "roon"@ && lowercase(
                groups[k].source@,
            ) != "lms"@ && lowercase(groups[k].source@) != "openhome"@ && lowercase(
                groups[k].source@,
            ) != "upnp"@),
    ensures
        exists|p: int|
            0 <= p < zones.len() && (match (#[trigger] zones[p]).source {
                Some(source) => source@,
                None => "Other"@,
            }) == groups[g].source@ && forall|q: int|
                0 <= q <= p ==> (match (#[trigger] zones[q]).source {
                    Some(source) => source@,
                    None => "Other"@,
                }) != groups[h].source@,
{
    let labels = distinct_labels(zones);
    assert(crate::sorting::rank_before(label_ranks(labels), order[g], order[h]));
    let a = order[g] as int;
    let b = order[h] as int;
    assert(groups[g].source@ == labels[a] && groups[h].source@ == labels[b]);
    assert(a < b);
    labels_stand_in_order_of_appearance(zones, a, b);
    let p = choose|p: int|
        0 <= p < zones.len() && zone_label(#[trigger] zones[p]) == labels[a] && forall|q: int|
            0 <= q <= p ==> zone_label(#[trigger] zones[q]) != labels[b];
    assert(zone_label(zones[p]) == labels[a]);
    assert forall|q: int| 0 <= q <= p implies (match (#[trigger] zones[q]).source {
        Some(source) => source@,
        None => "Other"@,
    }) != groups[h].source@ by {
        assert(zone_label(zones[q]) != labels[b]);
    }
}

/// A zone stands under its own source, and under the common heading where it has none.
pub proof fn zones_stand_under_their_source(
    zones: Seq<Zone>,
    groups: Seq<ZoneGroup>,
    order: Seq<usize>,
    g: int,
    i: int,
)
    requires
        is_grouping(zones, groups, order),
        0 <= g < groups.len(),
        0 <= i < groups[g].zones@.len(),
    ensures
        groups[g].zones@[i].source is Some ==> groups[g].zones@[i].source->0@ == groups[g].source@,
        groups[g].zones@[i].source is None ==> groups[g].source@ == "Other"@,
        zones.contains(*groups[g].zones@[i]),
{
    let zone = derefs(groups[g].zones@)[i];
    assert(derefs(groups[g].zones@).contains(zone));
    groups_partition_zones(zones, groups, order, zone);
}

/// Within a group the names go up.
pub proof fn zones_of_a_group_go_by_name(
    zones: Seq<Zone>,
    groups: Seq<ZoneGroup>,
    order: Seq<usize>,
    g: int,
    i: int,
    j: int,
)
    requires
        is_grouping(zones, groups, order),
        0 <= g < groups.len(),
        0 <= i < j < groups[g].zones@.len(),
    ensures
        crate::text::text_le(groups[g].zones@[i].zone_name@, groups[g].zones@[j].zone_name@),
{
    let members = zones_under(zones, groups[g].source@);
    let listed = derefs(groups[g].zones@);
    assert(by_name(members, listed));
    let within = choose|within: Seq<usize>| #[trigger]
        orders_texts(zone_names(members), within) && listed == arranged(members, within);
    assert(listed.len() == groups[g].zones@.len());
    assert(within.len() == listed.len());
    assert(crate::sorting::text_before(zone_names(members), within[i], within[j]));
    assert(listed[i] == members[within[i] as int]);
    assert(listed[j] == members[within[j] as int]);
}

/// Zones of one name stand in a list by name as they stood before.
pub proof fn equal_names_keep_their_order(members: Seq<Zone>, listed: Seq<Zone>)
    requires
        by_name(members, listed),
        forall|i: int, j: int|
            0 <= i < members.len() && 0 <= j < members.len() ==> (
            #[trigger] members[i]).zone_name@ == (#[trigger] members[j]).zone_name@,
    ensures
        listed == members,
{
    let order = choose|order: Seq<usize>| #[trigger]
        orders_texts(zone_names(members), order) && listed == arranged(members, order);
    let keys = zone_names(members);
    assert forall|i: int, j: int| 0 <= i < j < order.len() implies order[i] < order[j] by {
        assert(crate::sorting::text_before(keys, order[i], order[j]));
        assert(keys[order[i] as int] == members[order[i] as int].zone_name@);
        assert(keys[order[j] as int] == members[order[j] as int].zone_name@);
    }
    increasing_positions_stay(order, order.len() as int);
    assert(listed =~= members);
}

/// Positions that go up from below `n`, `n` of them, are the positions in order.
proof fn increasing_positions_stay(order: Seq<usize>, n: int)
    requires
        order.len() == n,
        forall|i: int| 0 <= i < n ==> (#[trigger] order[i]) < n,
        forall|i: int, j: int| 0 <= i < j < n ==> (#[trigger] order[i]) < (#[trigger] order[j]),
    ensures
        forall|i: int| 0 <= i < n ==> (#[trigger] order[i]) == i,
{
    assert forall|i: int| 0 <= i < n implies (#[trigger] order[i]) >= i by {
        at_least_position(order, i);
    }
    assert forall|i: int| 0 <= i < n implies (#[trigger] order[i]) <= i by {
        at_most_position(order, i);
    }
}

proof fn at_least_position(order: Seq<usize>, i: int)
    requires
        0 <= i < order.len(),
        forall|a: int, b: int|
            0 <= a < b < order.len() ==> (#[trigger] order[a]) < (#[trigger] order[b]),
    ensures
        order[i] >= i,
    decreases i,
{
    if i > 0 {
        at_least_position(order, i - 1);
    }
}

proof fn at_most_position(order: Seq<usize>, i: int)
    requires
        0 <= i < order.len(),
        forall|a: int| 0 <= a < order.len() ==> (#[trigger] order[a]) < order.len(),
        forall|a: int, b: int|
            0 <= a < b < order.len() ==> (#[trigger] order[a]) < (#[trigger] order[b]),
    ensures
        order[i] <= i,
    decreases order.len() - i,
{
    if i + 1 < order.len() {
        at_most_position(order, i + 1);
    }
}

} // verus!
