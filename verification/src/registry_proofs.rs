//! What holds of the registry after a topology update, proved from the
//! definition of the update.

use vstd::prelude::*;
use crate::registry::{
    applied, distinct_speakers, enroll_groups, enroll_member, enroll_members, has_uuid,
    is_arrival_of, is_shown, missing, missing_among, missing_in, note_missing, record_keys,
    retained, Arrivals, Records,
};
use crate::search::{any_item, lemma_first_index};
use crate::text::{folded, same_ignoring_case};
use crate::topology::{holds_speaker, in_topology, is_speaker, topology_keys};
use crate::types::{SpeakerInfoView, TopologyView};

verus! {

/// Every record is of a speaker that the topology shows.
pub open spec fn all_shown<D, W>(records: Records<D, W>, topology: TopologyView) -> bool {
    forall|i: int| 0 <= i < records.len() ==> in_topology(topology, (#[trigger] records[i]).speaker.uuid)
}

/// Every one of these members is shown by the topology.
pub open spec fn members_shown(members: Seq<SpeakerInfoView>, topology: TopologyView) -> bool {
    forall|m: int| 0 <= m < members.len() ==> in_topology(topology, (#[trigger] members[m]).uuid)
}

/// The speaker is known to the registry or something was built for it.
pub open spec fn provided_for<D, W>(
    state: (Records<D, W>, Arrivals<D, W>),
    uuid: Seq<char>,
) -> bool {
    any_item(state.0, has_uuid(uuid)) || any_item(state.1, is_arrival_of(uuid))
}

/// Something was built for every speaker that the topology shows and the
/// registry does not know.
pub open spec fn built_for_all_missing<D, W>(
    records: Records<D, W>,
    topology: TopologyView,
    arrivals: Arrivals<D, W>,
) -> bool {
    forall|k: int|
        0 <= k < missing(records, topology).len() ==> any_item(
            arrivals,
            is_arrival_of((#[trigger] missing(records, topology)[k]).uuid),
        )
}

proof fn lemma_member_is_shown(topology: TopologyView, g: int, m: int)
    requires
        0 <= g < topology.len(),
        0 <= m < topology[g].1.len(),
    ensures
        in_topology(topology, topology[g].1[m].uuid),
{
    assert(is_speaker(topology[g].1[m].uuid)(topology[g].1[m]));
    assert(holds_speaker(topology[g].1[m].uuid)(topology[g]));
}

proof fn lemma_retained_shown<D, W>(records: Records<D, W>, topology: TopologyView)
    ensures
        all_shown(retained(records, topology), topology),
{
    let kept = retained(records, topology);
    assert forall|i: int| 0 <= i < kept.len() implies in_topology(
        topology,
        (#[trigger] kept[i]).speaker.uuid,
    ) by {
        records.lemma_filter_pred(is_shown(topology), i);
    }
}

proof fn lemma_enroll_member_shown<D, W>(
    state: (Records<D, W>, Arrivals<D, W>),
    info: SpeakerInfoView,
    topology: TopologyView,
)
    requires
        all_shown(state.0, topology),
        in_topology(topology, info.uuid),
    ensures
        all_shown(enroll_member(state, info).0, topology),
{
    lemma_first_index(state.0, has_uuid::<D, W>(info.uuid));
    lemma_first_index(state.1, is_arrival_of::<D, W>(info.uuid));
    let after = enroll_member(state, info).0;
    assert forall|i: int| 0 <= i < after.len() implies in_topology(
        topology,
        (#[trigger] after[i]).speaker.uuid,
    ) by {
        if i < state.0.len() {
            assert(after[i].speaker.uuid == state.0[i].speaker.uuid);
        }
    }
}

proof fn lemma_enroll_members_shown<D, W>(
    state: (Records<D, W>, Arrivals<D, W>),
    members: Seq<SpeakerInfoView>,
    topology: TopologyView,
)
    requires
        all_shown(state.0, topology),
        members_shown(members, topology),
    ensures
        all_shown(enroll_members(state, members).0, topology),
    decreases members.len(),
{
    if members.len() > 0 {
        assert forall|m: int| 0 <= m < members.drop_last().len() implies in_topology(
            topology,
            (#[trigger] members.drop_last()[m]).uuid,
        ) by {
            assert(members.drop_last()[m] == members[m]);
        }
        lemma_enroll_members_shown(state, members.drop_last(), topology);
        assert(in_topology(topology, members[members.len() - 1].uuid));
        lemma_enroll_member_shown(
            enroll_members(state, members.drop_last()),
            members.last(),
            topology,
        );
    }
}

proof fn lemma_enroll_groups_shown<D, W>(
    state: (Records<D, W>, Arrivals<D, W>),
    groups: TopologyView,
    topology: TopologyView,
)
    requires
        all_shown(state.0, topology),
        forall|g: int| 0 <= g < groups.len() ==> members_shown((#[trigger] groups[g]).1, topology),
    ensures
        all_shown(enroll_groups(state, groups).0, topology),
    decreases groups.len(),
{
    if groups.len() > 0 {
        assert forall|g: int| 0 <= g < groups.drop_last().len() implies members_shown(
            (#[trigger] groups.drop_last()[g]).1,
            topology,
        ) by {
            assert(groups.drop_last()[g] == groups[g]);
        }
        lemma_enroll_groups_shown(state, groups.drop_last(), topology);
        assert(members_shown(groups[groups.len() - 1].1, topology));
        lemma_enroll_members_shown(
            enroll_groups(state, groups.drop_last()),
            groups.last().1,
            topology,
        );
    }
}

/// After a topology update the registry holds no speaker that the topology
/// does not show, whatever was built.
pub proof fn lemma_applied_within_topology<D, W>(
    records: Records<D, W>,
    topology: TopologyView,
    arrivals: Arrivals<D, W>,
)
    ensures
        all_shown(applied(records, topology, arrivals), topology),
        record_keys(applied(records, topology, arrivals)).subset_of(topology_keys(topology)),
{
    lemma_retained_shown(records, topology);
    assert forall|g: int| 0 <= g < topology.len() implies members_shown(
        (#[trigger] topology[g]).1,
        topology,
    ) by {
        assert forall|m: int| 0 <= m < topology[g].1.len() implies in_topology(
            topology,
            (#[trigger] topology[g].1[m]).uuid,
        ) by {
            lemma_member_is_shown(topology, g, m);
        }
    }
    lemma_enroll_groups_shown((retained(records, topology), arrivals), topology, topology);
    let after = applied(records, topology, arrivals);
    assert forall|key: Seq<char>| record_keys(after).contains(key) implies topology_keys(
        topology,
    ).contains(key) by {
        let i = choose|i: int| 0 <= i < after.len() && folded(#[trigger] after[i].speaker.uuid) == key;
        assert(in_topology(topology, after[i].speaker.uuid));
        crate::topology::lemma_in_topology_is_key(topology, after[i].speaker.uuid);
    }
}

proof fn lemma_enroll_member_keeps<D, W>(
    state: (Records<D, W>, Arrivals<D, W>),
    info: SpeakerInfoView,
    uuid: Seq<char>,
)
    ensures
        any_item(state.0, has_uuid(uuid)) ==> any_item(enroll_member(state, info).0, has_uuid(uuid)),
        provided_for(state, uuid) ==> provided_for(enroll_member(state, info), uuid),
        provided_for(state, info.uuid) ==> any_item(
            enroll_member(state, info).0,
            has_uuid(info.uuid),
        ),
{
    lemma_first_index(state.0, has_uuid::<D, W>(info.uuid));
    lemma_first_index(state.1, is_arrival_of::<D, W>(info.uuid));
    let after = enroll_member(state, info);
    if any_item(state.0, has_uuid(uuid)) {
        let i = choose|i: int| 0 <= i < state.0.len() && has_uuid::<D, W>(uuid)(#[trigger] state.0[i]);
        assert(after.0[i].speaker.uuid == state.0[i].speaker.uuid);
        assert(has_uuid::<D, W>(uuid)(after.0[i]));
    } else if any_item(state.1, is_arrival_of(uuid)) {
        let j = choose|j: int|
            0 <= j < state.1.len() && is_arrival_of::<D, W>(uuid)(#[trigger] state.1[j]);
        match crate::search::first_index(state.0, has_uuid::<D, W>(info.uuid)) {
            Some(i) => {
                assert(is_arrival_of::<D, W>(uuid)(after.1[j]));
            },
            None => {
                match crate::search::first_index(state.1, is_arrival_of::<D, W>(info.uuid)) {
                    Some(k) => {
                        if j == k {
                            let last = after.0.len() - 1;
                            assert(after.0[last].speaker.uuid == info.uuid);
                            assert(has_uuid::<D, W>(uuid)(after.0[last]));
                        } else if j < k {
                            assert(after.1[j] == state.1[j]);
                            assert(is_arrival_of::<D, W>(uuid)(after.1[j]));
                        } else {
                            assert(after.1[j - 1] == state.1[j]);
                            assert(is_arrival_of::<D, W>(uuid)(after.1[j - 1]));
                        }
                    },
                    None => {
                        assert(is_arrival_of::<D, W>(uuid)(after.1[j]));
                    },
                }
            },
        }
    }
    if provided_for(state, info.uuid) {
        match crate::search::first_index(state.0, has_uuid::<D, W>(info.uuid)) {
            Some(i) => {
                assert(after.0[i].speaker.uuid == state.0[i].speaker.uuid);
                assert(has_uuid::<D, W>(info.uuid)(after.0[i]));
            },
            None => {
                let k = crate::search::first_index(state.1, is_arrival_of::<D, W>(info.uuid))->0;
                let last = after.0.len() - 1;
                assert(after.0[last].speaker.uuid == info.uuid);
                assert(has_uuid::<D, W>(info.uuid)(after.0[last]));
            },
        }
    }
}

proof fn lemma_enroll_members_keeps<D, W>(
    state: (Records<D, W>, Arrivals<D, W>),
    members: Seq<SpeakerInfoView>,
    uuid: Seq<char>,
)
    ensures
        any_item(state.0, has_uuid(uuid)) ==> any_item(
            enroll_members(state, members).0,
            has_uuid(uuid),
        ),
        provided_for(state, uuid) ==> provided_for(enroll_members(state, members), uuid),
    decreases members.len(),
{
    if members.len() > 0 {
        lemma_enroll_members_keeps(state, members.drop_last(), uuid);
        lemma_enroll_member_keeps(enroll_members(state, members.drop_last()), members.last(), uuid);
    }
}

proof fn lemma_enroll_members_reach<D, W>(
    state: (Records<D, W>, Arrivals<D, W>),
    members: Seq<SpeakerInfoView>,
    m: int,
)
    requires
        0 <= m < members.len(),
        provided_for(state, members[m].uuid),
    ensures
        any_item(enroll_members(state, members).0, has_uuid(members[m].uuid)),
    decreases members.len(),
{
    let before = enroll_members(state, members.drop_last());
    if m == members.len() - 1 {
        lemma_enroll_members_keeps(state, members.drop_last(), members[m].uuid);
        lemma_enroll_member_keeps(before, members.last(), members[m].uuid);
    } else {
        assert(members.drop_last()[m] == members[m]);
        lemma_enroll_members_reach(state, members.drop_last(), m);
        lemma_enroll_member_keeps(before, members.last(), members[m].uuid);
    }
}

proof fn lemma_enroll_groups_keeps<D, W>(
    state: (Records<D, W>, Arrivals<D, W>),
    groups: TopologyView,
    uuid: Seq<char>,
)
    ensures
        any_item(state.0, has_uuid(uuid)) ==> any_item(enroll_groups(state, groups).0, has_uuid(uuid)),
        provided_for(state, uuid) ==> provided_for(enroll_groups(state, groups), uuid),
    decreases groups.len(),
{
    if groups.len() > 0 {
        lemma_enroll_groups_keeps(state, groups.drop_last(), uuid);
        lemma_enroll_members_keeps(enroll_groups(state, groups.drop_last()), groups.last().1, uuid);
    }
}

proof fn lemma_enroll_groups_reach<D, W>(
    state: (Records<D, W>, Arrivals<D, W>),
    groups: TopologyView,
    g: int,
    m: int,
)
    requires
        0 <= g < groups.len(),
        0 <= m < groups[g].1.len(),
        provided_for(state, groups[g].1[m].uuid),
    ensures
        any_item(enroll_groups(state, groups).0, has_uuid(groups[g].1[m].uuid)),
    decreases groups.len(),
{
    let uuid = groups[g].1[m].uuid;
    let before = enroll_groups(state, groups.drop_last());
    if g == groups.len() - 1 {
        lemma_enroll_groups_keeps(state, groups.drop_last(), uuid);
        lemma_enroll_members_reach(before, groups.last().1, m);
    } else {
        assert(groups.drop_last()[g] == groups[g]);
        lemma_enroll_groups_reach(state, groups.drop_last(), g, m);
        lemma_enroll_members_keeps(before, groups.last().1, uuid);
    }
}

proof fn lemma_note_missing_keeps<D, W>(
    records: Records<D, W>,
    found: Seq<SpeakerInfoView>,
    info: SpeakerInfoView,
    uuid: Seq<char>,
)
    ensures
        any_item(found, is_speaker(uuid)) ==> any_item(
            note_missing(records, found, info),
            is_speaker(uuid),
        ),
        any_item(records, has_uuid(info.uuid)) || any_item(
            note_missing(records, found, info),
            is_speaker(info.uuid),
        ),
{
    let after = note_missing(records, found, info);
    if any_item(found, is_speaker(uuid)) {
        let i = choose|i: int| 0 <= i < found.len() && is_speaker(uuid)(#[trigger] found[i]);
        assert(after[i] == found[i]);
        assert(is_speaker(uuid)(after[i]));
    }
    if !any_item(records, has_uuid(info.uuid)) && !any_item(found, is_speaker(info.uuid)) {
        assert(is_speaker(info.uuid)(after[after.len() - 1]));
    }
}

proof fn lemma_missing_among_keeps<D, W>(
    records: Records<D, W>,
    found: Seq<SpeakerInfoView>,
    members: Seq<SpeakerInfoView>,
    uuid: Seq<char>,
)
    ensures
        any_item(found, is_speaker(uuid)) ==> any_item(
            missing_among(records, found, members),
            is_speaker(uuid),
        ),
    decreases members.len(),
{
    if members.len() > 0 {
        lemma_missing_among_keeps(records, found, members.drop_last(), uuid);
        lemma_note_missing_keeps(
            records,
            missing_among(records, found, members.drop_last()),
            members.last(),
            uuid,
        );
    }
}

proof fn lemma_missing_among_reach<D, W>(
    records: Records<D, W>,
    found: Seq<SpeakerInfoView>,
    members: Seq<SpeakerInfoView>,
    m: int,
)
    requires
        0 <= m < members.len(),
    ensures
        any_item(records, has_uuid(members[m].uuid)) || any_item(
            missing_among(records, found, members),
            is_speaker(members[m].uuid),
        ),
    decreases members.len(),
{
    let before = missing_among(records, found, members.drop_last());
    if m == members.len() - 1 {
        lemma_note_missing_keeps(records, before, members.last(), members[m].uuid);
    } else {
        assert(members.drop_last()[m] == members[m]);
        lemma_missing_among_reach(records, found, members.drop_last(), m);
        lemma_note_missing_keeps(records, before, members.last(), members[m].uuid);
    }
}

proof fn lemma_missing_in_keeps<D, W>(
    records: Records<D, W>,
    found: Seq<SpeakerInfoView>,
    groups: TopologyView,
    uuid: Seq<char>,
)
    ensures
        any_item(found, is_speaker(uuid)) ==> any_item(
            missing_in(records, found, groups),
            is_speaker(uuid),
        ),
    decreases groups.len(),
{
    if groups.len() > 0 {
        lemma_missing_in_keeps(records, found, groups.drop_last(), uuid);
        lemma_missing_among_keeps(
            records,
            missing_in(records, found, groups.drop_last()),
            groups.last().1,
            uuid,
        );
    }
}

proof fn lemma_missing_in_reach<D, W>(
    records: Records<D, W>,
    found: Seq<SpeakerInfoView>,
    groups: TopologyView,
    g: int,
    m: int,
)
    requires
        0 <= g < groups.len(),
        0 <= m < groups[g].1.len(),
    ensures
        any_item(records, has_uuid(groups[g].1[m].uuid)) || any_item(
            missing_in(records, found, groups),
            is_speaker(groups[g].1[m].uuid),
        ),
    decreases groups.len(),
{
    let uuid = groups[g].1[m].uuid;
    let before = missing_in(records, found, groups.drop_last());
    if g == groups.len() - 1 {
        lemma_missing_among_reach(records, before, groups.last().1, m);
    } else {
        assert(groups.drop_last()[g] == groups[g]);
        lemma_missing_in_reach(records, found, groups.drop_last(), g, m);
        lemma_missing_among_keeps(records, before, groups.last().1, uuid);
    }
}

/// Every speaker that the topology shows is known to the registry or listed
/// as missing.
pub proof fn lemma_missing_is_complete<D, W>(
    records: Records<D, W>,
    topology: TopologyView,
    g: int,
    m: int,
)
    requires
        0 <= g < topology.len(),
        0 <= m < topology[g].1.len(),
    ensures
        any_item(records, has_uuid(topology[g].1[m].uuid)) || any_item(
            missing(records, topology),
            is_speaker(topology[g].1[m].uuid),
        ),
{
    lemma_missing_in_reach(records, Seq::empty(), topology, g, m);
}

/// A record of a speaker that the topology shows is not dropped.
proof fn lemma_retained_keeps<D, W>(records: Records<D, W>, topology: TopologyView, uuid: Seq<char>)
    requires
        any_item(records, has_uuid(uuid)),
        in_topology(topology, uuid),
    ensures
        any_item(retained(records, topology), has_uuid(uuid)),
{
    let i = choose|i: int| 0 <= i < records.len() && has_uuid::<D, W>(uuid)(#[trigger] records[i]);
    assert(same_ignoring_case(records[i].speaker.uuid, uuid));
    crate::topology::lemma_in_topology_is_key(topology, uuid);
    crate::topology::lemma_in_topology_is_key(topology, records[i].speaker.uuid);
    assert(is_shown::<D, W>(topology)(records[i]));
    records.lemma_filter_contains(is_shown(topology), i);
    let kept = retained(records, topology);
    let j = choose|j: int| 0 <= j < kept.len() && kept[j] == records[i];
    assert(has_uuid::<D, W>(uuid)(kept[j]));
}

/// Where something was built for every missing speaker, the registry after
/// a topology update knows every speaker that the topology shows.
pub proof fn lemma_applied_covers_topology<D, W>(
    records: Records<D, W>,
    topology: TopologyView,
    arrivals: Arrivals<D, W>,
    g: int,
    m: int,
)
    requires
        built_for_all_missing(records, topology, arrivals),
        0 <= g < topology.len(),
        0 <= m < topology[g].1.len(),
    ensures
        any_item(applied(records, topology, arrivals), has_uuid(topology[g].1[m].uuid)),
{
    let uuid = topology[g].1[m].uuid;
    let start = (retained(records, topology), arrivals);
    lemma_member_is_shown(topology, g, m);
    lemma_missing_is_complete(records, topology, g, m);
    if any_item(records, has_uuid(uuid)) {
        lemma_retained_keeps(records, topology, uuid);
    } else {
        let listed = missing(records, topology);
        let k = choose|k: int| 0 <= k < listed.len() && is_speaker(uuid)(#[trigger] listed[k]);
        assert(any_item(arrivals, is_arrival_of(listed[k].uuid)));
        let a = choose|a: int|
            0 <= a < arrivals.len() && is_arrival_of::<D, W>(listed[k].uuid)(#[trigger] arrivals[a]);
        assert(is_arrival_of::<D, W>(uuid)(arrivals[a]));
    }
    assert(provided_for(start, uuid));
    lemma_enroll_groups_reach(start, topology, g, m);
}

/// Where something was built for every missing speaker, the registry after
/// a topology update holds exactly the speakers that the topology shows:
/// the two sets of identifiers are equal.
pub proof fn lemma_registry_matches_topology<D, W>(
    records: Records<D, W>,
    topology: TopologyView,
    arrivals: Arrivals<D, W>,
)
    requires
        built_for_all_missing(records, topology, arrivals),
    ensures
        record_keys(applied(records, topology, arrivals)) == topology_keys(topology),
{
    let after = applied(records, topology, arrivals);
    lemma_applied_within_topology(records, topology, arrivals);
    assert forall|key: Seq<char>| topology_keys(topology).contains(key) implies record_keys(
        after,
    ).contains(key) by {
        let (g, m) = choose|g: int, m: int|
            0 <= g < topology.len() && 0 <= m < topology[g].1.len() && folded(
                #[trigger] topology[g].1[m].uuid,
            ) == key;
        lemma_applied_covers_topology(records, topology, arrivals, g, m);
        let i = choose|i: int|
            0 <= i < after.len() && has_uuid::<D, W>(topology[g].1[m].uuid)(#[trigger] after[i]);
        assert(folded(after[i].speaker.uuid) == key);
    }
    assert(record_keys(after) =~= topology_keys(topology));
}

proof fn lemma_retained_distinct<D, W>(records: Records<D, W>, topology: TopologyView)
    requires
        distinct_speakers(records),
    ensures
        distinct_speakers(retained(records, topology)),
    decreases records.len(),
{
    reveal(Seq::filter);
    let shown = is_shown::<D, W>(topology);
    if records.len() > 0 {
        let front = records.drop_last();
        let last = records.last();
        assert forall|i: int, j: int| 0 <= i < j < front.len() implies !same_ignoring_case(
            (#[trigger] front[i]).speaker.uuid,
            (#[trigger] front[j]).speaker.uuid,
        ) by {
            assert(front[i] == records[i] && front[j] == records[j]);
        }
        lemma_retained_distinct(front, topology);
        let kept = front.filter(shown);
        if shown(last) {
            let all = kept.push(last);
            assert(retained(records, topology) == all);
            assert forall|i: int, j: int| 0 <= i < j < all.len() implies !same_ignoring_case(
                (#[trigger] all[i]).speaker.uuid,
                (#[trigger] all[j]).speaker.uuid,
            ) by {
                if j < kept.len() {
                    assert(all[i] == kept[i] && all[j] == kept[j]);
                } else {
                    assert(all[i] == kept[i]);
                    assert(kept.contains(kept[i]));
                    front.lemma_filter_contains_rev(shown, kept[i]);
                    let k = choose|k: int| 0 <= k < front.len() && front[k] == kept[i];
                    assert(records[k] == kept[i]);
                    assert(records[records.len() - 1] == last);
                }
            }
        } else {
            assert(retained(records, topology) == kept);
        }
    }
}

proof fn lemma_enroll_member_distinct<D, W>(
    state: (Records<D, W>, Arrivals<D, W>),
    info: SpeakerInfoView,
)
    requires
        distinct_speakers(state.0),
    ensures
        distinct_speakers(enroll_member(state, info).0),
{
    lemma_first_index(state.0, has_uuid::<D, W>(info.uuid));
    lemma_first_index(state.1, is_arrival_of::<D, W>(info.uuid));
    let after = enroll_member(state, info).0;
    assert forall|i: int, j: int| 0 <= i < j < after.len() implies !same_ignoring_case(
        (#[trigger] after[i]).speaker.uuid,
        (#[trigger] after[j]).speaker.uuid,
    ) by {
        if j < state.0.len() {
            assert(after[i].speaker.uuid == state.0[i].speaker.uuid);
            assert(after[j].speaker.uuid == state.0[j].speaker.uuid);
        } else {
            assert(after[i].speaker.uuid == state.0[i].speaker.uuid);
            assert(!has_uuid::<D, W>(info.uuid)(state.0[i]));
        }
    }
}

proof fn lemma_enroll_members_distinct<D, W>(
    state: (Records<D, W>, Arrivals<D, W>),
    members: Seq<SpeakerInfoView>,
)
    requires
        distinct_speakers(state.0),
    ensures
        distinct_speakers(enroll_members(state, members).0),
    decreases members.len(),
{
    if members.len() > 0 {
        lemma_enroll_members_distinct(state, members.drop_last());
        lemma_enroll_member_distinct(enroll_members(state, members.drop_last()), members.last());
    }
}

proof fn lemma_enroll_groups_distinct<D, W>(
    state: (Records<D, W>, Arrivals<D, W>),
    groups: TopologyView,
)
    requires
        distinct_speakers(state.0),
    ensures
        distinct_speakers(enroll_groups(state, groups).0),
    decreases groups.len(),
{
    if groups.len() > 0 {
        lemma_enroll_groups_distinct(state, groups.drop_last());
        lemma_enroll_members_distinct(enroll_groups(state, groups.drop_last()), groups.last().1);
    }
}

/// A registry that holds every speaker once still does so after a topology
/// update, whatever the topology and whatever was built.
pub proof fn lemma_applied_keeps_speakers_distinct<D, W>(
    records: Records<D, W>,
    topology: TopologyView,
    arrivals: Arrivals<D, W>,
)
    requires
        distinct_speakers(records),
    ensures
        distinct_speakers(applied(records, topology, arrivals)),
{
    lemma_retained_distinct(records, topology);
    lemma_enroll_groups_distinct((retained(records, topology), arrivals), topology);
}

} // verus!
