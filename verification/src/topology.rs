//! The topology model: which zone group a speaker belongs to, and which
//! speaker coordinates that group. All comparisons of identifiers are made
//! without regard to ASCII case.

use vstd::prelude::*;
use crate::search::{any_item, first_index, is_first, lemma_first_absent, lemma_first_found};
use crate::text::{eq_ignore_ascii_case, folded, same_ignoring_case};
use crate::types::{SpeakerInfo, SpeakerInfoView, Topology, TopologyView};

verus! {

/// The condition "is the speaker with this identifier".
pub open spec fn is_speaker(uuid: Seq<char>) -> spec_fn(SpeakerInfoView) -> bool {
    |info: SpeakerInfoView| same_ignoring_case(info.uuid, uuid)
}

/// The condition "is a group with this speaker among its members".
pub open spec fn holds_speaker(uuid: Seq<char>) -> spec_fn((Seq<char>, Seq<SpeakerInfoView>)) -> bool {
    |group: (Seq<char>, Seq<SpeakerInfoView>)| any_item(group.1, is_speaker(uuid))
}

/// The condition "is the group that this speaker coordinates".
pub open spec fn led_by(uuid: Seq<char>) -> spec_fn((Seq<char>, Seq<SpeakerInfoView>)) -> bool {
    |group: (Seq<char>, Seq<SpeakerInfoView>)| same_ignoring_case(group.0, uuid)
}

/// The position of the first group that has the speaker among its members.
pub open spec fn group_of(topology: TopologyView, uuid: Seq<char>) -> Option<int> {
    first_index(topology, holds_speaker(uuid))
}

/// The identifier of the coordinator of the group that contains the speaker;
/// this may be the speaker itself. Nothing for a speaker that no group holds.
pub open spec fn coordinator_uuid(topology: TopologyView, uuid: Seq<char>) -> Option<Seq<char>> {
    match group_of(topology, uuid) {
        Some(g) => Some(topology[g].0),
        None => None,
    }
}

/// The members of the group that the speaker coordinates. Nothing for a
/// speaker that coordinates no group.
pub open spec fn group_members(topology: TopologyView, coordinator: Seq<char>) -> Option<
    Seq<SpeakerInfoView>,
> {
    match first_index(topology, led_by(coordinator)) {
        Some(g) => Some(topology[g].1),
        None => None,
    }
}

/// True where some group of the topology has the speaker among its members.
pub open spec fn in_topology(topology: TopologyView, uuid: Seq<char>) -> bool {
    any_item(topology, holds_speaker(uuid))
}

/// The identifiers of all the members of all the groups, each in its folded
/// form, so that two spellings of one identifier are one element.
pub open spec fn topology_keys(topology: TopologyView) -> Set<Seq<char>> {
    Set::new(
        |key: Seq<char>|
            exists|g: int, m: int|
                0 <= g < topology.len() && 0 <= m < topology[g].1.len() && folded(
                    #[trigger] topology[g].1[m].uuid,
                ) == key,
    )
}

/// A speaker is in the topology exactly when its folded identifier is one of
/// the topology's keys.
pub proof fn lemma_in_topology_is_key(topology: TopologyView, uuid: Seq<char>)
    ensures
        in_topology(topology, uuid) <==> topology_keys(topology).contains(folded(uuid)),
{
    if in_topology(topology, uuid) {
        let g = choose|g: int| 0 <= g < topology.len() && holds_speaker(uuid)(#[trigger] topology[g]);
        let m = choose|m: int|
            0 <= m < topology[g].1.len() && is_speaker(uuid)(#[trigger] topology[g].1[m]);
        assert(folded(topology[g].1[m].uuid) == folded(uuid));
    }
    if topology_keys(topology).contains(folded(uuid)) {
        let (g, m) = choose|g: int, m: int|
            0 <= g < topology.len() && 0 <= m < topology[g].1.len() && folded(
                #[trigger] topology[g].1[m].uuid,
            ) == folded(uuid);
        assert(is_speaker(uuid)(topology[g].1[m]));
        assert(holds_speaker(uuid)(topology[g]));
    }
}

/// Whether the speaker is among these members.
pub fn is_member(members: &Vec<SpeakerInfo>, uuid: &str) -> (r: bool)
    ensures
        r == any_item(members.deep_view(), is_speaker(uuid@)),
{
    let mut i: usize = 0;
    while i < members.len()
        invariant
            i <= members.len(),
            forall|j: int| 0 <= j < i ==> !is_speaker(uuid@)(#[trigger] members.deep_view()[j]),
        decreases members.len() - i,
    {
        if eq_ignore_ascii_case(members[i].uuid(), uuid) {
            assert(is_speaker(uuid@)(members.deep_view()[i as int]));
            return true;
        }
        i += 1;
    }
    false
}

/// The position of the first group that has the speaker among its members.
pub fn find_group(topology: &Topology, uuid: &str) -> (r: Option<usize>)
    ensures
        match r {
            Some(g) => group_of(topology.deep_view(), uuid@) == Some(g as int) && g < topology.len(),
            None => group_of(topology.deep_view(), uuid@) is None,
        },
{
    let mut g: usize = 0;
    while g < topology.len()
        invariant
            g <= topology.len(),
            forall|k: int| 0 <= k < g ==> !holds_speaker(uuid@)(#[trigger] topology.deep_view()[k]),
        decreases topology.len() - g,
    {
        if is_member(&topology[g].1, uuid) {
            proof {
                assert(topology.deep_view()[g as int].1 == topology[g as int].1.deep_view());
                assert(is_first(topology.deep_view(), holds_speaker(uuid@), g as int));
                lemma_first_found(topology.deep_view(), holds_speaker(uuid@), g as int);
            }
            return Some(g);
        }
        proof {
            assert(topology.deep_view()[g as int].1 == topology[g as int].1.deep_view());
        }
        g += 1;
    }
    proof {
        lemma_first_absent(topology.deep_view(), holds_speaker(uuid@));
    }
    None
}

/// The identifier of the coordinator of the group that contains the speaker.
/// Unknown speakers have none.
pub fn coordinator_of<'a>(topology: &'a Topology, uuid: &str) -> (r: Option<&'a String>)
    ensures
        match r {
            Some(c) => coordinator_uuid(topology.deep_view(), uuid@) == Some(c@),
            None => coordinator_uuid(topology.deep_view(), uuid@) is None,
        },
{
    match find_group(topology, uuid) {
        Some(g) => {
            assert(topology.deep_view()[g as int].0 == topology[g as int].0@);
            Some(&topology[g].0)
        },
        None => None,
    }
}

/// The members of the group that the speaker coordinates. Speakers that
/// coordinate no group have none.
pub fn members_of<'a>(topology: &'a Topology, coordinator: &str) -> (r: Option<&'a Vec<SpeakerInfo>>)
    ensures
        match r {
            Some(members) => group_members(topology.deep_view(), coordinator@) == Some(
                members.deep_view(),
            ),
            None => group_members(topology.deep_view(), coordinator@) is None,
        },
{
    let mut g: usize = 0;
    while g < topology.len()
        invariant
            g <= topology.len(),
            forall|k: int| 0 <= k < g ==> !led_by(coordinator@)(#[trigger] topology.deep_view()[k]),
        decreases topology.len() - g,
    {
        proof {
            assert(topology.deep_view()[g as int].0 == topology[g as int].0@);
            assert(topology.deep_view()[g as int].1 == topology[g as int].1.deep_view());
        }
        if eq_ignore_ascii_case(topology[g].0.as_str(), coordinator) {
            proof {
                assert(is_first(topology.deep_view(), led_by(coordinator@), g as int));
                lemma_first_found(topology.deep_view(), led_by(coordinator@), g as int);
            }
            return Some(&topology[g].1);
        }
        g += 1;
    }
    proof {
        lemma_first_absent(topology.deep_view(), led_by(coordinator@));
    }
    None
}

/// Whether some group of the topology has the speaker among its members.
pub fn contains_speaker(topology: &Topology, uuid: &str) -> (r: bool)
    ensures
        r == in_topology(topology.deep_view(), uuid@),
{
    let found = find_group(topology, uuid);
    proof {
        crate::search::lemma_first_index(topology.deep_view(), holds_speaker(uuid@));
    }
    found.is_some()
}

} // verus!
