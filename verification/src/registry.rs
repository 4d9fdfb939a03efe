//! The speaker registry: the records of the known speakers, each with the
//! last AV-transport state heard of it and the handle of the worker that
//! listens to it. `D` is the handle by which a speaker is reached, `W` the
//! handle of a subscription worker; the registry keeps both and reads neither.

use vstd::prelude::*;
use crate::error::{ManagerError, Result};
use crate::search::{
    any_item, first_index, is_first, lemma_first_absent, lemma_first_found, lemma_first_index,
};
use crate::text::{eq_ignore_ascii_case, folded, parse_u32, parsed_u32, same_ignoring_case, str_eq};
use crate::topology::{contains_speaker, in_topology, is_member, is_speaker};
use crate::types::{AVStatus, SpeakerInfo, SpeakerInfoView, Topology, TopologyView};

verus! {

/// One known speaker.
#[derive(Debug)]
pub struct SpeakerData<D, W> {
    /// Identifier, room name and location of the speaker.
    pub speaker: SpeakerInfo,
    /// The handle by which the speaker is reached.
    pub device: D,
    /// The worker that feeds `transport_data`, if one is running.
    pub transport_subscription: Option<W>,
    /// The AV-transport state last heard. Empty until the first event.
    pub transport_data: AVStatus,
}

/// The mathematical value of a [`SpeakerData`].
pub struct SpeakerDataView<D, W> {
    pub speaker: SpeakerInfoView,
    pub device: D,
    pub transport_subscription: Option<W>,
    pub transport_data: Seq<(Seq<char>, Seq<char>)>,
}

impl<D, W> View for SpeakerData<D, W> {
    type V = SpeakerDataView<D, W>;

    open spec fn view(&self) -> SpeakerDataView<D, W> {
        SpeakerDataView {
            speaker: self.speaker@,
            device: self.device,
            transport_subscription: self.transport_subscription,
            transport_data: self.transport_data.deep_view(),
        }
    }
}

impl<D, W> DeepView for SpeakerData<D, W> {
    type V = SpeakerDataView<D, W>;

    open spec fn deep_view(&self) -> SpeakerDataView<D, W> {
        self@
    }
}

/// The records of a registry, in the order in which the speakers were first seen.
pub type Records<D, W> = Seq<SpeakerDataView<D, W>>;

/// The condition "is the record of the speaker with this identifier".
pub open spec fn has_uuid<D, W>(uuid: Seq<char>) -> spec_fn(SpeakerDataView<D, W>) -> bool {
    |record: SpeakerDataView<D, W>| same_ignoring_case(record.speaker.uuid, uuid)
}

/// The condition "is the record of a speaker with this room name", the names
/// compared without regard to case.
pub open spec fn has_name<D, W>(name: Seq<char>) -> spec_fn(SpeakerDataView<D, W>) -> bool {
    |record: SpeakerDataView<D, W>| same_ignoring_case(record.speaker.name, name)
}

/// The condition "is the record of a speaker with exactly this room name".
pub open spec fn has_exact_name<D, W>(name: Seq<char>) -> spec_fn(SpeakerDataView<D, W>) -> bool {
    |record: SpeakerDataView<D, W>| record.speaker.name == name
}

/// The condition "is the entry under this key", keys compared without regard to case.
pub open spec fn has_key(key: Seq<char>) -> spec_fn((Seq<char>, Seq<char>)) -> bool {
    |entry: (Seq<char>, Seq<char>)| same_ignoring_case(entry.0, key)
}

/// The identifiers of the records, each in its folded form.
pub open spec fn record_keys<D, W>(records: Records<D, W>) -> Set<Seq<char>> {
    Set::new(
        |key: Seq<char>|
            exists|i: int| 0 <= i < records.len() && folded(#[trigger] records[i].speaker.uuid) == key,
    )
}

/// No two records are of one speaker.
pub open spec fn distinct_speakers<D, W>(records: Records<D, W>) -> bool {
    forall|i: int, j: int|
        0 <= i < j < records.len() ==> !same_ignoring_case(
            #[trigger] records[i].speaker.uuid,
            #[trigger] records[j].speaker.uuid,
        )
}

/// The key under which the AV-transport state holds the current track number.
pub open spec fn current_track_key() -> Seq<char> {
    "CurrentTrack"@
}

/// What the cached AV-transport state says of the current track number:
/// nothing where it has no entry for it, else the number that the first such
/// entry reads as, or that the content was not found where it reads as none.
pub open spec fn cached_track_no(data: Seq<(Seq<char>, Seq<char>)>) -> Option<Option<u32>> {
    match first_index(data, has_key(current_track_key())) {
        Some(i) => Some(parsed_u32(data[i].1)),
        None => None,
    }
}

impl<D, W> SpeakerData<D, W> {
    /// The record of a speaker just seen: no state cached, no worker.
    pub fn new(speaker: SpeakerInfo, device: D) -> (record: SpeakerData<D, W>)
        ensures
            record@ == (SpeakerDataView::<D, W> {
                speaker: speaker@,
                device,
                transport_subscription: None,
                transport_data: Seq::empty(),
            }),
    {
        let record = SpeakerData {
            speaker,
            device,
            transport_subscription: None,
            transport_data: Vec::new(),
        };
        assert(record.transport_data.deep_view() =~= Seq::empty());
        record
    }

    /// The current track number as the cache has it. `None` where the cache
    /// holds no entry for it: the speaker then has to be asked. An entry that
    /// does not read as a number is answered with `ContentNotFound`.
    pub fn get_current_track_no(&self) -> (r: Option<Result<u32>>)
        ensures
            match cached_track_no(self@.transport_data) {
                None => r is None,
                Some(Some(n)) => r == Some(Ok::<u32, ManagerError>(n)),
                Some(None) => r == Some(Err::<u32, ManagerError>(ManagerError::ContentNotFound)),
            },
    {
        let mut i: usize = 0;
        while i < self.transport_data.len()
            invariant
                i <= self.transport_data.len(),
                forall|j: int|
                    0 <= j < i ==> !has_key(current_track_key())(#[trigger] self.transport_data.deep_view()[j]),
            decreases self.transport_data.len() - i,
        {
            proof {
                assert(self.transport_data.deep_view()[i as int] == (self.transport_data[i as int].0@, self.transport_data[i as int].1@));
            }
            if eq_ignore_ascii_case(self.transport_data[i].0.as_str(), "CurrentTrack") {
                proof {
                    assert(is_first(self.transport_data.deep_view(), has_key(current_track_key()), i as int));
                    lemma_first_found(self.transport_data.deep_view(), has_key(current_track_key()), i as int);
                }
                let parsed = parse_u32(self.transport_data[i].1.as_str());
                return match parsed {
                    Some(n) => Some(Ok(n)),
                    None => Some(Err(ManagerError::ContentNotFound)),
                };
            }
            i += 1;
        }
        proof {
            lemma_first_absent(self.transport_data.deep_view(), has_key(current_track_key()));
        }
        None
    }
}

/// The position of the first record of the speaker with this identifier.
pub fn find_by_uuid<D, W>(records: &Vec<SpeakerData<D, W>>, uuid: &str) -> (r: Option<usize>)
    ensures
        match r {
            Some(i) => first_index(records.deep_view(), has_uuid(uuid@)) == Some(i as int) && i
                < records.len(),
            None => first_index(records.deep_view(), has_uuid(uuid@)) is None,
        },
{
    let mut i: usize = 0;
    while i < records.len()
        invariant
            i <= records.len(),
            forall|j: int| 0 <= j < i ==> !has_uuid::<D, W>(uuid@)(#[trigger] records.deep_view()[j]),
        decreases records.len() - i,
    {
        if eq_ignore_ascii_case(records[i].speaker.uuid(), uuid) {
            proof {
                assert(is_first(records.deep_view(), has_uuid(uuid@), i as int));
                lemma_first_found(records.deep_view(), has_uuid(uuid@), i as int);
            }
            return Some(i);
        }
        i += 1;
    }
    proof {
        lemma_first_absent(records.deep_view(), has_uuid::<D, W>(uuid@));
    }
    None
}

/// The position of the first record of a speaker with this room name, the
/// names compared without regard to case.
pub fn find_by_name<D, W>(records: &Vec<SpeakerData<D, W>>, name: &str) -> (r: Option<usize>)
    ensures
        match r {
            Some(i) => first_index(records.deep_view(), has_name(name@)) == Some(i as int) && i
                < records.len(),
            None => first_index(records.deep_view(), has_name(name@)) is None,
        },
{
    let mut i: usize = 0;
    while i < records.len()
        invariant
            i <= records.len(),
            forall|j: int| 0 <= j < i ==> !has_name::<D, W>(name@)(#[trigger] records.deep_view()[j]),
        decreases records.len() - i,
    {
        if eq_ignore_ascii_case(records[i].speaker.name(), name) {
            proof {
                assert(is_first(records.deep_view(), has_name(name@), i as int));
                lemma_first_found(records.deep_view(), has_name(name@), i as int);
            }
            return Some(i);
        }
        i += 1;
    }
    proof {
        lemma_first_absent(records.deep_view(), has_name::<D, W>(name@));
    }
    None
}

/// Whether some record is of a speaker with exactly this room name.
pub fn has_speaker_named<D, W>(records: &Vec<SpeakerData<D, W>>, name: &str) -> (r: bool)
    ensures
        r == any_item(records.deep_view(), has_exact_name(name@)),
{
    let mut i: usize = 0;
    while i < records.len()
        invariant
            i <= records.len(),
            forall|j: int|
                0 <= j < i ==> !has_exact_name::<D, W>(name@)(#[trigger] records.deep_view()[j]),
        decreases records.len() - i,
    {
        if str_eq(records[i].speaker.name(), name) {
            assert(has_exact_name::<D, W>(name@)(records.deep_view()[i as int]));
            return true;
        }
        i += 1;
    }
    false
}

/// What the controller built for a speaker that the topology shows and the
/// registry does not know yet.
#[derive(Debug)]
pub struct Arrival<D, W> {
    /// The identifier of the speaker, as the topology spells it.
    pub uuid: String,
    /// The handle by which the speaker is reached.
    pub device: D,
    /// The AV-transport worker started for it, if that succeeded.
    pub transport_subscription: Option<W>,
}

/// The mathematical value of an [`Arrival`].
pub struct ArrivalView<D, W> {
    pub uuid: Seq<char>,
    pub device: D,
    pub transport_subscription: Option<W>,
}

impl<D, W> View for Arrival<D, W> {
    type V = ArrivalView<D, W>;

    open spec fn view(&self) -> ArrivalView<D, W> {
        ArrivalView {
            uuid: self.uuid@,
            device: self.device,
            transport_subscription: self.transport_subscription,
        }
    }
}

impl<D, W> DeepView for Arrival<D, W> {
    type V = ArrivalView<D, W>;

    open spec fn deep_view(&self) -> ArrivalView<D, W> {
        self@
    }
}

/// The arrivals that wait to be taken into a registry.
pub type Arrivals<D, W> = Seq<ArrivalView<D, W>>;

/// The condition "is what was built for the speaker with this identifier".
pub open spec fn is_arrival_of<D, W>(uuid: Seq<char>) -> spec_fn(ArrivalView<D, W>) -> bool {
    |arrival: ArrivalView<D, W>| same_ignoring_case(arrival.uuid, uuid)
}

/// The condition "is the record of a speaker that the topology shows".
pub open spec fn is_shown<D, W>(topology: TopologyView) -> spec_fn(SpeakerDataView<D, W>) -> bool {
    |record: SpeakerDataView<D, W>| in_topology(topology, record.speaker.uuid)
}

/// The records of the speakers that the topology still shows, in their order.
pub open spec fn retained<D, W>(records: Records<D, W>, topology: TopologyView) -> Records<D, W> {
    records.filter(is_shown(topology))
}

/// A record with the room name and the location that the topology reports.
/// The identifier stays as it was first spelled.
pub open spec fn renamed<D, W>(record: SpeakerDataView<D, W>, info: SpeakerInfoView) -> SpeakerDataView<
    D,
    W,
> {
    SpeakerDataView {
        speaker: SpeakerInfoView {
            name: info.name,
            uuid: record.speaker.uuid,
            location: info.location,
        },
        ..record
    }
}

/// The record of a speaker that has just arrived: described as the topology
/// describes it, reached and listened to as the arrival says, nothing cached.
pub open spec fn enrolled<D, W>(info: SpeakerInfoView, arrival: ArrivalView<D, W>) -> SpeakerDataView<
    D,
    W,
> {
    SpeakerDataView {
        speaker: info,
        device: arrival.device,
        transport_subscription: arrival.transport_subscription,
        transport_data: Seq::empty(),
    }
}

/// What one member of the topology does to the records and to the arrivals
/// that wait: a known speaker takes the reported name and location; an
/// unknown one is enrolled with the first arrival built for it, which then
/// waits no longer; an unknown one for which nothing was built is passed over.
pub open spec fn enroll_member<D, W>(
    state: (Records<D, W>, Arrivals<D, W>),
    info: SpeakerInfoView,
) -> (Records<D, W>, Arrivals<D, W>) {
    match first_index(state.0, has_uuid(info.uuid)) {
        Some(i) => (state.0.update(i, renamed(state.0[i], info)), state.1),
        None => match first_index(state.1, is_arrival_of(info.uuid)) {
            Some(k) => (state.0.push(enrolled(info, state.1[k])), state.1.remove(k)),
            None => state,
        },
    }
}

/// The members of one group, taken in their order.
pub open spec fn enroll_members<D, W>(
    state: (Records<D, W>, Arrivals<D, W>),
    members: Seq<SpeakerInfoView>,
) -> (Records<D, W>, Arrivals<D, W>)
    decreases members.len(),
{
    if members.len() == 0 {
        state
    } else {
        enroll_member(enroll_members(state, members.drop_last()), members.last())
    }
}

/// The groups of a topology, taken in their order.
pub open spec fn enroll_groups<D, W>(
    state: (Records<D, W>, Arrivals<D, W>),
    topology: TopologyView,
) -> (Records<D, W>, Arrivals<D, W>)
    decreases topology.len(),
{
    if topology.len() == 0 {
        state
    } else {
        enroll_members(enroll_groups(state, topology.drop_last()), topology.last().1)
    }
}

/// The records after a topology update: the records of the speakers that
/// are gone are dropped, then every member of the topology is taken in turn.
pub open spec fn applied<D, W>(
    records: Records<D, W>,
    topology: TopologyView,
    arrivals: Arrivals<D, W>,
) -> Records<D, W> {
    enroll_groups((retained(records, topology), arrivals), topology).0
}

/// The position of the first arrival built for the speaker with this identifier.
pub fn find_arrival<D, W>(arrivals: &Vec<Arrival<D, W>>, uuid: &str) -> (r: Option<usize>)
    ensures
        match r {
            Some(k) => first_index(arrivals.deep_view(), is_arrival_of(uuid@)) == Some(k as int)
                && k < arrivals.len(),
            None => first_index(arrivals.deep_view(), is_arrival_of(uuid@)) is None,
        },
{
    let mut k: usize = 0;
    while k < arrivals.len()
        invariant
            k <= arrivals.len(),
            forall|j: int|
                0 <= j < k ==> !is_arrival_of::<D, W>(uuid@)(#[trigger] arrivals.deep_view()[j]),
        decreases arrivals.len() - k,
    {
        if eq_ignore_ascii_case(arrivals[k].uuid.as_str(), uuid) {
            proof {
                assert(is_first(arrivals.deep_view(), is_arrival_of(uuid@), k as int));
                lemma_first_found(arrivals.deep_view(), is_arrival_of(uuid@), k as int);
            }
            return Some(k);
        }
        k += 1;
    }
    proof {
        lemma_first_absent(arrivals.deep_view(), is_arrival_of::<D, W>(uuid@));
    }
    None
}

/// Drops the records of the speakers that the topology no longer shows.
/// With a record goes the handle of its worker.
pub fn retain_shown<D, W>(records: &mut Vec<SpeakerData<D, W>>, topology: &Topology)
    ensures
        final(records).deep_view() == retained(old(records).deep_view(), topology.deep_view()),
{
    let ghost initial = records.deep_view();
    let ghost shown = is_shown::<D, W>(topology.deep_view());
    let mut kept: Vec<SpeakerData<D, W>> = Vec::new();
    let ghost mut k: int = 0;
    proof {
        assert(initial.take(0) =~= Seq::empty());
        reveal_with_fuel(Seq::filter, 1);
        assert(kept.deep_view() =~= initial.take(0).filter(shown));
        assert(records.deep_view() =~= initial.skip(0));
    }
    while records.len() > 0
        invariant
            0 <= k <= initial.len(),
            shown == is_shown::<D, W>(topology.deep_view()),
            kept.deep_view() == initial.take(k).filter(shown),
            records.deep_view() == initial.skip(k),
        decreases records.len(),
    {
        let ghost before = records.deep_view();
        let ghost kept_before = kept.deep_view();
        let ghost old_records = records@;
        proof {
            assert(before.len() == records@.len());
            assert(k < initial.len());
            assert(before[0] == initial[k]);
        }
        let record = records.remove(0);
        proof {
            assert(record.deep_view() == before[0]);
            assert(records@ == old_records.remove(0));
            assert forall|j: int| 0 <= j < records@.len() implies #[trigger] records.deep_view()[j]
                == initial.skip(k + 1)[j] by {
                assert(records@[j] == old_records[j + 1]);
                assert(before[j + 1] == old_records[j + 1].deep_view());
            }
            assert(records.deep_view() =~= initial.skip(k + 1));
            assert(initial.take(k + 1) =~= initial.take(k).push(initial[k]));
            initial.take(k).lemma_filter_push(initial[k], shown);
        }
        if contains_speaker(topology, record.speaker.uuid()) {
            kept.push(record);
            proof {
                assert(kept.deep_view() =~= kept_before.push(initial[k]));
            }
        }
        proof {
            k = k + 1;
        }
    }
    proof {
        assert(initial.take(k) =~= initial);
    }
    *records = kept;
}

/// Takes one member of the topology into the registry.
pub fn enroll<D, W>(
    records: &mut Vec<SpeakerData<D, W>>,
    arrivals: &mut Vec<Arrival<D, W>>,
    info: &SpeakerInfo,
)
    ensures
        (final(records).deep_view(), final(arrivals).deep_view()) == enroll_member(
            (old(records).deep_view(), old(arrivals).deep_view()),
            info@,
        ),
{
    let ghost before = records.deep_view();
    let ghost waiting = arrivals.deep_view();
    match find_by_uuid(records, info.uuid()) {
        Some(i) => {
            let mut record = records.remove(i);
            record.speaker.name = info.name.clone();
            record.speaker.location = info.location.clone();
            records.insert(i, record);
            proof {
                assert(records.deep_view() =~= before.update(i as int, renamed(before[i as int], info@)));
                assert(arrivals.deep_view() == waiting);
            }
        },
        None => {
            match find_arrival(arrivals, info.uuid()) {
                Some(k) => {
                    let arrival = arrivals.remove(k);
                    let record = SpeakerData {
                        speaker: info.duplicate(),
                        device: arrival.device,
                        transport_subscription: arrival.transport_subscription,
                        transport_data: Vec::new(),
                    };
                    proof {
                        assert(record.transport_data.deep_view() =~= Seq::empty());
                        assert(record.deep_view() == enrolled(info@, waiting[k as int]));
                    }
                    records.push(record);
                    proof {
                        assert(records.deep_view() =~= before.push(enrolled(info@, waiting[k as int])));
                        assert(arrivals.deep_view() =~= waiting.remove(k as int));
                    }
                },
                None => {},
            }
        },
    }
}

/// Brings the registry in line with a new topology: the records of the
/// speakers that are gone are dropped, the known speakers take the reported
/// names and locations, and each unknown speaker is enrolled with what was
/// built for it. An unknown speaker for which nothing was built is passed
/// over; arrivals that no member of the topology asks for are dropped.
pub fn apply_topology<D, W>(
    records: &mut Vec<SpeakerData<D, W>>,
    topology: &Topology,
    arrivals: Vec<Arrival<D, W>>,
)
    ensures
        final(records).deep_view() == applied(
            old(records).deep_view(),
            topology.deep_view(),
            arrivals.deep_view(),
        ),
{
    let mut arrivals = arrivals;
    let ghost start = (retained(records.deep_view(), topology.deep_view()), arrivals.deep_view());
    let ghost groups = topology.deep_view();
    retain_shown(records, topology);
    let mut g: usize = 0;
    proof {
        assert(groups.take(0) =~= Seq::empty());
    }
    while g < topology.len()
        invariant
            g <= topology.len(),
            groups == topology.deep_view(),
            (records.deep_view(), arrivals.deep_view()) == enroll_groups(start, groups.take(g as int)),
        decreases topology.len() - g,
    {
        let members = &topology[g].1;
        let ghost entering = (records.deep_view(), arrivals.deep_view());
        let ghost listed = members.deep_view();
        let mut m: usize = 0;
        proof {
            assert(listed.take(0) =~= Seq::empty());
        }
        while m < members.len()
            invariant
                m <= members.len(),
                listed == members.deep_view(),
                (records.deep_view(), arrivals.deep_view()) == enroll_members(
                    entering,
                    listed.take(m as int),
                ),
            decreases members.len() - m,
        {
            enroll(records, &mut arrivals, &members[m]);
            proof {
                assert(listed.take(m + 1).drop_last() =~= listed.take(m as int));
                assert(listed.take(m + 1).last() == members[m as int]@);
            }
            m += 1;
        }
        proof {
            assert(listed.take(m as int) =~= listed);
            assert(groups.take(g + 1).drop_last() =~= groups.take(g as int));
            assert(groups.take(g + 1).last().1 == listed);
        }
        g += 1;
    }
    proof {
        assert(groups.take(g as int) =~= groups);
    }
}

/// A record with a new AV-transport state in place of the one it held.
pub open spec fn with_transport_data<D, W>(
    record: SpeakerDataView<D, W>,
    data: Seq<(Seq<char>, Seq<char>)>,
) -> SpeakerDataView<D, W> {
    SpeakerDataView { transport_data: data, ..record }
}

/// The records after an AV-transport event for a speaker: the state cached
/// for that speaker is replaced; for an unknown speaker nothing changes.
pub open spec fn with_event<D, W>(
    records: Records<D, W>,
    uuid: Seq<char>,
    data: Seq<(Seq<char>, Seq<char>)>,
) -> Records<D, W> {
    match first_index(records, has_uuid(uuid)) {
        Some(i) => records.update(i, with_transport_data(records[i], data)),
        None => records,
    }
}

/// Replaces the AV-transport state cached for a speaker. Returns whether
/// the speaker is known; the event for an unknown speaker is discarded.
pub fn update_transport_data<D, W>(
    records: &mut Vec<SpeakerData<D, W>>,
    uuid: &str,
    data: AVStatus,
) -> (known: bool)
    ensures
        final(records).deep_view() == with_event(old(records).deep_view(), uuid@, data.deep_view()),
        known == any_item(old(records).deep_view(), has_uuid(uuid@)),
{
    let ghost before = records.deep_view();
    proof {
        lemma_first_index(before, has_uuid::<D, W>(uuid@));
    }
    match find_by_uuid(records, uuid) {
        Some(i) => {
            let mut record = records.remove(i);
            record.transport_data = data;
            records.insert(i, record);
            proof {
                assert(records.deep_view() =~= before.update(
                    i as int,
                    with_transport_data(before[i as int], data.deep_view()),
                ));
            }
            true
        },
        None => false,
    }
}

/// What one member of the topology adds to the speakers found missing: the
/// member itself, unless the registry knows the speaker or it was found
/// missing before.
pub open spec fn note_missing<D, W>(
    records: Records<D, W>,
    found: Seq<SpeakerInfoView>,
    info: SpeakerInfoView,
) -> Seq<SpeakerInfoView> {
    if any_item(records, has_uuid(info.uuid)) || any_item(found, is_speaker(info.uuid)) {
        found
    } else {
        found.push(info)
    }
}

/// The speakers found missing once the members of a group are looked at in turn.
pub open spec fn missing_among<D, W>(
    records: Records<D, W>,
    found: Seq<SpeakerInfoView>,
    members: Seq<SpeakerInfoView>,
) -> Seq<SpeakerInfoView>
    decreases members.len(),
{
    if members.len() == 0 {
        found
    } else {
        note_missing(records, missing_among(records, found, members.drop_last()), members.last())
    }
}

/// The speakers found missing once the groups of a topology are looked at in turn.
pub open spec fn missing_in<D, W>(
    records: Records<D, W>,
    found: Seq<SpeakerInfoView>,
    topology: TopologyView,
) -> Seq<SpeakerInfoView>
    decreases topology.len(),
{
    if topology.len() == 0 {
        found
    } else {
        missing_among(records, missing_in(records, found, topology.drop_last()), topology.last().1)
    }
}

/// The speakers that a topology shows and the registry does not know, each
/// once, in the order in which the topology first shows them.
pub open spec fn missing<D, W>(records: Records<D, W>, topology: TopologyView) -> Seq<
    SpeakerInfoView,
> {
    missing_in(records, Seq::empty(), topology)
}

/// The speakers that a topology shows and the registry does not know: those
/// that have to be built before the topology is applied.
pub fn missing_speakers<D, W>(records: &Vec<SpeakerData<D, W>>, topology: &Topology) -> (found: Vec<
    SpeakerInfo,
>)
    ensures
        found.deep_view() == missing(records.deep_view(), topology.deep_view()),
{
    let mut found: Vec<SpeakerInfo> = Vec::new();
    let ghost groups = topology.deep_view();
    let ghost known = records.deep_view();
    let mut g: usize = 0;
    proof {
        assert(groups.take(0) =~= Seq::empty());
        assert(found.deep_view() =~= Seq::empty());
    }
    while g < topology.len()
        invariant
            g <= topology.len(),
            groups == topology.deep_view(),
            known == records.deep_view(),
            found.deep_view() == missing_in(known, Seq::empty(), groups.take(g as int)),
        decreases topology.len() - g,
    {
        let members = &topology[g].1;
        let ghost entering = found.deep_view();
        let ghost listed = members.deep_view();
        let mut m: usize = 0;
        proof {
            assert(listed.take(0) =~= Seq::empty());
        }
        while m < members.len()
            invariant
                m <= members.len(),
                listed == members.deep_view(),
                known == records.deep_view(),
                found.deep_view() == missing_among(known, entering, listed.take(m as int)),
            decreases members.len() - m,
        {
            let info = &members[m];
            let ghost so_far = found.deep_view();
            proof {
                lemma_first_index(known, has_uuid::<D, W>(info@.uuid));
                assert(listed.take(m + 1).drop_last() =~= listed.take(m as int));
                assert(listed.take(m + 1).last() == info@);
            }
            if find_by_uuid(records, info.uuid()).is_none() && !is_member(&found, info.uuid()) {
                found.push(info.duplicate());
                proof {
                    assert(found.deep_view() =~= so_far.push(info@));
                }
            }
            m += 1;
        }
        proof {
            assert(listed.take(m as int) =~= listed);
            assert(groups.take(g + 1).drop_last() =~= groups.take(g as int));
            assert(groups.take(g + 1).last().1 == listed);
        }
        g += 1;
    }
    proof {
        assert(groups.take(g as int) =~= groups);
    }
    found
}

} // verus!
