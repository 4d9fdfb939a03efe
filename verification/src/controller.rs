//! The controller: the one owner of the registry, of the topology and of the
//! topology subscription. It decides; whoever runs it does what it asks for
//! (discovery, building speakers, subscribing, sleeping) and reports back.

use vstd::prelude::*;
use crate::error::{ManagerError, Result};
use crate::registry::{
    applied, apply_topology, find_by_name, find_by_uuid, has_name, has_uuid, missing,
    missing_speakers, update_transport_data, with_event, Arrival, Records, SpeakerData,
};
use crate::search::first_index;
use crate::text::str_eq;
use crate::topology::{coordinator_of, coordinator_uuid};
use crate::types::{Event, SpeakerInfo, Topology, TopologyView};

verus! {

/// Seconds that a discovery may take.
pub const DISCOVERY_TIMEOUT_SECS: u64 = 5;

/// Milliseconds from the start of one recovery attempt to the start of the next.
pub const RECOVERY_PERIOD_MS: u64 = 1000;

/// The type of the service that reports the topology.
pub open spec fn topology_service() -> Seq<char> {
    "ZoneGroupTopology"@
}

/// The type of the service that reports the AV-transport state of a speaker.
pub open spec fn transport_service() -> Seq<char> {
    "AVTransport"@
}

/// The state that the controller owns.
#[derive(Debug)]
pub struct System<D, W> {
    /// The registry: one record for each known speaker.
    pub speakerdata: Vec<SpeakerData<D, W>>,
    /// The topology last applied.
    pub topology: Topology,
    /// The worker that listens for topology changes, if one is running.
    pub topology_subscription: Option<W>,
    /// The room name by which the system is looked for, if one was given.
    pub seed: Option<String>,
}

/// The mathematical value of a [`System`].
pub struct SystemView<D, W> {
    pub speakerdata: Records<D, W>,
    pub topology: TopologyView,
    pub topology_subscription: Option<W>,
    pub seed: Option<Seq<char>>,
}

impl<D, W> View for System<D, W> {
    type V = SystemView<D, W>;

    open spec fn view(&self) -> SystemView<D, W> {
        SystemView {
            speakerdata: self.speakerdata.deep_view(),
            topology: self.topology.deep_view(),
            topology_subscription: self.topology_subscription,
            seed: self.seed.deep_view(),
        }
    }
}

/// The record of the coordinator of the group that contains the speaker
/// with this identifier: the position of the first record of the speaker
/// that coordinates the first group holding the speaker.
pub open spec fn coordinator_for_uuid<D, W>(system: SystemView<D, W>, uuid: Seq<char>) -> Option<
    int,
> {
    match coordinator_uuid(system.topology, uuid) {
        Some(coordinator) => first_index(system.speakerdata, has_uuid(coordinator)),
        None => None,
    }
}

/// The record of the coordinator of the group that contains the room with
/// this name: the first record with the name gives the speaker, the topology
/// gives its coordinator, the registry gives the coordinator's record.
pub open spec fn coordinator_for_name<D, W>(system: SystemView<D, W>, name: Seq<char>) -> Option<
    int,
> {
    match first_index(system.speakerdata, has_name(name)) {
        Some(i) => coordinator_for_uuid(system, system.speakerdata[i].speaker.uuid),
        None => None,
    }
}

/// `fastrand::usize` on the numbers below `n`: one of them, whichever.
#[verifier::external_body]
fn random_below(n: usize) -> (i: usize)
    requires
        n > 0,
    ensures
        i < n,
{
    fastrand::usize(..n)
}

impl<D, W> System<D, W> {
    /// A system of which nothing is known yet.
    pub fn new(seed: Option<String>) -> (system: System<D, W>)
        ensures
            system@ == (SystemView::<D, W> {
                speakerdata: Seq::empty(),
                topology: Seq::empty(),
                topology_subscription: None,
                seed: seed.deep_view(),
            }),
    {
        let system = System {
            speakerdata: Vec::new(),
            topology: Vec::new(),
            topology_subscription: None,
            seed,
        };
        assert(system.speakerdata.deep_view() =~= Seq::empty());
        assert(system.topology.deep_view() =~= Seq::empty());
        system
    }

    /// The known speakers, in the order of the registry.
    pub fn speakers(&self) -> (list: Vec<&SpeakerInfo>)
        ensures
            list.len() == self.speakerdata.len(),
            forall|i: int| 0 <= i < list.len() ==> list[i]@ == self@.speakerdata[i].speaker,
    {
        let mut list: Vec<&SpeakerInfo> = Vec::new();
        let mut i: usize = 0;
        while i < self.speakerdata.len()
            invariant
                i <= self.speakerdata.len(),
                list.len() == i,
                forall|j: int| 0 <= j < i ==> list[j]@ == self@.speakerdata[j].speaker,
            decreases self.speakerdata.len() - i,
        {
            list.push(&self.speakerdata[i].speaker);
            i += 1;
        }
        list
    }

    /// The speakers that a topology shows and the registry does not know.
    pub fn missing_speakers(&self, topology: &Topology) -> (found: Vec<SpeakerInfo>)
        ensures
            found.deep_view() == missing(self@.speakerdata, topology.deep_view()),
    {
        missing_speakers(&self.speakerdata, topology)
    }

    /// Replaces the topology and brings the registry in line with it.
    pub fn update_from_topology(&mut self, topology: Topology, arrivals: Vec<Arrival<D, W>>)
        ensures
            final(self)@ == (SystemView {
                speakerdata: applied(
                    old(self)@.speakerdata,
                    topology.deep_view(),
                    arrivals.deep_view(),
                ),
                topology: topology.deep_view(),
                ..old(self)@
            }),
    {
        apply_topology(&mut self.speakerdata, &topology, arrivals);
        self.topology = topology;
    }

    /// Picks the speaker on which the topology is to be subscribed to: any
    /// one of the known speakers, so that a speaker that went offline is not
    /// picked again and again. Fails where no speaker is known.
    pub fn choose_topology_speaker(&self) -> (r: Result<usize>)
        ensures
            match r {
                Ok(i) => i < self.speakerdata.len(),
                Err(e) => self.speakerdata.len() == 0 && e == ManagerError::ControllerNotInitialized,
            },
    {
        if self.speakerdata.len() == 0 {
            return Err(ManagerError::ControllerNotInitialized);
        }
        Ok(random_below(self.speakerdata.len()))
    }

    /// Takes note of how the topology subscription went: the new worker is
    /// kept in place of the one held before, a failure leaves none.
    pub fn update_topology_subscription(&mut self, started: Result<W>) -> (r: Result<()>)
        ensures
            match started {
                Ok(worker) => r == Ok::<(), ManagerError>(()) && final(self)@ == (SystemView {
                    topology_subscription: Some(worker),
                    ..old(self)@
                }),
                Err(e) => r == Err::<(), ManagerError>(e) && final(self)@ == (SystemView {
                    topology_subscription: None,
                    ..old(self)@
                }),
            },
    {
        match started {
            Ok(worker) => {
                self.topology_subscription = Some(worker);
                Ok(())
            },
            Err(e) => {
                self.topology_subscription = None;
                Err(e)
            },
        }
    }

    /// The record of the first speaker with this room name.
    pub fn get_speaker_with_name(&self, name: &str) -> (r: Option<usize>)
        ensures
            match r {
                Some(i) => first_index(self@.speakerdata, has_name(name@)) == Some(i as int) && i
                    < self.speakerdata.len(),
                None => first_index(self@.speakerdata, has_name(name@)) is None,
            },
    {
        find_by_name(&self.speakerdata, name)
    }

    /// The record of the speaker with this identifier.
    pub fn get_speaker_by_uuid(&self, uuid: &str) -> (r: Option<usize>)
        ensures
            match r {
                Some(i) => first_index(self@.speakerdata, has_uuid(uuid@)) == Some(i as int) && i
                    < self.speakerdata.len(),
                None => first_index(self@.speakerdata, has_uuid(uuid@)) is None,
            },
    {
        find_by_uuid(&self.speakerdata, uuid)
    }

    /// The record of the coordinator of the group that contains the speaker
    /// with this identifier.
    pub fn coordinator_index_for_uuid(&self, uuid: &str) -> (r: Option<usize>)
        ensures
            match r {
                Some(i) => coordinator_for_uuid(self@, uuid@) == Some(i as int) && i
                    < self.speakerdata.len(),
                None => coordinator_for_uuid(self@, uuid@) is None,
            },
    {
        match coordinator_of(&self.topology, uuid) {
            Some(coordinator) => find_by_uuid(&self.speakerdata, coordinator.as_str()),
            None => None,
        }
    }

    /// The record of the coordinator of the group that contains the room
    /// with this name.
    pub fn coordinator_index_for_name(&self, name: &str) -> (r: Option<usize>)
        ensures
            match r {
                Some(i) => coordinator_for_name(self@, name@) == Some(i as int) && i
                    < self.speakerdata.len(),
                None => coordinator_for_name(self@, name@) is None,
            },
    {
        match find_by_name(&self.speakerdata, name) {
            Some(i) => {
                assert(self@.speakerdata[i as int].speaker.uuid == self.speakerdata[i as int].speaker@.uuid);
                self.coordinator_index_for_uuid(self.speakerdata[i].speaker.uuid())
            },
            None => None,
        }
    }

    /// Replaces the AV-transport state cached for a speaker. The state of an
    /// unknown speaker is discarded.
    pub fn update_avtransport_data(&mut self, uuid: &str, data: crate::types::AVStatus)
        ensures
            final(self)@ == (SystemView {
                speakerdata: with_event(old(self)@.speakerdata, uuid@, data.deep_view()),
                ..old(self)@
            }),
    {
        let _known = update_transport_data(&mut self.speakerdata, uuid, data);
    }
}

/// What the controller waits to hear of.
#[derive(Debug)]
pub enum Pending {
    /// Nothing: the controller has asked for nothing.
    Nothing,
    /// The outcome of a discovery.
    Discovery,
    /// What was built for the speakers missing from the discovered topology.
    InitialTopology(Topology),
    /// How the first subscription to the topology went.
    InitialSubscription,
    /// What was built for the speakers missing from a changed topology.
    ChangedTopology(Topology),
    /// How the subscription that replaces a lost one went.
    LostSubscription,
    /// How rebuilding the speaker with this identifier went.
    Rebuild(String),
}

/// The mathematical value of a [`Pending`].
pub enum PendingView {
    Nothing,
    Discovery,
    InitialTopology(TopologyView),
    InitialSubscription,
    ChangedTopology(TopologyView),
    LostSubscription,
    Rebuild(Seq<char>),
}

impl View for Pending {
    type V = PendingView;

    open spec fn view(&self) -> PendingView {
        match self {
            Pending::Nothing => PendingView::Nothing,
            Pending::Discovery => PendingView::Discovery,
            Pending::InitialTopology(t) => PendingView::InitialTopology(t.deep_view()),
            Pending::InitialSubscription => PendingView::InitialSubscription,
            Pending::ChangedTopology(t) => PendingView::ChangedTopology(t.deep_view()),
            Pending::LostSubscription => PendingView::LostSubscription,
            Pending::Rebuild(uuid) => PendingView::Rebuild(uuid@),
        }
    }
}

/// What whoever runs the controller reports back.
#[derive(Debug)]
pub enum Report<D, W> {
    /// A discovery ended: the topology that the speaker found reports, none
    /// where no speaker carries the seed room name, or the error.
    Discovered(Result<Option<Topology>>),
    /// The missing speakers were built, as far as they could be.
    Built(Vec<Arrival<D, W>>),
    /// A subscription to the topology was tried: the worker, or the error.
    Subscribed(Result<W>),
    /// A speaker was rebuilt from its description: `None` where that
    /// failed, else the AV-transport worker started on it, if that succeeded.
    Rebuilt(Option<Option<W>>),
}

/// What the controller asks for next.
#[derive(Debug)]
pub enum Request {
    /// Find a speaker, by the seed room name where there is one, and read
    /// the topology from it.
    Discover { seed: Option<String>, timeout_secs: u64 },
    /// Build these speakers and start an AV-transport worker on each.
    Build { missing: Vec<SpeakerInfo> },
    /// Subscribe to the topology on the speaker of this record.
    SubscribeTopology { speaker: usize },
    /// Rebuild the speaker of this record from its description and start
    /// an AV-transport worker on it.
    Rebuild { speaker: usize },
    /// Nothing more: what was begun has ended, well or with this error.
    Done(Result<()>),
}

/// Where the controller's loop stands.
#[derive(Debug, Clone, Copy, PartialEq, Eq, Structural)]
pub enum LoopStage {
    /// At the head of the loop.
    Top,
    /// A recovery attempt is under way.
    Recovering,
    /// The recovery attempt failed; the pending commands are being handled.
    DrainingCommands,
    /// The pending events are being handled.
    DrainingEvents,
    /// The loop sleeps until the next recovery attempt is due.
    Pacing,
    /// The loop waits for a command or an event.
    Waiting,
    /// The command channel is closed: the loop has ended.
    Finished,
}

/// What has happened since the loop last asked for something.
#[derive(Debug, Clone, Copy, PartialEq, Eq, Structural)]
pub enum LoopInput {
    /// The loop starts.
    Begin,
    /// The recovery attempt ended: whether the system was found again.
    Recovered(bool),
    /// The pending commands were handled: whether the channel is closed.
    CommandsDrained { closed: bool },
    /// The pending events were handled: the time since the attempt began.
    EventsDrained { elapsed_ms: u64 },
    /// The sleep is over.
    Slept,
    /// The command or event that came was handled, or the event stream had
    /// nothing to give.
    Handled,
    /// The command channel is closed.
    CommandsClosed,
}

/// What the loop does next.
#[derive(Debug, Clone, Copy, PartialEq, Eq, Structural)]
pub enum LoopAction {
    /// Try to find the system again.
    Recover,
    /// Handle the commands that wait, without waiting for more.
    DrainCommands,
    /// Handle the events that wait, without waiting for more.
    DrainEvents,
    /// Sleep for this many milliseconds.
    Sleep(u64),
    /// Wait for the next command or event, whichever comes first.
    Await,
    /// Leave the loop.
    Exit,
}

/// The time to sleep after a failed recovery attempt that has taken
/// `elapsed_ms`, so that attempts start one period apart.
pub open spec fn recovery_delay(elapsed_ms: int) -> int {
    if elapsed_ms >= RECOVERY_PERIOD_MS {
        0
    } else {
        RECOVERY_PERIOD_MS - elapsed_ms
    }
}

/// What the loop does at its head: it recovers where the topology
/// subscription is gone, and waits for a command or an event where it is there.
pub open spec fn at_top(subscribed: bool) -> (LoopStage, LoopAction) {
    if subscribed {
        (LoopStage::Waiting, LoopAction::Await)
    } else {
        (LoopStage::Recovering, LoopAction::Recover)
    }
}

/// The loop: the stage it enters and what it does next, given the stage it
/// was in, what happened, and whether a topology subscription is held.
pub open spec fn loop_step(stage: LoopStage, input: LoopInput, subscribed: bool) -> (
    LoopStage,
    LoopAction,
) {
    match (stage, input) {
        (LoopStage::Finished, _) => (LoopStage::Finished, LoopAction::Exit),
        (LoopStage::Recovering, LoopInput::Recovered(true)) => (
            LoopStage::Waiting,
            LoopAction::Await,
        ),
        (LoopStage::Recovering, LoopInput::Recovered(false)) => (
            LoopStage::DrainingCommands,
            LoopAction::DrainCommands,
        ),
        (LoopStage::DrainingCommands, LoopInput::CommandsDrained { closed }) => if closed {
            (LoopStage::Finished, LoopAction::Exit)
        } else {
            (LoopStage::DrainingEvents, LoopAction::DrainEvents)
        },
        (LoopStage::DrainingEvents, LoopInput::EventsDrained { elapsed_ms }) => (
            LoopStage::Pacing,
            LoopAction::Sleep(recovery_delay(elapsed_ms as int) as u64),
        ),
        (LoopStage::Waiting, LoopInput::CommandsClosed) => (LoopStage::Finished, LoopAction::Exit),
        _ => at_top(subscribed),
    }
}

/// The records with the AV-transport worker of one speaker replaced; for an
/// unknown speaker nothing changes.
pub open spec fn with_subscription<D, W>(
    records: Records<D, W>,
    uuid: Seq<char>,
    worker: Option<W>,
) -> Records<D, W> {
    match first_index(records, has_uuid(uuid)) {
        Some(i) => records.update(
            i,
            crate::registry::SpeakerDataView { transport_subscription: worker, ..records[i] },
        ),
        None => records,
    }
}

/// The worker that a rebuilt speaker is listened to with: none where
/// rebuilding failed, none where the subscription failed.
pub open spec fn rebuilt_worker<W>(outcome: Option<Option<W>>) -> Option<W> {
    match outcome {
        Some(Some(worker)) => Some(worker),
        _ => None,
    }
}

/// The controller: the state it owns, what it waits to hear of, and where
/// its loop stands.
#[derive(Debug)]
pub struct Controller<D, W> {
    pub system: System<D, W>,
    pub pending: Pending,
    pub stage: LoopStage,
}

impl<D, W> Controller<D, W> {
    /// A controller that knows no speaker yet. Where several systems share
    /// a network, `seed_room` names a room of the one that is meant;
    /// without it the first speaker found defines the system.
    pub fn new(seed_room: Option<String>) -> (controller: Controller<D, W>)
        ensures
            controller.system@ == (SystemView::<D, W> {
                speakerdata: Seq::empty(),
                topology: Seq::empty(),
                topology_subscription: None,
                seed: seed_room.deep_view(),
            }),
            controller.pending@ == PendingView::Nothing,
            controller.stage == LoopStage::Top,
    {
        Controller { system: System::new(seed_room), pending: Pending::Nothing, stage: LoopStage::Top }
    }

    /// Begins to look for the system: asks for a discovery, by the seed room
    /// name where there is one. [`Controller::resume`] takes it from there.
    pub fn init(&mut self) -> (request: Request)
        ensures
            final(self).system@ == old(self).system@,
            final(self).stage == old(self).stage,
            final(self).pending@ == PendingView::Discovery,
            request matches Request::Discover { seed, timeout_secs } && seed.deep_view() == old(
                self,
            ).system@.seed && timeout_secs == DISCOVERY_TIMEOUT_SECS,
    {
        self.pending = Pending::Discovery;
        let seed = match &self.system.seed {
            Some(room) => Some(room.clone()),
            None => None,
        };
        Request::Discover { seed, timeout_secs: DISCOVERY_TIMEOUT_SECS }
    }

    /// Takes an event in hand. A topology change asks for the missing
    /// speakers to be built; an AV-transport change replaces the state
    /// cached for its speaker; a lost topology subscription asks for a new
    /// one on some known speaker, and with no speaker known the handle is
    /// given up; a lost AV-transport subscription asks for the speaker to be
    /// rebuilt. Everything else is passed over.
    pub fn handle_event(&mut self, event: Event) -> (request: Request)
        ensures
            final(self).stage == old(self).stage,
            match event {
                Event::TopoUpdate(_, topology) => {
                    &&& final(self).system@ == old(self).system@
                    &&& final(self).pending@ == PendingView::ChangedTopology(topology.deep_view())
                    &&& request matches Request::Build { missing: found }
                    &&& found.deep_view() == missing(
                        old(self).system@.speakerdata,
                        topology.deep_view(),
                    )
                },
                Event::AVTransUpdate(Some(uuid), data) => {
                    &&& final(self).system@ == (SystemView {
                        speakerdata: with_event(
                            old(self).system@.speakerdata,
                            uuid@,
                            data.deep_view(),
                        ),
                        ..old(self).system@
                    })
                    &&& final(self).pending@ == PendingView::Nothing
                    &&& request == Request::Done(Ok(()))
                },
                Event::SubscribeError(uuid, service) => if service@ == topology_service() {
                    if old(self).system.speakerdata.len() == 0 {
                        &&& final(self).system@ == (SystemView {
                            topology_subscription: None,
                            ..old(self).system@
                        })
                        &&& final(self).pending@ == PendingView::Nothing
                        &&& request == Request::Done(Err(ManagerError::ControllerNotInitialized))
                    } else {
                        &&& final(self).system@ == old(self).system@
                        &&& final(self).pending@ == PendingView::LostSubscription
                        &&& request matches Request::SubscribeTopology { speaker }
                        &&& speaker < old(self).system.speakerdata.len()
                    }
                } else if service@ == transport_service() && uuid is Some && first_index(
                    old(self).system@.speakerdata,
                    has_uuid(uuid->0@),
                ) is Some {
                    &&& final(self).system@ == old(self).system@
                    &&& final(self).pending@ == PendingView::Rebuild(uuid->0@)
                    &&& request matches Request::Rebuild { speaker }
                    &&& first_index(old(self).system@.speakerdata, has_uuid(uuid->0@)) == Some(
                        speaker as int,
                    )
                } else {
                    &&& final(self).system@ == old(self).system@
                    &&& final(self).pending@ == PendingView::Nothing
                    &&& request == Request::Done(Ok(()))
                },
                _ => {
                    &&& final(self).system@ == old(self).system@
                    &&& final(self).pending@ == PendingView::Nothing
                    &&& request == Request::Done(Ok(()))
                },
            },
    {
        self.pending = Pending::Nothing;
        match event {
            Event::TopoUpdate(_, topology) => {
                let found = self.system.missing_speakers(&topology);
                self.pending = Pending::ChangedTopology(topology);
                Request::Build { missing: found }
            },
            Event::AVTransUpdate(Some(uuid), data) => {
                self.system.update_avtransport_data(uuid.as_str(), data);
                Request::Done(Ok(()))
            },
            Event::SubscribeError(uuid, service) => {
                if str_eq(service.as_str(), "ZoneGroupTopology") {
                    match self.system.choose_topology_speaker() {
                        Ok(speaker) => {
                            self.pending = Pending::LostSubscription;
                            Request::SubscribeTopology { speaker }
                        },
                        Err(e) => {
                            self.system.topology_subscription = None;
                            Request::Done(Err(e))
                        },
                    }
                } else if str_eq(service.as_str(), "AVTransport") {
                    match uuid {
                        Some(uuid) => match self.system.get_speaker_by_uuid(uuid.as_str()) {
                            Some(speaker) => {
                                self.pending = Pending::Rebuild(uuid);
                                Request::Rebuild { speaker }
                            },
                            None => Request::Done(Ok(())),
                        },
                        None => Request::Done(Ok(())),
                    }
                } else {
                    Request::Done(Ok(()))
                }
            },
            _ => Request::Done(Ok(())),
        }
    }

    /// Goes on with what [`Controller::init`] or [`Controller::handle_event`]
    /// began, once what they asked for was done. A report that was not
    /// asked for changes nothing and is answered with an error.
    pub fn resume(&mut self, report: Report<D, W>) -> (request: Request)
        ensures
            final(self).stage == old(self).stage,
            match (old(self).pending, report) {
                (Pending::Discovery, Report::Discovered(Ok(Some(topology)))) => {
                    &&& final(self).system@ == old(self).system@
                    &&& final(self).pending@ == PendingView::InitialTopology(topology.deep_view())
                    &&& request matches Request::Build { missing: found }
                    &&& found.deep_view() == missing(
                        old(self).system@.speakerdata,
                        topology.deep_view(),
                    )
                },
                (Pending::Discovery, Report::Discovered(Ok(None))) => {
                    &&& final(self).system@ == old(self).system@
                    &&& final(self).pending@ == PendingView::Nothing
                    &&& request == Request::Done(Err(ManagerError::ZoneDoesNotExist))
                },
                (Pending::Discovery, Report::Discovered(Err(e))) => {
                    &&& final(self).system@ == old(self).system@
                    &&& final(self).pending@ == PendingView::Nothing
                    &&& request == Request::Done(Err(e))
                },
                (Pending::InitialTopology(topology), Report::Built(arrivals)) => {
                    let records = applied(
                        old(self).system@.speakerdata,
                        topology.deep_view(),
                        arrivals.deep_view(),
                    );
                    &&& final(self).system@ == (SystemView {
                        speakerdata: records,
                        topology: topology.deep_view(),
                        ..old(self).system@
                    })
                    &&& if records.len() == 0 {
                        &&& final(self).pending@ == PendingView::Nothing
                        &&& request == Request::Done(Err(ManagerError::ControllerNotInitialized))
                    } else {
                        &&& final(self).pending@ == PendingView::InitialSubscription
                        &&& request matches Request::SubscribeTopology { speaker }
                        &&& speaker < records.len()
                    }
                },
                (Pending::ChangedTopology(topology), Report::Built(arrivals)) => {
                    &&& final(self).system@ == (SystemView {
                        speakerdata: applied(
                            old(self).system@.speakerdata,
                            topology.deep_view(),
                            arrivals.deep_view(),
                        ),
                        topology: topology.deep_view(),
                        ..old(self).system@
                    })
                    &&& final(self).pending@ == PendingView::Nothing
                    &&& request == Request::Done(Ok(()))
                },
                (Pending::InitialSubscription, Report::Subscribed(Ok(worker))) => {
                    &&& final(self).system@ == (SystemView {
                        topology_subscription: Some(worker),
                        ..old(self).system@
                    })
                    &&& final(self).pending@ == PendingView::Nothing
                    &&& request == Request::Done(Ok(()))
                },
                (Pending::InitialSubscription, Report::Subscribed(Err(e))) => {
                    &&& final(self).system@ == old(self).system@
                    &&& final(self).pending@ == PendingView::Nothing
                    &&& request == Request::Done(Err(e))
                },
                (Pending::LostSubscription, Report::Subscribed(Ok(worker))) => {
                    &&& final(self).system@ == (SystemView {
                        topology_subscription: Some(worker),
                        ..old(self).system@
                    })
                    &&& final(self).pending@ == PendingView::Nothing
                    &&& request == Request::Done(Ok(()))
                },
                (Pending::LostSubscription, Report::Subscribed(Err(e))) => {
                    &&& final(self).system@ == (SystemView {
                        topology_subscription: None,
                        ..old(self).system@
                    })
                    &&& final(self).pending@ == PendingView::Nothing
                    &&& request == Request::Done(Err(e))
                },
                (Pending::Rebuild(uuid), Report::Rebuilt(outcome)) => {
                    &&& final(self).system@ == (SystemView {
                        speakerdata: with_subscription(
                            old(self).system@.speakerdata,
                            uuid@,
                            rebuilt_worker(outcome),
                        ),
                        ..old(self).system@
                    })
                    &&& final(self).pending@ == PendingView::Nothing
                    &&& request == Request::Done(Ok(()))
                },
                _ => {
                    &&& final(self).system@ == old(self).system@
                    &&& final(self).pending@ == PendingView::Nothing
                    &&& request == Request::Done(Err(ManagerError::ControllerNotInitialized))
                },
            },
    {
        let mut pending = Pending::Nothing;
        core::mem::swap(&mut pending, &mut self.pending);
        match (pending, report) {
            (Pending::Discovery, Report::Discovered(found)) => match found {
                Ok(Some(topology)) => {
                    let found = self.system.missing_speakers(&topology);
                    self.pending = Pending::InitialTopology(topology);
                    Request::Build { missing: found }
                },
                Ok(None) => Request::Done(Err(ManagerError::ZoneDoesNotExist)),
                Err(e) => Request::Done(Err(e)),
            },
            (Pending::InitialTopology(topology), Report::Built(arrivals)) => {
                self.system.update_from_topology(topology, arrivals);
                match self.system.choose_topology_speaker() {
                    Ok(speaker) => {
                        self.pending = Pending::InitialSubscription;
                        Request::SubscribeTopology { speaker }
                    },
                    Err(e) => Request::Done(Err(e)),
                }
            },
            (Pending::ChangedTopology(topology), Report::Built(arrivals)) => {
                self.system.update_from_topology(topology, arrivals);
                Request::Done(Ok(()))
            },
            (Pending::InitialSubscription, Report::Subscribed(started)) => match started {
                Ok(worker) => {
                    self.system.topology_subscription = Some(worker);
                    Request::Done(Ok(()))
                },
                Err(e) => Request::Done(Err(e)),
            },
            (Pending::LostSubscription, Report::Subscribed(started)) => {
                Request::Done(self.system.update_topology_subscription(started))
            },
            (Pending::Rebuild(uuid), Report::Rebuilt(outcome)) => {
                let worker = match outcome {
                    Some(Some(worker)) => Some(worker),
                    _ => None,
                };
                let ghost before = self.system.speakerdata.deep_view();
                match find_by_uuid(&self.system.speakerdata, uuid.as_str()) {
                    Some(i) => {
                        let mut record = self.system.speakerdata.remove(i);
                        record.transport_subscription = worker;
                        self.system.speakerdata.insert(i, record);
                        proof {
                            assert(self.system.speakerdata.deep_view() =~= with_subscription(
                                before,
                                uuid@,
                                rebuilt_worker(outcome),
                            ));
                        }
                    },
                    None => {},
                }
                Request::Done(Ok(()))
            },
            _ => Request::Done(Err(ManagerError::ControllerNotInitialized)),
        }
    }

    /// One turn of the controller's loop: given what has happened since it
    /// last asked for something, where it stands now and what it does next.
    pub fn run(&mut self, input: LoopInput) -> (action: LoopAction)
        ensures
            final(self).system@ == old(self).system@,
            final(self).pending@ == old(self).pending@,
            (final(self).stage, action) == loop_step(
                old(self).stage,
                input,
                old(self).system.topology_subscription is Some,
            ),
    {
        let (stage, action) = match (self.stage, input) {
            (LoopStage::Finished, _) => (LoopStage::Finished, LoopAction::Exit),
            (LoopStage::Recovering, LoopInput::Recovered(true)) => (
                LoopStage::Waiting,
                LoopAction::Await,
            ),
            (LoopStage::Recovering, LoopInput::Recovered(false)) => (
                LoopStage::DrainingCommands,
                LoopAction::DrainCommands,
            ),
            (LoopStage::DrainingCommands, LoopInput::CommandsDrained { closed }) => if closed {
                (LoopStage::Finished, LoopAction::Exit)
            } else {
                (LoopStage::DrainingEvents, LoopAction::DrainEvents)
            },
            (LoopStage::DrainingEvents, LoopInput::EventsDrained { elapsed_ms }) => (
                LoopStage::Pacing,
                LoopAction::Sleep(recovery_delay_ms(elapsed_ms)),
            ),
            (LoopStage::Waiting, LoopInput::CommandsClosed) => (LoopStage::Finished, LoopAction::Exit),
            _ => if self.system.topology_subscription.is_some() {
                (LoopStage::Waiting, LoopAction::Await)
            } else {
                (LoopStage::Recovering, LoopAction::Recover)
            },
        };
        self.stage = stage;
        action
    }

    /// The speaker that coordinates the group of the room with this name.
    pub fn get_coordinator_for_name(&self, name: &str) -> (r: Option<&SpeakerInfo>)
        ensures
            match r {
                Some(speaker) => coordinator_for_name(self.system@, name@) is Some
                    && speaker@ == self.system@.speakerdata[coordinator_for_name(
                    self.system@,
                    name@,
                )->0].speaker,
                None => coordinator_for_name(self.system@, name@) is None,
            },
    {
        match self.system.coordinator_index_for_name(name) {
            Some(i) => Some(&self.system.speakerdata[i].speaker),
            None => None,
        }
    }

    /// The record of the speaker that coordinates the group of the room
    /// with this name.
    pub fn get_coordinatordata_for_name(&self, name: &str) -> (r: Option<&SpeakerData<D, W>>)
        ensures
            match r {
                Some(record) => coordinator_for_name(self.system@, name@) is Some
                    && record@ == self.system@.speakerdata[coordinator_for_name(
                    self.system@,
                    name@,
                )->0],
                None => coordinator_for_name(self.system@, name@) is None,
            },
    {
        match self.system.coordinator_index_for_name(name) {
            Some(i) => Some(&self.system.speakerdata[i]),
            None => None,
        }
    }
}

/// The time to sleep, in milliseconds, after a failed recovery attempt that
/// has taken `elapsed_ms`.
pub fn recovery_delay_ms(elapsed_ms: u64) -> (delay: u64)
    ensures
        delay == recovery_delay(elapsed_ms as int),
{
    if elapsed_ms >= RECOVERY_PERIOD_MS {
        0
    } else {
        RECOVERY_PERIOD_MS - elapsed_ms
    }
}

} // verus!
