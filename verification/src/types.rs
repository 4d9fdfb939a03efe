//! The values that pass between the controller, its workers and its callers.

use vstd::prelude::*;
use crate::error::{ManagerError, Result};
use crate::text::{eq_ignore_ascii_case, same_ignoring_case};

verus! {

/// `sonor::Snapshot`, the transport state of a speaker: carried through unread.
#[verifier::external_type_specification]
#[verifier::external_body]
pub struct ExSnapshot(sonor::Snapshot);

/// `sonor::Track`, an entry of a queue: carried through unread.
#[verifier::external_type_specification]
#[verifier::external_body]
pub struct ExTrack(sonor::Track);

/// `sonor::RepeatMode`, how a queue is repeated: carried through unread.
#[verifier::external_type_specification]
#[verifier::external_body]
pub struct ExRepeatMode(sonor::RepeatMode);

/// The stable identifier of a speaker. Compared without regard to ASCII case.
pub type Uuid = String;

/// A human-readable room name.
pub type ZoneName = String;

/// The most recent AV-transport values of a speaker, as (key, value) pairs in
/// the order in which they were received.
pub type AVStatus = Vec<(String, String)>;

/// The zone groups of a system: for each group the identifier of its
/// coordinator and its members, in the order in which the system reports them.
pub type Topology = Vec<(Uuid, Vec<SpeakerInfo>)>;

/// A speaker as the topology describes it.
#[derive(Debug, Clone)]
pub struct SpeakerInfo {
    pub name: String,
    pub uuid: String,
    pub location: String,
}

/// The mathematical value of a [`SpeakerInfo`].
pub struct SpeakerInfoView {
    pub name: Seq<char>,
    pub uuid: Seq<char>,
    pub location: Seq<char>,
}

impl View for SpeakerInfo {
    type V = SpeakerInfoView;

    open spec fn view(&self) -> SpeakerInfoView {
        SpeakerInfoView { name: self.name@, uuid: self.uuid@, location: self.location@ }
    }
}

impl DeepView for SpeakerInfo {
    type V = SpeakerInfoView;

    open spec fn deep_view(&self) -> SpeakerInfoView {
        self@
    }
}

impl SpeakerInfo {
    pub fn new(name: String, uuid: String, location: String) -> (info: SpeakerInfo)
        ensures
            info@ == (SpeakerInfoView { name: name@, uuid: uuid@, location: location@ }),
    {
        SpeakerInfo { name, uuid, location }
    }

    pub fn name(&self) -> (r: &str)
        ensures
            r@ == self@.name,
    {
        self.name.as_str()
    }

    pub fn uuid(&self) -> (r: &str)
        ensures
            r@ == self@.uuid,
    {
        self.uuid.as_str()
    }

    pub fn location(&self) -> (r: &str)
        ensures
            r@ == self@.location,
    {
        self.location.as_str()
    }

    /// A copy with the same name, identifier and location.
    pub fn duplicate(&self) -> (r: SpeakerInfo)
        ensures
            r@ == self@,
    {
        SpeakerInfo {
            name: self.name.clone(),
            uuid: self.uuid.clone(),
            location: self.location.clone(),
        }
    }

    /// Two descriptions are of one speaker exactly when their identifiers
    /// match without regard to case.
    pub fn same_speaker(&self, other: &SpeakerInfo) -> (r: bool)
        ensures
            r == same_ignoring_case(self@.uuid, other@.uuid),
    {
        eq_ignore_ascii_case(self.uuid.as_str(), other.uuid.as_str())
    }
}

impl PartialEq for SpeakerInfo {
    /// Two descriptions are equal exactly when they are of one speaker.
    fn eq(&self, other: &Self) -> (r: bool) {
        eq_ignore_ascii_case(self.uuid.as_str(), other.uuid.as_str())
    }
}

impl vstd::std_specs::cmp::PartialEqSpecImpl for SpeakerInfo {
    open spec fn obeys_eq_spec() -> bool {
        true
    }

    open spec fn eq_spec(&self, other: &Self) -> bool {
        same_ignoring_case(self.uuid@, other.uuid@)
    }
}

/// The view of a topology: coordinator identifier and members of each group.
pub type TopologyView = Seq<(Seq<char>, Seq<SpeakerInfoView>)>;

/// The reply to a zone action.
#[derive(Debug)]
pub enum Response {
    Okay,
    NotOk,
    Snapshot(sonor::Snapshot),
    Queue(Vec<sonor::Track>),
}

impl Response {
    /// The reply of an action that yields nothing: anything but `Okay` is a
    /// zone action error.
    pub fn into_ok(self) -> (r: Result<()>)
        ensures
            self is Okay ==> r == Ok::<(), ManagerError>(()),
            !(self is Okay) ==> r == Err::<(), ManagerError>(ManagerError::ZoneActionError),
    {
        match self {
            Response::Okay => Ok(()),
            _ => Err(ManagerError::ZoneActionError),
        }
    }

    /// The reply of a queue request: the queue, and a zone action error for
    /// anything else.
    pub fn into_queue(self) -> (r: Result<Vec<sonor::Track>>)
        ensures
            self matches Response::Queue(q) ==> r == Ok::<Vec<sonor::Track>, ManagerError>(q),
            !(self is Queue) ==> r == Err::<Vec<sonor::Track>, ManagerError>(
                ManagerError::ZoneActionError,
            ),
    {
        match self {
            Response::Queue(queue) => Ok(queue),
            _ => Err(ManagerError::ZoneActionError),
        }
    }

    /// The reply of a snapshot request: the snapshot, and a zone action
    /// error for anything else.
    pub fn into_snapshot(self) -> (r: Result<sonor::Snapshot>)
        ensures
            self matches Response::Snapshot(s) ==> r == Ok::<sonor::Snapshot, ManagerError>(s),
            !(self is Snapshot) ==> r == Err::<sonor::Snapshot, ManagerError>(
                ManagerError::ZoneActionError,
            ),
    {
        match self {
            Response::Snapshot(snap) => Ok(snap),
            _ => Err(ManagerError::ZoneActionError),
        }
    }

    /// The reply to an existence check: the zone exists exactly when the
    /// reply is `Okay`.
    pub fn into_zone(self) -> (r: Result<()>)
        ensures
            self is Okay ==> r == Ok::<(), ManagerError>(()),
            !(self is Okay) ==> r == Err::<(), ManagerError>(ManagerError::ZoneDoesNotExist),
    {
        match self {
            Response::Okay => Ok(()),
            _ => Err(ManagerError::ZoneDoesNotExist),
        }
    }
}

/// The state of the controller as a status request reports it.
#[derive(Debug)]
pub enum ControllerStatus {
    Okay(Topology),
    Error,
}

/// What a subscription worker tells the controller.
#[derive(Debug, Clone)]
pub enum Event {
    /// The zone groups changed: the new topology.
    TopoUpdate(Option<Uuid>, Topology),
    /// The AV-transport state of the speaker with this identifier changed.
    AVTransUpdate(Option<Uuid>, AVStatus),
    /// The subscription to the service of this type was lost for good.
    SubscribeError(Option<Uuid>, String),
    /// The value a channel holds before its first event. Never delivered.
    NoOp,
}

/// The mathematical value of an [`Event`].
pub enum EventView {
    TopoUpdate(Option<Seq<char>>, TopologyView),
    AVTransUpdate(Option<Seq<char>>, Seq<(Seq<char>, Seq<char>)>),
    SubscribeError(Option<Seq<char>>, Seq<char>),
    NoOp,
}

impl View for Event {
    type V = EventView;

    open spec fn view(&self) -> EventView {
        match self {
            Event::TopoUpdate(uuid, topology) => EventView::TopoUpdate(
                uuid.deep_view(),
                topology.deep_view(),
            ),
            Event::AVTransUpdate(uuid, data) => EventView::AVTransUpdate(
                uuid.deep_view(),
                data.deep_view(),
            ),
            Event::SubscribeError(uuid, service) => EventView::SubscribeError(
                uuid.deep_view(),
                service@,
            ),
            Event::NoOp => EventView::NoOp,
        }
    }
}

impl DeepView for Event {
    type V = EventView;

    open spec fn deep_view(&self) -> EventView {
        self@
    }
}

/// A request to the controller: `P` is the sender on which the reply to a zone
/// action is sent, `S` the sender for a status reply.
#[derive(Debug)]
pub enum Command<P, S> {
    DoZoneAction(P, ZoneName, crate::zoneaction::ZoneAction),
    GetStatus(S),
}

/// How many commands may wait for the controller.
pub const COMMAND_CAPACITY: usize = 32;

} // verus!
