//! The subscription worker: it holds one subscription to one service of one
//! speaker, keeps it alive, turns what the service reports into events, and
//! gives notice when the subscription is lost for good.

use vstd::prelude::*;
use crate::error::{ManagerError, Result};
use crate::search::{first_index, is_first, lemma_first_absent, lemma_first_found};
use crate::text::{owned, str_eq};
use crate::types::{Event, EventView};
use crate::utils::{extract_av_transport_last_change, last_change};
use crate::xml::parsed_xml;
use crate::zonegroupstate::{extract_zone_topology, zone_topology};

verus! {

/// Seconds for which a subscription is asked.
pub const TIMEOUT_SEC: u32 = 300;

/// Seconds between two renewals of a subscription.
pub const RENEW_SEC: u32 = 60;

/// Where a worker stands.
#[derive(Debug, Clone, Copy, PartialEq, Eq, Structural)]
pub enum WorkerState {
    /// Not started.
    Idle,
    /// The first subscription is being made.
    Subscribing,
    /// The subscription stands: the worker waits for an event, for the time
    /// to renew, or for its consumers to go.
    Listening,
    /// The subscription is being renewed.
    Renewing,
    /// A fresh subscription is being made in place of one that failed.
    Resubscribing,
    /// The consumers are gone: the subscription is being given up.
    Unsubscribing,
    /// The worker has ended after its consumers went.
    Stopped,
    /// The worker has ended because the subscription was lost for good.
    Lost,
}

/// What has happened since the worker last asked for something.
#[derive(Debug)]
pub enum WorkerInput {
    /// A subscription was tried: whether it stands.
    Subscribed(bool),
    /// An event came: the state variables it holds.
    Notified(Vec<(String, String)>),
    /// The event stream failed or ended.
    StreamFailed,
    /// It is time to renew.
    Tick,
    /// A renewal was tried: whether it went well.
    Renewed(bool),
    /// Every consumer of the worker's events is gone.
    ConsumersGone,
    /// The subscription was given up, or giving it up failed.
    Unsubscribed,
}

/// The mathematical value of a [`WorkerInput`].
pub enum WorkerInputView {
    Subscribed(bool),
    Notified(Seq<(Seq<char>, Seq<char>)>),
    StreamFailed,
    Tick,
    Renewed(bool),
    ConsumersGone,
    Unsubscribed,
}

impl View for WorkerInput {
    type V = WorkerInputView;

    open spec fn view(&self) -> WorkerInputView {
        match self {
            WorkerInput::Subscribed(ok) => WorkerInputView::Subscribed(*ok),
            WorkerInput::Notified(vars) => WorkerInputView::Notified(vars.deep_view()),
            WorkerInput::StreamFailed => WorkerInputView::StreamFailed,
            WorkerInput::Tick => WorkerInputView::Tick,
            WorkerInput::Renewed(ok) => WorkerInputView::Renewed(*ok),
            WorkerInput::ConsumersGone => WorkerInputView::ConsumersGone,
            WorkerInput::Unsubscribed => WorkerInputView::Unsubscribed,
        }
    }
}

/// What the worker does next.
#[derive(Debug)]
pub enum WorkerAction {
    /// What came was not awaited: go on as before.
    Nothing,
    /// Subscribe for this many seconds.
    Subscribe { timeout_secs: u32 },
    /// Renew the subscription for this many seconds.
    Renew { timeout_secs: u32 },
    /// Give the subscription up; a failure to do so is of no account.
    Unsubscribe,
    /// Wait for an event, for the time to renew, or for the consumers to go.
    Listen,
    /// End.
    Stop,
}

/// The mathematical value of a [`WorkerAction`].
pub enum WorkerActionView {
    Nothing,
    Subscribe { timeout_secs: u32 },
    Renew { timeout_secs: u32 },
    Unsubscribe,
    Listen,
    Stop,
}

impl View for WorkerAction {
    type V = WorkerActionView;

    open spec fn view(&self) -> WorkerActionView {
        match self {
            WorkerAction::Nothing => WorkerActionView::Nothing,
            WorkerAction::Subscribe { timeout_secs } => WorkerActionView::Subscribe {
                timeout_secs: *timeout_secs,
            },
            WorkerAction::Renew { timeout_secs } => WorkerActionView::Renew {
                timeout_secs: *timeout_secs,
            },
            WorkerAction::Unsubscribe => WorkerActionView::Unsubscribe,
            WorkerAction::Listen => WorkerActionView::Listen,
            WorkerAction::Stop => WorkerActionView::Stop,
        }
    }
}

/// What one turn of a worker comes to: the event to publish, if any, and
/// what to do next.
#[derive(Debug)]
pub struct WorkerStep {
    pub publish: Option<Event>,
    pub action: WorkerAction,
}

/// The mathematical value of a [`WorkerStep`].
pub struct WorkerStepView {
    pub publish: Option<EventView>,
    pub action: WorkerActionView,
}

impl View for WorkerStep {
    type V = WorkerStepView;

    open spec fn view(&self) -> WorkerStepView {
        WorkerStepView { publish: self.publish.deep_view(), action: self.action@ }
    }
}

/// The worker of one subscription.
#[derive(Debug)]
pub struct Subscriber {
    /// The type of the service subscribed to.
    pub service: Option<String>,
    /// The identifier of the speaker that the events are about.
    pub uuid: Option<String>,
    /// Where the worker stands.
    pub state: WorkerState,
}

/// The mathematical value of a [`Subscriber`].
pub struct SubscriberView {
    pub service: Option<Seq<char>>,
    pub uuid: Option<Seq<char>>,
    pub state: WorkerState,
}

impl View for Subscriber {
    type V = SubscriberView;

    open spec fn view(&self) -> SubscriberView {
        SubscriberView {
            service: self.service.deep_view(),
            uuid: self.uuid.deep_view(),
            state: self.state,
        }
    }
}

/// The condition "is the state variable of this name".
pub open spec fn is_variable(name: Seq<char>) -> spec_fn((Seq<char>, Seq<char>)) -> bool {
    |entry: (Seq<char>, Seq<char>)| entry.0 == name
}

/// The value of the state variable of this name, if the event holds it.
pub open spec fn state_variable(vars: Seq<(Seq<char>, Seq<char>)>, name: Seq<char>) -> Option<
    Seq<char>,
> {
    match first_index(vars, is_variable(name)) {
        Some(i) => Some(vars[i].1),
        None => None,
    }
}

/// The service type of a worker: empty where it has none.
pub open spec fn service_of(worker: SubscriberView) -> Seq<char> {
    match worker.service {
        Some(service) => service,
        None => Seq::empty(),
    }
}

/// The notice that the subscription is lost for good.
pub open spec fn loss_notice(worker: SubscriberView) -> EventView {
    EventView::SubscribeError(worker.uuid, service_of(worker))
}

/// A turn that publishes nothing.
pub open spec fn quietly(
    worker: SubscriberView,
    state: WorkerState,
    action: WorkerActionView,
) -> (SubscriberView, WorkerStepView) {
    (SubscriberView { state, ..worker }, WorkerStepView { publish: None, action })
}

/// The turn on which the subscription is lost for good: one notice is
/// published and the worker ends.
pub open spec fn give_notice(worker: SubscriberView) -> (SubscriberView, WorkerStepView) {
    (
        SubscriberView { state: WorkerState::Lost, ..worker },
        WorkerStepView { publish: Some(loss_notice(worker)), action: WorkerActionView::Stop },
    )
}

/// The event that a notification of a service makes: the topology that the
/// zone group state of the topology service reports, the values that the
/// last change of the AV-transport service reports. Nothing where the
/// notification does not hold the variable or the variable cannot be read,
/// and nothing for another service.
pub open spec fn event_of(worker: SubscriberView, vars: Seq<(Seq<char>, Seq<char>)>) -> Option<
    EventView,
> {
    if service_of(worker) == "ZoneGroupTopology"@ {
        match state_variable(vars, "ZoneGroupState"@) {
            Some(xml) => match parsed_xml(xml) {
                Some(nodes) => match zone_topology(nodes) {
                    Some(topology) => Some(EventView::TopoUpdate(worker.uuid, topology)),
                    None => None,
                },
                None => None,
            },
            None => None,
        }
    } else if service_of(worker) == "AVTransport"@ {
        match state_variable(vars, "LastChange"@) {
            Some(xml) => match parsed_xml(xml) {
                Some(nodes) => match last_change(nodes) {
                    Some(values) => Some(EventView::AVTransUpdate(worker.uuid, values)),
                    None => None,
                },
                None => None,
            },
            None => None,
        }
    } else {
        None
    }
}

/// What a notification makes a listening worker do: it publishes the event
/// that the notification makes, if it makes one, and listens on.
pub open spec fn on_event(worker: SubscriberView, vars: Seq<(Seq<char>, Seq<char>)>) -> (
    SubscriberView,
    WorkerStepView,
) {
    (
        SubscriberView { state: WorkerState::Listening, ..worker },
        WorkerStepView { publish: event_of(worker, vars), action: WorkerActionView::Listen },
    )
}

/// One turn of a worker.
pub open spec fn worker_step(worker: SubscriberView, input: WorkerInputView) -> (
    SubscriberView,
    WorkerStepView,
) {
    match (worker.state, input) {
        (WorkerState::Subscribing, WorkerInputView::Subscribed(ok)) => if ok {
            quietly(worker, WorkerState::Listening, WorkerActionView::Listen)
        } else {
            give_notice(worker)
        },
        (WorkerState::Resubscribing, WorkerInputView::Subscribed(ok)) => if ok {
            quietly(worker, WorkerState::Listening, WorkerActionView::Listen)
        } else {
            give_notice(worker)
        },
        (WorkerState::Listening, WorkerInputView::Notified(vars)) => on_event(worker, vars),
        (WorkerState::Listening, WorkerInputView::StreamFailed) => quietly(
            worker,
            WorkerState::Resubscribing,
            WorkerActionView::Subscribe { timeout_secs: TIMEOUT_SEC },
        ),
        (WorkerState::Listening, WorkerInputView::Tick) => quietly(
            worker,
            WorkerState::Renewing,
            WorkerActionView::Renew { timeout_secs: TIMEOUT_SEC },
        ),
        (WorkerState::Renewing, WorkerInputView::Renewed(ok)) => if ok {
            quietly(worker, WorkerState::Listening, WorkerActionView::Listen)
        } else {
            quietly(
                worker,
                WorkerState::Resubscribing,
                WorkerActionView::Subscribe { timeout_secs: TIMEOUT_SEC },
            )
        },
        (WorkerState::Listening, WorkerInputView::ConsumersGone) => quietly(
            worker,
            WorkerState::Unsubscribing,
            WorkerActionView::Unsubscribe,
        ),
        (WorkerState::Unsubscribing, _) => quietly(
            worker,
            WorkerState::Stopped,
            WorkerActionView::Stop,
        ),
        (WorkerState::Stopped, _) => quietly(worker, WorkerState::Stopped, WorkerActionView::Stop),
        (WorkerState::Lost, _) => quietly(worker, WorkerState::Lost, WorkerActionView::Stop),
        _ => quietly(worker, worker.state, WorkerActionView::Nothing),
    }
}

/// The value of the state variable of this name, if the event holds it.
pub fn find_variable<'a>(vars: &'a Vec<(String, String)>, name: &str) -> (r: Option<&'a String>)
    ensures
        match r {
            Some(value) => state_variable(vars.deep_view(), name@) == Some(value@),
            None => state_variable(vars.deep_view(), name@) is None,
        },
{
    let mut i: usize = 0;
    while i < vars.len()
        invariant
            i <= vars.len(),
            forall|j: int| 0 <= j < i ==> !is_variable(name@)(#[trigger] vars.deep_view()[j]),
        decreases vars.len() - i,
    {
        proof {
            assert(vars.deep_view()[i as int] == (vars[i as int].0@, vars[i as int].1@));
        }
        if str_eq(vars[i].0.as_str(), name) {
            proof {
                assert(is_first(vars.deep_view(), is_variable(name@), i as int));
                lemma_first_found(vars.deep_view(), is_variable(name@), i as int);
            }
            return Some(&vars[i].1);
        }
        i += 1;
    }
    proof {
        lemma_first_absent(vars.deep_view(), is_variable(name@));
    }
    None
}

/// A copy of an optional identifier.
fn copy_of(uuid: &Option<String>) -> (r: Option<String>)
    ensures
        r.deep_view() == uuid.deep_view(),
{
    match uuid {
        Some(uuid) => Some(uuid.clone()),
        None => None,
    }
}

impl Subscriber {
    /// A worker that has not been told what to subscribe to.
    pub fn new() -> (worker: Subscriber)
        ensures
            worker@ == (SubscriberView { service: None, uuid: None, state: WorkerState::Idle }),
    {
        Subscriber { service: None, uuid: None, state: WorkerState::Idle }
    }

    /// Sets the worker up for a service and starts it. The AV-transport
    /// service needs the identifier of its speaker: without it the worker
    /// is not started and the set-up is an error.
    pub fn subscribe(&mut self, service: String, uuid: Option<String>) -> (r: Result<WorkerAction>)
        ensures
            final(self)@.service == Some(service@),
            final(self)@.uuid == uuid.deep_view(),
            if service@ == "AVTransport"@ && uuid is None {
                &&& final(self).state == old(self).state
                &&& r matches Err(ManagerError::SubscriberError(message))
                &&& message@ == "Need UUID for AV_TRANSPORT Subscriptions!"@
            } else {
                &&& final(self).state == WorkerState::Subscribing
                &&& r matches Ok(action)
                &&& action@ == (WorkerActionView::Subscribe { timeout_secs: TIMEOUT_SEC })
            },
    {
        let needs_uuid = str_eq(service.as_str(), "AVTransport");
        let has_uuid = uuid.is_some();
        self.service = Some(service);
        self.uuid = uuid;
        if needs_uuid && !has_uuid {
            return Err(
                ManagerError::SubscriberError(owned("Need UUID for AV_TRANSPORT Subscriptions!")),
            );
        }
        self.spawn_task()
    }

    /// Starts the worker: it begins by subscribing. A worker that was not
    /// told its service cannot be started.
    pub fn spawn_task(&mut self) -> (r: Result<WorkerAction>)
        ensures
            final(self)@.service == old(self)@.service,
            final(self)@.uuid == old(self)@.uuid,
            if old(self).service is None {
                &&& final(self).state == old(self).state
                &&& r matches Err(ManagerError::SubscriberError(message))
                &&& message@ == "No service defined!"@
            } else {
                &&& final(self).state == WorkerState::Subscribing
                &&& r matches Ok(action)
                &&& action@ == (WorkerActionView::Subscribe { timeout_secs: TIMEOUT_SEC })
            },
    {
        if self.service.is_none() {
            return Err(ManagerError::SubscriberError(owned("No service defined!")));
        }
        self.state = WorkerState::Subscribing;
        Ok(WorkerAction::Subscribe { timeout_secs: TIMEOUT_SEC })
    }

    /// The notice that the subscription is lost for good.
    fn notice(&self) -> (event: Event)
        ensures
            event@ == loss_notice(self@),
    {
        let service = match &self.service {
            Some(service) => service.clone(),
            None => String::new(),
        };
        Event::SubscribeError(copy_of(&self.uuid), service)
    }

    /// Whether the worker is of the service of this type.
    fn serves(&self, service: &str) -> (r: bool)
        ensures
            r == (service_of(self@) == service@),
    {
        proof {
            reveal_strlit("");
            assert(""@ =~= Seq::<char>::empty());
        }
        match &self.service {
            Some(own) => str_eq(own.as_str(), service),
            None => str_eq("", service),
        }
    }

    /// The event that a notification makes.
    fn read_notification(&self, vars: &Vec<(String, String)>) -> (event: Option<Event>)
        ensures
            event.deep_view() == event_of(self@, vars.deep_view()),
    {
        if self.serves("ZoneGroupTopology") {
            match find_variable(vars, "ZoneGroupState") {
                Some(xml) => match extract_zone_topology(xml.as_str()) {
                    Ok(topology) => Some(Event::TopoUpdate(copy_of(&self.uuid), topology)),
                    Err(_) => None,
                },
                None => None,
            }
        } else if self.serves("AVTransport") {
            match find_variable(vars, "LastChange") {
                Some(xml) => match extract_av_transport_last_change(xml.as_str()) {
                    Ok(values) => Some(Event::AVTransUpdate(copy_of(&self.uuid), values)),
                    Err(_) => None,
                },
                None => None,
            }
        } else {
            None
        }
    }

    /// One turn of the worker: given what has happened since it last asked
    /// for something, the event to publish, if any, and what to do next.
    pub fn on_input(&mut self, input: WorkerInput) -> (step: WorkerStep)
        ensures
            (final(self)@, step@) == worker_step(old(self)@, input@),
    {
        match (self.state, input) {
            (WorkerState::Subscribing, WorkerInput::Subscribed(ok)) | (
                WorkerState::Resubscribing,
                WorkerInput::Subscribed(ok),
            ) => {
                if ok {
                    self.state = WorkerState::Listening;
                    WorkerStep { publish: None, action: WorkerAction::Listen }
                } else {
                    let event = self.notice();
                    self.state = WorkerState::Lost;
                    WorkerStep { publish: Some(event), action: WorkerAction::Stop }
                }
            },
            (WorkerState::Listening, WorkerInput::Notified(vars)) => {
                let publish = self.read_notification(&vars);
                WorkerStep { publish, action: WorkerAction::Listen }
            },
            (WorkerState::Listening, WorkerInput::StreamFailed) => {
                self.state = WorkerState::Resubscribing;
                WorkerStep {
                    publish: None,
                    action: WorkerAction::Subscribe { timeout_secs: TIMEOUT_SEC },
                }
            },
            (WorkerState::Listening, WorkerInput::Tick) => {
                self.state = WorkerState::Renewing;
                WorkerStep { publish: None, action: WorkerAction::Renew { timeout_secs: TIMEOUT_SEC } }
            },
            (WorkerState::Renewing, WorkerInput::Renewed(ok)) => {
                if ok {
                    self.state = WorkerState::Listening;
                    WorkerStep { publish: None, action: WorkerAction::Listen }
                } else {
                    self.state = WorkerState::Resubscribing;
                    WorkerStep {
                        publish: None,
                        action: WorkerAction::Subscribe { timeout_secs: TIMEOUT_SEC },
                    }
                }
            },
            (WorkerState::Listening, WorkerInput::ConsumersGone) => {
                self.state = WorkerState::Unsubscribing;
                WorkerStep { publish: None, action: WorkerAction::Unsubscribe }
            },
            (WorkerState::Unsubscribing, _) => {
                self.state = WorkerState::Stopped;
                WorkerStep { publish: None, action: WorkerAction::Stop }
            },
            (WorkerState::Stopped, _) => WorkerStep { publish: None, action: WorkerAction::Stop },
            (WorkerState::Lost, _) => WorkerStep { publish: None, action: WorkerAction::Stop },
            _ => WorkerStep { publish: None, action: WorkerAction::Nothing },
        }
    }
}

} // verus!
