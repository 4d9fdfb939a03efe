use sonos_manager::error::ManagerError;
use sonos_manager::subscriber::{
    find_variable, Subscriber, WorkerAction, WorkerInput, WorkerState, RENEW_SEC, TIMEOUT_SEC,
};
use sonos_manager::types::Event;

fn transport_worker() -> Subscriber {
    let mut worker = Subscriber::new();
    let action = worker.subscribe("AVTransport".to_string(), Some("RINCON_X".to_string()));
    assert!(matches!(action, Ok(WorkerAction::Subscribe { timeout_secs: 300 })));
    let step = worker.on_input(WorkerInput::Subscribed(true));
    assert!(step.publish.is_none());
    assert!(matches!(step.action, WorkerAction::Listen));
    worker
}

fn topology_worker() -> Subscriber {
    let mut worker = Subscriber::new();
    worker.subscribe("ZoneGroupTopology".to_string(), None).unwrap();
    worker.on_input(WorkerInput::Subscribed(true));
    worker
}

const LAST_CHANGE: &str = r#"<Event xmlns="urn:schemas-upnp-org:metadata-1-0/AVT/"><InstanceID val="0"><TransportState val="PLAYING"/><CurrentTrack val="3"/><!-- note --><CurrentPlayMode/>text</InstanceID></Event>"#;

#[test]
fn timing_constants() {
    assert_eq!(TIMEOUT_SEC, 300);
    assert_eq!(RENEW_SEC, 60);
}

#[test]
fn transport_subscription_needs_a_uuid() {
    let mut worker = Subscriber::new();
    assert_eq!(worker.state, WorkerState::Idle);
    match worker.subscribe("AVTransport".to_string(), None) {
        Err(ManagerError::SubscriberError(message)) => {
            assert_eq!(message, "Need UUID for AV_TRANSPORT Subscriptions!")
        }
        other => panic!("unexpected result {:?}", other),
    }
    assert_eq!(worker.state, WorkerState::Idle);
    assert!(worker.subscribe("ZoneGroupTopology".to_string(), None).is_ok());
    assert_eq!(worker.state, WorkerState::Subscribing);
}

#[test]
fn worker_without_service_cannot_start() {
    let mut worker = Subscriber::new();
    match worker.spawn_task() {
        Err(ManagerError::SubscriberError(message)) => assert_eq!(message, "No service defined!"),
        other => panic!("unexpected result {:?}", other),
    }
    assert_eq!(worker.state, WorkerState::Idle);
}

#[test]
fn first_subscription_failure_is_one_notice() {
    let mut worker = Subscriber::new();
    worker.subscribe("AVTransport".to_string(), Some("RINCON_X".to_string())).unwrap();
    let step = worker.on_input(WorkerInput::Subscribed(false));
    match step.publish {
        Some(Event::SubscribeError(uuid, service)) => {
            assert_eq!(uuid.as_deref(), Some("RINCON_X"));
            assert_eq!(service, "AVTransport");
        }
        other => panic!("unexpected event {:?}", other),
    }
    assert!(matches!(step.action, WorkerAction::Stop));
    assert_eq!(worker.state, WorkerState::Lost);
    for input in [WorkerInput::Tick, WorkerInput::Subscribed(false), WorkerInput::StreamFailed] {
        let step = worker.on_input(input);
        assert!(step.publish.is_none());
        assert!(matches!(step.action, WorkerAction::Stop));
        assert_eq!(worker.state, WorkerState::Lost);
    }
}

#[test]
fn transport_event_is_published() {
    let mut worker = transport_worker();
    let vars = vec![
        ("Other".to_string(), "x".to_string()),
        ("LastChange".to_string(), LAST_CHANGE.to_string()),
    ];
    let step = worker.on_input(WorkerInput::Notified(vars));
    match step.publish {
        Some(Event::AVTransUpdate(uuid, values)) => {
            assert_eq!(uuid.as_deref(), Some("RINCON_X"));
            assert_eq!(
                values,
                vec![
                    ("TransportState".to_string(), "PLAYING".to_string()),
                    ("CurrentTrack".to_string(), "3".to_string()),
                    ("CurrentPlayMode".to_string(), "".to_string()),
                ]
            );
        }
        other => panic!("unexpected event {:?}", other),
    }
    assert!(matches!(step.action, WorkerAction::Listen));
    assert_eq!(worker.state, WorkerState::Listening);
}

#[test]
fn unreadable_events_are_dropped() {
    let mut worker = transport_worker();
    for vars in [
        vec![("LastChange".to_string(), "<broken".to_string())],
        vec![("LastChange".to_string(), "<Event><Other/></Event>".to_string())],
        vec![("lastchange".to_string(), LAST_CHANGE.to_string())],
        Vec::new(),
    ] {
        let step = worker.on_input(WorkerInput::Notified(vars));
        assert!(step.publish.is_none());
        assert!(matches!(step.action, WorkerAction::Listen));
        assert_eq!(worker.state, WorkerState::Listening);
    }
    let mut other = Subscriber::new();
    other.subscribe("RenderingControl".to_string(), None).unwrap();
    other.on_input(WorkerInput::Subscribed(true));
    let step = other.on_input(WorkerInput::Notified(vec![(
        "LastChange".to_string(),
        LAST_CHANGE.to_string(),
    )]));
    assert!(step.publish.is_none());
    assert!(matches!(step.action, WorkerAction::Listen));
}

const ZONE_GROUP_STATE: &str = r#"<ZoneGroupState><ZoneGroups><ZoneGroup Coordinator="RINCON_X" ID="RINCON_X:1"><ZoneGroupMember UUID="RINCON_X" Location="http://10.0.0.2:1400/xml/device_description.xml" ZoneName="Kitchen"/><ZoneGroupMember UUID="RINCON_Y" Location="http://10.0.0.3:1400/xml/device_description.xml" ZoneName="Bath"/></ZoneGroup></ZoneGroups></ZoneGroupState>"#;

#[test]
fn topology_event_is_published() {
    let mut worker = topology_worker();
    let vars = vec![("ZoneGroupState".to_string(), ZONE_GROUP_STATE.to_string())];
    let step = worker.on_input(WorkerInput::Notified(vars));
    match step.publish {
        Some(Event::TopoUpdate(None, topology)) => {
            assert_eq!(topology.len(), 1);
            assert_eq!(topology[0].0, "RINCON_X");
            assert_eq!(topology[0].1.len(), 2);
            assert_eq!(topology[0].1[1].name(), "Bath");
        }
        other => panic!("unexpected event {:?}", other),
    }
    assert!(matches!(step.action, WorkerAction::Listen));
    assert_eq!(worker.state, WorkerState::Listening);
    for vars in [
        vec![("ZoneGroupState".to_string(), "<ZoneGroups><ZoneGroup/></ZoneGroups>".to_string())],
        vec![("ZoneGroupState".to_string(), "<x".to_string())],
        vec![("LastChange".to_string(), ZONE_GROUP_STATE.to_string())],
    ] {
        let step = worker.on_input(WorkerInput::Notified(vars));
        assert!(step.publish.is_none());
        assert!(matches!(step.action, WorkerAction::Listen));
    }
}

#[test]
fn renewal_failure_is_followed_by_one_fresh_subscription() {
    let mut worker = transport_worker();
    let step = worker.on_input(WorkerInput::Tick);
    assert!(matches!(step.action, WorkerAction::Renew { timeout_secs: 300 }));
    let step = worker.on_input(WorkerInput::Renewed(true));
    assert!(matches!(step.action, WorkerAction::Listen));
    worker.on_input(WorkerInput::Tick);
    let step = worker.on_input(WorkerInput::Renewed(false));
    assert!(step.publish.is_none());
    assert!(matches!(step.action, WorkerAction::Subscribe { timeout_secs: 300 }));
    let step = worker.on_input(WorkerInput::Subscribed(true));
    assert!(step.publish.is_none());
    assert!(matches!(step.action, WorkerAction::Listen));
    worker.on_input(WorkerInput::Tick);
    worker.on_input(WorkerInput::Renewed(false));
    let step = worker.on_input(WorkerInput::Subscribed(false));
    assert!(matches!(step.publish, Some(Event::SubscribeError(_, _))));
    assert!(matches!(step.action, WorkerAction::Stop));
}

#[test]
fn stream_failure_is_followed_by_one_fresh_subscription() {
    let mut worker = topology_worker();
    let step = worker.on_input(WorkerInput::StreamFailed);
    assert!(step.publish.is_none());
    assert!(matches!(step.action, WorkerAction::Subscribe { timeout_secs: 300 }));
    let step = worker.on_input(WorkerInput::Subscribed(false));
    match step.publish {
        Some(Event::SubscribeError(None, service)) => assert_eq!(service, "ZoneGroupTopology"),
        other => panic!("unexpected event {:?}", other),
    }
    assert!(matches!(step.action, WorkerAction::Stop));
    assert_eq!(worker.state, WorkerState::Lost);
}

#[test]
fn worker_without_consumers_unsubscribes_and_stops() {
    let mut worker = transport_worker();
    let step = worker.on_input(WorkerInput::ConsumersGone);
    assert!(step.publish.is_none());
    assert!(matches!(step.action, WorkerAction::Unsubscribe));
    let step = worker.on_input(WorkerInput::Unsubscribed);
    assert!(step.publish.is_none());
    assert!(matches!(step.action, WorkerAction::Stop));
    assert_eq!(worker.state, WorkerState::Stopped);
    let step = worker.on_input(WorkerInput::Tick);
    assert!(matches!(step.action, WorkerAction::Stop));
}

#[test]
fn input_that_is_not_awaited_changes_nothing() {
    let mut worker = transport_worker();
    let step = worker.on_input(WorkerInput::Renewed(false));
    assert!(step.publish.is_none());
    assert!(matches!(step.action, WorkerAction::Nothing));
    assert_eq!(worker.state, WorkerState::Listening);
    let mut idle = Subscriber::new();
    let step = idle.on_input(WorkerInput::Subscribed(false));
    assert!(step.publish.is_none());
    assert!(matches!(step.action, WorkerAction::Nothing));
    assert_eq!(idle.state, WorkerState::Idle);
}

#[test]
fn state_variables_are_found_by_name() {
    let vars = vec![
        ("A".to_string(), "1".to_string()),
        ("B".to_string(), "2".to_string()),
        ("A".to_string(), "3".to_string()),
    ];
    assert_eq!(find_variable(&vars, "A").map(|s| s.as_str()), Some("1"));
    assert_eq!(find_variable(&vars, "B").map(|s| s.as_str()), Some("2"));
    assert!(find_variable(&vars, "a").is_none());
}
