use sonos_manager::controller::{
    recovery_delay_ms, Controller, LoopAction, LoopInput, LoopStage, Pending, Report, Request,
};
use sonos_manager::error::ManagerError;
use sonos_manager::mediasource::MediaSource;
use sonos_manager::registry::Arrival;
use sonos_manager::types::{Event, Response, SpeakerInfo, Topology};
use sonos_manager::zoneaction::{Step, ZoneAction};

fn info(name: &str, uuid: &str) -> SpeakerInfo {
    SpeakerInfo::new(name.to_string(), uuid.to_string(), format!("http://{}/desc.xml", name))
}

fn arrival(uuid: &str, device: u32, worker: Option<u32>) -> Arrival<u32, u32> {
    Arrival { uuid: uuid.to_string(), device, transport_subscription: worker }
}

fn two_rooms() -> Topology {
    vec![("RINCON_X".to_string(), vec![info("Kitchen", "RINCON_X"), info("Bath", "RINCON_Y")])]
}

fn initialized() -> Controller<u32, u32> {
    let mut controller: Controller<u32, u32> = Controller::new(None);
    assert!(matches!(controller.init(), Request::Discover { seed: None, timeout_secs: 5 }));
    match controller.resume(Report::Discovered(Ok(Some(two_rooms())))) {
        Request::Build { missing } => assert_eq!(missing.len(), 2),
        other => panic!("unexpected request {:?}", other),
    }
    let built = vec![arrival("RINCON_X", 1, Some(11)), arrival("RINCON_Y", 2, Some(12))];
    match controller.resume(Report::Built(built)) {
        Request::SubscribeTopology { speaker } => assert!(speaker < 2),
        other => panic!("unexpected request {:?}", other),
    }
    assert!(matches!(controller.resume(Report::Subscribed(Ok(100))), Request::Done(Ok(()))));
    controller
}

#[test]
fn discovery_builds_registry_and_subscribes() {
    let controller = initialized();
    assert_eq!(controller.system.speakerdata.len(), 2);
    assert_eq!(controller.system.topology.len(), 1);
    assert_eq!(controller.system.topology_subscription, Some(100));
    assert!(matches!(controller.pending, Pending::Nothing));
    assert_eq!(controller.get_coordinator_for_name("bath").map(|s| s.uuid()), Some("RINCON_X"));
    assert_eq!(controller.get_coordinatordata_for_name("Bath").map(|r| r.device), Some(1));
    assert!(controller.get_coordinator_for_name("Hall").is_none());
}

#[test]
fn discovery_asks_for_the_seed_room() {
    let mut controller: Controller<u32, u32> = Controller::new(Some("Kitchen".to_string()));
    match controller.init() {
        Request::Discover { seed, timeout_secs } => {
            assert_eq!(seed.as_deref(), Some("Kitchen"));
            assert_eq!(timeout_secs, 5);
        }
        other => panic!("unexpected request {:?}", other),
    }
    assert!(matches!(
        controller.resume(Report::Discovered(Ok(None))),
        Request::Done(Err(ManagerError::ZoneDoesNotExist))
    ));
    assert!(controller.system.topology_subscription.is_none());
}

#[test]
fn discovery_errors_are_handed_on() {
    let mut controller: Controller<u32, u32> = Controller::new(None);
    controller.init();
    assert!(matches!(
        controller.resume(Report::Discovered(Err(ManagerError::ControllerOffline))),
        Request::Done(Err(ManagerError::ControllerOffline))
    ));
    controller.init();
    controller.resume(Report::Discovered(Ok(Some(two_rooms()))));
    assert!(matches!(
        controller.resume(Report::Built(Vec::new())),
        Request::Done(Err(ManagerError::ControllerNotInitialized))
    ));
    assert!(controller.system.speakerdata.is_empty());
    controller.init();
    controller.resume(Report::Discovered(Ok(Some(two_rooms()))));
    controller.resume(Report::Built(vec![arrival("RINCON_X", 1, None)]));
    assert!(matches!(
        controller.resume(Report::Subscribed(Err(ManagerError::MessageRecvError))),
        Request::Done(Err(ManagerError::MessageRecvError))
    ));
    assert!(controller.system.topology_subscription.is_none());
}

#[test]
fn report_that_was_not_asked_for_changes_nothing() {
    let mut controller = initialized();
    assert!(matches!(
        controller.resume(Report::Built(vec![arrival("RINCON_Q", 9, None)])),
        Request::Done(Err(ManagerError::ControllerNotInitialized))
    ));
    assert_eq!(controller.system.speakerdata.len(), 2);
    assert!(matches!(
        controller.resume(Report::Subscribed(Ok(5))),
        Request::Done(Err(ManagerError::ControllerNotInitialized))
    ));
    assert_eq!(controller.system.topology_subscription, Some(100));
}

#[test]
fn topology_event_updates_the_registry() {
    let mut controller = initialized();
    let changed: Topology = vec![
        ("RINCON_X".to_string(), vec![info("Cuisine", "RINCON_X")]),
        ("RINCON_Z".to_string(), vec![info("Den", "RINCON_Z")]),
    ];
    match controller.handle_event(Event::TopoUpdate(None, changed)) {
        Request::Build { missing } => {
            assert_eq!(missing.len(), 1);
            assert_eq!(missing[0].uuid(), "RINCON_Z");
        }
        other => panic!("unexpected request {:?}", other),
    }
    assert_eq!(controller.system.speakerdata.len(), 2);
    assert!(matches!(
        controller.resume(Report::Built(vec![arrival("RINCON_Z", 3, Some(13))])),
        Request::Done(Ok(()))
    ));
    let uuids: Vec<&str> = controller.system.speakerdata.iter().map(|r| r.speaker.uuid()).collect();
    assert_eq!(uuids, vec!["RINCON_X", "RINCON_Z"]);
    assert_eq!(controller.system.speakerdata[0].speaker.name(), "Cuisine");
    assert_eq!(controller.system.speakerdata[0].transport_subscription, Some(11));
    assert_eq!(controller.system.topology.len(), 2);
    assert_eq!(controller.system.topology_subscription, Some(100));
}

#[test]
fn transport_event_replaces_the_cache() {
    let mut controller = initialized();
    let data = vec![("TransportState".to_string(), "PLAYING".to_string())];
    assert!(matches!(
        controller.handle_event(Event::AVTransUpdate(Some("rincon_y".to_string()), data)),
        Request::Done(Ok(()))
    ));
    assert_eq!(controller.system.speakerdata[1].transport_data.len(), 1);
    assert!(controller.system.speakerdata[0].transport_data.is_empty());
}

#[test]
fn transport_event_for_unknown_speaker_changes_nothing() {
    let mut controller = initialized();
    let data = vec![("TransportState".to_string(), "PLAYING".to_string())];
    assert!(matches!(
        controller.handle_event(Event::AVTransUpdate(Some("RINCON_Q".to_string()), data.clone())),
        Request::Done(Ok(()))
    ));
    assert!(matches!(
        controller.handle_event(Event::AVTransUpdate(None, data)),
        Request::Done(Ok(()))
    ));
    assert_eq!(controller.system.speakerdata.len(), 2);
    assert!(controller.system.speakerdata.iter().all(|r| r.transport_data.is_empty()));
    assert_eq!(controller.system.topology_subscription, Some(100));
}

#[test]
fn lost_topology_subscription_is_replaced_or_given_up() {
    let mut controller = initialized();
    let lost = Event::SubscribeError(None, "ZoneGroupTopology".to_string());
    match controller.handle_event(lost.clone()) {
        Request::SubscribeTopology { speaker } => assert!(speaker < 2),
        other => panic!("unexpected request {:?}", other),
    }
    assert!(matches!(controller.resume(Report::Subscribed(Ok(200))), Request::Done(Ok(()))));
    assert_eq!(controller.system.topology_subscription, Some(200));
    assert!(matches!(controller.run(LoopInput::Begin), LoopAction::Await));

    controller.handle_event(lost);
    assert!(matches!(
        controller.resume(Report::Subscribed(Err(ManagerError::ControllerOffline))),
        Request::Done(Err(ManagerError::ControllerOffline))
    ));
    assert!(controller.system.topology_subscription.is_none());
    assert_eq!(controller.system.speakerdata.len(), 2);
    assert!(matches!(controller.run(LoopInput::Handled), LoopAction::Recover));
    assert!(matches!(controller.init(), Request::Discover { .. }));
    controller.resume(Report::Discovered(Ok(Some(two_rooms()))));
    controller.resume(Report::Built(Vec::new()));
    controller.resume(Report::Subscribed(Ok(300)));
    assert_eq!(controller.system.topology_subscription, Some(300));
    assert!(matches!(controller.run(LoopInput::Recovered(true)), LoopAction::Await));
}

#[test]
fn lost_topology_subscription_without_speakers() {
    let mut controller: Controller<u32, u32> = Controller::new(None);
    assert!(matches!(
        controller.handle_event(Event::SubscribeError(None, "ZoneGroupTopology".to_string())),
        Request::Done(Err(ManagerError::ControllerNotInitialized))
    ));
    assert!(controller.system.topology_subscription.is_none());
}

#[test]
fn lost_transport_subscription_rebuilds_the_speaker() {
    let mut controller = initialized();
    let lost = Event::SubscribeError(Some("rincon_y".to_string()), "AVTransport".to_string());
    assert!(matches!(controller.handle_event(lost.clone()), Request::Rebuild { speaker: 1 }));
    assert!(matches!(controller.resume(Report::Rebuilt(Some(Some(77)))), Request::Done(Ok(()))));
    assert_eq!(controller.system.speakerdata[1].transport_subscription, Some(77));
    assert_eq!(controller.system.speakerdata[0].transport_subscription, Some(11));

    controller.handle_event(lost.clone());
    controller.resume(Report::Rebuilt(Some(None)));
    assert_eq!(controller.system.speakerdata[1].transport_subscription, None);

    controller.handle_event(lost.clone());
    controller.resume(Report::Rebuilt(Some(Some(78))));
    controller.handle_event(lost);
    controller.resume(Report::Rebuilt(None));
    assert_eq!(controller.system.speakerdata[1].transport_subscription, None);
    assert_eq!(controller.system.speakerdata[1].device, 2);
}

#[test]
fn other_losses_are_passed_over() {
    let mut controller = initialized();
    for event in [
        Event::SubscribeError(Some("RINCON_Q".to_string()), "AVTransport".to_string()),
        Event::SubscribeError(None, "AVTransport".to_string()),
        Event::SubscribeError(Some("RINCON_X".to_string()), "RenderingControl".to_string()),
        Event::SubscribeError(Some("RINCON_X".to_string()), "avtransport".to_string()),
        Event::NoOp,
    ] {
        assert!(matches!(controller.handle_event(event), Request::Done(Ok(()))));
        assert!(matches!(controller.pending, Pending::Nothing));
    }
    assert_eq!(controller.system.topology_subscription, Some(100));
    assert_eq!(controller.system.speakerdata[0].transport_subscription, Some(11));
}

#[test]
fn recovery_delay() {
    assert_eq!(recovery_delay_ms(0), 1000);
    assert_eq!(recovery_delay_ms(1), 999);
    assert_eq!(recovery_delay_ms(999), 1);
    assert_eq!(recovery_delay_ms(1000), 0);
    assert_eq!(recovery_delay_ms(5000), 0);
    assert_eq!(recovery_delay_ms(u64::MAX), 0);
}

#[test]
fn failed_recovery_drains_then_sleeps() {
    let mut controller: Controller<u32, u32> = Controller::new(None);
    assert_eq!(controller.stage, LoopStage::Top);
    assert_eq!(controller.run(LoopInput::Begin), LoopAction::Recover);
    assert_eq!(controller.run(LoopInput::Recovered(false)), LoopAction::DrainCommands);
    assert_eq!(controller.run(LoopInput::CommandsDrained { closed: false }), LoopAction::DrainEvents);
    assert_eq!(controller.run(LoopInput::EventsDrained { elapsed_ms: 250 }), LoopAction::Sleep(750));
    assert_eq!(controller.stage, LoopStage::Pacing);
    assert_eq!(controller.run(LoopInput::Slept), LoopAction::Recover);
    assert_eq!(controller.run(LoopInput::Recovered(false)), LoopAction::DrainCommands);
    assert_eq!(controller.run(LoopInput::CommandsDrained { closed: true }), LoopAction::Exit);
    assert_eq!(controller.stage, LoopStage::Finished);
    assert_eq!(controller.run(LoopInput::Begin), LoopAction::Exit);
}

#[test]
fn command_during_recovery_is_answered() {
    let mut controller: Controller<u32, u32> = Controller::new(None);
    controller.run(LoopInput::Begin);
    assert_eq!(controller.run(LoopInput::Recovered(false)), LoopAction::DrainCommands);
    let action = ZoneAction::PlayNow(MediaSource::Spotify("track:abc".to_string()));
    assert!(matches!(
        action.handle_action(&controller.system, "Kitchen"),
        Step::Reply(Response::NotOk)
    ));

    let mut recovered = initialized();
    recovered.system.topology_subscription = None;
    recovered.run(LoopInput::Begin);
    assert_eq!(recovered.run(LoopInput::Recovered(false)), LoopAction::DrainCommands);
    let action = ZoneAction::PlayNow(MediaSource::Spotify("track:abc".to_string()));
    assert!(matches!(action.handle_action(&recovered.system, "Kitchen"), Step::Call(_, _)));
}

#[test]
fn loop_waits_and_ends_with_the_command_channel() {
    let mut controller = initialized();
    assert_eq!(controller.run(LoopInput::Begin), LoopAction::Await);
    assert_eq!(controller.stage, LoopStage::Waiting);
    assert_eq!(controller.run(LoopInput::Handled), LoopAction::Await);
    assert_eq!(controller.run(LoopInput::CommandsClosed), LoopAction::Exit);
    assert_eq!(controller.run(LoopInput::Handled), LoopAction::Exit);
}

#[test]
fn topology_speaker_is_one_of_the_known() {
    let controller = initialized();
    for _ in 0..50 {
        match controller.system.choose_topology_speaker() {
            Ok(i) => assert!(i < 2),
            Err(e) => panic!("unexpected error {:?}", e),
        }
    }
}
