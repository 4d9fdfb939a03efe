use sonos_manager::controller::System;
use sonos_manager::error::ManagerError;
use sonos_manager::registry::{
    apply_topology, find_by_name, find_by_uuid, has_speaker_named, missing_speakers,
    update_transport_data, Arrival, SpeakerData,
};
use sonos_manager::topology::{contains_speaker, coordinator_of, find_group, is_member, members_of};
use sonos_manager::types::{SpeakerInfo, Topology};

fn info(name: &str, uuid: &str) -> SpeakerInfo {
    SpeakerInfo::new(name.to_string(), uuid.to_string(), format!("http://{}/desc.xml", name))
}

fn arrival(uuid: &str, device: u32, worker: Option<u32>) -> Arrival<u32, u32> {
    Arrival { uuid: uuid.to_string(), device, transport_subscription: worker }
}

fn two_rooms() -> Topology {
    vec![("RINCON_X".to_string(), vec![info("Kitchen", "RINCON_X"), info("Bath", "RINCON_Y")])]
}

fn uuids(records: &Vec<SpeakerData<u32, u32>>) -> Vec<String> {
    records.iter().map(|r| r.speaker.uuid().to_string()).collect()
}

#[test]
fn topology_lookups_ignore_case() {
    let topology: Topology = vec![
        ("RINCON_A".to_string(), vec![info("Den", "RINCON_A")]),
        ("RINCON_X".to_string(), vec![info("Kitchen", "RINCON_X"), info("Bath", "RINCON_Y")]),
    ];
    assert_eq!(coordinator_of(&topology, "rincon_y").map(|s| s.as_str()), Some("RINCON_X"));
    assert_eq!(coordinator_of(&topology, "RINCON_X").map(|s| s.as_str()), Some("RINCON_X"));
    assert_eq!(coordinator_of(&topology, "Rincon_a").map(|s| s.as_str()), Some("RINCON_A"));
    assert!(coordinator_of(&topology, "RINCON_Z").is_none());
    assert_eq!(find_group(&topology, "RINCON_Y"), Some(1));
    assert_eq!(find_group(&topology, "nobody"), None);
    assert_eq!(members_of(&topology, "rincon_x").map(|m| m.len()), Some(2));
    assert!(members_of(&topology, "RINCON_Y").is_none());
    assert!(contains_speaker(&topology, "rincon_a"));
    assert!(!contains_speaker(&topology, "RINCON_"));
    assert!(is_member(&topology[1].1, "rincon_Y"));
    assert!(!is_member(&topology[0].1, "RINCON_Y"));
}

#[test]
fn speaker_identity_is_the_uuid() {
    let a = info("Kitchen", "RINCON_X");
    let b = info("Other", "rincon_x");
    let c = info("Kitchen", "RINCON_Y");
    assert!(a.same_speaker(&b));
    assert!(!a.same_speaker(&c));
    assert!(a == b);
    assert!(a != c);
    let d = a.duplicate();
    assert_eq!(d.name(), "Kitchen");
    assert_eq!(d.uuid(), "RINCON_X");
    assert_eq!(d.location(), "http://Kitchen/desc.xml");
}

#[test]
fn missing_speakers_are_listed_once() {
    let records: Vec<SpeakerData<u32, u32>> = vec![SpeakerData::new(info("Kitchen", "rincon_x"), 1)];
    let topology: Topology = vec![
        ("RINCON_X".to_string(), vec![info("Kitchen", "RINCON_X"), info("Bath", "RINCON_Y")]),
        ("RINCON_Z".to_string(), vec![info("Den", "RINCON_Z"), info("Bath again", "rincon_y")]),
    ];
    let missing = missing_speakers(&records, &topology);
    let names: Vec<&str> = missing.iter().map(|i| i.uuid()).collect();
    assert_eq!(names, vec!["RINCON_Y", "RINCON_Z"]);
}

#[test]
fn registry_matches_topology_after_every_update() {
    let mut records: Vec<SpeakerData<u32, u32>> = Vec::new();
    let first = two_rooms();
    let missing = missing_speakers(&records, &first);
    assert_eq!(missing.len(), 2);
    apply_topology(
        &mut records,
        &first,
        vec![arrival("RINCON_X", 10, Some(1)), arrival("RINCON_Y", 20, None)],
    );
    assert_eq!(uuids(&records), vec!["RINCON_X", "RINCON_Y"]);
    assert_eq!(records[0].device, 10);
    assert_eq!(records[0].transport_subscription, Some(1));
    assert_eq!(records[1].transport_subscription, None);
    assert!(records[0].transport_data.is_empty());

    let second: Topology = vec![
        ("RINCON_Y".to_string(), vec![info("Bathroom", "rincon_y")]),
        ("RINCON_Z".to_string(), vec![info("Den", "RINCON_Z")]),
    ];
    apply_topology(&mut records, &second, vec![arrival("rincon_z", 30, Some(3))]);
    assert_eq!(uuids(&records), vec!["RINCON_Y", "RINCON_Z"]);
    assert_eq!(records[0].speaker.name(), "Bathroom");
    assert_eq!(records[0].speaker.location(), "http://Bathroom/desc.xml");
    assert_eq!(records[0].device, 20);
    assert_eq!(records[1].device, 30);
    assert!(find_by_uuid(&records, "RINCON_X").is_none());
}

#[test]
fn removed_speaker_leaves_the_registry() {
    let mut records: Vec<SpeakerData<u32, u32>> = Vec::new();
    apply_topology(
        &mut records,
        &two_rooms(),
        vec![arrival("RINCON_X", 10, Some(1)), arrival("RINCON_Y", 20, Some(2))],
    );
    let without_y: Topology = vec![("RINCON_X".to_string(), vec![info("Kitchen", "RINCON_X")])];
    apply_topology(&mut records, &without_y, Vec::new());
    assert_eq!(uuids(&records), vec!["RINCON_X"]);
    assert_eq!(records[0].transport_subscription, Some(1));
    assert!(find_by_uuid(&records, "rincon_y").is_none());
}

#[test]
fn speaker_that_cannot_be_built_is_passed_over() {
    let mut records: Vec<SpeakerData<u32, u32>> = Vec::new();
    apply_topology(&mut records, &two_rooms(), vec![arrival("RINCON_Y", 20, None)]);
    assert_eq!(uuids(&records), vec!["RINCON_Y"]);
}

#[test]
fn arrivals_nobody_asked_for_are_dropped() {
    let mut records: Vec<SpeakerData<u32, u32>> = Vec::new();
    apply_topology(
        &mut records,
        &two_rooms(),
        vec![
            arrival("RINCON_Q", 1, None),
            arrival("RINCON_X", 10, None),
            arrival("rincon_x", 11, None),
            arrival("RINCON_Y", 20, None),
        ],
    );
    assert_eq!(uuids(&records), vec!["RINCON_X", "RINCON_Y"]);
    assert_eq!(records[0].device, 10);
}

#[test]
fn lookups_by_name_and_uuid() {
    let mut records: Vec<SpeakerData<u32, u32>> = Vec::new();
    apply_topology(
        &mut records,
        &two_rooms(),
        vec![arrival("RINCON_X", 10, None), arrival("RINCON_Y", 20, None)],
    );
    assert_eq!(find_by_name(&records, "kitchen"), Some(0));
    assert_eq!(find_by_name(&records, "BATH"), Some(1));
    assert_eq!(find_by_name(&records, "Hall"), None);
    assert_eq!(find_by_uuid(&records, "rincon_y"), Some(1));
    assert!(has_speaker_named(&records, "Kitchen"));
    assert!(!has_speaker_named(&records, "kitchen"));
}

#[test]
fn transport_data_is_replaced() {
    let mut records: Vec<SpeakerData<u32, u32>> = Vec::new();
    apply_topology(
        &mut records,
        &two_rooms(),
        vec![arrival("RINCON_X", 10, None), arrival("RINCON_Y", 20, None)],
    );
    let data = vec![("CurrentTrack".to_string(), "3".to_string())];
    assert!(update_transport_data(&mut records, "rincon_y", data));
    assert_eq!(records[1].transport_data, vec![("CurrentTrack".to_string(), "3".to_string())]);
    assert!(records[0].transport_data.is_empty());
    assert!(!update_transport_data(&mut records, "RINCON_Z", vec![("a".to_string(), "b".to_string())]));
    assert_eq!(records.len(), 2);
    assert!(records[0].transport_data.is_empty());
    assert_eq!(records[1].transport_data.len(), 1);
}

#[test]
fn cached_track_number() {
    let mut record: SpeakerData<u32, u32> = SpeakerData::new(info("Kitchen", "RINCON_X"), 1);
    assert!(record.get_current_track_no().is_none());
    record.transport_data = vec![
        ("TransportState".to_string(), "PLAYING".to_string()),
        ("currenttrack".to_string(), "7".to_string()),
        ("CurrentTrack".to_string(), "9".to_string()),
    ];
    assert!(matches!(record.get_current_track_no(), Some(Ok(7))));
    record.transport_data = vec![("CurrentTrack".to_string(), "+12".to_string())];
    assert!(matches!(record.get_current_track_no(), Some(Ok(12))));
    record.transport_data = vec![("CurrentTrack".to_string(), "4294967295".to_string())];
    assert!(matches!(record.get_current_track_no(), Some(Ok(4294967295))));
    for bad in ["", "x", " 1", "1 ", "-1", "4294967296", "+", "1_0"] {
        record.transport_data = vec![("CurrentTrack".to_string(), bad.to_string())];
        assert!(matches!(record.get_current_track_no(), Some(Err(ManagerError::ContentNotFound))));
    }
}

#[test]
fn system_coordinator_lookups() {
    let mut system: System<u32, u32> = System::new(None);
    system.update_from_topology(
        two_rooms(),
        vec![arrival("RINCON_X", 10, None), arrival("RINCON_Y", 20, None)],
    );
    assert_eq!(system.coordinator_index_for_name("bath"), Some(0));
    assert_eq!(system.coordinator_index_for_name("Kitchen"), Some(0));
    assert_eq!(system.coordinator_index_for_name("Hall"), None);
    assert_eq!(system.coordinator_index_for_uuid("rincon_y"), Some(0));
    assert_eq!(system.get_speaker_with_name("BATH"), Some(1));
    assert_eq!(system.get_speaker_by_uuid("rincon_x"), Some(0));
    let names: Vec<&str> = system.speakers().iter().map(|s| s.name()).collect();
    assert_eq!(names, vec!["Kitchen", "Bath"]);
    assert_eq!(system.missing_speakers(&two_rooms()).len(), 0);
}

#[test]
fn error_messages() {
    assert_eq!(
        ManagerError::SubscriberError("No service defined!".to_string()).message(),
        "Error in event subscription: No service defined!"
    );
    assert_eq!(ManagerError::ControllerOffline.message(), "Controller has shut down.");
    assert_eq!(ManagerError::MessageRecvError.message(), "Controller has dropped the response sender");
    assert_eq!(ManagerError::ControllerNotInitialized.message(), "Controller not initialized");
    assert_eq!(ManagerError::ZoneDoesNotExist.message(), "The requested zone name is not valid");
    assert_eq!(ManagerError::ZoneActionError.message(), "Error encountered performing zone action");
    assert_eq!(ManagerError::ContentNotFound.message(), "Could not find the requested content");
    assert_eq!(
        ManagerError::Sonor(sonor::Error::SpeakerNotIncludedInOwnZoneGroupState).message(),
        "asked for zone group state but the speaker doesn't seem to be included there"
    );
}
