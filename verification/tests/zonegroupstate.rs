use sonos_manager::error::ManagerError;
use sonos_manager::xml::parse;
use sonos_manager::zonegroupstate::{
    extract_zone_topology, find_last_attribute, find_node_attribute, speaker_info_from_xml,
    zone_topology_of,
};

const STATE: &str = r#"<ZoneGroupState><ZoneGroups><ZoneGroup Coordinator="RINCON_X" ID="RINCON_X:1"><ZoneGroupMember UUID="RINCON_X" Location="http://10.0.0.2:1400/xml/device_description.xml" ZoneName="Kitchen"><Satellite UUID="RINCON_S" Location="l" ZoneName="Sub"/></ZoneGroupMember>text<zonegroupmember uuid="RINCON_Y" location="http://10.0.0.3:1400/xml/device_description.xml" zonename="Bath" ZONENAME="Bathroom"/><Other/></ZoneGroup><ZoneGroup coordinator="RINCON_Z"/><VanishedDevices/></ZoneGroups></ZoneGroupState>"#;

#[test]
fn zone_groups_are_read_in_order() {
    let topology = extract_zone_topology(STATE).unwrap();
    assert_eq!(topology.len(), 2);
    assert_eq!(topology[0].0, "RINCON_X");
    assert_eq!(topology[0].1.len(), 2);
    assert_eq!(topology[0].1[0].name(), "Kitchen");
    assert_eq!(topology[0].1[0].uuid(), "RINCON_X");
    assert_eq!(topology[0].1[0].location(), "http://10.0.0.2:1400/xml/device_description.xml");
    assert_eq!(topology[0].1[1].name(), "Bathroom");
    assert_eq!(topology[0].1[1].uuid(), "RINCON_Y");
    assert_eq!(topology[1].0, "RINCON_Z");
    assert!(topology[1].1.is_empty());
    let nodes = parse(STATE).unwrap();
    assert_eq!(zone_topology_of(&nodes).unwrap().len(), 2);
}

#[test]
fn zone_group_state_errors() {
    for bad in [
        "",
        "<ZoneGroupState/>",
        "<ZoneGroups><ZoneGroup/></ZoneGroups>",
        r#"<ZoneGroups><ZoneGroup Coordinator="X"><ZoneGroupMember UUID="X" Location="l"/></ZoneGroup></ZoneGroups>"#,
        r#"<ZoneGroups><ZoneGroup Coordinator="X"><ZoneGroupMember ZoneName="n" Location="l"/></ZoneGroup></ZoneGroups>"#,
        r#"<ZoneGroups><ZoneGroup Coordinator="X"><ZoneGroupMember ZoneName="n" UUID="X"/></ZoneGroup></ZoneGroups>"#,
    ] {
        assert!(matches!(extract_zone_topology(bad), Err(ManagerError::Sonor(_))));
    }
    assert_eq!(extract_zone_topology("<ZoneGroups/>").unwrap().len(), 0);
}

#[test]
fn attributes_by_name() {
    let nodes = parse(r#"<m A="1" a="2" b="3"/>"#).unwrap();
    assert_eq!(find_node_attribute(&nodes[1], "a").map(|s| s.as_str()), Some("1"));
    assert_eq!(find_last_attribute(&nodes[1], "A").map(|s| s.as_str()), Some("2"));
    assert_eq!(find_last_attribute(&nodes[1], "B").map(|s| s.as_str()), Some("3"));
    assert!(find_node_attribute(&nodes[1], "c").is_none());
    assert!(find_last_attribute(&nodes[1], "c").is_none());
    assert!(matches!(speaker_info_from_xml(&nodes[1]), Err(ManagerError::Sonor(_))));
}
