use sonos_manager::content::{browse_result, contents_of, Content};
use sonos_manager::error::ManagerError;
use sonos_manager::utils::{extract_av_transport_last_change, last_change_of};
use sonos_manager::xml::{attribute, find_element_child, find_root_node, parse, text_of_child};

const LISTING: &str = r#"<DIDL-Lite xmlns:dc="http://purl.org/dc/elements/1.1/" xmlns:upnp="urn:schemas-upnp-org:metadata-1-0/upnp/" xmlns:r="urn:schemas-rinconnetworks-com:metadata-1-0/" xmlns="urn:schemas-upnp-org:metadata-1-0/DIDL-Lite/"><container id="SQ:7" parentID="SQ:"><dc:title>Cars 1, 2, 3</dc:title><res protocolInfo="file:*:audio/mpegurl:*">file:///jffs/settings/savedqueues.rsq#7</res><upnp:class>object.container.playlistContainer</upnp:class><upnp:albumArtURI>/getaa?u=1</upnp:albumArtURI><upnp:albumArtURI>/getaa?u=2</upnp:albumArtURI></container><!-- between --><item id="FV:2/3"><dc:title>Radio &amp; more</dc:title><dc:creator/><res></res><r:resMD>&lt;DIDL-Lite&gt;x&lt;/DIDL-Lite&gt;</r:resMD></item></DIDL-Lite>"#;

#[test]
fn content_getters() {
    let content = Content::new(
        "Title".to_string(),
        Some("Creator".to_string()),
        None,
        Some("uri".to_string()),
        Some("meta".to_string()),
    );
    assert_eq!(content.title(), "Title");
    assert_eq!(content.creator().map(|s| s.as_str()), Some("Creator"));
    assert!(content.album_art_uri().is_none());
    assert_eq!(content.uri().map(|s| s.as_str()), Some("uri"));
    assert_eq!(content.metadata().map(|s| s.as_str()), Some("meta"));
}

#[test]
fn listing_is_read_item_by_item() {
    let items = browse_result(LISTING).unwrap();
    assert_eq!(items.len(), 2);
    assert_eq!(items[0].title(), "Cars 1, 2, 3");
    assert!(items[0].creator().is_none());
    assert_eq!(items[0].uri().map(|s| s.as_str()), Some("file:///jffs/settings/savedqueues.rsq#7"));
    assert_eq!(items[0].album_art_uri().map(|s| s.as_str()), Some("/getaa?u=2"));
    assert!(items[0].metadata().is_none());
    assert_eq!(items[1].title(), "Radio & more");
    assert_eq!(items[1].creator().map(|s| s.as_str()), Some(""));
    assert_eq!(items[1].uri().map(|s| s.as_str()), Some(""));
    assert_eq!(items[1].metadata().map(|s| s.as_str()), Some("<DIDL-Lite>x</DIDL-Lite>"));
}

#[test]
fn item_without_title_is_an_error() {
    let nodes = parse("<DIDL-Lite><item><res>x</res></item></DIDL-Lite>").unwrap();
    let item = find_root_node(&nodes, "ITEM").unwrap();
    assert!(matches!(Content::from_xml(&nodes, item), Err(ManagerError::Sonor(_))));
    assert!(matches!(contents_of(&nodes), Err(ManagerError::Sonor(_))));
    assert!(matches!(
        browse_result("<DIDL-Lite><item><title>a</title></item><item/></DIDL-Lite>"),
        Err(ManagerError::Sonor(_))
    ));
    assert!(matches!(browse_result("not xml"), Err(ManagerError::Sonor(_))));
    assert_eq!(browse_result("<DIDL-Lite/>").unwrap().len(), 0);
}

#[test]
fn content_from_one_element() {
    let nodes = parse("<r><item><title>One</title><title>Two</title><x><title>Deep</title></x></item></r>").unwrap();
    let item = find_root_node(&nodes, "item").unwrap();
    let content = Content::from_xml(&nodes, item).unwrap();
    assert_eq!(content.title(), "Two");
    assert!(content.uri().is_none());
}

#[test]
fn nodes_of_a_document() {
    let nodes = parse(r#"<a x="1" xmlns:n="urn:n" n:x="2"><b>text</b><!--c--><B y="3"/>tail</a>"#).unwrap();
    assert_eq!(nodes.len(), 7);
    assert!(nodes[0].parent.is_none());
    assert!(!nodes[0].element);
    assert_eq!(nodes[0].tag, "");
    assert_eq!(nodes[1].parent, Some(0));
    assert!(nodes[1].element);
    assert_eq!(nodes[1].tag, "a");
    assert_eq!(nodes[1].attributes.len(), 2);
    assert_eq!(nodes[1].attributes[1].namespace.as_deref(), Some("urn:n"));
    assert_eq!(nodes[1].attributes[1].name, "x");
    assert_eq!(nodes[1].attributes[1].value, "2");
    assert_eq!(attribute(&nodes[1], "x").map(|s| s.as_str()), Some("1"));
    assert!(attribute(&nodes[1], "X").is_none());
    assert_eq!(nodes[2].tag, "b");
    assert_eq!(nodes[2].parent, Some(1));
    assert_eq!(nodes[2].text.as_deref(), Some("text"));
    assert!(!nodes[3].element);
    assert_eq!(nodes[3].parent, Some(2));
    assert_eq!(nodes[3].text.as_deref(), Some("text"));
    assert!(!nodes[4].element);
    assert_eq!(nodes[4].text.as_deref(), Some("c"));
    assert_eq!(nodes[5].tag, "B");
    assert!(nodes[5].text.is_none());
    assert_eq!(nodes[6].text.as_deref(), Some("tail"));
    assert_eq!(find_root_node(&nodes, "B"), Some(2));
    assert_eq!(find_root_node(&nodes, "c"), None);
    assert_eq!(find_element_child(&nodes, 0), Some(1));
    assert_eq!(find_element_child(&nodes, 1), Some(2));
    assert_eq!(find_element_child(&nodes, 2), None);
    assert_eq!(text_of_child(&nodes, 1, "b").as_deref(), Some("text"));
    assert_eq!(text_of_child(&nodes, 1, "B").as_deref(), Some(""));
    assert!(text_of_child(&nodes, 1, "c").is_none());
    assert!(matches!(parse("<a>"), Err(ManagerError::Sonor(_))));
}

#[test]
fn last_change_values() {
    let xml = r#"<Event xmlns="urn:schemas-upnp-org:metadata-1-0/AVT/"><InstanceID val="0"><TransportState val="PLAYING"/><CurrentTrack val="3" other="x"/>text<AVTransportURI xmlns:n="urn:n" n:val="no"/><Nested val="1"><Inner val="2"/></Nested></InstanceID><After val="9"/></Event>"#;
    let values = extract_av_transport_last_change(xml).unwrap();
    assert_eq!(
        values,
        vec![
            ("TransportState".to_string(), "PLAYING".to_string()),
            ("CurrentTrack".to_string(), "3".to_string()),
            ("AVTransportURI".to_string(), "".to_string()),
            ("Nested".to_string(), "1".to_string()),
        ]
    );
    let nodes = parse(xml).unwrap();
    assert_eq!(last_change_of(&nodes).unwrap(), values);
}

#[test]
fn last_change_root_is_found_without_regard_to_case() {
    let values =
        extract_av_transport_last_change(r#"<e><instanceid><A val="1"/></instanceid></e>"#).unwrap();
    assert_eq!(values, vec![("A".to_string(), "1".to_string())]);
    assert_eq!(extract_av_transport_last_change("<InstanceID/>").unwrap().len(), 0);
}

#[test]
fn last_change_errors() {
    assert!(matches!(
        extract_av_transport_last_change("<Event><Other/></Event>"),
        Err(ManagerError::Sonor(sonor::Error::UPnP(_)))
    ));
    assert!(matches!(
        extract_av_transport_last_change("<Event>"),
        Err(ManagerError::Sonor(sonor::Error::Xml(_)))
    ));
    assert!(matches!(
        extract_av_transport_last_change(""),
        Err(ManagerError::Sonor(sonor::Error::Xml(_)))
    ));
}
