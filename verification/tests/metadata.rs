use sonos_manager::metadata::{
    apple_uri_and_metadata, escape_str_pcdata, get_metadata, spotify_uri_and_metadata,
};

const SPOTIFY_TRACK_METADATA: &str = r#"<DIDL-Lite xmlns:dc="http://purl.org/dc/elements/1.1/" xmlns:upnp="urn:schemas-upnp-org:metadata-1-0/upnp/" xmlns:r="urn:schemas-rinconnetworks-com:metadata-1-0/" xmlns="urn:schemas-upnp-org:metadata-1-0/DIDL-Lite/"><item id="00030020spotify%3Atrack%3A4LI1ykYGFCcXPWkrpcU7hn" restricted="true" parentID=""><upnp:class>object.item.audioItem.musicTrack</upnp:class><desc id="cdudn" nameSpace="urn:schemas-rinconnetworks-com:metadata-1-0/">SA_RINCON3079_X_#Svc3079-0-Token</desc></item></DIDL-Lite>"#;

#[test]
fn test_apple_playlist() {
    let (uri, _meta) = apple_uri_and_metadata("album:1025210938").expect("Error");
    assert_eq!(uri, r"x-rincon-cpcontainer:0004206calbum%3A1025210938?sid=204");
}

#[test]
fn test_spotify_track() {
    let target_uri = "x-sonos-spotify:spotify%3Atrack%3A4LI1ykYGFCcXPWkrpcU7hn?sid=12";
    let target_metadata = SPOTIFY_TRACK_METADATA;
    let (uri, metadata) =
        spotify_uri_and_metadata(r"track:4LI1ykYGFCcXPWkrpcU7hn").expect("unable to parse item");
    assert_eq!(target_uri, uri);
    assert_eq!(target_metadata, metadata);
}

#[test]
fn test_apple_librarytrack() {
    let target_uri = "x-sonos-http:librarytrack%3Aa.1442979904.mp4?sid=204";
    let target_metadata = r#"<DIDL-Lite xmlns:dc="http://purl.org/dc/elements/1.1/" xmlns:upnp="urn:schemas-upnp-org:metadata-1-0/upnp/" xmlns:r="urn:schemas-rinconnetworks-com:metadata-1-0/" xmlns="urn:schemas-upnp-org:metadata-1-0/DIDL-Lite/"><item id="10032020librarytrack%3Aa.1442979904" restricted="true" parentID="1004206calbum%3A"><upnp:class>object.item.audioItem.musicTrack</upnp:class><desc id="cdudn" nameSpace="urn:schemas-rinconnetworks-com:metadata-1-0/">SA_RINCON52231_X_#Svc52231-0-Token</desc></item></DIDL-Lite>"#;
    let (uri, metadata) =
        apple_uri_and_metadata(r"librarytrack:a.1442979904").expect("unable to parse item");
    assert_eq!(target_uri, uri);
    assert_eq!(target_metadata, metadata);
}

#[test]
fn spotify_album_and_playlist() {
    let (uri, metadata) = spotify_uri_and_metadata("album:7DuJYWu66RPdcekF5TuZ7w").unwrap();
    assert_eq!(uri, "x-rincon-cpcontainer:0006206cspotify%3Aalbum%3A7DuJYWu66RPdcekF5TuZ7w?sid=12");
    assert!(metadata.contains(r#"<item id="0004206cspotify%3Aalbum%3A7DuJYWu66RPdcekF5TuZ7w" restricted="true" parentID="">"#));
    assert!(metadata.contains("<upnp:class>object.container.album.musicAlbum</upnp:class>"));
    let (uri, metadata) = spotify_uri_and_metadata("playlist:37i9dQZF1DX889U0CL85jj").unwrap();
    assert_eq!(
        uri,
        "x-rincon-cpcontainer:0006206cspotify%3Aplaylist%3A37i9dQZF1DX889U0CL85jj??sid=12"
    );
    assert!(metadata.contains(r#"<item id="0004206cspotify%3Aplaylist%3A37i9dQZF1DX889U0CL85jj""#));
    assert!(metadata.contains("<upnp:class>object.container.playlistContainer</upnp:class>"));
    assert!(metadata.contains("SA_RINCON3079_X_#Svc3079-0-Token"));
}

#[test]
fn spotify_rejects_other_kinds() {
    assert!(spotify_uri_and_metadata("show:abc").is_none());
    assert!(spotify_uri_and_metadata("track").is_none());
    assert!(spotify_uri_and_metadata("").is_none());
    assert!(spotify_uri_and_metadata("Track:abc").is_none());
}

#[test]
fn spotify_splits_at_first_colon() {
    let (uri, _) = spotify_uri_and_metadata("track:a:b").unwrap();
    assert_eq!(uri, "x-sonos-spotify:spotify%3Atrack%3Aa%3Ab?sid=12");
}

#[test]
fn apple_track_is_a_song() {
    let (uri, metadata) = apple_uri_and_metadata("track:1025212410").unwrap();
    assert_eq!(uri, "x-sonos-http:song%3A1025212410.mp4?sid=204");
    assert!(metadata.contains(r#"<item id="10032020song%3A1025212410" restricted="true" parentID="1004206calbum%3A">"#));
    let (same, _) = apple_uri_and_metadata("song:1025212410").unwrap();
    assert_eq!(same, uri);
}

#[test]
fn apple_albums_and_playlists() {
    let (uri, metadata) = apple_uri_and_metadata("libraryalbum:l.abc").unwrap();
    assert_eq!(uri, "x-rincon-cpcontainer:0004206clibraryalbum%3Al.abc?sid=204");
    assert!(metadata.contains(r#"<item id="0004206clibraryalbum%3Al.abc" restricted="true" parentID="00020000album%3A">"#));
    assert!(metadata.contains("<upnp:class>object.item.audioItem.musicAlbum</upnp:class>"));
    let (uri, metadata) = apple_uri_and_metadata("playlist:pl.cf589").unwrap();
    assert_eq!(uri, "x-rincon-cpcontainer:1006206cplaylist%3Apl.cf589?sid=204");
    assert!(metadata.contains(r#"<item id="1006206cplaylist%3Apl.cf589" restricted="true" parentID="00020000playlist%3A">"#));
    assert!(metadata.contains("<upnp:class>object.container.playlistContainer</upnp:class>"));
    assert!(metadata.contains("SA_RINCON52231_X_#Svc52231-0-Token"));
    let (uri, _) = apple_uri_and_metadata("libraryplaylist:p.1").unwrap();
    assert_eq!(uri, "x-rincon-cpcontainer:1006206clibraryplaylist%3Ap.1?sid=204");
}

#[test]
fn apple_rejects_other_kinds() {
    assert!(apple_uri_and_metadata("station:ra.1").is_none());
    assert!(apple_uri_and_metadata("album").is_none());
}

#[test]
fn identifiers_are_percent_encoded() {
    let (uri, _) = spotify_uri_and_metadata("track:a b/ü~-_.").unwrap();
    assert_eq!(uri, "x-sonos-spotify:spotify%3Atrack%3Aa%20b%2F%C3%BC~-_.?sid=12");
}

#[test]
fn metadata_template() {
    assert_eq!(
        get_metadata("I", "P", "C", "T"),
        r#"<DIDL-Lite xmlns:dc="http://purl.org/dc/elements/1.1/" xmlns:upnp="urn:schemas-upnp-org:metadata-1-0/upnp/" xmlns:r="urn:schemas-rinconnetworks-com:metadata-1-0/" xmlns="urn:schemas-upnp-org:metadata-1-0/DIDL-Lite/"><item id="I" restricted="true" parentID="P"><upnp:class>C</upnp:class><desc id="cdudn" nameSpace="urn:schemas-rinconnetworks-com:metadata-1-0/">T</desc></item></DIDL-Lite>"#
    );
}

#[test]
fn character_data_is_escaped() {
    assert_eq!(escape_str_pcdata("a<b>&c\"'"), "a&lt;b&gt;&amp;c\"'");
    assert_eq!(escape_str_pcdata(""), "");
    assert_eq!(escape_str_pcdata("plain ü"), "plain ü");
    let escaped = escape_str_pcdata(SPOTIFY_TRACK_METADATA);
    assert!(escaped.starts_with("&lt;DIDL-Lite xmlns:dc=\"http://purl.org/dc/elements/1.1/\""));
    assert!(!escaped.contains('<'));
    assert!(!escaped.contains('>'));
}
