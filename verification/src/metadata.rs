//! The address and the description of an item of a music service, made up
//! from the item's kind and identifier.

use vstd::prelude::*;
use vstd::string::StringExecFns;
use vstd::utf8::encode_utf8;
use crate::text::{push_char, split_at_first, split_once, str_eq};

verus! {

/// The text by which a character stands in character data: `&`, `<` and `>`
/// are written as entities, every other character as itself.
pub open spec fn escaped_char(c: char) -> Seq<char> {
    if c == '&' {
        "&amp;"@
    } else if c == '<' {
        "&lt;"@
    } else if c == '>' {
        "&gt;"@
    } else {
        seq![c]
    }
}

/// A text as it stands in the character data of an XML document.
pub open spec fn escaped(s: Seq<char>) -> Seq<char>
    decreases s.len(),
{
    if s.len() == 0 {
        Seq::empty()
    } else {
        escaped(s.drop_last()) + escaped_char(s.last())
    }
}

/// Escapes a text for the character data of an XML document.
pub fn escape_str_pcdata(s: &str) -> (r: String)
    ensures
        r@ == escaped(s@),
{
    let mut out = String::new();
    for c in it: s.chars()
        invariant
            it.seq() == s@,
            out@ == escaped(s@.take(it.index())),
    {
        proof {
            let i = it.index();
            assert(s@.take(i + 1).drop_last() =~= s@.take(i));
            assert(s@.take(i + 1).last() == c);
        }
        if c == '&' {
            out.append("&amp;");
        } else if c == '<' {
            out.append("&lt;");
        } else if c == '>' {
            out.append("&gt;");
        } else {
            push_char(&mut out, c);
        }
    }
    proof {
        assert(s@.take(s@.len() as int) =~= s@);
    }
    out
}

/// True for the bytes that stand for themselves in an encoded address: the
/// ASCII letters and digits, `-`, `.`, `_` and `~`.
pub open spec fn is_unreserved(b: u8) -> bool {
    ||| 0x30 <= b <= 0x39
    ||| 0x41 <= b <= 0x5a
    ||| 0x61 <= b <= 0x7a
    ||| b == 0x2d
    ||| b == 0x2e
    ||| b == 0x5f
    ||| b == 0x7e
}

/// The upper-case hexadecimal digit of a number below sixteen.
pub open spec fn hex_digit(n: u8) -> char {
    if n < 10 {
        (0x30 + n) as char
    } else {
        (0x41 + n - 10) as char
    }
}

/// How one byte is written in an encoded address: as itself where it is
/// unreserved, else as `%` and its two hexadecimal digits.
pub open spec fn encoded_byte(b: u8) -> Seq<char> {
    if is_unreserved(b) {
        seq![b as char]
    } else {
        seq!['%', hex_digit(b / 16), hex_digit(b % 16)]
    }
}

/// The percent-encoding of a sequence of bytes.
pub open spec fn percent_encoded(bytes: Seq<u8>) -> Seq<char>
    decreases bytes.len(),
{
    if bytes.len() == 0 {
        Seq::empty()
    } else {
        percent_encoded(bytes.drop_last()) + encoded_byte(bytes.last())
    }
}

/// The percent-encoding of a text: that of its UTF-8 bytes.
pub open spec fn url_encoded(text: Seq<char>) -> Seq<char> {
    percent_encoded(encode_utf8(text))
}

/// `urlencoding::encode`: every byte of the text's UTF-8 form is
/// percent-encoded, except the ASCII letters and digits, `-`, `.`, `_`, `~`.
#[verifier::external_body]
fn encode(data: &str) -> (r: String)
    ensures
        r@ == url_encoded(data@),
{
    urlencoding::encode(data).into_owned()
}

/// The description that goes with an address: a DIDL-Lite document with
/// one item, of the given identifier, parent, class and service token.
pub open spec fn didl_lite(
    id: Seq<char>,
    parent_id: Seq<char>,
    upnp_class: Seq<char>,
    cdudn: Seq<char>,
) -> Seq<char> {
    "<DIDL-Lite xmlns:dc=\"http://purl.org/dc/elements/1.1/\" xmlns:upnp=\"urn:schemas-upnp-org:metadata-1-0/upnp/\" xmlns:r=\"urn:schemas-rinconnetworks-com:metadata-1-0/\" xmlns=\"urn:schemas-upnp-org:metadata-1-0/DIDL-Lite/\"><item id=\""@
        + id + "\" restricted=\"true\" parentID=\""@ + parent_id + "\"><upnp:class>"@ + upnp_class
        + "</upnp:class><desc id=\"cdudn\" nameSpace=\"urn:schemas-rinconnetworks-com:metadata-1-0/\">"@
        + cdudn + "</desc></item></DIDL-Lite>"@
}

/// The token by which a music service of the given region is named.
pub open spec fn service_token(region: Seq<char>) -> Seq<char> {
    "SA_RINCON"@ + region + "_X_#Svc"@ + region + "-0-Token"@
}

/// The DIDL-Lite document that describes an item.
pub fn get_metadata(id: &str, parent_id: &str, upnp_class: &str, cdudn: &str) -> (r: String)
    ensures
        r@ == didl_lite(id@, parent_id@, upnp_class@, cdudn@),
{
    String::from_str(
        "<DIDL-Lite xmlns:dc=\"http://purl.org/dc/elements/1.1/\" xmlns:upnp=\"urn:schemas-upnp-org:metadata-1-0/upnp/\" xmlns:r=\"urn:schemas-rinconnetworks-com:metadata-1-0/\" xmlns=\"urn:schemas-upnp-org:metadata-1-0/DIDL-Lite/\"><item id=\"",
    ).concat(id).concat("\" restricted=\"true\" parentID=\"").concat(parent_id).concat(
        "\"><upnp:class>",
    ).concat(upnp_class).concat(
        "</upnp:class><desc id=\"cdudn\" nameSpace=\"urn:schemas-rinconnetworks-com:metadata-1-0/\">",
    ).concat(cdudn).concat("</desc></item></DIDL-Lite>")
}

/// The service token of a region.
fn token_for(region: &str) -> (r: String)
    ensures
        r@ == service_token(region@),
{
    String::from_str("SA_RINCON").concat(region).concat("_X_#Svc").concat(region).concat("-0-Token")
}

/// Two texts in a row.
fn join2(a: &str, b: &str) -> (r: String)
    ensures
        r@ == a@ + b@,
{
    String::from_str(a).concat(b)
}

/// Three texts in a row.
fn join3(a: &str, b: &str, c: &str) -> (r: String)
    ensures
        r@ == a@ + b@ + c@,
{
    String::from_str(a).concat(b).concat(c)
}

/// The region token of Spotify.
pub open spec fn spotify_region() -> Seq<char> {
    "3079"@
}

/// The region token of Apple Music.
pub open spec fn apple_region() -> Seq<char> {
    "52231"@
}

/// The address and the description of a Spotify item, written `kind:id`.
/// Albums, tracks and playlists have one; an item of another kind, or one
/// without a colon, has none.
pub open spec fn spotify_media(item: Seq<char>) -> Option<(Seq<char>, Seq<char>)> {
    match split_at_first(item, ':') {
        None => None,
        Some((kind, _)) => {
            let enc = url_encoded("spotify:"@ + item);
            let token = service_token(spotify_region());
            if kind == "album"@ {
                Some(
                    (
                        "x-rincon-cpcontainer:0006206c"@ + enc + "?sid=12"@,
                        didl_lite(
                            "0004206c"@ + enc,
                            ""@,
                            "object.container.album.musicAlbum"@,
                            token,
                        ),
                    ),
                )
            } else if kind == "track"@ {
                Some(
                    (
                        "x-sonos-spotify:"@ + enc + "?sid=12"@,
                        didl_lite(
                            "00030020"@ + enc,
                            ""@,
                            "object.item.audioItem.musicTrack"@,
                            token,
                        ),
                    ),
                )
            } else if kind == "playlist"@ {
                Some(
                    (
                        "x-rincon-cpcontainer:0006206c"@ + enc + "??sid=12"@,
                        didl_lite(
                            "0004206c"@ + enc,
                            ""@,
                            "object.container.playlistContainer"@,
                            token,
                        ),
                    ),
                )
            } else {
                None
            }
        },
    }
}

/// The kind under which Apple Music knows an item: a `track` is a `song`.
pub open spec fn apple_kind(kind: Seq<char>) -> Seq<char> {
    if kind == "track"@ {
        "song"@
    } else {
        kind
    }
}

/// The address and the description of an Apple Music item, written
/// `kind:id`. Albums, songs and playlists, of the catalogue or of the
/// library, have one; an item of another kind, or one without a colon, has
/// none.
pub open spec fn apple_media(item: Seq<char>) -> Option<(Seq<char>, Seq<char>)> {
    match split_at_first(item, ':') {
        None => None,
        Some((given, id)) => {
            let kind = apple_kind(given);
            let enc = url_encoded(kind + ":"@ + id);
            let token = service_token(apple_region());
            if kind == "album"@ || kind == "libraryalbum"@ {
                Some(
                    (
                        "x-rincon-cpcontainer:0004206c"@ + enc + "?sid=204"@,
                        didl_lite(
                            "0004206c"@ + enc,
                            "00020000album%3A"@,
                            "object.item.audioItem.musicAlbum"@,
                            token,
                        ),
                    ),
                )
            } else if kind == "song"@ || kind == "librarytrack"@ {
                Some(
                    (
                        "x-sonos-http:"@ + enc + ".mp4?sid=204"@,
                        didl_lite(
                            "10032020"@ + enc,
                            "1004206calbum%3A"@,
                            "object.item.audioItem.musicTrack"@,
                            token,
                        ),
                    ),
                )
            } else if kind == "playlist"@ || kind == "libraryplaylist"@ {
                Some(
                    (
                        "x-rincon-cpcontainer:1006206c"@ + enc + "?sid=204"@,
                        didl_lite(
                            "1006206c"@ + enc,
                            "00020000playlist%3A"@,
                            "object.container.playlistContainer"@,
                            token,
                        ),
                    ),
                )
            } else {
                None
            }
        },
    }
}

/// The address and the description of a Spotify item, written `kind:id`.
pub fn spotify_uri_and_metadata(item: &str) -> (r: Option<(String, String)>)
    ensures
        r.deep_view() == spotify_media(item@),
{
    let (kind, _id) = match split_once(item, ':') {
        Some(parts) => parts,
        None => { return None; },
    };
    let plain = join2("spotify:", item);
    let enc = encode(plain.as_str());
    let token = token_for("3079");
    if str_eq(kind, "album") {
        let id = join2("0004206c", enc.as_str());
        Some(
            (
                join3("x-rincon-cpcontainer:0006206c", enc.as_str(), "?sid=12"),
                get_metadata(id.as_str(), "", "object.container.album.musicAlbum", token.as_str()),
            ),
        )
    } else if str_eq(kind, "track") {
        let id = join2("00030020", enc.as_str());
        Some(
            (
                join3("x-sonos-spotify:", enc.as_str(), "?sid=12"),
                get_metadata(id.as_str(), "", "object.item.audioItem.musicTrack", token.as_str()),
            ),
        )
    } else if str_eq(kind, "playlist") {
        let id = join2("0004206c", enc.as_str());
        Some(
            (
                join3("x-rincon-cpcontainer:0006206c", enc.as_str(), "??sid=12"),
                get_metadata(id.as_str(), "", "object.container.playlistContainer", token.as_str()),
            ),
        )
    } else {
        None
    }
}

/// The address and the description of an Apple Music item, written `kind:id`.
pub fn apple_uri_and_metadata(item: &str) -> (r: Option<(String, String)>)
    ensures
        r.deep_view() == apple_media(item@),
{
    let (given, id) = match split_once(item, ':') {
        Some(parts) => parts,
        None => { return None; },
    };
    let kind = if str_eq(given, "track") {
        "song"
    } else {
        given
    };
    let plain = join3(kind, ":", id);
    let enc = encode(plain.as_str());
    let token = token_for("52231");
    if str_eq(kind, "album") || str_eq(kind, "libraryalbum") {
        let id = join2("0004206c", enc.as_str());
        Some(
            (
                join3("x-rincon-cpcontainer:0004206c", enc.as_str(), "?sid=204"),
                get_metadata(
                    id.as_str(),
                    "00020000album%3A",
                    "object.item.audioItem.musicAlbum",
                    token.as_str(),
                ),
            ),
        )
    } else if str_eq(kind, "song") || str_eq(kind, "librarytrack") {
        let id = join2("10032020", enc.as_str());
        Some(
            (
                join3("x-sonos-http:", enc.as_str(), ".mp4?sid=204"),
                get_metadata(
                    id.as_str(),
                    "1004206calbum%3A",
                    "object.item.audioItem.musicTrack",
                    token.as_str(),
                ),
            ),
        )
    } else if str_eq(kind, "playlist") || str_eq(kind, "libraryplaylist") {
        let id = join2("1006206c", enc.as_str());
        Some(
            (
                join3("x-rincon-cpcontainer:1006206c", enc.as_str(), "?sid=204"),
                get_metadata(
                    id.as_str(),
                    "00020000playlist%3A",
                    "object.container.playlistContainer",
                    token.as_str(),
                ),
            ),
        )
    } else {
        None
    }
}

} // verus!
