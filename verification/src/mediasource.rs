//! What can be played and queued: an item of a music service, or a playlist
//! or favorite that the speakers keep themselves.

use vstd::prelude::*;
use crate::content::{Content, ContentView};
use crate::metadata::{apple_media, apple_uri_and_metadata, spotify_media, spotify_uri_and_metadata};
use crate::search::{first_index, is_first, lemma_first_absent, lemma_first_found};
use crate::text::{eq_ignore_ascii_case, same_ignoring_case};

verus! {

/// Media that can be played and queued.
#[derive(Debug)]
pub enum MediaSource {
    /// An item of Apple Music, written `kind:id`.
    Apple(String),
    /// An item of Spotify, written `kind:id`.
    Spotify(String),
    /// A playlist kept by the speakers, by its title.
    SonosPlaylist(String),
    /// A favorite kept by the speakers, by its title.
    SonosFavorite(String),
}

/// The mathematical value of a [`MediaSource`].
pub enum MediaSourceView {
    Apple(Seq<char>),
    Spotify(Seq<char>),
    SonosPlaylist(Seq<char>),
    SonosFavorite(Seq<char>),
}

impl View for MediaSource {
    type V = MediaSourceView;

    open spec fn view(&self) -> MediaSourceView {
        match self {
            MediaSource::Apple(item) => MediaSourceView::Apple(item@),
            MediaSource::Spotify(item) => MediaSourceView::Spotify(item@),
            MediaSource::SonosPlaylist(title) => MediaSourceView::SonosPlaylist(title@),
            MediaSource::SonosFavorite(title) => MediaSourceView::SonosFavorite(title@),
        }
    }
}

/// The container of the content directory that lists the playlists.
pub open spec fn playlist_container() -> Seq<char> {
    "SQ:"@
}

/// The container of the content directory that lists the favorites.
pub open spec fn favorite_container() -> Seq<char> {
    "FV:2"@
}

/// The container that has to be listed before the media can be resolved:
/// none for the items of a music service.
pub open spec fn container_of(media: MediaSourceView) -> Option<Seq<char>> {
    match media {
        MediaSourceView::SonosPlaylist(_) => Some(playlist_container()),
        MediaSourceView::SonosFavorite(_) => Some(favorite_container()),
        _ => None,
    }
}

/// The condition "is the item with this title", titles compared without
/// regard to case.
pub open spec fn has_title(title: Seq<char>) -> spec_fn(ContentView) -> bool {
    |content: ContentView| same_ignoring_case(content.title, title)
}

/// The address and the description under which the media is played: those
/// of the service item, or those of the first listed item with the title.
/// A playlist is played with an empty description, a favorite with its own;
/// an item without an address, and a favorite without a description, cannot
/// be played.
pub open spec fn media_of(media: MediaSourceView, listed: Seq<ContentView>) -> Option<
    (Seq<char>, Seq<char>),
> {
    match media {
        MediaSourceView::Apple(item) => apple_media(item),
        MediaSourceView::Spotify(item) => spotify_media(item),
        MediaSourceView::SonosPlaylist(title) => match first_index(listed, has_title(title)) {
            Some(i) => match listed[i].uri {
                Some(uri) => Some((uri, Seq::empty())),
                None => None,
            },
            None => None,
        },
        MediaSourceView::SonosFavorite(title) => match first_index(listed, has_title(title)) {
            Some(i) => match (listed[i].uri, listed[i].metadata) {
                (Some(uri), Some(metadata)) => Some((uri, metadata)),
                _ => None,
            },
            None => None,
        },
    }
}

/// The first listed item with this title.
pub fn find_titled<'a>(listed: &'a Vec<Content>, title: &str) -> (r: Option<&'a Content>)
    ensures
        match r {
            Some(content) => first_index(listed.deep_view(), has_title(title@)) is Some
                && content@ == listed.deep_view()[first_index(
                listed.deep_view(),
                has_title(title@),
            )->0],
            None => first_index(listed.deep_view(), has_title(title@)) is None,
        },
{
    let mut i: usize = 0;
    while i < listed.len()
        invariant
            i <= listed.len(),
            forall|j: int| 0 <= j < i ==> !has_title(title@)(#[trigger] listed.deep_view()[j]),
        decreases listed.len() - i,
    {
        if eq_ignore_ascii_case(listed[i].title(), title) {
            proof {
                assert(is_first(listed.deep_view(), has_title(title@), i as int));
                lemma_first_found(listed.deep_view(), has_title(title@), i as int);
            }
            return Some(&listed[i]);
        }
        i += 1;
    }
    proof {
        lemma_first_absent(listed.deep_view(), has_title(title@));
    }
    None
}

impl MediaSource {
    /// The container of the content directory that has to be listed before
    /// the media can be resolved; none for the items of a music service.
    pub fn container(&self) -> (r: Option<&'static str>)
        ensures
            match r {
                Some(container) => container_of(self@) == Some(container@),
                None => container_of(self@) is None,
            },
    {
        match self {
            MediaSource::SonosPlaylist(_) => Some("SQ:"),
            MediaSource::SonosFavorite(_) => Some("FV:2"),
            _ => None,
        }
    }

    /// The address and the description under which the media is played,
    /// given what its container lists. Nothing where the media is not found.
    pub fn get_uri_and_metadata(&self, listed: &Vec<Content>) -> (r: Option<(String, String)>)
        ensures
            r.deep_view() == media_of(self@, listed.deep_view()),
    {
        match self {
            MediaSource::Apple(item) => apple_uri_and_metadata(item.as_str()),
            MediaSource::Spotify(item) => spotify_uri_and_metadata(item.as_str()),
            MediaSource::SonosPlaylist(title) => {
                match find_titled(listed, title.as_str()) {
                    Some(playlist) => match playlist.uri() {
                        Some(uri) => Some((uri.clone(), String::new())),
                        None => None,
                    },
                    None => None,
                }
            },
            MediaSource::SonosFavorite(title) => {
                match find_titled(listed, title.as_str()) {
                    Some(favorite) => match favorite.uri() {
                        Some(uri) => match favorite.metadata() {
                            Some(metadata) => Some((uri.clone(), metadata.clone())),
                            None => None,
                        },
                        None => None,
                    },
                    None => None,
                }
            },
        }
    }
}

} // verus!
