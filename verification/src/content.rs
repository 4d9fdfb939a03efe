//! An item of a speaker's content directory.

use vstd::prelude::*;
use crate::error::{missing_element, ManagerError, Result};
use crate::xml::{
    child_text, find_element_child, first_element_child, has_parent, is_child_element_of, parse,
    parsed_xml, text_of_child, XmlNode, XmlNodes,
};

verus! {

/// An item of the content directory: a playlist, a favorite, a track.
#[derive(Debug)]
pub struct Content {
    title: String,
    creator: Option<String>,
    album_art_uri: Option<String>,
    uri: Option<String>,
    metadata: Option<String>,
}

/// The mathematical value of a [`Content`].
pub struct ContentView {
    pub title: Seq<char>,
    pub creator: Option<Seq<char>>,
    pub album_art_uri: Option<Seq<char>>,
    pub uri: Option<Seq<char>>,
    pub metadata: Option<Seq<char>>,
}

impl View for Content {
    type V = ContentView;

    closed spec fn view(&self) -> ContentView {
        ContentView {
            title: self.title@,
            creator: self.creator.deep_view(),
            album_art_uri: self.album_art_uri.deep_view(),
            uri: self.uri.deep_view(),
            metadata: self.metadata.deep_view(),
        }
    }
}

impl DeepView for Content {
    type V = ContentView;

    open spec fn deep_view(&self) -> ContentView {
        self@
    }
}

/// What the element at a position of a document says of an item: the text
/// of its `title`, `creator`, `albumArtURI`, `res` and `resMD` children.
/// Nothing where it has no `title`.
pub open spec fn content_of(nodes: XmlNodes, item: int) -> Option<ContentView> {
    match child_text(nodes, item, "title"@) {
        Some(title) => Some(
            ContentView {
                title,
                creator: child_text(nodes, item, "creator"@),
                album_art_uri: child_text(nodes, item, "albumArtURI"@),
                uri: child_text(nodes, item, "res"@),
                metadata: child_text(nodes, item, "resMD"@),
            },
        ),
        None => None,
    }
}

impl Content {
    /// An item with the given title, creator, cover address, address and description.
    pub fn new(
        title: String,
        creator: Option<String>,
        album_art_uri: Option<String>,
        uri: Option<String>,
        metadata: Option<String>,
    ) -> (content: Content)
        ensures
            content@ == (ContentView {
                title: title@,
                creator: creator.deep_view(),
                album_art_uri: album_art_uri.deep_view(),
                uri: uri.deep_view(),
                metadata: metadata.deep_view(),
            }),
    {
        Content { title, creator, album_art_uri, uri, metadata }
    }

    /// The item that the element at a position of a document describes. An
    /// element without a `title` child is an error of the speaker library.
    pub fn from_xml(nodes: &Vec<XmlNode>, item: usize) -> (r: Result<Content>)
        requires
            item < nodes.len(),
        ensures
            match content_of(nodes.deep_view(), item as int) {
                Some(content) => r matches Ok(c) && c@ == content,
                None => r matches Err(ManagerError::Sonor(_)),
            },
    {
        let title = match text_of_child(nodes, item, "title") {
            Some(title) => title,
            None => {
                return Err(ManagerError::Sonor(missing_element(nodes[item].tag.as_str(), "title")));
            },
        };
        Ok(
            Content {
                title,
                creator: text_of_child(nodes, item, "creator"),
                album_art_uri: text_of_child(nodes, item, "albumArtURI"),
                uri: text_of_child(nodes, item, "res"),
                metadata: text_of_child(nodes, item, "resMD"),
            },
        )
    }

    /// The title of the item.
    pub fn title(&self) -> (r: &str)
        ensures
            r@ == self@.title,
    {
        self.title.as_str()
    }

    /// The creator of the item.
    pub fn creator(&self) -> (r: Option<&String>)
        ensures
            r.deep_view() == self@.creator,
    {
        self.creator.as_ref()
    }

    /// The address of the item's cover.
    pub fn album_art_uri(&self) -> (r: Option<&String>)
        ensures
            r.deep_view() == self@.album_art_uri,
    {
        self.album_art_uri.as_ref()
    }

    /// The address of the item.
    pub fn uri(&self) -> (r: Option<&String>)
        ensures
            r.deep_view() == self@.uri,
    {
        self.uri.as_ref()
    }

    /// The description of the item.
    pub fn metadata(&self) -> (r: Option<&String>)
        ensures
            r.deep_view() == self@.metadata,
    {
        self.metadata.as_ref()
    }
}

/// The items that the elements among the first `n` nodes describe, as far
/// as they are children of the node at `parent`, in their order. Nothing
/// where one of them has no title.
pub open spec fn items_among(nodes: XmlNodes, parent: int, n: int) -> Option<Seq<ContentView>>
    decreases n,
{
    if n <= 0 {
        Some(Seq::empty())
    } else {
        match items_among(nodes, parent, n - 1) {
            Some(items) => if is_child_element_of(parent)(nodes[n - 1]) {
                match content_of(nodes, n - 1) {
                    Some(item) => Some(items.push(item)),
                    None => None,
                }
            } else {
                Some(items)
            },
            None => None,
        }
    }
}

/// The items that a listing of the content directory holds: those that the
/// children of the document's outermost element describe. Nothing where
/// the document has no element, or an item has no title.
pub open spec fn listing(nodes: XmlNodes) -> Option<Seq<ContentView>> {
    match first_element_child(nodes, 0) {
        Some(outermost) => items_among(nodes, outermost, nodes.len() as int),
        None => None,
    }
}

/// The items of a listing of the content directory, from the nodes of its
/// document. A document without an element, and an item without a title,
/// are errors of the speaker library.
pub fn contents_of(nodes: &Vec<XmlNode>) -> (r: Result<Vec<Content>>)
    ensures
        match listing(nodes.deep_view()) {
            Some(items) => r matches Ok(list) && list.deep_view() == items,
            None => r matches Err(ManagerError::Sonor(_)),
        },
{
    let outermost = match find_element_child(nodes, 0) {
        Some(outermost) => outermost,
        None => {
            return Err(ManagerError::Sonor(missing_element("Browse Response", "DIDL-Lite")));
        },
    };
    let mut list: Vec<Content> = Vec::new();
    let mut i: usize = 0;
    proof {
        assert(list.deep_view() =~= Seq::empty());
    }
    while i < nodes.len()
        invariant
            i <= nodes.len(),
            outermost < nodes.len(),
            first_element_child(nodes.deep_view(), 0) == Some(outermost as int),
            items_among(nodes.deep_view(), outermost as int, i as int) == Some(list.deep_view()),
        decreases nodes.len() - i,
    {
        let ghost before = list.deep_view();
        if nodes[i].element && has_parent(&nodes[i], outermost) {
            match Content::from_xml(nodes, i) {
                Ok(item) => {
                    list.push(item);
                    proof {
                        assert(list.deep_view() =~= before.push(item@));
                    }
                },
                Err(e) => {
                    proof {
                        assert(items_among(nodes.deep_view(), outermost as int, i + 1) is None);
                        lemma_items_stay_none(
                            nodes.deep_view(),
                            outermost as int,
                            i + 1,
                            nodes.len() as int,
                        );
                    }
                    return Err(e);
                },
            }
        }
        i += 1;
    }
    Ok(list)
}

/// Once an item without a title is met, the listing as a whole is nothing.
proof fn lemma_items_stay_none(nodes: XmlNodes, parent: int, n: int, m: int)
    requires
        0 <= n <= m,
        items_among(nodes, parent, n) is None,
    ensures
        items_among(nodes, parent, m) is None,
    decreases m - n,
{
    if n < m {
        lemma_items_stay_none(nodes, parent, n, m - 1);
    }
}

/// The items that a listing of the content directory holds. A text that is
/// no XML document, a document without an element, and an item without a
/// title are errors of the speaker library.
pub fn browse_result(xml: &str) -> (r: Result<Vec<Content>>)
    ensures
        match parsed_xml(xml@) {
            Some(nodes) => match listing(nodes) {
                Some(items) => r matches Ok(list) && list.deep_view() == items,
                None => r matches Err(ManagerError::Sonor(_)),
            },
            None => r matches Err(ManagerError::Sonor(_)),
        },
{
    match parse(xml) {
        Ok(nodes) => contents_of(&nodes),
        Err(e) => Err(e),
    }
}

} // verus!
