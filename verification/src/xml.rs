//! An XML document as the manager reads it: its nodes in document order,
//! each with its parent, its tag, its attributes and its text.

use vstd::prelude::*;
use crate::search::{
    first_index, is_first, is_last, last_index, lemma_first_absent, lemma_first_found,
    lemma_last_absent, lemma_last_found,
};
use crate::error::{xml_failure, ManagerError, Result};
use crate::text::{eq_ignore_ascii_case, same_ignoring_case, str_eq};

verus! {

/// An attribute of an element.
#[derive(Debug)]
pub struct XmlAttribute {
    /// The namespace of the attribute, where it has one.
    pub namespace: Option<String>,
    /// The name of the attribute, without a prefix.
    pub name: String,
    pub value: String,
}

/// The mathematical value of an [`XmlAttribute`].
pub struct XmlAttributeView {
    pub namespace: Option<Seq<char>>,
    pub name: Seq<char>,
    pub value: Seq<char>,
}

impl View for XmlAttribute {
    type V = XmlAttributeView;

    open spec fn view(&self) -> XmlAttributeView {
        XmlAttributeView {
            namespace: self.namespace.deep_view(),
            name: self.name@,
            value: self.value@,
        }
    }
}

impl DeepView for XmlAttribute {
    type V = XmlAttributeView;

    open spec fn deep_view(&self) -> XmlAttributeView {
        self@
    }
}

/// A node of a document: the root, an element, a text, a comment or a
/// processing instruction.
#[derive(Debug)]
pub struct XmlNode {
    /// The position of the parent node in the document. The root has none.
    pub parent: Option<usize>,
    /// Whether the node is an element.
    pub element: bool,
    /// The name of the element's tag, without a prefix. Empty for a node
    /// that is no element.
    pub tag: String,
    /// The attributes of the element, in their order.
    pub attributes: Vec<XmlAttribute>,
    /// The text of a text node or a comment; for an element, the text that
    /// it begins with, if it begins with text.
    pub text: Option<String>,
}

/// The mathematical value of an [`XmlNode`].
pub struct XmlNodeView {
    pub parent: Option<usize>,
    pub element: bool,
    pub tag: Seq<char>,
    pub attributes: Seq<XmlAttributeView>,
    pub text: Option<Seq<char>>,
}

impl View for XmlNode {
    type V = XmlNodeView;

    open spec fn view(&self) -> XmlNodeView {
        XmlNodeView {
            parent: self.parent,
            element: self.element,
            tag: self.tag@,
            attributes: self.attributes.deep_view(),
            text: self.text.deep_view(),
        }
    }
}

impl DeepView for XmlNode {
    type V = XmlNodeView;

    open spec fn deep_view(&self) -> XmlNodeView {
        self@
    }
}

/// The nodes of a document, in document order: the root first, every node
/// before its children, the children of a node in their order.
pub type XmlNodes = Seq<XmlNodeView>;

/// The nodes of the document that a text is, as `roxmltree` reads it;
/// nothing where the text is no well-formed document.
pub uninterp spec fn parsed_xml(text: Seq<char>) -> Option<Seq<XmlNodeView>>;

/// `roxmltree::Document::parse`: the nodes of the document in document
/// order, each with the position of its parent, or the parser's error.
#[verifier::external_body]
pub(crate) fn parse_xml(text: &str) -> (r: core::result::Result<Vec<XmlNode>, roxmltree::Error>)
    ensures
        match r {
            Ok(nodes) => parsed_xml(text@) == Some(nodes.deep_view()),
            Err(_) => parsed_xml(text@) is None,
        },
{
    let doc = roxmltree::Document::parse(text)?;
    Ok(doc.descendants().map(|n| XmlNode {
        parent: n.parent().map(|p| p.id().get_usize()),
        element: n.is_element(),
        tag: n.tag_name().name().to_string(),
        attributes: n.attributes().map(|a| XmlAttribute {
            namespace: a.namespace().map(str::to_string),
            name: a.name().to_string(),
            value: a.value().to_string(),
        }).collect(),
        text: n.text().map(str::to_string),
    }).collect())
}

/// The nodes of the document that a text is. A text that is no well-formed
/// document is an error of the speaker library.
pub fn parse(text: &str) -> (r: Result<Vec<XmlNode>>)
    ensures
        match parsed_xml(text@) {
            Some(nodes) => r matches Ok(list) && list.deep_view() == nodes,
            None => r matches Err(ManagerError::Sonor(_)),
        },
{
    match parse_xml(text) {
        Ok(nodes) => Ok(nodes),
        Err(e) => Err(ManagerError::Sonor(xml_failure(e))),
    }
}

/// The condition "is an element of this name", names compared without
/// regard to case.
pub open spec fn is_element_named(name: Seq<char>) -> spec_fn(XmlNodeView) -> bool {
    |node: XmlNodeView| node.element && same_ignoring_case(node.tag, name)
}

/// The condition "is a child of the node at this position".
pub open spec fn is_child_of(parent: int) -> spec_fn(XmlNodeView) -> bool {
    |node: XmlNodeView| node.parent is Some && node.parent->0 == parent
}

/// The condition "is a child of the node at this position and an element".
pub open spec fn is_child_element_of(parent: int) -> spec_fn(XmlNodeView) -> bool {
    |node: XmlNodeView| node.element && node.parent is Some && node.parent->0 == parent
}

/// The condition "is a child of the node at this position with exactly this tag".
pub open spec fn is_child_tagged(parent: int, tag: Seq<char>) -> spec_fn(XmlNodeView) -> bool {
    |node: XmlNodeView| node.parent is Some && node.parent->0 == parent && node.tag == tag
}

/// The condition "is the attribute of this name that has no namespace".
pub open spec fn is_plain_attribute(name: Seq<char>) -> spec_fn(XmlAttributeView) -> bool {
    |attribute: XmlAttributeView| attribute.namespace is None && attribute.name == name
}

/// The first element of the document with this name.
pub open spec fn root_node(nodes: XmlNodes, name: Seq<char>) -> Option<int> {
    first_index(nodes, is_element_named(name))
}

/// The value of the first attribute of this name that has no namespace.
pub open spec fn attribute_value(node: XmlNodeView, name: Seq<char>) -> Option<Seq<char>> {
    match first_index(node.attributes, is_plain_attribute(name)) {
        Some(i) => Some(node.attributes[i].value),
        None => None,
    }
}

/// The text of the last child with this tag; empty where that child has no
/// text. Nothing where no child has the tag.
pub open spec fn child_text(nodes: XmlNodes, parent: int, tag: Seq<char>) -> Option<Seq<char>> {
    match last_index(nodes, is_child_tagged(parent, tag)) {
        Some(i) => Some(
            match nodes[i].text {
                Some(text) => text,
                None => Seq::empty(),
            },
        ),
        None => None,
    }
}

/// The first element of the document with this name, names compared
/// without regard to case.
pub fn find_root_node(nodes: &Vec<XmlNode>, name: &str) -> (r: Option<usize>)
    ensures
        match r {
            Some(i) => root_node(nodes.deep_view(), name@) == Some(i as int) && i < nodes.len(),
            None => root_node(nodes.deep_view(), name@) is None,
        },
{
    let mut i: usize = 0;
    while i < nodes.len()
        invariant
            i <= nodes.len(),
            forall|j: int| 0 <= j < i ==> !is_element_named(name@)(#[trigger] nodes.deep_view()[j]),
        decreases nodes.len() - i,
    {
        if nodes[i].element && eq_ignore_ascii_case(nodes[i].tag.as_str(), name) {
            proof {
                assert(is_first(nodes.deep_view(), is_element_named(name@), i as int));
                lemma_first_found(nodes.deep_view(), is_element_named(name@), i as int);
            }
            return Some(i);
        }
        i += 1;
    }
    proof {
        lemma_first_absent(nodes.deep_view(), is_element_named(name@));
    }
    None
}

/// The value of the first attribute of this name that has no namespace.
pub fn attribute<'a>(node: &'a XmlNode, name: &str) -> (r: Option<&'a String>)
    ensures
        match r {
            Some(value) => attribute_value(node@, name@) == Some(value@),
            None => attribute_value(node@, name@) is None,
        },
{
    let mut i: usize = 0;
    while i < node.attributes.len()
        invariant
            i <= node.attributes.len(),
            forall|j: int|
                0 <= j < i ==> !is_plain_attribute(name@)(#[trigger] node.attributes.deep_view()[j]),
        decreases node.attributes.len() - i,
    {
        if node.attributes[i].namespace.is_none() && str_eq(node.attributes[i].name.as_str(), name) {
            proof {
                assert(is_first(node.attributes.deep_view(), is_plain_attribute(name@), i as int));
                lemma_first_found(node.attributes.deep_view(), is_plain_attribute(name@), i as int);
            }
            return Some(&node.attributes[i].value);
        }
        i += 1;
    }
    proof {
        lemma_first_absent(node.attributes.deep_view(), is_plain_attribute(name@));
    }
    None
}

/// Whether the node is a child of the node at this position.
pub fn has_parent(node: &XmlNode, parent: usize) -> (r: bool)
    ensures
        r == is_child_of(parent as int)(node@),
{
    match node.parent {
        Some(p) => p == parent,
        None => false,
    }
}

/// The text of the last child with this tag: empty where that child has no
/// text, nothing where no child has the tag.
pub fn text_of_child(nodes: &Vec<XmlNode>, parent: usize, tag: &str) -> (r: Option<String>)
    ensures
        r.deep_view() == child_text(nodes.deep_view(), parent as int, tag@),
{
    let ghost wanted = is_child_tagged(parent as int, tag@);
    let mut i: usize = nodes.len();
    while i > 0
        invariant
            i <= nodes.len(),
            wanted == is_child_tagged(parent as int, tag@),
            forall|j: int| i <= j < nodes.len() ==> !wanted(#[trigger] nodes.deep_view()[j]),
        decreases i,
    {
        i -= 1;
        if has_parent(&nodes[i], parent) && str_eq(nodes[i].tag.as_str(), tag) {
            proof {
                assert(is_last(nodes.deep_view(), wanted, i as int));
                lemma_last_found(nodes.deep_view(), wanted, i as int);
            }
            return match &nodes[i].text {
                Some(text) => Some(text.clone()),
                None => Some(String::new()),
            };
        }
    }
    proof {
        lemma_last_absent(nodes.deep_view(), wanted);
    }
    None
}

/// The first element that is a child of the node at this position.
pub open spec fn first_element_child(nodes: XmlNodes, parent: int) -> Option<int> {
    first_index(nodes, is_child_element_of(parent))
}

/// The first element that is a child of the node at this position.
pub fn find_element_child(nodes: &Vec<XmlNode>, parent: usize) -> (r: Option<usize>)
    ensures
        match r {
            Some(i) => first_element_child(nodes.deep_view(), parent as int) == Some(i as int) && i
                < nodes.len(),
            None => first_element_child(nodes.deep_view(), parent as int) is None,
        },
{
    let ghost wanted = is_child_element_of(parent as int);
    let mut i: usize = 0;
    while i < nodes.len()
        invariant
            i <= nodes.len(),
            wanted == is_child_element_of(parent as int),
            forall|j: int| 0 <= j < i ==> !wanted(#[trigger] nodes.deep_view()[j]),
        decreases nodes.len() - i,
    {
        if nodes[i].element && has_parent(&nodes[i], parent) {
            proof {
                assert(is_first(nodes.deep_view(), wanted, i as int));
                lemma_first_found(nodes.deep_view(), wanted, i as int);
            }
            return Some(i);
        }
        i += 1;
    }
    proof {
        lemma_first_absent(nodes.deep_view(), wanted);
    }
    None
}

} // verus!
