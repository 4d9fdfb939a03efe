//! Reading the zone groups that a speaker reports: which groups there are,
//! who coordinates each, and who its members are.

use vstd::prelude::*;
use crate::error::{missing_element, ManagerError, Result};
use crate::search::{
    first_index, is_first, is_last, last_index, lemma_first_absent, lemma_first_found,
    lemma_last_absent, lemma_last_found,
};
use crate::text::{eq_ignore_ascii_case, same_ignoring_case};
use crate::types::{SpeakerInfo, SpeakerInfoView, Topology, TopologyView};
use crate::xml::{
    find_root_node, has_parent, parse, parsed_xml, root_node, XmlAttributeView, XmlNode,
    XmlNodeView, XmlNodes,
};

verus! {

/// The condition "is the attribute of this name", names compared without
/// regard to case and whatever the namespace.
pub open spec fn is_attribute_named(name: Seq<char>) -> spec_fn(XmlAttributeView) -> bool {
    |attribute: XmlAttributeView| same_ignoring_case(attribute.name, name)
}

/// The condition "is an element of this name and a child of the node at
/// this position".
pub open spec fn is_child_named(parent: int, name: Seq<char>) -> spec_fn(XmlNodeView) -> bool {
    |node: XmlNodeView|
        node.element && node.parent is Some && node.parent->0 == parent && same_ignoring_case(
            node.tag,
            name,
        )
}

/// The value of the first attribute of this name.
pub open spec fn first_attribute(node: XmlNodeView, name: Seq<char>) -> Option<Seq<char>> {
    match first_index(node.attributes, is_attribute_named(name)) {
        Some(i) => Some(node.attributes[i].value),
        None => None,
    }
}

/// The value of the last attribute of this name.
pub open spec fn last_attribute(node: XmlNodeView, name: Seq<char>) -> Option<Seq<char>> {
    match last_index(node.attributes, is_attribute_named(name)) {
        Some(i) => Some(node.attributes[i].value),
        None => None,
    }
}

/// The speaker that a member element describes: its `ZoneName`, `UUID` and
/// `Location` attributes. Nothing where one of them is missing.
pub open spec fn member_of(node: XmlNodeView) -> Option<SpeakerInfoView> {
    match (
        last_attribute(node, "zonename"@),
        last_attribute(node, "uuid"@),
        last_attribute(node, "location"@),
    ) {
        (Some(name), Some(uuid), Some(location)) => Some(SpeakerInfoView { name, uuid, location }),
        _ => None,
    }
}

/// The members that the `ZoneGroupMember` children of a group describe, as
/// far as they are among the first `n` nodes. Nothing where one of them
/// lacks an attribute.
pub open spec fn members_among(nodes: XmlNodes, group: int, n: int) -> Option<Seq<SpeakerInfoView>>
    decreases n,
{
    if n <= 0 {
        Some(Seq::empty())
    } else {
        match members_among(nodes, group, n - 1) {
            Some(members) => if is_child_named(group, "ZoneGroupMember"@)(nodes[n - 1]) {
                match member_of(nodes[n - 1]) {
                    Some(member) => Some(members.push(member)),
                    None => None,
                }
            } else {
                Some(members)
            },
            None => None,
        }
    }
}

/// The group that a `ZoneGroup` element describes: the identifier in its
/// `Coordinator` attribute, and its members. Nothing where the attribute is
/// missing or a member lacks one.
pub open spec fn group_at(nodes: XmlNodes, group: int) -> Option<(Seq<char>, Seq<SpeakerInfoView>)> {
    match (
        first_attribute(nodes[group], "Coordinator"@),
        members_among(nodes, group, nodes.len() as int),
    ) {
        (Some(coordinator), Some(members)) => Some((coordinator, members)),
        _ => None,
    }
}

/// The groups that the `ZoneGroup` children of the node at `root` describe,
/// as far as they are among the first `n` nodes.
pub open spec fn groups_among(nodes: XmlNodes, root: int, n: int) -> Option<TopologyView>
    decreases n,
{
    if n <= 0 {
        Some(Seq::empty())
    } else {
        match groups_among(nodes, root, n - 1) {
            Some(groups) => if is_child_named(root, "ZoneGroup"@)(nodes[n - 1]) {
                match group_at(nodes, n - 1) {
                    Some(group) => Some(groups.push(group)),
                    None => None,
                }
            } else {
                Some(groups)
            },
            None => None,
        }
    }
}

/// The topology that a zone group state reports: the groups under its first
/// `ZoneGroups` element, in their order. Nothing where there is no such
/// element, or a group or a member lacks an attribute.
pub open spec fn zone_topology(nodes: XmlNodes) -> Option<TopologyView> {
    match root_node(nodes, "ZoneGroups"@) {
        Some(root) => groups_among(nodes, root, nodes.len() as int),
        None => None,
    }
}

proof fn lemma_members_stay_none(nodes: XmlNodes, group: int, n: int, m: int)
    requires
        0 <= n <= m,
        members_among(nodes, group, n) is None,
    ensures
        members_among(nodes, group, m) is None,
    decreases m - n,
{
    if n < m {
        lemma_members_stay_none(nodes, group, n, m - 1);
    }
}

proof fn lemma_groups_stay_none(nodes: XmlNodes, root: int, n: int, m: int)
    requires
        0 <= n <= m,
        groups_among(nodes, root, n) is None,
    ensures
        groups_among(nodes, root, m) is None,
    decreases m - n,
{
    if n < m {
        lemma_groups_stay_none(nodes, root, n, m - 1);
    }
}

/// The value of the first attribute of this name, names compared without
/// regard to case.
pub fn find_node_attribute<'a>(node: &'a XmlNode, name: &str) -> (r: Option<&'a String>)
    ensures
        match r {
            Some(value) => first_attribute(node@, name@) == Some(value@),
            None => first_attribute(node@, name@) is None,
        },
{
    let mut i: usize = 0;
    while i < node.attributes.len()
        invariant
            i <= node.attributes.len(),
            forall|j: int|
                0 <= j < i ==> !is_attribute_named(name@)(#[trigger] node.attributes.deep_view()[j]),
        decreases node.attributes.len() - i,
    {
        if eq_ignore_ascii_case(node.attributes[i].name.as_str(), name) {
            proof {
                assert(is_first(node.attributes.deep_view(), is_attribute_named(name@), i as int));
                lemma_first_found(node.attributes.deep_view(), is_attribute_named(name@), i as int);
            }
            return Some(&node.attributes[i].value);
        }
        i += 1;
    }
    proof {
        lemma_first_absent(node.attributes.deep_view(), is_attribute_named(name@));
    }
    None
}

/// The value of the last attribute of this name, names compared without
/// regard to case.
pub fn find_last_attribute<'a>(node: &'a XmlNode, name: &str) -> (r: Option<&'a String>)
    ensures
        match r {
            Some(value) => last_attribute(node@, name@) == Some(value@),
            None => last_attribute(node@, name@) is None,
        },
{
    let mut i: usize = node.attributes.len();
    while i > 0
        invariant
            i <= node.attributes.len(),
            forall|j: int|
                i <= j < node.attributes.len() ==> !is_attribute_named(name@)(
                    #[trigger] node.attributes.deep_view()[j],
                ),
        decreases i,
    {
        i -= 1;
        if eq_ignore_ascii_case(node.attributes[i].name.as_str(), name) {
            proof {
                assert(is_last(node.attributes.deep_view(), is_attribute_named(name@), i as int));
                lemma_last_found(node.attributes.deep_view(), is_attribute_named(name@), i as int);
            }
            return Some(&node.attributes[i].value);
        }
    }
    proof {
        lemma_last_absent(node.attributes.deep_view(), is_attribute_named(name@));
    }
    None
}

/// Whether the node is an element of this name and a child of the node at
/// this position.
fn is_named_child(node: &XmlNode, parent: usize, name: &str) -> (r: bool)
    ensures
        r == is_child_named(parent as int, name@)(node@),
{
    node.element && has_parent(node, parent) && eq_ignore_ascii_case(node.tag.as_str(), name)
}

/// The speaker that a member element describes. A member without a name,
/// an identifier or a location is an error of the speaker library.
pub fn speaker_info_from_xml(node: &XmlNode) -> (r: Result<SpeakerInfo>)
    ensures
        match member_of(node@) {
            Some(member) => r matches Ok(info) && info@ == member,
            None => r matches Err(ManagerError::Sonor(_)),
        },
{
    let name = match find_last_attribute(node, "zonename") {
        Some(name) => name,
        None => { return Err(ManagerError::Sonor(missing_element("RoomName", "ZoneGroupMember"))); },
    };
    let uuid = match find_last_attribute(node, "uuid") {
        Some(uuid) => uuid,
        None => { return Err(ManagerError::Sonor(missing_element("UUID", "ZoneGroupMember"))); },
    };
    let location = match find_last_attribute(node, "location") {
        Some(location) => location,
        None => { return Err(ManagerError::Sonor(missing_element("Location", "ZoneGroupMember"))); },
    };
    Ok(SpeakerInfo::new(name.clone(), uuid.clone(), location.clone()))
}

/// The members of the group that the element at a position describes.
fn members_from_xml(nodes: &Vec<XmlNode>, group: usize) -> (r: Result<Vec<SpeakerInfo>>)
    ensures
        match members_among(nodes.deep_view(), group as int, nodes.len() as int) {
            Some(members) => r matches Ok(list) && list.deep_view() == members,
            None => r matches Err(ManagerError::Sonor(_)),
        },
{
    let mut list: Vec<SpeakerInfo> = Vec::new();
    let mut i: usize = 0;
    proof {
        assert(list.deep_view() =~= Seq::empty());
    }
    while i < nodes.len()
        invariant
            i <= nodes.len(),
            members_among(nodes.deep_view(), group as int, i as int) == Some(list.deep_view()),
        decreases nodes.len() - i,
    {
        let ghost before = list.deep_view();
        if is_named_child(&nodes[i], group, "ZoneGroupMember") {
            match speaker_info_from_xml(&nodes[i]) {
                Ok(member) => {
                    list.push(member);
                    proof {
                        assert(list.deep_view() =~= before.push(member@));
                    }
                },
                Err(e) => {
                    proof {
                        assert(members_among(nodes.deep_view(), group as int, i + 1) is None);
                        lemma_members_stay_none(
                            nodes.deep_view(),
                            group as int,
                            i + 1,
                            nodes.len() as int,
                        );
                    }
                    return Err(e);
                },
            }
        }
        i += 1;
    }
    Ok(list)
}

/// The topology that the nodes of a zone group state report. A state
/// without a `ZoneGroups` element, a group without a coordinator and a
/// member without a name, an identifier or a location are errors of the
/// speaker library.
pub fn zone_topology_of(nodes: &Vec<XmlNode>) -> (r: Result<Topology>)
    ensures
        match zone_topology(nodes.deep_view()) {
            Some(topology) => r matches Ok(groups) && groups.deep_view() == topology,
            None => r matches Err(ManagerError::Sonor(_)),
        },
{
    let root = match find_root_node(nodes, "ZoneGroups") {
        Some(root) => root,
        None => {
            return Err(ManagerError::Sonor(missing_element("Zone Group Topology", "ZoneGroups")));
        },
    };
    let mut groups: Topology = Vec::new();
    let mut i: usize = 0;
    proof {
        assert(groups.deep_view() =~= Seq::empty());
    }
    while i < nodes.len()
        invariant
            i <= nodes.len(),
            root_node(nodes.deep_view(), "ZoneGroups"@) == Some(root as int),
            groups_among(nodes.deep_view(), root as int, i as int) == Some(groups.deep_view()),
        decreases nodes.len() - i,
    {
        let ghost before = groups.deep_view();
        if is_named_child(&nodes[i], root, "ZoneGroup") {
            let coordinator = match find_node_attribute(&nodes[i], "Coordinator") {
                Some(coordinator) => coordinator.clone(),
                None => {
                    proof {
                        assert(groups_among(nodes.deep_view(), root as int, i + 1) is None);
                        lemma_groups_stay_none(
                            nodes.deep_view(),
                            root as int,
                            i + 1,
                            nodes.len() as int,
                        );
                    }
                    return Err(
                        ManagerError::Sonor(missing_element(nodes[i].tag.as_str(), "Coordinator")),
                    );
                },
            };
            match members_from_xml(nodes, i) {
                Ok(members) => {
                    groups.push((coordinator, members));
                    proof {
                        assert(groups.deep_view() =~= before.push((coordinator@, members.deep_view())));
                    }
                },
                Err(e) => {
                    proof {
                        assert(groups_among(nodes.deep_view(), root as int, i + 1) is None);
                        lemma_groups_stay_none(
                            nodes.deep_view(),
                            root as int,
                            i + 1,
                            nodes.len() as int,
                        );
                    }
                    return Err(e);
                },
            }
        }
        i += 1;
    }
    Ok(groups)
}

/// The topology that a zone group state reports. A text that is no XML
/// document is an error of the speaker library, and so is a state that
/// lacks what a topology needs.
pub fn extract_zone_topology(state_xml: &str) -> (r: Result<Topology>)
    ensures
        match parsed_xml(state_xml@) {
            Some(nodes) => match zone_topology(nodes) {
                Some(topology) => r matches Ok(groups) && groups.deep_view() == topology,
                None => r matches Err(ManagerError::Sonor(_)),
            },
            None => r matches Err(ManagerError::Sonor(_)),
        },
{
    match parse(state_xml) {
        Ok(nodes) => zone_topology_of(&nodes),
        Err(e) => Err(e),
    }
}

} // verus!
