//! Reading the state that a speaker reports of its AV transport.

use vstd::prelude::*;
use crate::error::{missing_element, xml_failure, ManagerError, Result};
use crate::xml::{
    attribute, attribute_value, find_root_node, has_parent, is_child_element_of, parse_xml,
    parsed_xml, root_node, XmlNode, XmlNodeView, XmlNodes,
};

verus! {

/// The name of the element that holds the reported values.
pub open spec fn instance_element() -> Seq<char> {
    "InstanceID"@
}

/// The name of the attribute that holds a reported value.
pub open spec fn value_attribute() -> Seq<char> {
    "val"@
}

/// What an element reports: its tag as the key, and as the value what its
/// `val` attribute holds, or nothing where it has none.
pub open spec fn reported(node: XmlNodeView) -> (Seq<char>, Seq<char>) {
    (
        node.tag,
        match attribute_value(node, value_attribute()) {
            Some(value) => value,
            None => Seq::empty(),
        },
    )
}

/// The values that a document of last changes reports: one for each
/// element that is a child of the first `InstanceID` element, in their
/// order. Nothing where the document has no such element.
pub open spec fn last_change(nodes: XmlNodes) -> Option<Seq<(Seq<char>, Seq<char>)>> {
    match root_node(nodes, instance_element()) {
        Some(root) => Some(
            nodes.filter(is_child_element_of(root)).map_values(|node: XmlNodeView| reported(node)),
        ),
        None => None,
    }
}

/// The values that the nodes of a document of last changes report. A
/// document without an `InstanceID` element is an error of the speaker library.
pub fn last_change_of(nodes: &Vec<XmlNode>) -> (r: Result<Vec<(String, String)>>)
    ensures
        match last_change(nodes.deep_view()) {
            Some(values) => r matches Ok(list) && list.deep_view() == values,
            None => r matches Err(ManagerError::Sonor(_)),
        },
{
    let root = match find_root_node(nodes, "InstanceID") {
        Some(root) => root,
        None => {
            return Err(ManagerError::Sonor(missing_element("Last Change Variables", "InstanceID")));
        },
    };
    let ghost all = nodes.deep_view();
    let ghost wanted = is_child_element_of(root as int);
    let ghost entry = |node: XmlNodeView| reported(node);
    let mut list: Vec<(String, String)> = Vec::new();
    let mut i: usize = 0;
    proof {
        assert(all.take(0) =~= Seq::empty());
        reveal_with_fuel(Seq::filter, 1);
        assert(list.deep_view() =~= all.take(0).filter(wanted).map_values(entry));
    }
    while i < nodes.len()
        invariant
            i <= nodes.len(),
            all == nodes.deep_view(),
            wanted == is_child_element_of(root as int),
            entry == |node: XmlNodeView| reported(node),
            list.deep_view() == all.take(i as int).filter(wanted).map_values(entry),
        decreases nodes.len() - i,
    {
        let ghost before = list.deep_view();
        proof {
            assert(all.take(i + 1) =~= all.take(i as int).push(all[i as int]));
            all.take(i as int).lemma_filter_push(all[i as int], wanted);
        }
        if nodes[i].element && has_parent(&nodes[i], root) {
            let value = match attribute(&nodes[i], "val") {
                Some(value) => value.clone(),
                None => String::new(),
            };
            list.push((nodes[i].tag.clone(), value));
            proof {
                assert(list.deep_view() =~= before.push(reported(all[i as int])));
                assert(all.take(i as int).filter(wanted).push(all[i as int]).map_values(entry)
                    =~= all.take(i as int).filter(wanted).map_values(entry).push(
                    reported(all[i as int]),
                ));
            }
        }
        i += 1;
    }
    proof {
        assert(all.take(i as int) =~= all);
    }
    Ok(list)
}

/// The values that a document of last changes reports, as (key, value)
/// pairs. A text that is no XML document, or a document without an
/// `InstanceID` element, is an error of the speaker library.
pub fn extract_av_transport_last_change(state_xml: &str) -> (r: Result<Vec<(String, String)>>)
    ensures
        match parsed_xml(state_xml@) {
            Some(nodes) => match last_change(nodes) {
                Some(values) => r matches Ok(list) && list.deep_view() == values,
                None => r matches Err(ManagerError::Sonor(_)),
            },
            None => r matches Err(ManagerError::Sonor(_)),
        },
{
    match parse_xml(state_xml) {
        Ok(nodes) => last_change_of(&nodes),
        Err(e) => Err(ManagerError::Sonor(xml_failure(e))),
    }
}

} // verus!
