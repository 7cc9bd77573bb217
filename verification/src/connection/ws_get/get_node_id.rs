//! The list of the nodes of an instance with the numbers they go by.

use vstd::prelude::*;
use crate::connection::api_nodes::{
    find_node, lemma_lookup_ignores_arrival_order, node_position, unique_uuids, ApiNodes,
    ApiNodesData,
};
use crate::connection::ws_get::status::{
    lemma_sorting_ignores_arrival_order, sort_ws_data, sorted_by_id,
};
use crate::connection::ws_get::{ApiWs, ApiWsDataHashMapValue};
use crate::connection::{escaped, msg_fixer};
use crate::text::{decimal, push_decimal, push_text, text_result};
use crate::ErrorString;

verus! {

/// The list of the nodes that report, one line for each: its number, counted
/// from 1 in the order given, and the name that the inventory has for it.
/// There is no list where the inventory lacks one of the nodes.
pub open spec fn node_listing(
    sorted: Seq<(String, ApiWsDataHashMapValue)>,
    nodes: Seq<ApiNodesData>,
) -> Option<Seq<char>>
    decreases sorted.len(),
{
    if sorted.len() == 0 {
        Some(Seq::empty())
    } else {
        match node_listing(sorted.drop_last(), nodes) {
            None => None,
            Some(text) => {
                let at = node_position(nodes, sorted.last().0@);
                if at < nodes.len() {
                    Some(text + "`"@ + decimal(sorted.len()) + "` - "@ + nodes[at].name@ + "\n"@)
                } else {
                    None
                }
            },
        }
    }
}

/// What a request for the list of nodes comes to, from what was read: the
/// snapshot and the inventory. A failure of the snapshot comes first, then
/// one of the inventory.
pub open spec fn node_ids(
    ws_data: Result<ApiWs, ErrorString>,
    nodes: Result<ApiNodes, ErrorString>,
) -> Result<Seq<char>, Seq<char>> {
    match ws_data {
        Err(e) => Err(e@),
        Ok(snapshot) => match nodes {
            Err(e) => Err(e@),
            Ok(inventory) => match node_listing(
                sorted_by_id(snapshot.data.data@),
                inventory.data@,
            ) {
                Some(text) => Ok(escaped(text)),
                None => Err("找不到该序号的服务器"@),
            },
        },
    }
}

/// Lists the nodes that report with the numbers they go by: the nodes in
/// the order of their identifiers, counted from 1, each with the name that
/// the inventory has for it, escaped for the chat.
pub fn ws_get_node_id(
    ws_data: Result<ApiWs, ErrorString>,
    nodes: Result<ApiNodes, ErrorString>,
) -> (list: Result<String, ErrorString>)
    ensures
        text_result(list) == node_ids(ws_data, nodes),
{
    let snapshot = match ws_data {
        Err(e) => {
            return Err(e);
        },
        Ok(snapshot) => snapshot,
    };
    let inventory = match nodes {
        Err(e) => {
            return Err(e);
        },
        Ok(inventory) => inventory,
    };
    let sorted = sort_ws_data(snapshot);
    match list_nodes(&sorted, &inventory) {
        Some(text) => Ok(msg_fixer(text)),
        None => Err("找不到该序号的服务器".to_owned()),
    }
}

/// Writes the list of the nodes in the order given, if the inventory has
/// them all.
fn list_nodes(sorted: &Vec<(String, ApiWsDataHashMapValue)>, inventory: &ApiNodes) -> (list: Option<
    String,
>)
    ensures
        match list {
            Some(text) => node_listing(sorted@, inventory.data@) == Some(text@),
            None => node_listing(sorted@, inventory.data@) is None,
        },
{
    let mut text = String::new();
    let mut i: usize = 0;
    assert(sorted@.take(0) == Seq::<(String, ApiWsDataHashMapValue)>::empty());
    while i < sorted.len()
        invariant
            i <= sorted.len(),
            node_listing(sorted@.take(i as int), inventory.data@) == Some(text@),
        decreases sorted.len() - i,
    {
        proof {
            let more = sorted@.take(i + 1);
            assert(more.drop_last() == sorted@.take(i as int));
            assert(more.last() == sorted@[i as int]);
        }
        match find_node(inventory, sorted[i].0.as_str()) {
            Some(at) => {
                push_text(&mut text, "`");
                push_decimal(&mut text, (i + 1) as u128);
                push_text(&mut text, "` - ");
                push_text(&mut text, inventory.data[at].name.as_str());
                push_text(&mut text, "\n");
            },
            None => {
                proof {
                    assert(node_listing(sorted@.take(i + 1), inventory.data@) is None);
                    lemma_listing_needs_every_node(sorted@, inventory.data@, i + 1);
                }
                return None;
            },
        }
        i += 1;
    }
    assert(sorted@.take(sorted@.len() as int) == sorted@);
    Some(text)
}

/// Where the inventory lacks a node among the first `k` of the list, it
/// lacks one in the whole list.
pub proof fn lemma_listing_needs_every_node(
    sorted: Seq<(String, ApiWsDataHashMapValue)>,
    nodes: Seq<ApiNodesData>,
    k: int,
)
    requires
        0 <= k <= sorted.len(),
        node_listing(sorted.take(k), nodes) is None,
    ensures
        node_listing(sorted, nodes) is None,
    decreases sorted.len() - k,
{
    if k < sorted.len() {
        let more = sorted.take(k + 1);
        assert(more.drop_last() == sorted.take(k));
        lemma_listing_needs_every_node(sorted, nodes, k + 1);
    } else {
        assert(sorted.take(k) == sorted);
    }
}

/// The list of given nodes is the same for two inventories that hold the
/// same nodes in another order, where every node has an identifier of its
/// own.
pub proof fn lemma_listing_ignores_inventory_order(
    sorted: Seq<(String, ApiWsDataHashMapValue)>,
    a: Seq<ApiNodesData>,
    b: Seq<ApiNodesData>,
)
    requires
        a.to_multiset() == b.to_multiset(),
        unique_uuids(a),
        unique_uuids(b),
    ensures
        node_listing(sorted, a) == node_listing(sorted, b),
    decreases sorted.len(),
{
    if sorted.len() > 0 {
        lemma_listing_ignores_inventory_order(sorted.drop_last(), a, b);
        lemma_lookup_ignores_arrival_order(a, b, sorted.last().0@);
    }
}

/// The list of nodes depends on which nodes report and which the inventory
/// holds, not on the order in which either arrives: two snapshots with the
/// same entries and two inventories with the same nodes give the same list
/// with the same numbers, where every identifier occurs once in each.
pub proof fn lemma_node_ids_ignore_arrival_order(
    first: ApiWs,
    second: ApiWs,
    first_nodes: ApiNodes,
    second_nodes: ApiNodes,
)
    requires
        first.data.data@.to_multiset() == second.data.data@.to_multiset(),
        first.data.wf(),
        second.data.wf(),
        first_nodes.data@.to_multiset() == second_nodes.data@.to_multiset(),
        unique_uuids(first_nodes.data@),
        unique_uuids(second_nodes.data@),
    ensures
        node_ids(Ok(first), Ok(first_nodes)) == node_ids(Ok(second), Ok(second_nodes)),
{
    lemma_sorting_ignores_arrival_order(first.data.data@, second.data.data@);
    lemma_listing_ignores_inventory_order(
        sorted_by_id(first.data.data@),
        first_nodes.data@,
        second_nodes.data@,
    );
}

} // verus!
