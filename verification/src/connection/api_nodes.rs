//! The node inventory of a monitoring instance.

use vstd::prelude::*;
use crate::connection::{accepted, check_response};
use crate::text::{push_text, same_text};
use crate::ErrorString;

verus! {

/// The answer to a request for the node inventory.
#[derive(Debug)]
pub struct ApiNodes {
    /// `"success"` where the instance accepted the request.
    pub status: String,
    pub data: Vec<ApiNodesData>,
}

/// One node as the inventory describes it. What it costs is a fraction and
/// not held here.
#[derive(Debug)]
pub struct ApiNodesData {
    pub uuid: String,
    pub name: String,
    pub cpu_name: String,
    pub virtualization: String,
    pub arch: String,
    pub cpu_cores: i32,
    pub os: String,
    pub kernel_version: String,
    /// Empty where the node has no graphics processor.
    pub gpu_name: String,
    pub region: String,
    pub mem_total: u64,
    pub swap_total: u64,
    pub disk_total: u64,
    pub expired_at: Option<String>,
    pub group: Option<String>,
    pub tags: Option<String>,
    pub created_at: Option<String>,
    pub updated_at: Option<String>,
}

/// The place of the first node with the identifier `uuid` in an inventory,
/// or its length where no node has it.
pub open spec fn node_position(nodes: Seq<ApiNodesData>, uuid: Seq<char>) -> int
    decreases nodes.len(),
{
    if nodes.len() == 0 {
        0
    } else if nodes[0].uuid@ == uuid {
        0
    } else {
        1 + node_position(nodes.drop_first(), uuid)
    }
}

/// The first node with a given identifier stands where `node_position`
/// says, and no node before it has that identifier.
pub proof fn lemma_node_position(nodes: Seq<ApiNodesData>, uuid: Seq<char>)
    ensures
        0 <= node_position(nodes, uuid) <= nodes.len(),
        node_position(nodes, uuid) < nodes.len() ==> nodes[node_position(nodes, uuid)].uuid@
            == uuid,
        forall|i: int| 0 <= i < node_position(nodes, uuid) ==> (#[trigger] nodes[i]).uuid@ != uuid,
    decreases nodes.len(),
{
    if nodes.len() > 0 && nodes[0].uuid@ != uuid {
        let rest = nodes.drop_first();
        lemma_node_position(rest, uuid);
        assert forall|i: int| 0 <= i < node_position(nodes, uuid) implies (#[trigger] nodes[i]).uuid@
            != uuid by {
            if i > 0 {
                assert(nodes[i] == rest[i - 1]);
            }
        }
    }
}

/// Whether every node of an inventory has an identifier of its own.
pub open spec fn unique_uuids(nodes: Seq<ApiNodesData>) -> bool {
    forall|i: int, j: int|
        0 <= i < j < nodes.len() ==> (#[trigger] nodes[i]).uuid@ != (#[trigger] nodes[j]).uuid@
}

/// The order in which the nodes of an inventory arrive makes no difference
/// to what is found under an identifier, where every node has an identifier
/// of its own.
pub proof fn lemma_lookup_ignores_arrival_order(
    a: Seq<ApiNodesData>,
    b: Seq<ApiNodesData>,
    uuid: Seq<char>,
)
    requires
        a.to_multiset() == b.to_multiset(),
        unique_uuids(a),
        unique_uuids(b),
    ensures
        node_position(a, uuid) < a.len() <==> node_position(b, uuid) < b.len(),
        node_position(a, uuid) < a.len() ==> a[node_position(a, uuid)] == b[node_position(
            b,
            uuid,
        )],
{
    lemma_node_position(a, uuid);
    lemma_node_position(b, uuid);
    a.to_multiset_ensures();
    b.to_multiset_ensures();
    let at = node_position(a, uuid);
    let bt = node_position(b, uuid);
    if at < a.len() {
        assert(a.contains(a[at]));
        assert(a.to_multiset().count(a[at]) > 0);
        assert(b.to_multiset().count(a[at]) > 0);
        assert(b.contains(a[at]));
        let k = choose|k: int| 0 <= k < b.len() && b[k] == a[at];
        assert(bt <= k);
        assert(bt == k);
    }
    if bt < b.len() {
        assert(b.contains(b[bt]));
        assert(b.to_multiset().count(b[bt]) > 0);
        assert(a.to_multiset().count(b[bt]) > 0);
        assert(a.contains(b[bt]));
        let k = choose|k: int| 0 <= k < a.len() && a[k] == b[bt];
        assert(at <= k);
    }
}

/// Looks a node up by its identifier: the place of the first node that has
/// it, if any has.
pub fn find_node(nodes: &ApiNodes, uuid: &str) -> (found: Option<usize>)
    ensures
        found matches Some(i) ==> i == node_position(nodes.data@, uuid@) && i < nodes.data.len(),
        found is None ==> node_position(nodes.data@, uuid@) == nodes.data.len(),
{
    let mut i: usize = 0;
    proof {
        lemma_node_position(nodes.data@, uuid@);
    }
    while i < nodes.data.len()
        invariant
            i <= nodes.data.len(),
            forall|j: int| 0 <= j < i ==> (#[trigger] nodes.data@[j]).uuid@ != uuid@,
            0 <= node_position(nodes.data@, uuid@) <= nodes.data.len(),
            node_position(nodes.data@, uuid@) < nodes.data.len() ==> nodes.data@[node_position(
                nodes.data@,
                uuid@,
            )].uuid@ == uuid@,
            forall|j: int|
                0 <= j < node_position(nodes.data@, uuid@) ==> (#[trigger] nodes.data@[j]).uuid@
                    != uuid@,
        decreases nodes.data.len() - i,
    {
        if same_text(nodes.data[i].uuid.as_str(), uuid) {
            return Some(i);
        }
        i += 1;
    }
    None
}

/// Takes the answer to a request for the node inventory: its status, and its body as
/// far as it could be read. Only the status 200 passes: 401 means that the
/// instance is closed to the public, and any other status is reported as it
/// was shown, whatever the body holds. With the status 200, a body that
/// could not be read is refused with the reason, and one that the instance
/// did not mark as a success with the mark it has.
pub fn get_api_nodes(code: u16, status_line: &str, decoded: Result<ApiNodes, String>) -> (answer: Result<
    ApiNodes,
    ErrorString,
>)
    ensures
        match answer {
            Ok(taken) => code == 200 && decoded == Ok::<ApiNodes, String>(taken) && accepted(
                taken.status@,
            ),
            Err(text) => if code == 401 {
                text@ == "主控开启了私有模式"@
            } else if code != 200 {
                text@ == "服务器返回错误："@ + status_line@
            } else {
                match decoded {
                    Err(e) => text@ == "JSON 解析错误: "@ + e@,
                    Ok(read) => !accepted(read.status@) && text@ == "服务器返回错误："@
                        + read.status@,
                }
            },
        },
{
    match check_response(code, status_line) {
        Err(text) => {
            return Err(text);
        },
        Ok(_) => {},
    }
    match decoded {
        Err(e) => {
            let mut text = "JSON 解析错误: ".to_owned();
            push_text(&mut text, e.as_str());
            Err(text)
        },
        Ok(read) => {
            if same_text(read.status.as_str(), "success") {
                Ok(read)
            } else {
                let mut text = "服务器返回错误：".to_owned();
                push_text(&mut text, read.status.as_str());
                Err(text)
            }
        },
    }
}

} // verus!
