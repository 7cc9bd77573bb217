//! The live metrics of a monitoring instance, as one snapshot.

use vstd::prelude::*;
use crate::db::Monitor;
use crate::text::same_text;
use crate::ErrorString;

pub mod get_node_id;
pub mod status;
pub mod total_status;

verus! {

/// The answer of a monitoring instance to a request for its live metrics.
#[derive(Debug)]
pub struct ApiWs {
    /// `"success"` where the instance accepted the request.
    pub status: String,
    pub data: ApiWsData,
}

/// One snapshot of the live metrics: the nodes that report, and what each
/// of them reports, by node identifier. The metrics are a map from
/// identifiers to what the nodes report, held as a row of pairs: a snapshot
/// is well formed where no identifier occurs twice in it.
#[derive(Debug)]
pub struct ApiWsData {
    pub online: Vec<String>,
    /// The metrics by node identifier, in no particular order.
    pub data: Vec<(String, ApiWsDataHashMapValue)>,
}

/// Whether every node identifier occurs once.
pub open spec fn unique_ids(entries: Seq<(String, ApiWsDataHashMapValue)>) -> bool {
    forall|i: int, j: int|
        0 <= i < j < entries.len() ==> (#[trigger] entries[i]).0@ != (#[trigger] entries[j]).0@
}

/// The place of the entry with the identifier `id`, or the number of
/// entries where none has it.
pub open spec fn id_position(entries: Seq<(String, ApiWsDataHashMapValue)>, id: Seq<char>) -> int
    decreases entries.len(),
{
    if entries.len() == 0 {
        0
    } else if entries[0].0@ == id {
        0
    } else {
        1 + id_position(entries.drop_first(), id)
    }
}

/// The entries with one more put in, as into a map: it takes the place of
/// the entry with its identifier where there is one, and stands at the end
/// where there is none.
pub open spec fn with_entry(
    entries: Seq<(String, ApiWsDataHashMapValue)>,
    entry: (String, ApiWsDataHashMapValue),
) -> Seq<(String, ApiWsDataHashMapValue)> {
    let at = id_position(entries, entry.0@);
    if at < entries.len() {
        entries.update(at, entry)
    } else {
        entries.push(entry)
    }
}

/// The first entry with a given identifier stands where `id_position`
/// says, and no entry before it has that identifier.
pub proof fn lemma_id_position(entries: Seq<(String, ApiWsDataHashMapValue)>, id: Seq<char>)
    ensures
        0 <= id_position(entries, id) <= entries.len(),
        id_position(entries, id) < entries.len() ==> entries[id_position(entries, id)].0@ == id,
        forall|i: int| 0 <= i < id_position(entries, id) ==> (#[trigger] entries[i]).0@ != id,
    decreases entries.len(),
{
    if entries.len() > 0 && entries[0].0@ != id {
        let rest = entries.drop_first();
        lemma_id_position(rest, id);
        assert forall|i: int| 0 <= i < id_position(entries, id) implies (#[trigger] entries[i]).0@
            != id by {
            if i > 0 {
                assert(entries[i] == rest[i - 1]);
            }
        }
    }
}

/// Putting an entry into well-formed metrics leaves them well formed.
pub proof fn lemma_with_entry_unique(
    entries: Seq<(String, ApiWsDataHashMapValue)>,
    entry: (String, ApiWsDataHashMapValue),
)
    requires
        unique_ids(entries),
    ensures
        unique_ids(with_entry(entries, entry)),
{
    lemma_id_position(entries, entry.0@);
    let at = id_position(entries, entry.0@);
    let out = with_entry(entries, entry);
    assert forall|i: int, j: int| 0 <= i < j < out.len() implies (#[trigger] out[i]).0@ != (
    #[trigger] out[j]).0@ by {
        if at < entries.len() {
            assert(out[i].0@ == entries[i].0@);
            assert(out[j].0@ == entries[j].0@);
        } else if j < entries.len() {
            assert(out[i] == entries[i] && out[j] == entries[j]);
        } else {
            assert(out[i] == entries[i]);
        }
    }
}

impl ApiWsData {
    /// Whether the snapshot is well formed: no node identifier occurs twice
    /// among its metrics.
    pub open spec fn wf(&self) -> bool {
        unique_ids(self.data@)
    }

    /// A snapshot that names these nodes as online and holds no metrics yet.
    pub fn new(online: Vec<String>) -> (snapshot: ApiWsData)
        ensures
            snapshot.wf(),
            snapshot.online == online,
            snapshot.data@.len() == 0,
    {
        ApiWsData { online, data: Vec::new() }
    }

    /// Puts the metrics of a node into the snapshot, as into a map: they
    /// take the place of what the snapshot held for that node, if it held
    /// anything. A well-formed snapshot stays well formed.
    pub fn insert(&mut self, id: String, metrics: ApiWsDataHashMapValue)
        ensures
            final(self).online == old(self).online,
            final(self).data@ == with_entry(old(self).data@, (id, metrics)),
            old(self).wf() ==> final(self).wf(),
    {
        proof {
            lemma_id_position(self.data@, id@);
            if self.wf() {
                lemma_with_entry_unique(self.data@, (id, metrics));
            }
        }
        let mut at: usize = 0;
        while at < self.data.len() && !same_text(self.data[at].0.as_str(), id.as_str())
            invariant
                at <= self.data.len(),
                forall|i: int| 0 <= i < at ==> (#[trigger] self.data@[i]).0@ != id@,
            decreases self.data.len() - at,
        {
            at += 1;
        }
        if at < self.data.len() {
            self.data.set(at, (id, metrics));
        } else {
            self.data.push((id, metrics));
        }
    }
}

/// What one node reports of itself. The usage of the processor and the load
/// averages are fractions and not held here.
#[derive(Debug)]
pub struct ApiWsDataHashMapValue {
    pub ram: Ram,
    pub swap: Swap,
    pub disk: Disk,
    pub network: Network,
    pub connections: Connections,
    /// Seconds since the node started.
    pub uptime: u64,
    pub process: u32,
    pub message: Option<String>,
    pub updated_at: Option<String>,
}

/// Memory in use and in all, in bytes.
#[derive(Debug, Clone, Copy)]
pub struct Ram {
    pub total: u64,
    pub used: u64,
}

/// Swap space in use and in all, in bytes.
#[derive(Debug, Clone, Copy)]
pub struct Swap {
    pub total: u64,
    pub used: u64,
}

/// Disk space in use and in all, in bytes.
#[derive(Debug, Clone, Copy)]
pub struct Disk {
    pub total: u64,
    pub used: u64,
}

/// Network traffic: the current rates in bytes per second, and the bytes
/// counted since the node started.
#[derive(Debug, Clone, Copy)]
pub struct Network {
    pub up: u64,
    pub down: u64,
    pub total_up: u64,
    pub total_down: u64,
}

/// Open connections by protocol.
#[derive(Debug, Clone, Copy)]
pub struct Connections {
    pub tcp: u32,
    pub udp: u32,
}

/// A pair of addresses, or why there is none, as texts.
pub open spec fn addresses_result(r: Result<(String, String), ErrorString>) -> Result<
    (Seq<char>, Seq<char>),
    Seq<char>,
> {
    match r {
        Ok(pair) => Ok((pair.0@, pair.1@)),
        Err(text) => Err(text@),
    }
}

/// Decides where the stream of metrics of a user is asked for: the two
/// addresses that the profile holds, the one for requests first. A user
/// without a profile is told to connect first.
pub fn get_ws(monitor: Result<Option<Monitor>, ErrorString>) -> (addresses: Result<
    (String, String),
    ErrorString,
>)
    ensures
        addresses_result(addresses) == match monitor {
            Err(e) => Err::<(Seq<char>, Seq<char>), Seq<char>>(e@),
            Ok(None) => Err("服务器未连接，请先使用 /connect [http url] 连接"@),
            Ok(Some(profile)) => Ok((profile.monitor_http_url@, profile.monitor_ws_url@)),
        },
{
    match monitor {
        Err(e) => Err(e),
        Ok(None) => Err("服务器未连接，请先使用 /connect [http url] 连接".to_owned()),
        Ok(Some(profile)) => Ok((profile.monitor_http_url, profile.monitor_ws_url)),
    }
}

} // verus!
