//! The report on all nodes of an instance together.

use vstd::prelude::*;
use crate::connection::api_nodes::{ApiNodes, ApiNodesData};
use crate::connection::ws_get::{ApiWs, ApiWsDataHashMapValue};
use crate::connection::{escaped, msg_fixer};
use crate::db::Monitor;
use crate::text::{decimal, push_decimal, push_signed_decimal, push_text, signed_decimal, text_result};
use crate::ErrorString;

verus! {

/// One of the counts that a node reports.
#[derive(Debug, Clone, Copy, PartialEq, Eq, Structural)]
pub enum Gauge {
    RamTotal,
    RamUsed,
    SwapTotal,
    SwapUsed,
    DiskTotal,
    DiskUsed,
    NetTotalDown,
    NetTotalUp,
    NetDown,
    NetUp,
    Tcp,
    Udp,
}

/// What a node reports for a gauge.
pub open spec fn reading(metrics: ApiWsDataHashMapValue, gauge: Gauge) -> nat {
    match gauge {
        Gauge::RamTotal => metrics.ram.total as nat,
        Gauge::RamUsed => metrics.ram.used as nat,
        Gauge::SwapTotal => metrics.swap.total as nat,
        Gauge::SwapUsed => metrics.swap.used as nat,
        Gauge::DiskTotal => metrics.disk.total as nat,
        Gauge::DiskUsed => metrics.disk.used as nat,
        Gauge::NetTotalDown => metrics.network.total_down as nat,
        Gauge::NetTotalUp => metrics.network.total_up as nat,
        Gauge::NetDown => metrics.network.down as nat,
        Gauge::NetUp => metrics.network.up as nat,
        Gauge::Tcp => metrics.connections.tcp as nat,
        Gauge::Udp => metrics.connections.udp as nat,
    }
}

/// What all nodes of a snapshot report for a gauge, added up.
pub open spec fn gauge_sum(entries: Seq<(String, ApiWsDataHashMapValue)>, gauge: Gauge) -> nat
    decreases entries.len(),
{
    if entries.len() == 0 {
        0
    } else {
        gauge_sum(entries.drop_last(), gauge) + reading(entries.last().1, gauge)
    }
}

/// The processor cores of all nodes of an inventory, added up.
pub open spec fn cores_sum(nodes: Seq<ApiNodesData>) -> int
    decreases nodes.len(),
{
    if nodes.len() == 0 {
        0
    } else {
        cores_sum(nodes.drop_last()) + nodes.last().cpu_cores as int
    }
}

/// Reads one gauge of a node.
fn read_gauge(metrics: &ApiWsDataHashMapValue, gauge: Gauge) -> (value: u64)
    ensures
        value == reading(*metrics, gauge),
{
    match gauge {
        Gauge::RamTotal => metrics.ram.total,
        Gauge::RamUsed => metrics.ram.used,
        Gauge::SwapTotal => metrics.swap.total,
        Gauge::SwapUsed => metrics.swap.used,
        Gauge::DiskTotal => metrics.disk.total,
        Gauge::DiskUsed => metrics.disk.used,
        Gauge::NetTotalDown => metrics.network.total_down,
        Gauge::NetTotalUp => metrics.network.total_up,
        Gauge::NetDown => metrics.network.down,
        Gauge::NetUp => metrics.network.up,
        Gauge::Tcp => metrics.connections.tcp as u64,
        Gauge::Udp => metrics.connections.udp as u64,
    }
}

/// Adds up what all nodes of a snapshot report for a gauge. The sum is
/// exact: it cannot leave the range of its type.
pub fn gauge_total(entries: &Vec<(String, ApiWsDataHashMapValue)>, gauge: Gauge) -> (total: u128)
    ensures
        total == gauge_sum(entries@, gauge),
{
    let mut total: u128 = 0;
    let mut i: usize = 0;
    assert(entries@.take(0) == Seq::<(String, ApiWsDataHashMapValue)>::empty());
    while i < entries.len()
        invariant
            i <= entries.len(),
            total == gauge_sum(entries@.take(i as int), gauge),
            total <= i * 0xffff_ffff_ffff_ffff,
        decreases entries.len() - i,
    {
        let value = read_gauge(&entries[i].1, gauge);
        proof {
            let more = entries@.take(i + 1);
            assert(more.drop_last() == entries@.take(i as int));
            assert(more.last() == entries@[i as int]);
        }
        total = total + value as u128;
        i += 1;
    }
    assert(entries@.take(entries@.len() as int) == entries@);
    total
}

/// Adds up the processor cores of all nodes of an inventory. The sum is
/// exact: it cannot leave the range of its type.
pub fn cores_total(nodes: &ApiNodes) -> (total: i128)
    ensures
        total == cores_sum(nodes.data@),
{
    let mut total: i128 = 0;
    let mut i: usize = 0;
    assert(nodes.data@.take(0) == Seq::<ApiNodesData>::empty());
    while i < nodes.data.len()
        invariant
            i <= nodes.data.len(),
            total == cores_sum(nodes.data@.take(i as int)),
            -(i * 0x8000_0000) <= total <= i * 0x8000_0000,
        decreases nodes.data.len() - i,
    {
        proof {
            let more = nodes.data@.take(i + 1);
            assert(more.drop_last() == nodes.data@.take(i as int));
            assert(more.last() == nodes.data@[i as int]);
        }
        total = total + nodes.data[i].cpu_cores as i128;
        i += 1;
    }
    assert(nodes.data@.take(nodes.data@.len() as int) == nodes.data@);
    total
}

/// The sums over all nodes of an instance that its report is made from.
#[derive(Debug)]
pub struct FleetTotals {
    /// How many nodes the snapshot names as online.
    pub online: usize,
    /// How many nodes the snapshot holds metrics of: what the averages over
    /// the nodes are divided by.
    pub reporting: usize,
    /// How many nodes the profile counts, whatever the inventory holds now:
    /// what the nodes online are set against.
    pub configured: u32,
    pub cores: i128,
    pub ram_total: u128,
    pub ram_used: u128,
    pub swap_total: u128,
    pub swap_used: u128,
    pub disk_total: u128,
    pub disk_used: u128,
    pub net_total_down: u128,
    pub net_total_up: u128,
    pub net_down: u128,
    pub net_up: u128,
    pub tcp: u128,
    pub udp: u128,
}

/// Adds up, over all nodes, what a snapshot and an inventory hold, and
/// names the two counts that shares and averages are taken of: the nodes
/// online are set against the number of nodes that the profile counts,
/// averages are taken over the nodes that the snapshot holds metrics of.
pub fn fleet_totals(ws_data: &ApiWs, nodes: &ApiNodes, profile: &Monitor) -> (totals: FleetTotals)
    ensures
        totals.online == ws_data.data.online@.len(),
        totals.reporting == ws_data.data.data@.len(),
        totals.configured == profile.total_server_count,
        totals.cores == cores_sum(nodes.data@),
        totals.ram_total == gauge_sum(ws_data.data.data@, Gauge::RamTotal),
        totals.ram_used == gauge_sum(ws_data.data.data@, Gauge::RamUsed),
        totals.swap_total == gauge_sum(ws_data.data.data@, Gauge::SwapTotal),
        totals.swap_used == gauge_sum(ws_data.data.data@, Gauge::SwapUsed),
        totals.disk_total == gauge_sum(ws_data.data.data@, Gauge::DiskTotal),
        totals.disk_used == gauge_sum(ws_data.data.data@, Gauge::DiskUsed),
        totals.net_total_down == gauge_sum(ws_data.data.data@, Gauge::NetTotalDown),
        totals.net_total_up == gauge_sum(ws_data.data.data@, Gauge::NetTotalUp),
        totals.net_down == gauge_sum(ws_data.data.data@, Gauge::NetDown),
        totals.net_up == gauge_sum(ws_data.data.data@, Gauge::NetUp),
        totals.tcp == gauge_sum(ws_data.data.data@, Gauge::Tcp),
        totals.udp == gauge_sum(ws_data.data.data@, Gauge::Udp),
{
    let entries = &ws_data.data.data;
    FleetTotals {
        online: ws_data.data.online.len(),
        reporting: entries.len(),
        configured: profile.total_server_count,
        cores: cores_total(nodes),
        ram_total: gauge_total(entries, Gauge::RamTotal),
        ram_used: gauge_total(entries, Gauge::RamUsed),
        swap_total: gauge_total(entries, Gauge::SwapTotal),
        swap_used: gauge_total(entries, Gauge::SwapUsed),
        disk_total: gauge_total(entries, Gauge::DiskTotal),
        disk_used: gauge_total(entries, Gauge::DiskUsed),
        net_total_down: gauge_total(entries, Gauge::NetTotalDown),
        net_total_up: gauge_total(entries, Gauge::NetTotalUp),
        net_down: gauge_total(entries, Gauge::NetDown),
        net_up: gauge_total(entries, Gauge::NetUp),
        tcp: gauge_total(entries, Gauge::Tcp),
        udp: gauge_total(entries, Gauge::Udp),
    }
}

/// The measurements of all nodes together as they are shown, each a numeral
/// with two decimal places.
#[derive(Debug)]
pub struct FleetFigures {
    /// The nodes online, in percent of the nodes that the profile counts.
    pub percent_online: String,
    /// The usage of the processors, in percent, on the average of the nodes
    /// that report.
    pub avg_cpu_usage: String,
    pub avg_load1: String,
    pub avg_load5: String,
    pub avg_load15: String,
    /// Memory in use, in gibibytes.
    pub total_used_ram: String,
    /// Memory in all, in gibibytes.
    pub total_total_ram: String,
    /// Memory in use, in percent of all.
    pub avg_ram_usage: String,
    pub total_used_swap: String,
    pub total_total_swap: String,
    pub avg_swap_usage: String,
    pub total_used_disk: String,
    pub total_total_disk: String,
    pub avg_disk_usage: String,
    /// All that came in since the nodes started, in gibibytes.
    pub total_total_net_down: String,
    /// All that went out since the nodes started, in gibibytes.
    pub total_total_net_up: String,
    /// What comes in at present, in megabits per second.
    pub total_net_down: String,
    /// What goes out at present, in megabits per second.
    pub total_net_up: String,
}

/// The first part of the report on all nodes: how many there are and how
/// busy they are.
pub open spec fn fleet_head(
    title: Seq<char>,
    online: nat,
    total_server_count: nat,
    cores: int,
    figures: FleetFigures,
) -> Seq<char> {
    title + " 总览\n\nONLINE: `"@ + decimal(online) + "` / `"@ + decimal(total_server_count) + "` `"@
        + figures.percent_online@ + "%`\nCPU CORES: `"@ + signed_decimal(cores) + "`\nAVG CPU: `"@
        + figures.avg_cpu_usage@ + "%`\nAVG LOAD: `"@ + figures.avg_load1@ + "` / `"@
        + figures.avg_load5@ + "` / `"@ + figures.avg_load15@ + "`"@
}

/// A report on all nodes with the part on memory and disks behind it.
pub open spec fn with_storage(text: Seq<char>, figures: FleetFigures) -> Seq<char> {
    text + "\n\nMEM: `"@ + figures.total_used_ram@ + " GB` / `"@ + figures.total_total_ram@
        + " GB` `"@ + figures.avg_ram_usage@ + "%`\nSWAP: `"@ + figures.total_used_swap@
        + " GB` / `"@ + figures.total_total_swap@ + " GB` `"@ + figures.avg_swap_usage@
        + "%`\nDISK: `"@ + figures.total_used_disk@ + " GB` / `"@ + figures.total_total_disk@
        + " GB` `"@ + figures.avg_disk_usage@ + "%`"@
}

/// A report on all nodes with the part on the network behind it.
pub open spec fn with_network(text: Seq<char>, figures: FleetFigures, tcp: nat, udp: nat) -> Seq<
    char,
> {
    text + "\n\nDOWN: `"@ + figures.total_total_net_down@ + " GB`\nUP: `"@
        + figures.total_total_net_up@ + " GB`\nDOWN SPEED: `"@ + figures.total_net_down@
        + " Mbps`\nUP SPEED: `"@ + figures.total_net_up@ + " Mbps`\nCONN: `"@ + decimal(tcp)
        + " TCP` / `"@ + decimal(udp) + " UDP`"@
}

/// The report on all nodes, before it is escaped. The nodes online are
/// those that the snapshot names so; they are set against the number of
/// nodes that the profile counts, whatever the inventory holds now.
pub open spec fn fleet_report(
    profile: Monitor,
    ws_data: ApiWs,
    nodes: ApiNodes,
    figures: FleetFigures,
) -> Seq<char> {
    with_network(
        with_storage(
            fleet_head(
                profile.site_name@,
                ws_data.data.online@.len(),
                profile.total_server_count as nat,
                cores_sum(nodes.data@),
                figures,
            ),
            figures,
        ),
        figures,
        gauge_sum(ws_data.data.data@, Gauge::Tcp),
        gauge_sum(ws_data.data.data@, Gauge::Udp),
    )
}

/// What a request for the report on all nodes comes to, from what was
/// read: the snapshot, the inventory and the profile of the user. A failure
/// of the snapshot comes first and is reported as a failure to reach the
/// instance, then one of the inventory, then one of the profile.
pub open spec fn total_status(
    ws_data: Result<ApiWs, ErrorString>,
    nodes: Result<ApiNodes, ErrorString>,
    monitor: Result<Option<Monitor>, ErrorString>,
    figures: FleetFigures,
) -> Result<Seq<char>, Seq<char>> {
    match ws_data {
        Err(e) => Err("无法连接到 Komari Websocket 服务器: "@ + e@),
        Ok(snapshot) => match nodes {
            Err(e) => Err(e@),
            Ok(inventory) => match monitor {
                Err(e) => Err(e@),
                Ok(None) => Err("服务器未连接，请先使用 /connect [http url] 连接"@),
                Ok(Some(profile)) => Ok(
                    escaped(fleet_report(profile, snapshot, inventory, figures)),
                ),
            },
        },
    }
}

/// Writes the report on all nodes.
fn write_fleet_report(
    profile: &Monitor,
    ws_data: &ApiWs,
    nodes: &ApiNodes,
    figures: &FleetFigures,
) -> (text: String)
    ensures
        text@ == fleet_report(*profile, *ws_data, *nodes, *figures),
{
    let cores = cores_total(nodes);
    let tcp = gauge_total(&ws_data.data.data, Gauge::Tcp);
    let udp = gauge_total(&ws_data.data.data, Gauge::Udp);
    let mut text = profile.site_name.as_str().to_owned();
    push_text(&mut text, " 总览\n\nONLINE: `");
    push_decimal(&mut text, ws_data.data.online.len() as u128);
    push_text(&mut text, "` / `");
    push_decimal(&mut text, profile.total_server_count as u128);
    push_text(&mut text, "` `");
    push_text(&mut text, figures.percent_online.as_str());
    push_text(&mut text, "%`\nCPU CORES: `");
    push_signed_decimal(&mut text, cores);
    push_text(&mut text, "`\nAVG CPU: `");
    push_text(&mut text, figures.avg_cpu_usage.as_str());
    push_text(&mut text, "%`\nAVG LOAD: `");
    push_text(&mut text, figures.avg_load1.as_str());
    push_text(&mut text, "` / `");
    push_text(&mut text, figures.avg_load5.as_str());
    push_text(&mut text, "` / `");
    push_text(&mut text, figures.avg_load15.as_str());
    push_text(&mut text, "`");
    let ghost head = text@;
    push_text(&mut text, "\n\nMEM: `");
    push_text(&mut text, figures.total_used_ram.as_str());
    push_text(&mut text, " GB` / `");
    push_text(&mut text, figures.total_total_ram.as_str());
    push_text(&mut text, " GB` `");
    push_text(&mut text, figures.avg_ram_usage.as_str());
    push_text(&mut text, "%`\nSWAP: `");
    push_text(&mut text, figures.total_used_swap.as_str());
    push_text(&mut text, " GB` / `");
    push_text(&mut text, figures.total_total_swap.as_str());
    push_text(&mut text, " GB` `");
    push_text(&mut text, figures.avg_swap_usage.as_str());
    push_text(&mut text, "%`\nDISK: `");
    push_text(&mut text, figures.total_used_disk.as_str());
    push_text(&mut text, " GB` / `");
    push_text(&mut text, figures.total_total_disk.as_str());
    push_text(&mut text, " GB` `");
    push_text(&mut text, figures.avg_disk_usage.as_str());
    push_text(&mut text, "%`");
    assert(text@ == with_storage(head, *figures));
    let ghost storage = text@;
    push_text(&mut text, "\n\nDOWN: `");
    push_text(&mut text, figures.total_total_net_down.as_str());
    push_text(&mut text, " GB`\nUP: `");
    push_text(&mut text, figures.total_total_net_up.as_str());
    push_text(&mut text, " GB`\nDOWN SPEED: `");
    push_text(&mut text, figures.total_net_down.as_str());
    push_text(&mut text, " Mbps`\nUP SPEED: `");
    push_text(&mut text, figures.total_net_up.as_str());
    push_text(&mut text, " Mbps`\nCONN: `");
    push_decimal(&mut text, tcp);
    push_text(&mut text, " TCP` / `");
    push_decimal(&mut text, udp);
    push_text(&mut text, " UDP`");
    assert(text@ == with_network(storage, *figures, tcp as nat, udp as nat));
    text
}

/// Makes the report on all nodes from what was read for it: the snapshot,
/// the inventory, the profile of the user, and the measurements of all
/// nodes together as they are shown. The report carries the site's name
/// and is escaped for the chat. The measurements are read only where there
/// is something to report on.
pub fn parse_ws_total_status(
    ws_data: Result<ApiWs, ErrorString>,
    nodes: Result<ApiNodes, ErrorString>,
    monitor: Result<Option<Monitor>, ErrorString>,
    figures: &FleetFigures,
) -> (report: Result<String, ErrorString>)
    ensures
        text_result(report) == total_status(ws_data, nodes, monitor, *figures),
{
    let snapshot = match ws_data {
        Err(e) => {
            let mut text = "无法连接到 Komari Websocket 服务器: ".to_owned();
            push_text(&mut text, e.as_str());
            return Err(text);
        },
        Ok(snapshot) => snapshot,
    };
    let inventory = match nodes {
        Err(e) => {
            return Err(e);
        },
        Ok(inventory) => inventory,
    };
    let profile = match monitor {
        Err(e) => {
            return Err(e);
        },
        Ok(None) => {
            return Err("服务器未连接，请先使用 /connect [http url] 连接".to_owned());
        },
        Ok(Some(profile)) => profile,
    };
    Ok(msg_fixer(write_fleet_report(&profile, &snapshot, &inventory, figures)))
}

} // verus!
