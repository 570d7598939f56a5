//! The records that the admin keeps and shows: devices, tasks, topology,
//! activity and log entries. Each has a view, its value with every string
//! taken as a sequence of characters, and the contracts of this crate speak of
//! the views.

use crate::json::value_clone;
use crate::text::{clone_opt_text, clone_texts, opt_text, texts, views, Text};
use vstd::prelude::*;

verus! {

/// One line of an ARP table: an address and the hardware address seen for it.
#[derive(Debug, PartialEq, Eq)]
pub struct ArpEntry {
    pub ip: String,
    pub mac: String,
}

/// The value of an `ArpEntry`.
pub struct ArpEntryView {
    pub ip: Text,
    pub mac: Text,
}

impl View for ArpEntry {
    type V = ArpEntryView;

    open spec fn view(&self) -> ArpEntryView {
        ArpEntryView {
            ip: self.ip@,
            mac: self.mac@,
        }
    }
}

impl Clone for ArpEntry {
    fn clone(&self) -> (r: Self)
        ensures
            r@ == self@,
    {
        ArpEntry {
            ip: self.ip.clone(),
            mac: self.mac.clone(),
        }
    }
}
/// What a host reports of its own network attachment.
#[derive(Debug, PartialEq, Eq)]
pub struct NetworkFactsPayload {
    /// Primary address; blank if unknown.
    pub ip: String,
    /// The network in CIDR form; blank if unknown.
    pub subnet_cidr: String,
    /// Address of the default gateway; blank if unknown.
    pub default_gateway_ip: String,
    /// `wifi`, `ethernet` or whatever the host calls it.
    pub interface_type: String,
    pub mac: Option<String>,
    pub gateway_mac: Option<String>,
    pub dhcp_server_ip: Option<String>,
    pub ssid: Option<String>,
    pub arp_snapshot: Vec<ArpEntry>,
}

/// The value of a `NetworkFactsPayload`.
pub struct NetworkFactsPayloadView {
    pub ip: Text,
    pub subnet_cidr: Text,
    pub default_gateway_ip: Text,
    pub interface_type: Text,
    pub mac: Option<Text>,
    pub gateway_mac: Option<Text>,
    pub dhcp_server_ip: Option<Text>,
    pub ssid: Option<Text>,
    pub arp_snapshot: Seq<ArpEntryView>,
}

impl View for NetworkFactsPayload {
    type V = NetworkFactsPayloadView;

    open spec fn view(&self) -> NetworkFactsPayloadView {
        NetworkFactsPayloadView {
            ip: self.ip@,
            subnet_cidr: self.subnet_cidr@,
            default_gateway_ip: self.default_gateway_ip@,
            interface_type: self.interface_type@,
            mac: opt_text(self.mac),
            gateway_mac: opt_text(self.gateway_mac),
            dhcp_server_ip: opt_text(self.dhcp_server_ip),
            ssid: opt_text(self.ssid),
            arp_snapshot: views(self.arp_snapshot@),
        }
    }
}

impl Clone for NetworkFactsPayload {
    fn clone(&self) -> (r: Self)
        ensures
            r@ == self@,
    {
        let arp_snapshot = self.arp_snapshot.clone();
        assert(views(arp_snapshot@) =~= views(self.arp_snapshot@));
        NetworkFactsPayload {
            ip: self.ip.clone(),
            subnet_cidr: self.subnet_cidr.clone(),
            default_gateway_ip: self.default_gateway_ip.clone(),
            interface_type: self.interface_type.clone(),
            mac: clone_opt_text(&self.mac),
            gateway_mac: clone_opt_text(&self.gateway_mac),
            dhcp_server_ip: clone_opt_text(&self.dhcp_server_ip),
            ssid: clone_opt_text(&self.ssid),
            arp_snapshot,
        }
    }
}
/// Everything known of one agent. Created by its first successful register,
/// updated by every register and heartbeat, never removed: a device that is
/// gone has the status `offline`.
#[derive(Debug, PartialEq, Eq)]
pub struct DeviceRecord {
    /// The agent's own identifier, the key of the record.
    pub agent_id: String,
    pub hostname: String,
    pub ips: Vec<String>,
    pub os: String,
    pub version: String,
    /// `online`, `offline`, or what the agent last reported.
    pub status: String,
    pub last_seen_ms: i64,
    pub internet_reachable: Option<bool>,
    pub dns_ok: Option<bool>,
    pub gateway_reachable: Option<bool>,
    pub latency_ms: Option<i64>,
    pub last_internet_change_ms: Option<i64>,
    pub last_dns_change_ms: Option<i64>,
    /// Time of the first register; later ones leave it alone.
    pub first_seen_ms: i64,
    pub ip: Option<String>,
    pub subnet_cidr: Option<String>,
    pub default_gateway_ip: Option<String>,
    pub interface_type: Option<String>,
    pub mac: Option<String>,
    pub gateway_mac: Option<String>,
    pub dhcp_server_ip: Option<String>,
    pub ssid: Option<String>,
    pub arp_snapshot: Vec<ArpEntry>,
}

/// The value of a `DeviceRecord`.
pub struct DeviceRecordView {
    pub agent_id: Text,
    pub hostname: Text,
    pub ips: Seq<Text>,
    pub os: Text,
    pub version: Text,
    pub status: Text,
    pub last_seen_ms: i64,
    pub internet_reachable: Option<bool>,
    pub dns_ok: Option<bool>,
    pub gateway_reachable: Option<bool>,
    pub latency_ms: Option<i64>,
    pub last_internet_change_ms: Option<i64>,
    pub last_dns_change_ms: Option<i64>,
    pub first_seen_ms: i64,
    pub ip: Option<Text>,
    pub subnet_cidr: Option<Text>,
    pub default_gateway_ip: Option<Text>,
    pub interface_type: Option<Text>,
    pub mac: Option<Text>,
    pub gateway_mac: Option<Text>,
    pub dhcp_server_ip: Option<Text>,
    pub ssid: Option<Text>,
    pub arp_snapshot: Seq<ArpEntryView>,
}

impl View for DeviceRecord {
    type V = DeviceRecordView;

    open spec fn view(&self) -> DeviceRecordView {
        DeviceRecordView {
            agent_id: self.agent_id@,
            hostname: self.hostname@,
            ips: texts(self.ips@),
            os: self.os@,
            version: self.version@,
            status: self.status@,
            last_seen_ms: self.last_seen_ms,
            internet_reachable: self.internet_reachable,
            dns_ok: self.dns_ok,
            gateway_reachable: self.gateway_reachable,
            latency_ms: self.latency_ms,
            last_internet_change_ms: self.last_internet_change_ms,
            last_dns_change_ms: self.last_dns_change_ms,
            first_seen_ms: self.first_seen_ms,
            ip: opt_text(self.ip),
            subnet_cidr: opt_text(self.subnet_cidr),
            default_gateway_ip: opt_text(self.default_gateway_ip),
            interface_type: opt_text(self.interface_type),
            mac: opt_text(self.mac),
            gateway_mac: opt_text(self.gateway_mac),
            dhcp_server_ip: opt_text(self.dhcp_server_ip),
            ssid: opt_text(self.ssid),
            arp_snapshot: views(self.arp_snapshot@),
        }
    }
}

impl Clone for DeviceRecord {
    fn clone(&self) -> (r: Self)
        ensures
            r@ == self@,
    {
        let arp_snapshot = self.arp_snapshot.clone();
        assert(views(arp_snapshot@) =~= views(self.arp_snapshot@));
        DeviceRecord {
            agent_id: self.agent_id.clone(),
            hostname: self.hostname.clone(),
            ips: clone_texts(&self.ips),
            os: self.os.clone(),
            version: self.version.clone(),
            status: self.status.clone(),
            last_seen_ms: self.last_seen_ms,
            internet_reachable: self.internet_reachable,
            dns_ok: self.dns_ok,
            gateway_reachable: self.gateway_reachable,
            latency_ms: self.latency_ms,
            last_internet_change_ms: self.last_internet_change_ms,
            last_dns_change_ms: self.last_dns_change_ms,
            first_seen_ms: self.first_seen_ms,
            ip: clone_opt_text(&self.ip),
            subnet_cidr: clone_opt_text(&self.subnet_cidr),
            default_gateway_ip: clone_opt_text(&self.default_gateway_ip),
            interface_type: clone_opt_text(&self.interface_type),
            mac: clone_opt_text(&self.mac),
            gateway_mac: clone_opt_text(&self.gateway_mac),
            dhcp_server_ip: clone_opt_text(&self.dhcp_server_ip),
            ssid: clone_opt_text(&self.ssid),
            arp_snapshot,
        }
    }
}
/// All devices, in the order of their first register.
#[derive(Debug, PartialEq, Eq)]
pub struct DevicesSnapshot {
    pub devices: Vec<DeviceRecord>,
}

/// The value of a `DevicesSnapshot`.
pub struct DevicesSnapshotView {
    pub devices: Seq<DeviceRecordView>,
}

impl View for DevicesSnapshot {
    type V = DevicesSnapshotView;

    open spec fn view(&self) -> DevicesSnapshotView {
        DevicesSnapshotView {
            devices: views(self.devices@),
        }
    }
}

impl Clone for DevicesSnapshot {
    fn clone(&self) -> (r: Self)
        ensures
            r@ == self@,
    {
        let devices = self.devices.clone();
        assert(views(devices@) =~= views(self.devices@));
        DevicesSnapshot {
            devices,
        }
    }
}
/// A vertex of the topology graph: a subnet, a gateway, an unknown hub, the
/// admin itself or a host.
#[derive(Debug, PartialEq, Eq)]
pub struct TopologyNode {
    pub id: String,
    /// `subnet`, `gateway`, `unknown_hub`, `admin` or `host`.
    pub node_type: String,
    pub label: String,
    pub subnet_cidr: Option<String>,
    pub gateway_ip: Option<String>,
    pub agent_id: Option<String>,
    pub interface_type: Option<String>,
    /// For gateways and hubs: how many hosts, the admin included, hang on them.
    pub attached_count: Option<usize>,
}

/// The value of a `TopologyNode`.
pub struct TopologyNodeView {
    pub id: Text,
    pub node_type: Text,
    pub label: Text,
    pub subnet_cidr: Option<Text>,
    pub gateway_ip: Option<Text>,
    pub agent_id: Option<Text>,
    pub interface_type: Option<Text>,
    pub attached_count: Option<usize>,
}

impl View for TopologyNode {
    type V = TopologyNodeView;

    open spec fn view(&self) -> TopologyNodeView {
        TopologyNodeView {
            id: self.id@,
            node_type: self.node_type@,
            label: self.label@,
            subnet_cidr: opt_text(self.subnet_cidr),
            gateway_ip: opt_text(self.gateway_ip),
            agent_id: opt_text(self.agent_id),
            interface_type: opt_text(self.interface_type),
            attached_count: self.attached_count,
        }
    }
}

impl Clone for TopologyNode {
    fn clone(&self) -> (r: Self)
        ensures
            r@ == self@,
    {
        TopologyNode {
            id: self.id.clone(),
            node_type: self.node_type.clone(),
            label: self.label.clone(),
            subnet_cidr: clone_opt_text(&self.subnet_cidr),
            gateway_ip: clone_opt_text(&self.gateway_ip),
            agent_id: clone_opt_text(&self.agent_id),
            interface_type: clone_opt_text(&self.interface_type),
            attached_count: self.attached_count,
        }
    }
}
/// An attachment of a child node to its parent.
#[derive(Debug, PartialEq, Eq)]
pub struct TopologyEdge {
    pub id: String,
    pub child_id: String,
    pub parent_id: String,
    /// `evidence` for an attachment that was reported, `heuristic` for one that was inferred.
    pub method: String,
    /// How sure the attachment is, in hundredths.
    pub confidence_pct: u8,
}

/// The value of a `TopologyEdge`.
pub struct TopologyEdgeView {
    pub id: Text,
    pub child_id: Text,
    pub parent_id: Text,
    pub method: Text,
    pub confidence_pct: u8,
}

impl View for TopologyEdge {
    type V = TopologyEdgeView;

    open spec fn view(&self) -> TopologyEdgeView {
        TopologyEdgeView {
            id: self.id@,
            child_id: self.child_id@,
            parent_id: self.parent_id@,
            method: self.method@,
            confidence_pct: self.confidence_pct,
        }
    }
}

impl Clone for TopologyEdge {
    fn clone(&self) -> (r: Self)
        ensures
            r@ == self@,
    {
        TopologyEdge {
            id: self.id.clone(),
            child_id: self.child_id.clone(),
            parent_id: self.parent_id.clone(),
            method: self.method.clone(),
            confidence_pct: self.confidence_pct,
        }
    }
}
/// The topology graph as last published.
#[derive(Debug, PartialEq, Eq)]
pub struct TopologySnapshot {
    pub revision: u64,
    pub updated_at: i64,
    pub nodes: Vec<TopologyNode>,
    pub edges: Vec<TopologyEdge>,
}

/// The value of a `TopologySnapshot`.
pub struct TopologySnapshotView {
    pub revision: u64,
    pub updated_at: i64,
    pub nodes: Seq<TopologyNodeView>,
    pub edges: Seq<TopologyEdgeView>,
}

impl View for TopologySnapshot {
    type V = TopologySnapshotView;

    open spec fn view(&self) -> TopologySnapshotView {
        TopologySnapshotView {
            revision: self.revision,
            updated_at: self.updated_at,
            nodes: views(self.nodes@),
            edges: views(self.edges@),
        }
    }
}

impl Clone for TopologySnapshot {
    fn clone(&self) -> (r: Self)
        ensures
            r@ == self@,
    {
        let nodes = self.nodes.clone();
        assert(views(nodes@) =~= views(self.nodes@));
        let edges = self.edges.clone();
        assert(views(edges@) =~= views(self.edges@));
        TopologySnapshot {
            revision: self.revision,
            updated_at: self.updated_at,
            nodes,
            edges,
        }
    }
}
/// What one agent reported of one task.
#[derive(Debug, PartialEq, Eq)]
pub struct TaskResultRecord {
    pub agent_id: String,
    pub ok: bool,
    pub result: serde_json::Value,
    pub error: Option<String>,
    pub ts: i64,
}

/// The value of a `TaskResultRecord`.
pub struct TaskResultRecordView {
    pub agent_id: Text,
    pub ok: bool,
    pub result: serde_json::Value,
    pub error: Option<Text>,
    pub ts: i64,
}

impl View for TaskResultRecord {
    type V = TaskResultRecordView;

    open spec fn view(&self) -> TaskResultRecordView {
        TaskResultRecordView {
            agent_id: self.agent_id@,
            ok: self.ok,
            result: self.result,
            error: opt_text(self.error),
            ts: self.ts,
        }
    }
}

impl Clone for TaskResultRecord {
    fn clone(&self) -> (r: Self)
        ensures
            r@ == self@,
    {
        TaskResultRecord {
            agent_id: self.agent_id.clone(),
            ok: self.ok,
            result: value_clone(&self.result),
            error: clone_opt_text(&self.error),
            ts: self.ts,
        }
    }
}
/// A task: what was asked, of whom, and what has come back.
#[derive(Debug, PartialEq, Eq)]
pub struct TaskRecord {
    pub task_id: String,
    /// `ping`, `port_scan` or `arp_snapshot`.
    pub kind: String,
    pub params: serde_json::Value,
    pub assigned_agents: Vec<String>,
    /// `queued`, `running`, `done` or `failed`.
    pub status: String,
    pub created_at: i64,
    pub started_at: Option<i64>,
    pub ended_at: Option<i64>,
    /// At most one per agent.
    pub results: Vec<TaskResultRecord>,
}

/// The value of a `TaskRecord`.
pub struct TaskRecordView {
    pub task_id: Text,
    pub kind: Text,
    pub params: serde_json::Value,
    pub assigned_agents: Seq<Text>,
    pub status: Text,
    pub created_at: i64,
    pub started_at: Option<i64>,
    pub ended_at: Option<i64>,
    pub results: Seq<TaskResultRecordView>,
}

impl View for TaskRecord {
    type V = TaskRecordView;

    open spec fn view(&self) -> TaskRecordView {
        TaskRecordView {
            task_id: self.task_id@,
            kind: self.kind@,
            params: self.params,
            assigned_agents: texts(self.assigned_agents@),
            status: self.status@,
            created_at: self.created_at,
            started_at: self.started_at,
            ended_at: self.ended_at,
            results: views(self.results@),
        }
    }
}

impl Clone for TaskRecord {
    fn clone(&self) -> (r: Self)
        ensures
            r@ == self@,
    {
        let results = self.results.clone();
        assert(views(results@) =~= views(self.results@));
        TaskRecord {
            task_id: self.task_id.clone(),
            kind: self.kind.clone(),
            params: value_clone(&self.params),
            assigned_agents: clone_texts(&self.assigned_agents),
            status: self.status.clone(),
            created_at: self.created_at,
            started_at: self.started_at,
            ended_at: self.ended_at,
            results,
        }
    }
}
/// All tasks, newest first.
#[derive(Debug, PartialEq, Eq)]
pub struct TasksSnapshot {
    pub tasks: Vec<TaskRecord>,
}

/// The value of a `TasksSnapshot`.
pub struct TasksSnapshotView {
    pub tasks: Seq<TaskRecordView>,
}

impl View for TasksSnapshot {
    type V = TasksSnapshotView;

    open spec fn view(&self) -> TasksSnapshotView {
        TasksSnapshotView {
            tasks: views(self.tasks@),
        }
    }
}

impl Clone for TasksSnapshot {
    fn clone(&self) -> (r: Self)
        ensures
            r@ == self@,
    {
        let tasks = self.tasks.clone();
        assert(views(tasks@) =~= views(self.tasks@));
        TasksSnapshot {
            tasks,
        }
    }
}
/// An entry of the activity feed.
#[derive(Debug, PartialEq, Eq)]
pub struct ActivityEvent {
    pub id: String,
    pub kind: String,
    pub agent_id: Option<String>,
    pub message: String,
    pub ts: i64,
    /// Present once later events were merged into this one: how many it stands for.
    pub count: Option<u32>,
}

/// The value of an `ActivityEvent`.
pub struct ActivityEventView {
    pub id: Text,
    pub kind: Text,
    pub agent_id: Option<Text>,
    pub message: Text,
    pub ts: i64,
    pub count: Option<u32>,
}

impl View for ActivityEvent {
    type V = ActivityEventView;

    open spec fn view(&self) -> ActivityEventView {
        ActivityEventView {
            id: self.id@,
            kind: self.kind@,
            agent_id: opt_text(self.agent_id),
            message: self.message@,
            ts: self.ts,
            count: self.count,
        }
    }
}

impl Clone for ActivityEvent {
    fn clone(&self) -> (r: Self)
        ensures
            r@ == self@,
    {
        ActivityEvent {
            id: self.id.clone(),
            kind: self.kind.clone(),
            agent_id: clone_opt_text(&self.agent_id),
            message: self.message.clone(),
            ts: self.ts,
            count: self.count,
        }
    }
}
/// The activity feed, newest first.
#[derive(Debug, PartialEq, Eq)]
pub struct ActivitySnapshot {
    pub events: Vec<ActivityEvent>,
}

/// The value of an `ActivitySnapshot`.
pub struct ActivitySnapshotView {
    pub events: Seq<ActivityEventView>,
}

impl View for ActivitySnapshot {
    type V = ActivitySnapshotView;

    open spec fn view(&self) -> ActivitySnapshotView {
        ActivitySnapshotView {
            events: views(self.events@),
        }
    }
}

impl Clone for ActivitySnapshot {
    fn clone(&self) -> (r: Self)
        ensures
            r@ == self@,
    {
        let events = self.events.clone();
        assert(views(events@) =~= views(self.events@));
        ActivitySnapshot {
            events,
        }
    }
}
/// An entry of the log.
#[derive(Debug, PartialEq, Eq)]
pub struct LogEvent {
    pub id: String,
    pub agent_id: Option<String>,
    /// `DEBUG`, `INFO`, `WARN` or `ERROR`.
    pub level: String,
    pub message: String,
    pub ts: i64,
}

/// The value of a `LogEvent`.
pub struct LogEventView {
    pub id: Text,
    pub agent_id: Option<Text>,
    pub level: Text,
    pub message: Text,
    pub ts: i64,
}

impl View for LogEvent {
    type V = LogEventView;

    open spec fn view(&self) -> LogEventView {
        LogEventView {
            id: self.id@,
            agent_id: opt_text(self.agent_id),
            level: self.level@,
            message: self.message@,
            ts: self.ts,
        }
    }
}

impl Clone for LogEvent {
    fn clone(&self) -> (r: Self)
        ensures
            r@ == self@,
    {
        LogEvent {
            id: self.id.clone(),
            agent_id: clone_opt_text(&self.agent_id),
            level: self.level.clone(),
            message: self.message.clone(),
            ts: self.ts,
        }
    }
}
/// Whether the server is up, and the two ports it uses.
#[derive(Clone, Copy, Debug, PartialEq, Eq)]
pub struct ServerStatus {
    pub online: bool,
    pub port_ws: u16,
    pub port_udp: u16,
}

impl Default for NetworkFactsPayload {
    fn default() -> (r: Self)
        ensures
            r@ == NetworkFactsPayloadView::blank(),
    {
        let r = NetworkFactsPayload {
            ip: String::new(),
            subnet_cidr: String::new(),
            default_gateway_ip: String::new(),
            interface_type: String::new(),
            mac: None,
            gateway_mac: None,
            dhcp_server_ip: None,
            ssid: None,
            arp_snapshot: Vec::new(),
        };
        assert(r@.arp_snapshot =~= Seq::empty());
        r
    }
}

impl NetworkFactsPayloadView {
    /// Facts that say nothing.
    pub open spec fn blank() -> Self {
        NetworkFactsPayloadView {
            ip: Seq::empty(),
            subnet_cidr: Seq::empty(),
            default_gateway_ip: Seq::empty(),
            interface_type: Seq::empty(),
            mac: None,
            gateway_mac: None,
            dhcp_server_ip: None,
            ssid: None,
            arp_snapshot: Seq::empty(),
        }
    }
}

} // verus!
