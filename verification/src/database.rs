//! Devices and heartbeats as the database keeps them. A row holds no
//! optional text: what is missing is stored as the empty text.

use crate::text::{clone_opt_text, opt_text, text_or_empty, Text};
use vstd::prelude::*;

verus! {

/// A device as the database knows it.
#[derive(Debug, PartialEq, Eq)]
pub struct Device {
    pub id: String,
    pub hostname: String,
    pub os: String,
    pub arch: String,
    pub agent_version: String,
    pub local_ip: String,
    pub mac_address: Option<String>,
    pub gateway_ip: Option<String>,
    pub dns_servers: Option<String>,
    pub registered_at: i64,
    pub last_seen: i64,
    pub is_online: bool,
}

/// The value of a `Device`.
pub struct DeviceView {
    pub id: Text,
    pub hostname: Text,
    pub os: Text,
    pub arch: Text,
    pub agent_version: Text,
    pub local_ip: Text,
    pub mac_address: Option<Text>,
    pub gateway_ip: Option<Text>,
    pub dns_servers: Option<Text>,
    pub registered_at: i64,
    pub last_seen: i64,
    pub is_online: bool,
}

impl View for Device {
    type V = DeviceView;

    open spec fn view(&self) -> DeviceView {
        DeviceView {
            id: self.id@,
            hostname: self.hostname@,
            os: self.os@,
            arch: self.arch@,
            agent_version: self.agent_version@,
            local_ip: self.local_ip@,
            mac_address: opt_text(self.mac_address),
            gateway_ip: opt_text(self.gateway_ip),
            dns_servers: opt_text(self.dns_servers),
            registered_at: self.registered_at,
            last_seen: self.last_seen,
            is_online: self.is_online,
        }
    }
}

impl Clone for Device {
    fn clone(&self) -> (r: Self)
        ensures
            r@ == self@,
    {
        Device {
            id: self.id.clone(),
            hostname: self.hostname.clone(),
            os: self.os.clone(),
            arch: self.arch.clone(),
            agent_version: self.agent_version.clone(),
            local_ip: self.local_ip.clone(),
            mac_address: clone_opt_text(&self.mac_address),
            gateway_ip: clone_opt_text(&self.gateway_ip),
            dns_servers: clone_opt_text(&self.dns_servers),
            registered_at: self.registered_at,
            last_seen: self.last_seen,
            is_online: self.is_online,
        }
    }
}
/// A row of the table of devices.
#[derive(Debug, PartialEq, Eq)]
pub struct DeviceRow {
    pub id: String,
    pub hostname: String,
    pub os: String,
    pub arch: String,
    pub agent_version: String,
    pub local_ip: String,
    pub mac_address: String,
    pub gateway_ip: String,
    pub dns_servers: String,
    pub registered_at: i64,
    pub last_seen: i64,
    pub is_online: bool,
}

/// The value of a `DeviceRow`.
pub struct DeviceRowView {
    pub id: Text,
    pub hostname: Text,
    pub os: Text,
    pub arch: Text,
    pub agent_version: Text,
    pub local_ip: Text,
    pub mac_address: Text,
    pub gateway_ip: Text,
    pub dns_servers: Text,
    pub registered_at: i64,
    pub last_seen: i64,
    pub is_online: bool,
}

impl View for DeviceRow {
    type V = DeviceRowView;

    open spec fn view(&self) -> DeviceRowView {
        DeviceRowView {
            id: self.id@,
            hostname: self.hostname@,
            os: self.os@,
            arch: self.arch@,
            agent_version: self.agent_version@,
            local_ip: self.local_ip@,
            mac_address: self.mac_address@,
            gateway_ip: self.gateway_ip@,
            dns_servers: self.dns_servers@,
            registered_at: self.registered_at,
            last_seen: self.last_seen,
            is_online: self.is_online,
        }
    }
}

impl Clone for DeviceRow {
    fn clone(&self) -> (r: Self)
        ensures
            r@ == self@,
    {
        DeviceRow {
            id: self.id.clone(),
            hostname: self.hostname.clone(),
            os: self.os.clone(),
            arch: self.arch.clone(),
            agent_version: self.agent_version.clone(),
            local_ip: self.local_ip.clone(),
            mac_address: self.mac_address.clone(),
            gateway_ip: self.gateway_ip.clone(),
            dns_servers: self.dns_servers.clone(),
            registered_at: self.registered_at,
            last_seen: self.last_seen,
            is_online: self.is_online,
        }
    }
}
/// A heartbeat as the database knows it.
#[derive(Debug, PartialEq, Eq)]
pub struct Heartbeat {
    pub id: String,
    pub device_id: String,
    pub timestamp: i64,
    pub gateway_reachable: bool,
    pub dns_resolves: bool,
    pub https_latency_ms: Option<i64>,
    pub local_ports: Option<String>,
}

/// The value of a `Heartbeat`.
pub struct HeartbeatView {
    pub id: Text,
    pub device_id: Text,
    pub timestamp: i64,
    pub gateway_reachable: bool,
    pub dns_resolves: bool,
    pub https_latency_ms: Option<i64>,
    pub local_ports: Option<Text>,
}

impl View for Heartbeat {
    type V = HeartbeatView;

    open spec fn view(&self) -> HeartbeatView {
        HeartbeatView {
            id: self.id@,
            device_id: self.device_id@,
            timestamp: self.timestamp,
            gateway_reachable: self.gateway_reachable,
            dns_resolves: self.dns_resolves,
            https_latency_ms: self.https_latency_ms,
            local_ports: opt_text(self.local_ports),
        }
    }
}

impl Clone for Heartbeat {
    fn clone(&self) -> (r: Self)
        ensures
            r@ == self@,
    {
        Heartbeat {
            id: self.id.clone(),
            device_id: self.device_id.clone(),
            timestamp: self.timestamp,
            gateway_reachable: self.gateway_reachable,
            dns_resolves: self.dns_resolves,
            https_latency_ms: self.https_latency_ms,
            local_ports: clone_opt_text(&self.local_ports),
        }
    }
}
/// A row of the table of heartbeats.
#[derive(Debug, PartialEq, Eq)]
pub struct HeartbeatRow {
    pub id: String,
    pub device_id: String,
    pub timestamp: i64,
    pub gateway_reachable: bool,
    pub dns_resolves: bool,
    pub https_latency_ms: Option<i64>,
    pub local_ports: String,
}

/// The value of a `HeartbeatRow`.
pub struct HeartbeatRowView {
    pub id: Text,
    pub device_id: Text,
    pub timestamp: i64,
    pub gateway_reachable: bool,
    pub dns_resolves: bool,
    pub https_latency_ms: Option<i64>,
    pub local_ports: Text,
}

impl View for HeartbeatRow {
    type V = HeartbeatRowView;

    open spec fn view(&self) -> HeartbeatRowView {
        HeartbeatRowView {
            id: self.id@,
            device_id: self.device_id@,
            timestamp: self.timestamp,
            gateway_reachable: self.gateway_reachable,
            dns_resolves: self.dns_resolves,
            https_latency_ms: self.https_latency_ms,
            local_ports: self.local_ports@,
        }
    }
}

impl Clone for HeartbeatRow {
    fn clone(&self) -> (r: Self)
        ensures
            r@ == self@,
    {
        HeartbeatRow {
            id: self.id.clone(),
            device_id: self.device_id.clone(),
            timestamp: self.timestamp,
            gateway_reachable: self.gateway_reachable,
            dns_resolves: self.dns_resolves,
            https_latency_ms: self.https_latency_ms,
            local_ports: self.local_ports.clone(),
        }
    }
}
/// What a stored text stands for: nothing if it is empty.
pub open spec fn loaded(s: Text) -> Option<Text> {
    if s.len() == 0 {
        None
    } else {
        Some(s)
    }
}

fn load(s: String) -> (r: Option<String>)
    ensures
        opt_text(r) == loaded(s@),
{
    if s.as_str().is_empty() {
        None
    } else {
        Some(s)
    }
}

fn store(s: Option<String>) -> (r: String)
    ensures
        r@ == text_or_empty(opt_text(s)),
{
    match s {
        Some(t) => t,
        None => String::new(),
    }
}

/// The device that a row stands for.
pub open spec fn device_of_row(row: DeviceRowView) -> DeviceView {
    DeviceView {
        id: row.id,
        hostname: row.hostname,
        os: row.os,
        arch: row.arch,
        agent_version: row.agent_version,
        local_ip: row.local_ip,
        mac_address: loaded(row.mac_address),
        gateway_ip: loaded(row.gateway_ip),
        dns_servers: loaded(row.dns_servers),
        registered_at: row.registered_at,
        last_seen: row.last_seen,
        is_online: row.is_online,
    }
}

/// The row that a device is stored as.
pub open spec fn row_of_device(d: DeviceView) -> DeviceRowView {
    DeviceRowView {
        id: d.id,
        hostname: d.hostname,
        os: d.os,
        arch: d.arch,
        agent_version: d.agent_version,
        local_ip: d.local_ip,
        mac_address: text_or_empty(d.mac_address),
        gateway_ip: text_or_empty(d.gateway_ip),
        dns_servers: text_or_empty(d.dns_servers),
        registered_at: d.registered_at,
        last_seen: d.last_seen,
        is_online: d.is_online,
    }
}

/// The row that a heartbeat is stored as.
pub open spec fn row_of_heartbeat(h: HeartbeatView) -> HeartbeatRowView {
    HeartbeatRowView {
        id: h.id,
        device_id: h.device_id,
        timestamp: h.timestamp,
        gateway_reachable: h.gateway_reachable,
        dns_resolves: h.dns_resolves,
        https_latency_ms: h.https_latency_ms,
        local_ports: text_or_empty(h.local_ports),
    }
}

impl Device {
    /// The device that a row stands for.
    pub fn from_row(row: DeviceRow) -> (r: Self)
        ensures
            r@ == device_of_row(row@),
    {
        Device {
            id: row.id,
            hostname: row.hostname,
            os: row.os,
            arch: row.arch,
            agent_version: row.agent_version,
            local_ip: row.local_ip,
            mac_address: load(row.mac_address),
            gateway_ip: load(row.gateway_ip),
            dns_servers: load(row.dns_servers),
            registered_at: row.registered_at,
            last_seen: row.last_seen,
            is_online: row.is_online,
        }
    }

    /// The row that the device is stored as.
    pub fn into_row(self) -> (r: DeviceRow)
        ensures
            r@ == row_of_device(self@),
    {
        DeviceRow {
            id: self.id,
            hostname: self.hostname,
            os: self.os,
            arch: self.arch,
            agent_version: self.agent_version,
            local_ip: self.local_ip,
            mac_address: store(self.mac_address),
            gateway_ip: store(self.gateway_ip),
            dns_servers: store(self.dns_servers),
            registered_at: self.registered_at,
            last_seen: self.last_seen,
            is_online: self.is_online,
        }
    }
}

impl Heartbeat {
    /// The row that the heartbeat is stored as.
    pub fn into_row(self) -> (r: HeartbeatRow)
        ensures
            r@ == row_of_heartbeat(self@),
    {
        HeartbeatRow {
            id: self.id,
            device_id: self.device_id,
            timestamp: self.timestamp,
            gateway_reachable: self.gateway_reachable,
            dns_resolves: self.dns_resolves,
            https_latency_ms: self.https_latency_ms,
            local_ports: store(self.local_ports),
        }
    }
}

/// A device comes back from its row as it went in, unless one of its optional
/// texts was there and empty: that one comes back missing.
pub proof fn lemma_row_round_trip(d: DeviceView)
    requires
        d.mac_address != Some(Seq::<char>::empty()),
        d.gateway_ip != Some(Seq::<char>::empty()),
        d.dns_servers != Some(Seq::<char>::empty()),
    ensures
        device_of_row(row_of_device(d)) == d,
{
    assert(forall|t: Text| t.len() == 0 ==> t =~= Seq::<char>::empty());
}

} // verus!
