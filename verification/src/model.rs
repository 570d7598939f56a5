//! The state of the admin as a mathematical value, and what each step of the
//! protocol makes of it. The executable state in `state` is held to these
//! functions.

use crate::json::{json_bool, json_i64, json_member};
use crate::network::with_network;
use crate::records::{
    ActivityEventView, DeviceRecordView, LogEventView, NetworkFactsPayloadView,
    TaskRecordView, TaskResultRecordView, TopologySnapshotView,
};
use crate::text::{index_of, Text};
use crate::topology::{key_of, topology_of};
use crate::wire::{HeartbeatPayloadView, RegisterPayloadView, TaskResultPayloadView};
use vstd::prelude::*;

verus! {

/// The state of the admin.
pub struct ServerState {
    /// Whether the agent endpoint is listening.
    pub online: bool,
    /// The shared secret that a register must carry.
    pub pair_token: Text,
    /// The devices, in the order of their first register.
    pub devices: Seq<DeviceRecordView>,
    /// The tasks, in the order of their creation.
    pub tasks: Seq<TaskRecordView>,
    /// The log, newest entry first.
    pub logs: Seq<LogEventView>,
    /// The activity feed, newest entry first.
    pub activity: Seq<ActivityEventView>,
    /// The agents that have an outbound channel.
    pub connections: Set<Text>,
    /// For each agent, when a device update was last shown.
    pub last_device_emit_ms: Map<Text, i64>,
    /// For each agent, when an activity entry was last shown.
    pub last_activity_emit_ms: Map<Text, i64>,
    /// The topology as last published.
    pub topology: TopologySnapshotView,
    /// The structural key of the topology as last published.
    pub topology_key: Text,
    /// The admin's own network facts.
    pub admin_network: NetworkFactsPayloadView,
}

/// The longest the log gets.
pub const MAX_LOGS: usize = 400;

/// The longest the activity feed gets.
pub const MAX_ACTIVITY: usize = 200;

/// How long an agent may stay silent before it counts as gone.
pub const HEARTBEAT_TIMEOUT_MS: i64 = 20_000;

/// The least time between two unforced device updates of one agent.
pub const DEVICE_EMIT_THROTTLE_MS: i64 = 1_000;

/// The least time between two activity entries of one agent.
pub const DEVICE_ACTIVITY_RATE_MS: i64 = 5_000;

/// How long an activity entry takes later ones of its kind and agent into
/// itself.
pub const ACTIVITY_DEDUPE_MS: i64 = 30_000;

/// The port of the agent endpoint.
pub const WS_PORT: u16 = 8148;

/// The port of the pairing broadcast.
pub const UDP_PORT: u16 = 8870;

/// The identifiers of the devices, in their order.
pub open spec fn device_ids(devices: Seq<DeviceRecordView>) -> Seq<Text> {
    Seq::new(devices.len(), |i: int| devices[i].agent_id)
}

/// The identifiers of the tasks, in their order.
pub open spec fn task_ids(tasks: Seq<TaskRecordView>) -> Seq<Text> {
    Seq::new(tasks.len(), |i: int| tasks[i].task_id)
}

/// Whether no identifier stands twice.
pub open spec fn distinct(ids: Seq<Text>) -> bool {
    forall|i: int, j: int| 0 <= i < j < ids.len() ==> ids[i] != ids[j]
}

/// Whether the state is sound: one record for each device and each task, and
/// the two feeds within their lengths.
pub open spec fn sound(s: ServerState) -> bool {
    &&& distinct(device_ids(s.devices))
    &&& distinct(task_ids(s.tasks))
    &&& s.logs.len() <= MAX_LOGS
    &&& s.activity.len() <= MAX_ACTIVITY
}

/// How many events the newest activity entry stands for.
pub open spec fn count_or_one(e: ActivityEventView) -> int {
    match e.count {
        Some(c) => c as int,
        None => 1,
    }
}

/// Whether the count of the newest activity entry can still be raised.
pub open spec fn feed_has_room(s: ServerState) -> bool {
    s.activity.len() > 0 ==> count_or_one(s.activity[0]) < u32::MAX
}

/// Whether the revision of the topology can still be raised.
pub open spec fn revision_has_room(s: ServerState) -> bool {
    s.topology.revision < u64::MAX
}

/// Whether the counters of the state can still be raised: the count of the
/// newest activity entry and the revision of the topology.
pub open spec fn has_headroom(s: ServerState) -> bool {
    feed_has_room(s) && revision_has_room(s)
}

/// The state of a server that was just made: offline, nothing known, an empty
/// topology of revision zero.
pub open spec fn initial_state(admin: NetworkFactsPayloadView, token: Text, now: i64) -> ServerState {
    ServerState {
        online: false,
        pair_token: token,
        devices: Seq::empty(),
        tasks: Seq::empty(),
        logs: Seq::empty(),
        activity: Seq::empty(),
        connections: Set::empty(),
        last_device_emit_ms: Map::empty(),
        last_activity_emit_ms: Map::empty(),
        topology: TopologySnapshotView {
            revision: 0,
            updated_at: now,
            nodes: Seq::empty(),
            edges: Seq::empty(),
        },
        topology_key: Seq::empty(),
        admin_network: admin,
    }
}

/// The position of the device of `agent_id`, or the number of devices if it
/// has none.
pub open spec fn device_position(s: ServerState, agent_id: Text) -> int {
    index_of(device_ids(s.devices), agent_id) as int
}

/// Whether `agent_id` has a device record.
pub open spec fn has_device(s: ServerState, agent_id: Text) -> bool {
    device_position(s, agent_id) < s.devices.len()
}

/// The position of the task `task_id`, or the number of tasks if there is no
/// such task.
pub open spec fn task_position(s: ServerState, task_id: Text) -> int {
    index_of(task_ids(s.tasks), task_id) as int
}

/// Whether there is a task `task_id`.
pub open spec fn has_task(s: ServerState, task_id: Text) -> bool {
    task_position(s, task_id) < s.tasks.len()
}

/// The stamp that a table holds for `key`, or zero.
pub open spec fn stamp_or_zero(table: Map<Text, i64>, key: Text) -> int {
    if table.contains_key(key) {
        table[key] as int
    } else {
        0
    }
}

/// A feed cut down to `cap` entries, the oldest dropped.
pub open spec fn capped<A>(feed: Seq<A>, cap: int) -> Seq<A> {
    if feed.len() > cap {
        feed.take(cap)
    } else {
        feed
    }
}

/// Whether a device update of `agent_id` is to be shown at `now`: always
/// when forced, else once the throttle time has passed since the last one.
pub open spec fn upsert_due(s: ServerState, agent_id: Text, now: i64, force: bool) -> bool {
    force || now - stamp_or_zero(s.last_device_emit_ms, agent_id) >= DEVICE_EMIT_THROTTLE_MS
}

/// The state after a device update of `agent_id` was asked for: if it is
/// shown, the time is noted.
pub open spec fn after_upsert_check(s: ServerState, agent_id: Text, now: i64, force: bool) -> ServerState {
    if upsert_due(s, agent_id, now, force) {
        ServerState { last_device_emit_ms: s.last_device_emit_ms.insert(agent_id, now), ..s }
    } else {
        s
    }
}

/// The state with one more log entry.
pub open spec fn after_log(s: ServerState, e: LogEventView) -> ServerState {
    ServerState { logs: capped(seq![e] + s.logs, MAX_LOGS as int), ..s }
}

/// Whether an activity event of `agent_id` at `now` is dropped because the
/// agent had one too recently. Events of no agent are never dropped.
pub open spec fn activity_dropped(s: ServerState, agent_id: Option<Text>, now: i64) -> bool {
    match agent_id {
        Some(id) => now - stamp_or_zero(s.last_activity_emit_ms, id) < DEVICE_ACTIVITY_RATE_MS,
        None => false,
    }
}

/// Whether an activity event goes into the newest entry: that entry is of the
/// same kind and agent and not older than the dedupe time.
pub open spec fn activity_merges(s: ServerState, kind: Text, agent_id: Option<Text>, now: i64) -> bool {
    &&& s.activity.len() > 0
    &&& s.activity[0].kind == kind
    &&& s.activity[0].agent_id == agent_id
    &&& now - s.activity[0].ts <= ACTIVITY_DEDUPE_MS
}

/// An activity entry that took one more event into itself.
pub open spec fn merged_entry(e: ActivityEventView, now: i64) -> ActivityEventView {
    ActivityEventView { ts: now, count: Some((count_or_one(e) + 1) as u32), ..e }
}

/// A new activity entry.
pub open spec fn new_entry(
    kind: Text,
    agent_id: Option<Text>,
    message: Text,
    now: i64,
    id: Text,
) -> ActivityEventView {
    ActivityEventView { id, kind, agent_id, message, ts: now, count: None }
}

/// The activity entry that is shown for an event, if the event is not dropped:
/// the newest entry with the event merged in, or a new entry.
pub open spec fn activity_shown(
    s: ServerState,
    kind: Text,
    agent_id: Option<Text>,
    message: Text,
    now: i64,
    id: Text,
) -> Option<ActivityEventView> {
    if activity_dropped(s, agent_id, now) {
        None
    } else if activity_merges(s, kind, agent_id, now) {
        Some(merged_entry(s.activity[0], now))
    } else {
        Some(new_entry(kind, agent_id, message, now, id))
    }
}

/// The state after an activity event.
pub open spec fn after_activity(
    s: ServerState,
    kind: Text,
    agent_id: Option<Text>,
    message: Text,
    now: i64,
    id: Text,
) -> ServerState {
    if activity_dropped(s, agent_id, now) {
        s
    } else {
        ServerState {
            last_activity_emit_ms: match agent_id {
                Some(a) => s.last_activity_emit_ms.insert(a, now),
                None => s.last_activity_emit_ms,
            },
            activity: if activity_merges(s, kind, agent_id, now) {
                s.activity.update(0, merged_entry(s.activity[0], now))
            } else {
                capped(
                    seq![new_entry(kind, agent_id, message, now, id)] + s.activity,
                    MAX_ACTIVITY as int,
                )
            },
            ..s
        }
    }
}

/// The topology that the state would publish at `now`.
pub open spec fn candidate_topology(s: ServerState, now: i64) -> TopologySnapshotView {
    topology_of(s.devices, s.admin_network, (s.topology.revision + 1) as u64, now)
}

/// Whether the topology of the state differs in structure from the one last
/// published.
pub open spec fn topology_changed(s: ServerState, now: i64) -> bool {
    key_of(candidate_topology(s, now)) != s.topology_key
}

/// The state after the topology was looked at again: a topology of another
/// structure takes the place of the old one, with the next revision; one of
/// the same structure is let go.
pub open spec fn after_rebuild(s: ServerState, now: i64) -> ServerState {
    if topology_changed(s, now) {
        ServerState {
            topology: candidate_topology(s, now),
            topology_key: key_of(candidate_topology(s, now)),
            ..s
        }
    } else {
        s
    }
}

/// The record of a device at its first register, before the register is
/// laid into it.
pub open spec fn first_seen_device(p: RegisterPayloadView, now: i64) -> DeviceRecordView {
    DeviceRecordView {
        agent_id: p.agent_id,
        hostname: p.hostname,
        ips: p.ips,
        os: p.os,
        version: p.version,
        status: "online"@,
        last_seen_ms: now,
        internet_reachable: None,
        dns_ok: None,
        gateway_reachable: None,
        latency_ms: None,
        last_internet_change_ms: None,
        last_dns_change_ms: None,
        first_seen_ms: now,
        ip: None,
        subnet_cidr: None,
        default_gateway_ip: None,
        interface_type: None,
        mac: None,
        gateway_mac: None,
        dhcp_server_ip: None,
        ssid: None,
        arp_snapshot: Seq::empty(),
    }
}

/// A device record with a register laid into it: the facts of the register,
/// the status `online`, seen now.
pub open spec fn registered_device(d: DeviceRecordView, p: RegisterPayloadView, now: i64) -> DeviceRecordView {
    with_network(
        DeviceRecordView {
            hostname: p.hostname,
            ips: p.ips,
            os: p.os,
            version: p.version,
            status: "online"@,
            last_seen_ms: now,
            ..d
        },
        p.network,
    )
}

/// The state after a register with the right secret: the agent has a
/// channel, and its device record is made or brought up to date.
pub open spec fn after_register(s: ServerState, p: RegisterPayloadView, now: i64) -> ServerState {
    let i = device_position(s, p.agent_id);
    ServerState {
        connections: s.connections.insert(p.agent_id),
        devices: if i < s.devices.len() {
            s.devices.update(i, registered_device(s.devices[i], p, now))
        } else {
            s.devices.push(registered_device(first_seen_device(p, now), p, now))
        },
        ..s
    }
}

/// A health flag after a heartbeat: what the metrics say under `key`, if they
/// say anything there, else what it was.
pub open spec fn metric_flag(metrics: Option<serde_json::Value>, key: Text, was: Option<bool>) -> Option<bool> {
    match metrics {
        Some(m) => match json_member(m, key) {
            Some(v) => json_bool(v),
            None => was,
        },
        None => was,
    }
}

/// A number after a heartbeat: what the metrics say under `key`, if they say
/// anything there, else what it was.
pub open spec fn metric_number(metrics: Option<serde_json::Value>, key: Text, was: Option<i64>) -> Option<i64> {
    match metrics {
        Some(m) => match json_member(m, key) {
            Some(v) => json_i64(v),
            None => was,
        },
        None => was,
    }
}

/// A device record with a heartbeat laid into it.
///
/// The time it was last seen is the agent's if that is above zero, else the
/// admin's. A blank status leaves the status as it was. A change of the
/// internet or the DNS flag is stamped with the admin's time.
pub open spec fn heartbeat_device(d: DeviceRecordView, p: HeartbeatPayloadView, now: i64) -> DeviceRecordView {
    let reported = with_network(
        DeviceRecordView {
            last_seen_ms: if p.last_seen > 0 {
                p.last_seen
            } else {
                now
            },
            status: if p.status.len() > 0 {
                p.status
            } else {
                d.status
            },
            internet_reachable: metric_flag(p.metrics, "internet_reachable"@, d.internet_reachable),
            dns_ok: metric_flag(p.metrics, "dns_ok"@, d.dns_ok),
            gateway_reachable: metric_flag(p.metrics, "gateway_reachable"@, d.gateway_reachable),
            latency_ms: metric_number(p.metrics, "latency_ms"@, d.latency_ms),
            ..d
        },
        p.network,
    );
    DeviceRecordView {
        last_internet_change_ms: if d.internet_reachable != reported.internet_reachable {
            Some(now)
        } else {
            reported.last_internet_change_ms
        },
        last_dns_change_ms: if d.dns_ok != reported.dns_ok {
            Some(now)
        } else {
            reported.last_dns_change_ms
        },
        ..reported
    }
}

/// The state after a heartbeat of `agent_id`. An agent without a device
/// record changes nothing.
pub open spec fn after_heartbeat(s: ServerState, agent_id: Text, p: HeartbeatPayloadView, now: i64) -> ServerState {
    let i = device_position(s, agent_id);
    if i < s.devices.len() {
        ServerState { devices: s.devices.update(i, heartbeat_device(s.devices[i], p, now)), ..s }
    } else {
        s
    }
}

/// A device record of an agent that is gone.
pub open spec fn offline_device(d: DeviceRecordView, now: i64) -> DeviceRecordView {
    DeviceRecordView { status: "offline"@, last_seen_ms: now, ..d }
}

/// The state after the channel of `agent_id` was torn down.
pub open spec fn after_disconnect(s: ServerState, agent_id: Text, now: i64) -> ServerState {
    let i = device_position(s, agent_id);
    ServerState {
        connections: s.connections.remove(agent_id),
        devices: if i < s.devices.len() {
            s.devices.update(i, offline_device(s.devices[i], now))
        } else {
            s.devices
        },
        ..s
    }
}

/// Whether a device has been silent for too long at `now`: it is not
/// offline yet, and more than the timeout has passed since it was last seen.
/// A device last seen exactly the timeout ago is not stale.
pub open spec fn is_stale(d: DeviceRecordView, now: i64) -> bool {
    d.status != "offline"@ && now - d.last_seen_ms > HEARTBEAT_TIMEOUT_MS
}

/// A device record after the watchdog looked at it.
pub open spec fn swept_device(d: DeviceRecordView, now: i64) -> DeviceRecordView {
    if is_stale(d, now) {
        DeviceRecordView { status: "offline"@, ..d }
    } else {
        d
    }
}

/// The state after the watchdog went over the devices.
pub open spec fn after_sweep(s: ServerState, now: i64) -> ServerState {
    ServerState { devices: Seq::new(s.devices.len(), |i: int| swept_device(s.devices[i], now)), ..s }
}

/// The devices that the watchdog finds stale, in their order.
pub open spec fn stale_devices(devices: Seq<DeviceRecordView>, now: i64) -> Seq<DeviceRecordView>
    decreases devices.len(),
{
    if devices.len() == 0 {
        Seq::empty()
    } else {
        let head = stale_devices(devices.drop_last(), now);
        if is_stale(devices.last(), now) {
            head.push(swept_device(devices.last(), now))
        } else {
            head
        }
    }
}

/// The reports of a task without that of `agent_id`.
pub open spec fn without_agent(results: Seq<TaskResultRecordView>, agent_id: Text) -> Seq<
    TaskResultRecordView,
>
    decreases results.len(),
{
    if results.len() == 0 {
        Seq::empty()
    } else {
        let head = without_agent(results.drop_last(), agent_id);
        if results.last().agent_id == agent_id {
            head
        } else {
            head.push(results.last())
        }
    }
}

/// Whether every report says that the task went well.
pub open spec fn all_ok(results: Seq<TaskResultRecordView>) -> bool {
    forall|i: int| 0 <= i < results.len() ==> (#[trigger] results[i]).ok
}

/// Whether a status is one that a task ends in.
pub open spec fn is_terminal(status: Text) -> bool {
    status == "done"@ || status == "failed"@
}

/// A task with the report of `agent_id` laid into it: the report takes the
/// place of an earlier one of that agent, and once there are as many reports
/// as agents the task ends, `done` if all went well and `failed` if not.
pub open spec fn reported_task(
    t: TaskRecordView,
    agent_id: Text,
    p: TaskResultPayloadView,
    now: i64,
) -> TaskRecordView {
    let results = without_agent(t.results, agent_id).push(
        TaskResultRecordView { agent_id, ok: p.ok, result: p.result, error: p.error, ts: now },
    );
    if results.len() == t.assigned_agents.len() {
        TaskRecordView {
            results,
            ended_at: Some(now),
            status: if all_ok(results) {
                "done"@
            } else {
                "failed"@
            },
            ..t
        }
    } else {
        TaskRecordView { results, ..t }
    }
}

/// The state after `agent_id` reported of a task. A report of an unknown task
/// changes nothing.
pub open spec fn after_task_result(
    s: ServerState,
    agent_id: Text,
    p: TaskResultPayloadView,
    now: i64,
) -> ServerState {
    let i = task_position(s, p.task_id);
    if i < s.tasks.len() {
        ServerState { tasks: s.tasks.update(i, reported_task(s.tasks[i], agent_id, p, now)), ..s }
    } else {
        s
    }
}

/// Whether a kind of task is one that agents know.
pub open spec fn supported_kind(kind: Text) -> bool {
    kind == "ping"@ || kind == "port_scan"@ || kind == "arp_snapshot"@
}

/// A task as it is created: queued, nothing reported.
pub open spec fn queued_task(
    task_id: Text,
    kind: Text,
    params: serde_json::Value,
    agents: Seq<Text>,
    now: i64,
) -> TaskRecordView {
    TaskRecordView {
        task_id,
        kind,
        params,
        assigned_agents: agents,
        status: "queued"@,
        created_at: now,
        started_at: None,
        ended_at: None,
        results: Seq::empty(),
    }
}

/// The state with the task `t` stored: in the place of a task with the same
/// identifier, or behind all others.
pub open spec fn after_task_stored(s: ServerState, t: TaskRecordView) -> ServerState {
    let i = task_position(s, t.task_id);
    ServerState {
        tasks: if i < s.tasks.len() {
            s.tasks.update(i, t)
        } else {
            s.tasks.push(t)
        },
        ..s
    }
}

/// Those of `agents` that have a channel, in their order.
pub open spec fn reachable_agents(agents: Seq<Text>, connections: Set<Text>) -> Seq<Text>
    decreases agents.len(),
{
    if agents.len() == 0 {
        Seq::empty()
    } else {
        let head = reachable_agents(agents.drop_last(), connections);
        if connections.contains(agents.last()) {
            head.push(agents.last())
        } else {
            head
        }
    }
}

/// A task that went out to at least one agent.
pub open spec fn running_task(t: TaskRecordView, now: i64) -> TaskRecordView {
    TaskRecordView { status: "running"@, started_at: Some(now), ..t }
}

/// The state after the frames of a task were handed to the channels: the task
/// runs if at least one frame went out.
pub open spec fn after_task_sent(s: ServerState, task_id: Text, delivered: int, now: i64) -> ServerState {
    let i = task_position(s, task_id);
    if i < s.tasks.len() && delivered > 0 {
        ServerState { tasks: s.tasks.update(i, running_task(s.tasks[i], now)), ..s }
    } else {
        s
    }
}

} // verus!
