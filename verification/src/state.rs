//! The state of the admin, and the steps that change it. Every step is held to
//! the function of `model` that says what it makes of the state.

use crate::collections::{IdSet, StampMap};
use crate::json::{value_as_bool, value_as_i64, value_get};
use crate::model::{
    activity_dropped, activity_merges, activity_shown, after_activity, after_disconnect,
    after_heartbeat, after_log, after_rebuild, after_register, after_sweep, after_task_result,
    after_task_sent, after_task_stored, after_upsert_check, all_ok, candidate_topology,
    count_or_one, device_ids, device_position, distinct, first_seen_device, has_device, has_task,
    heartbeat_device, initial_state, offline_device, reachable_agents, reported_task, sound,
    stale_devices, swept_device, task_ids, task_position, topology_changed, upsert_due,
    without_agent, ServerState, ACTIVITY_DEDUPE_MS, DEVICE_ACTIVITY_RATE_MS,
    DEVICE_EMIT_THROTTLE_MS, HEARTBEAT_TIMEOUT_MS, MAX_ACTIVITY, MAX_LOGS, UDP_PORT, WS_PORT,
};
use crate::network::apply_network_payload;
use crate::wire::{HeartbeatPayload, RegisterPayload, TaskResultPayload};
use crate::records::{
    ActivityEvent, ActivitySnapshot, DeviceRecord, DevicesSnapshot, LogEvent,
    NetworkFactsPayload, ServerStatus, TaskRecord, TaskResultRecord, TasksSnapshot,
    TopologySnapshot,
};
use crate::sorting::{sort_stable, stable_sort};
use crate::text::{
    clone_texts, lemma_index_of, lemma_index_of_first, opt_text, opt_text_eq, text_eq, texts,
    views, Text,
};
use crate::topology::{build_topology_snapshot, topology_key};
use vstd::prelude::*;

verus! {

/// The admin's state: the devices and tasks it knows, its two feeds, who is
/// connected, and the topology it last published.
#[derive(Debug)]
pub struct ServerManager {
    pub(crate) online: bool,
    pub(crate) pair_token: String,
    pub(crate) devices: Vec<DeviceRecord>,
    pub(crate) tasks: Vec<TaskRecord>,
    pub(crate) logs: Vec<LogEvent>,
    pub(crate) activity: Vec<ActivityEvent>,
    pub(crate) connections: IdSet,
    pub(crate) last_device_emit_ms: StampMap,
    pub(crate) last_activity_emit_ms: StampMap,
    pub(crate) topology_snapshot: TopologySnapshot,
    pub(crate) topology_key: String,
    pub(crate) admin_network: NetworkFactsPayload,
}

impl View for ServerManager {
    type V = ServerState;

    closed spec fn view(&self) -> ServerState {
        ServerState {
            online: self.online,
            pair_token: self.pair_token@,
            devices: views(self.devices@),
            tasks: views(self.tasks@),
            logs: views(self.logs@),
            activity: views(self.activity@),
            connections: self.connections@,
            last_device_emit_ms: self.last_device_emit_ms@,
            last_activity_emit_ms: self.last_activity_emit_ms@,
            topology: self.topology_snapshot@,
            topology_key: self.topology_key@,
            admin_network: self.admin_network@,
        }
    }
}

impl ServerManager {
    /// Whether the two tables of time stamps are sound.
    pub closed spec fn tables_wf(&self) -> bool {
        self.last_device_emit_ms.wf() && self.last_activity_emit_ms.wf()
    }

    /// Whether the state is sound. Every state that this crate hands out is,
    /// and every step keeps it so.
    pub open spec fn wf(&self) -> bool {
        sound(self@) && self.tables_wf()
    }

    /// A server that was just made, with the given secret.
    pub fn new_at(admin_network: NetworkFactsPayload, pair_token: String, now: i64) -> (r: Self)
        ensures
            r.wf(),
            r@ == initial_state(admin_network@, pair_token@, now),
    {
        let r = ServerManager {
            online: false,
            pair_token,
            devices: Vec::new(),
            tasks: Vec::new(),
            logs: Vec::new(),
            activity: Vec::new(),
            connections: IdSet::new(),
            last_device_emit_ms: StampMap::new(),
            last_activity_emit_ms: StampMap::new(),
            topology_snapshot: TopologySnapshot {
                revision: 0,
                updated_at: now,
                nodes: Vec::new(),
                edges: Vec::new(),
            },
            topology_key: String::new(),
            admin_network,
        };
        assert(r@.devices =~= Seq::empty());
        assert(r@.tasks =~= Seq::empty());
        assert(r@.logs =~= Seq::empty());
        assert(r@.activity =~= Seq::empty());
        assert(r@.topology.nodes =~= Seq::empty());
        assert(r@.topology.edges =~= Seq::empty());
        r
    }

    /// Whether the server is up, and its ports.
    pub fn get_status(&self) -> (r: ServerStatus)
        ensures
            r == (ServerStatus { online: self@.online, port_ws: WS_PORT, port_udp: UDP_PORT }),
    {
        ServerStatus { online: self.online, port_ws: WS_PORT, port_udp: UDP_PORT }
    }

    /// All devices, in the order of their first register.
    pub fn get_devices_snapshot(&self) -> (r: DevicesSnapshot)
        ensures
            r@.devices == self@.devices,
    {
        let devices = self.devices.clone();
        assert(views(devices@) =~= views(self.devices@));
        DevicesSnapshot { devices }
    }

    /// The topology as last published.
    pub fn get_topology_snapshot(&self) -> (r: TopologySnapshot)
        ensures
            r@ == self@.topology,
    {
        self.topology_snapshot.clone()
    }

    /// All tasks, the newest first; tasks of one time in the order of their
    /// creation.
    pub fn get_tasks_snapshot(&self) -> (r: TasksSnapshot)
        ensures
            r@.tasks == stable_sort::<TaskRecord>(self@.tasks),
    {
        let tasks = self.tasks.clone();
        assert(views(tasks@) =~= views(self.tasks@));
        TasksSnapshot { tasks: sort_stable(tasks) }
    }

    /// The activity feed, newest entry first.
    pub fn get_activity_snapshot(&self) -> (r: ActivitySnapshot)
        ensures
            r@.events == self@.activity,
    {
        let events = self.activity.clone();
        assert(views(events@) =~= views(self.activity@));
        ActivitySnapshot { events }
    }

    /// The shared secret that a register must carry.
    pub fn get_pair_token(&self) -> (r: String)
        ensures
            r@ == self@.pair_token,
    {
        self.pair_token.clone()
    }

    /// Whether the counters of the state can still be raised.
    pub fn has_headroom(&self) -> (r: bool)
        ensures
            r == crate::model::has_headroom(self@),
    {
        let feed_ok = if self.activity.len() > 0 {
            match self.activity[0].count {
                Some(c) => c < u32::MAX,
                None => true,
            }
        } else {
            true
        };
        feed_ok && self.topology_snapshot.revision < u64::MAX
    }

    /// Notes whether the agent endpoint is listening.
    pub fn mark_online(&mut self, online: bool)
        requires
            old(self).wf(),
        ensures
            final(self).wf(),
            final(self)@ == (ServerState { online, ..old(self)@ }),
    {
        self.online = online;
    }

    /// Puts a new secret in the place of the old one.
    pub fn replace_pair_token(&mut self, token: String)
        requires
            old(self).wf(),
        ensures
            final(self).wf(),
            final(self)@ == (ServerState { pair_token: token@, ..old(self)@ }),
    {
        self.pair_token = token;
    }

    /// Whether `secret` is the shared secret as it stands now.
    pub fn secret_matches(&self, secret: &str) -> (r: bool)
        ensures
            r == (secret@ == self@.pair_token),
    {
        text_eq(secret, self.pair_token.as_str())
    }

    /// Whether `agent_id` has an outbound channel.
    pub fn is_connected(&self, agent_id: &str) -> (r: bool)
        ensures
            r == self@.connections.contains(agent_id@),
    {
        self.connections.contains(agent_id)
    }

    /// The position of the device of `agent_id`, or the number of devices.
    pub(crate) fn find_device(&self, agent_id: &str) -> (i: usize)
        ensures
            i == device_position(self@, agent_id@),
            i <= self.devices@.len(),
            i < self.devices@.len() ==> self.devices@[i as int]@.agent_id == agent_id@,
    {
        let ghost ids = device_ids(self@.devices);
        let mut i: usize = 0;
        while i < self.devices.len()
            invariant
                i <= self.devices.len(),
                ids == device_ids(self@.devices),
                forall|k: int| 0 <= k < i ==> #[trigger] ids[k] != agent_id@,
            decreases self.devices.len() - i,
        {
            if text_eq(self.devices[i].agent_id.as_str(), agent_id) {
                proof {
                    assert(ids[i as int] == agent_id@);
                    lemma_index_of(ids, agent_id@, i as int);
                }
                return i;
            }
            i += 1;
        }
        proof {
            lemma_index_of(ids, agent_id@, i as int);
        }
        i
    }

    /// The position of the task `task_id`, or the number of tasks.
    pub(crate) fn find_task(&self, task_id: &str) -> (i: usize)
        ensures
            i == task_position(self@, task_id@),
            i <= self.tasks@.len(),
            i < self.tasks@.len() ==> self.tasks@[i as int]@.task_id == task_id@,
    {
        let ghost ids = task_ids(self@.tasks);
        let mut i: usize = 0;
        while i < self.tasks.len()
            invariant
                i <= self.tasks.len(),
                ids == task_ids(self@.tasks),
                forall|k: int| 0 <= k < i ==> #[trigger] ids[k] != task_id@,
            decreases self.tasks.len() - i,
        {
            if text_eq(self.tasks[i].task_id.as_str(), task_id) {
                proof {
                    assert(ids[i as int] == task_id@);
                    lemma_index_of(ids, task_id@, i as int);
                }
                return i;
            }
            i += 1;
        }
        proof {
            lemma_index_of(ids, task_id@, i as int);
        }
        i
    }

    /// The device record of `agent_id`, if it has one.
    pub fn device(&self, agent_id: &str) -> (r: Option<DeviceRecord>)
        ensures
            match r {
                Some(d) => device_position(self@, agent_id@) < self@.devices.len() && d@
                    == self@.devices[device_position(self@, agent_id@)],
                None => device_position(self@, agent_id@) >= self@.devices.len(),
            },
    {
        let i = self.find_device(agent_id);
        if i < self.devices.len() {
            Some(self.devices[i].clone())
        } else {
            None
        }
    }

    /// The task `task_id`, if there is one.
    pub fn task(&self, task_id: &str) -> (r: Option<TaskRecord>)
        ensures
            match r {
                Some(t) => task_position(self@, task_id@) < self@.tasks.len() && t@
                    == self@.tasks[task_position(self@, task_id@)],
                None => task_position(self@, task_id@) >= self@.tasks.len(),
            },
    {
        let i = self.find_task(task_id);
        if i < self.tasks.len() {
            Some(self.tasks[i].clone())
        } else {
            None
        }
    }

    /// Decides whether a device update of `agent_id` is shown at `now`, and
    /// notes the time if it is.
    pub fn device_upsert_due(&mut self, agent_id: &str, now: i64, force: bool) -> (due: bool)
        requires
            old(self).wf(),
        ensures
            final(self).wf(),
            due == upsert_due(old(self)@, agent_id@, now, force),
            final(self)@ == after_upsert_check(old(self)@, agent_id@, now, force),
    {
        let last: i64 = match self.last_device_emit_ms.get(agent_id) {
            Some(t) => t,
            None => 0,
        };
        if force || now as i128 - last as i128 >= DEVICE_EMIT_THROTTLE_MS as i128 {
            self.last_device_emit_ms.insert(agent_id, now);
            true
        } else {
            false
        }
    }

    /// Puts an entry at the head of the log and drops what is beyond its
    /// length.
    pub fn record_log(&mut self, entry: LogEvent)
        requires
            old(self).wf(),
        ensures
            final(self).wf(),
            final(self)@ == after_log(old(self)@, entry@),
    {
        let ghost before = views(self.logs@);
        self.logs.insert(0, entry);
        assert(views(self.logs@) =~= seq![entry@] + before);
        if self.logs.len() > MAX_LOGS {
            let ghost grown = views(self.logs@);
            self.logs.truncate(MAX_LOGS);
            assert(views(self.logs@) =~= grown.take(MAX_LOGS as int));
        }
    }

    /// Takes an activity event into the feed: drops it if its agent had one
    /// too recently, merges it into the newest entry if that is of its kind
    /// and agent and recent enough, else puts a new entry with the
    /// identifier `id` at the head. Gives the entry to show, if any.
    pub fn record_activity(
        &mut self,
        kind: &str,
        agent_id: Option<String>,
        message: String,
        now: i64,
        id: String,
    ) -> (shown: Option<ActivityEvent>)
        requires
            old(self).wf(),
            !activity_dropped(old(self)@, opt_text(agent_id), now) && activity_merges(
                old(self)@,
                kind@,
                opt_text(agent_id),
                now,
            ) ==> count_or_one(old(self)@.activity[0]) < u32::MAX,
        ensures
            final(self).wf(),
            final(self)@ == after_activity(
                old(self)@,
                kind@,
                opt_text(agent_id),
                message@,
                now,
                id@,
            ),
            match shown {
                Some(e) => activity_shown(
                    old(self)@,
                    kind@,
                    opt_text(agent_id),
                    message@,
                    now,
                    id@,
                ) == Some(e@),
                None => activity_shown(old(self)@, kind@, opt_text(agent_id), message@, now, id@)
                    is None,
            },
    {
        match &agent_id {
            Some(a) => {
                let last: i64 = match self.last_activity_emit_ms.get(a.as_str()) {
                    Some(t) => t,
                    None => 0,
                };
                if (now as i128 - last as i128) < DEVICE_ACTIVITY_RATE_MS as i128 {
                    return None;
                }
                self.last_activity_emit_ms.insert(a.as_str(), now);
            },
            None => {},
        }
        let ghost before = views(self.activity@);
        let merges = self.activity.len() > 0 && text_eq(self.activity[0].kind.as_str(), kind)
            && opt_text_eq(&self.activity[0].agent_id, &agent_id) && now as i128
            - self.activity[0].ts as i128 <= ACTIVITY_DEDUPE_MS as i128;
        if merges {
            let mut front = self.activity[0].clone();
            front.ts = now;
            front.count = Some(
                match front.count {
                    Some(c) => c + 1,
                    None => 2,
                },
            );
            let shown = front.clone();
            self.activity.set(0, front);
            assert(views(self.activity@) =~= before.update(0, shown@));
            Some(shown)
        } else {
            let entry = ActivityEvent {
                id,
                kind: kind.to_owned(),
                agent_id,
                message,
                ts: now,
                count: None,
            };
            let shown = entry.clone();
            self.activity.insert(0, entry);
            assert(views(self.activity@) =~= seq![shown@] + before);
            if self.activity.len() > MAX_ACTIVITY {
                let ghost grown = views(self.activity@);
                self.activity.truncate(MAX_ACTIVITY);
                assert(views(self.activity@) =~= grown.take(MAX_ACTIVITY as int));
            }
            Some(shown)
        }
    }

    /// Builds the topology anew and, if its structure differs from the one
    /// last published, puts it in that one's place with the next revision.
    /// Says whether it did.
    pub fn rebuild_topology(&mut self, now: i64) -> (changed: bool)
        requires
            old(self).wf(),
            old(self)@.topology.revision < u64::MAX,
        ensures
            final(self).wf(),
            changed == topology_changed(old(self)@, now),
            final(self)@ == after_rebuild(old(self)@, now),
    {
        let candidate = build_topology_snapshot(
            &self.devices,
            &self.admin_network,
            self.topology_snapshot.revision + 1,
            now,
        );
        assert(candidate@ == candidate_topology(self@, now));
        let key = topology_key(&candidate);
        if key != self.topology_key {
            self.topology_key = key;
            self.topology_snapshot = candidate;
            true
        } else {
            false
        }
    }

    /// Lays a register with the right secret into the state: the agent gets
    /// its channel, and its device record is made or brought up to date.
    pub fn register_device(&mut self, p: &RegisterPayload, now: i64) -> (r: RegisterChange)
        requires
            old(self).wf(),
        ensures
            final(self).wf(),
            final(self)@ == after_register(old(self)@, p@, now),
            r.was_new == !has_device(old(self)@, p@.agent_id),
            r.device@ == final(self)@.devices[device_position(old(self)@, p@.agent_id)],
            r.old_status@ == if has_device(old(self)@, p@.agent_id) {
                old(self)@.devices[device_position(old(self)@, p@.agent_id)].status
            } else {
                "online"@
            },
    {
        let ghost before = self@;
        let ghost ids = device_ids(before.devices);
        self.connections.insert(p.agent_id.clone());
        let i = self.find_device(p.agent_id.as_str());
        let was_new = i >= self.devices.len();
        let mut d = if was_new {
            DeviceRecord {
                agent_id: p.agent_id.clone(),
                hostname: p.hostname.clone(),
                ips: clone_texts(&p.ips),
                os: p.os.clone(),
                version: p.version.clone(),
                status: "online".to_owned(),
                last_seen_ms: now,
                internet_reachable: None,
                dns_ok: None,
                gateway_reachable: None,
                latency_ms: None,
                last_internet_change_ms: None,
                last_dns_change_ms: None,
                first_seen_ms: now,
                ip: None,
                subnet_cidr: None,
                default_gateway_ip: None,
                interface_type: None,
                mac: None,
                gateway_mac: None,
                dhcp_server_ip: None,
                ssid: None,
                arp_snapshot: Vec::new(),
            }
        } else {
            self.devices[i].clone()
        };
        assert(was_new ==> d@ =~= first_seen_device(p@, now)) by {
            if was_new {
                assert(d@.arp_snapshot =~= Seq::empty());
            }
        }
        let old_status = d.status.clone();
        d.hostname = p.hostname.clone();
        d.ips = clone_texts(&p.ips);
        d.os = p.os.clone();
        d.version = p.version.clone();
        d.status = "online".to_owned();
        d.last_seen_ms = now;
        apply_network_payload(&mut d, &p.network);
        let device = d.clone();
        if was_new {
            proof {
                lemma_index_of_first(ids, p@.agent_id);
            }
            self.devices.push(d);
            assert(views(self.devices@) =~= before.devices.push(device@));
            assert(distinct(device_ids(self@.devices))) by {
                let now_ids = device_ids(self@.devices);
                assert forall|a: int, b: int| 0 <= a < b < now_ids.len() implies now_ids[a]
                    != now_ids[b] by {
                    assert(now_ids[a] == ids[a]);
                    if b < ids.len() {
                        assert(now_ids[b] == ids[b]);
                    }
                }
            }
        } else {
            self.devices.set(i, d);
            assert(views(self.devices@) =~= before.devices.update(i as int, device@));
            assert(device_ids(self@.devices) =~= ids);
        }
        RegisterChange { device, was_new, old_status }
    }

    /// Lays a heartbeat of `agent_id` into its device record, if it has one,
    /// and says what the record was and is.
    pub fn apply_heartbeat(&mut self, agent_id: &str, p: &HeartbeatPayload, now: i64) -> (r: Option<
        HeartbeatChange,
    >)
        requires
            old(self).wf(),
        ensures
            final(self).wf(),
            final(self)@ == after_heartbeat(old(self)@, agent_id@, p@, now),
            r is Some == has_device(old(self)@, agent_id@),
            r is Some ==> {
                let was = old(self)@.devices[device_position(old(self)@, agent_id@)];
                &&& r->0.device@ == heartbeat_device(was, p@, now)
                &&& r->0.old_status@ == was.status
                &&& r->0.old_internet == was.internet_reachable
                &&& r->0.old_dns == was.dns_ok
            },
    {
        let ghost before = self@;
        let i = self.find_device(agent_id);
        if i >= self.devices.len() {
            return None;
        }
        let mut d = self.devices[i].clone();
        let old_status = d.status.clone();
        let old_internet = d.internet_reachable;
        let old_dns = d.dns_ok;
        d.last_seen_ms = if p.last_seen > 0 {
            p.last_seen
        } else {
            now
        };
        if !p.status.as_str().is_empty() {
            d.status = p.status.clone();
        }
        match &p.metrics {
            Some(m) => {
                match value_get(m, "internet_reachable") {
                    Some(v) => {
                        d.internet_reachable = value_as_bool(v);
                    },
                    None => {},
                }
                match value_get(m, "dns_ok") {
                    Some(v) => {
                        d.dns_ok = value_as_bool(v);
                    },
                    None => {},
                }
                match value_get(m, "gateway_reachable") {
                    Some(v) => {
                        d.gateway_reachable = value_as_bool(v);
                    },
                    None => {},
                }
                match value_get(m, "latency_ms") {
                    Some(v) => {
                        d.latency_ms = value_as_i64(v);
                    },
                    None => {},
                }
            },
            None => {},
        }
        apply_network_payload(&mut d, &p.network);
        if old_internet != d.internet_reachable {
            d.last_internet_change_ms = Some(now);
        }
        if old_dns != d.dns_ok {
            d.last_dns_change_ms = Some(now);
        }
        let device = d.clone();
        self.devices.set(i, d);
        assert(views(self.devices@) =~= before.devices.update(i as int, device@));
        assert(device_ids(self@.devices) =~= device_ids(before.devices));
        Some(HeartbeatChange { device, old_status, old_internet, old_dns })
    }

    /// Takes the channel of `agent_id` away and marks its device offline.
    /// Gives the device record, if the agent has one.
    pub fn mark_disconnected(&mut self, agent_id: &str, now: i64) -> (r: Option<DeviceRecord>)
        requires
            old(self).wf(),
        ensures
            final(self).wf(),
            final(self)@ == after_disconnect(old(self)@, agent_id@, now),
            r is Some == has_device(old(self)@, agent_id@),
            r is Some ==> r->0@ == offline_device(
                old(self)@.devices[device_position(old(self)@, agent_id@)],
                now,
            ),
    {
        let ghost before = self@;
        self.connections.remove(agent_id);
        let i = self.find_device(agent_id);
        if i >= self.devices.len() {
            return None;
        }
        let mut d = self.devices[i].clone();
        d.status = "offline".to_owned();
        d.last_seen_ms = now;
        let device = d.clone();
        self.devices.set(i, d);
        assert(views(self.devices@) =~= before.devices.update(i as int, device@));
        assert(device_ids(self@.devices) =~= device_ids(before.devices));
        Some(device)
    }

    /// Marks every device offline that has been silent for more than the
    /// timeout, and gives those devices, in their order.
    pub fn sweep_stale(&mut self, now: i64) -> (stale: Vec<DeviceRecord>)
        requires
            old(self).wf(),
        ensures
            final(self).wf(),
            final(self)@ == after_sweep(old(self)@, now),
            views(stale@) == stale_devices(old(self)@.devices, now),
    {
        let ghost before = self@;
        let mut stale: Vec<DeviceRecord> = Vec::new();
        let mut i: usize = 0;
        assert(before.devices.take(0) =~= Seq::empty());
        assert(views(stale@) =~= Seq::empty());
        while i < self.devices.len()
            invariant
                i <= self.devices.len(),
                self.devices@.len() == before.devices.len(),
                self@ == (ServerState { devices: self@.devices, ..before }),
                self.tables_wf(),
                forall|k: int| 0 <= k < i ==> #[trigger] self@.devices[k] == swept_device(before.devices[k], now),
                forall|k: int| i <= k < before.devices.len() ==> #[trigger] self@.devices[k] == before.devices[k],
                views(stale@) == stale_devices(before.devices.take(i as int), now),
            decreases self.devices.len() - i,
        {
            proof {
                let seen = before.devices.take(i + 1);
                assert(seen.drop_last() == before.devices.take(i as int));
                assert(seen.last() == before.devices[i as int]);
                assert(self@.devices[i as int] == before.devices[i as int]);
            }
            let ghost now_devices = self@.devices;
            let is_offline = text_eq(self.devices[i].status.as_str(), "offline");
            if !is_offline && now as i128 - self.devices[i].last_seen_ms as i128
                > HEARTBEAT_TIMEOUT_MS as i128 {
                let mut d = self.devices[i].clone();
                d.status = "offline".to_owned();
                let device = d.clone();
                self.devices.set(i, d);
                assert(views(self.devices@) =~= now_devices.update(i as int, device@));
                let ghost listed = views(stale@);
                stale.push(device);
                assert(views(stale@) =~= listed.push(device@));
            }
            i += 1;
        }
        assert(before.devices.take(before.devices.len() as int) == before.devices);
        assert(self@.devices =~= Seq::new(
            before.devices.len(),
            |k: int| swept_device(before.devices[k], now),
        ));
        assert(device_ids(self@.devices) =~= device_ids(before.devices));
        stale
    }

    /// Lays the report of `agent_id` into the task it names, if there is such
    /// a task, and gives the task as it then stands.
    pub fn apply_task_result(&mut self, agent_id: &str, p: TaskResultPayload, now: i64) -> (r:
        Option<TaskRecord>)
        requires
            old(self).wf(),
        ensures
            final(self).wf(),
            final(self)@ == after_task_result(old(self)@, agent_id@, p@, now),
            r is Some == has_task(old(self)@, p@.task_id),
            r is Some ==> r->0@ == reported_task(
                old(self)@.tasks[task_position(old(self)@, p@.task_id)],
                agent_id@,
                p@,
                now,
            ),
    {
        let ghost before = self@;
        let i = self.find_task(p.task_id.as_str());
        if i >= self.tasks.len() {
            return None;
        }
        let ghost was = before.tasks[i as int];
        let mut t = self.tasks[i].clone();
        let mut results: Vec<TaskResultRecord> = Vec::new();
        let mut all_fine = true;
        let mut k: usize = 0;
        assert(was.results.take(0) =~= Seq::empty());
        assert(views(results@) =~= Seq::empty());
        while k < t.results.len()
            invariant
                k <= t.results.len(),
                views(t.results@) == was.results,
                views(results@) == without_agent(was.results.take(k as int), agent_id@),
                all_fine == all_ok(views(results@)),
            decreases t.results.len() - k,
        {
            proof {
                let seen = was.results.take(k + 1);
                assert(seen.drop_last() == was.results.take(k as int));
                assert(seen.last() == t.results@[k as int]@);
            }
            if !text_eq(t.results[k].agent_id.as_str(), agent_id) {
                let ghost kept = views(results@);
                let r = t.results[k].clone();
                if !r.ok {
                    all_fine = false;
                }
                results.push(r);
                assert(views(results@) =~= kept.push(r@));
                assert(all_ok(kept.push(r@)) == (all_ok(kept) && r@.ok)) by {
                    if all_ok(kept) && r@.ok {
                        assert forall|j: int| 0 <= j < kept.push(r@).len() implies (
                        #[trigger] kept.push(r@)[j]).ok by {
                            if j < kept.len() {
                                assert(kept[j].ok);
                            }
                        }
                    }
                    if all_ok(kept.push(r@)) {
                        assert(kept.push(r@)[kept.len() as int].ok);
                        assert forall|j: int| 0 <= j < kept.len() implies (#[trigger] kept[j]).ok by {
                            assert(kept.push(r@)[j].ok);
                        }
                    }
                }
            }
            k += 1;
        }
        assert(was.results.take(t.results.len() as int) == was.results);
        let ghost kept = views(results@);
        let report = TaskResultRecord {
            agent_id: agent_id.to_owned(),
            ok: p.ok,
            result: p.result,
            error: p.error,
            ts: now,
        };
        if !report.ok {
            all_fine = false;
        }
        results.push(report);
        assert(views(results@) =~= kept.push(report@));
        assert(all_fine == all_ok(kept.push(report@))) by {
            if all_ok(kept) && report@.ok {
                assert forall|j: int| 0 <= j < kept.push(report@).len() implies (
                #[trigger] kept.push(report@)[j]).ok by {
                    if j < kept.len() {
                        assert(kept[j].ok);
                    }
                }
            }
            if all_ok(kept.push(report@)) {
                assert(kept.push(report@)[kept.len() as int].ok);
                assert forall|j: int| 0 <= j < kept.len() implies (#[trigger] kept[j]).ok by {
                    assert(kept.push(report@)[j].ok);
                }
            }
        }
        let full = results.len() == t.assigned_agents.len();
        t.results = results;
        if full {
            t.ended_at = Some(now);
            t.status = if all_fine {
                "done".to_owned()
            } else {
                "failed".to_owned()
            };
        }
        let task = t.clone();
        self.tasks.set(i, t);
        assert(views(self.tasks@) =~= before.tasks.update(i as int, task@));
        assert(task_ids(self@.tasks) =~= task_ids(before.tasks));
        Some(task)
    }

    /// Stores a task: in the place of one with the same identifier, or behind
    /// all others.
    pub fn store_task(&mut self, t: TaskRecord)
        requires
            old(self).wf(),
        ensures
            final(self).wf(),
            final(self)@ == after_task_stored(old(self)@, t@),
    {
        let ghost before = self@;
        let ghost ids = task_ids(before.tasks);
        let i = self.find_task(t.task_id.as_str());
        if i < self.tasks.len() {
            self.tasks.set(i, t);
            assert(views(self.tasks@) =~= before.tasks.update(i as int, t@));
            assert(task_ids(self@.tasks) =~= ids);
        } else {
            proof {
                lemma_index_of_first(ids, t@.task_id);
            }
            self.tasks.push(t);
            assert(views(self.tasks@) =~= before.tasks.push(t@));
            assert(distinct(task_ids(self@.tasks))) by {
                let now_ids = task_ids(self@.tasks);
                assert forall|a: int, b: int| 0 <= a < b < now_ids.len() implies now_ids[a]
                    != now_ids[b] by {
                    assert(now_ids[a] == ids[a]);
                    if b < ids.len() {
                        assert(now_ids[b] == ids[b]);
                    }
                }
            }
        }
    }

    /// Those of `agents` that have a channel, in their order.
    pub fn reachable(&self, agents: &Vec<String>) -> (r: Vec<String>)
        ensures
            texts(r@) == reachable_agents(texts(agents@), self@.connections),
    {
        let mut out: Vec<String> = Vec::new();
        let mut i: usize = 0;
        assert(texts(agents@).take(0) =~= Seq::<Text>::empty());
        assert(texts(out@) =~= Seq::<Text>::empty());
        while i < agents.len()
            invariant
                i <= agents.len(),
                texts(out@) == reachable_agents(texts(agents@).take(i as int), self@.connections),
            decreases agents.len() - i,
        {
            proof {
                let seen = texts(agents@).take(i + 1);
                assert(seen.drop_last() == texts(agents@).take(i as int));
                assert(seen.last() == agents@[i as int]@);
            }
            if self.connections.contains(agents[i].as_str()) {
                let ghost kept = texts(out@);
                out.push(agents[i].clone());
                assert(texts(out@) =~= kept.push(agents@[i as int]@));
            }
            i += 1;
        }
        assert(texts(agents@).take(agents.len() as int) == texts(agents@));
        out
    }

    /// Notes how many frames of the task `task_id` went out: with at least
    /// one the task runs. Gives the task as it then stands, if there is one.
    pub fn mark_task_sent(&mut self, task_id: &str, delivered: usize, now: i64) -> (r: Option<
        TaskRecord,
    >)
        requires
            old(self).wf(),
        ensures
            final(self).wf(),
            final(self)@ == after_task_sent(old(self)@, task_id@, delivered as int, now),
            r is Some == has_task(old(self)@, task_id@),
            r is Some ==> r->0@ == final(self)@.tasks[task_position(old(self)@, task_id@)],
    {
        let ghost before = self@;
        let i = self.find_task(task_id);
        if i >= self.tasks.len() {
            return None;
        }
        let mut t = self.tasks[i].clone();
        if delivered > 0 {
            t.status = "running".to_owned();
            t.started_at = Some(now);
            let task = t.clone();
            self.tasks.set(i, t);
            assert(views(self.tasks@) =~= before.tasks.update(i as int, task@));
            assert(task_ids(self@.tasks) =~= task_ids(before.tasks));
            Some(task)
        } else {
            Some(t)
        }
    }
}

/// What a register made of a device record.
#[derive(Debug)]
pub struct RegisterChange {
    /// The record as it stands now.
    pub device: DeviceRecord,
    /// Whether the record was made by this register.
    pub was_new: bool,
    /// The status before the register; `online` for a new record.
    pub old_status: String,
}

/// What a heartbeat made of a device record.
#[derive(Debug)]
pub struct HeartbeatChange {
    /// The record as it stands now.
    pub device: DeviceRecord,
    /// The status before the heartbeat.
    pub old_status: String,
    /// Whether the internet was reachable before the heartbeat.
    pub old_internet: Option<bool>,
    /// Whether DNS worked before the heartbeat.
    pub old_dns: Option<bool>,
}

} // verus!
