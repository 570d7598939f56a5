//! What holds of the admin whatever happens: laws that relate the steps of
//! `model`, `emit`, `session`, `tasks` and `control`, each proved from the
//! definitions there.

use crate::control::rotate_step;
use crate::model::{
    activity_dropped, after_activity, after_disconnect, after_heartbeat, after_rebuild,
    after_register, after_sweep, after_task_stored, after_upsert_check, count_or_one, device_ids,
    device_position, has_device, has_task, heartbeat_device, initial_state, is_stale,
    is_terminal,
    queued_task, reported_task, running_task, sound, swept_device, task_ids, task_position,
    topology_changed, upsert_due, without_agent, ServerState, ACTIVITY_DEDUPE_MS,
    DEVICE_EMIT_THROTTLE_MS, HEARTBEAT_TIMEOUT_MS,
};
use crate::records::{
    DeviceRecordView, NetworkFactsPayloadView, TaskRecordView, TaskResultRecordView,
};
use crate::session::{disconnect_step, heartbeat_step, register_step, task_result_step, FrameIdsView};
use crate::tasks::sent_step;
use crate::text::{lemma_index_of, lemma_index_of_first, Text};
use crate::wire::{
    HeartbeatPayloadView, RegisterPayloadView, TaskResultPayloadView, UiEventView,
};
use vstd::prelude::*;

verus! {

/// The words for the states of devices and tasks differ from each other.
proof fn lemma_status_words()
    ensures
        "online"@ != "offline"@,
        "queued"@ != "done"@,
        "queued"@ != "failed"@,
        "running"@ != "done"@,
        "running"@ != "failed"@,
        "done"@ != "failed"@,
{
    reveal_strlit("online");
    reveal_strlit("offline");
    reveal_strlit("queued");
    reveal_strlit("running");
    reveal_strlit("done");
    reveal_strlit("failed");
    assert("online"@.len() != "offline"@.len());
    assert("queued"@.len() != "done"@.len());
    assert("queued"@[0] != "failed"@[0]);
    assert("running"@.len() != "done"@.len());
    assert("running"@.len() != "failed"@.len());
    assert("done"@.len() != "failed"@.len());
}

/// Whether the devices and the channels agree: a device is offline if and
/// only if its agent has no channel.
pub open spec fn liveness_coherent(s: ServerState) -> bool {
    forall|i: int|
        0 <= i < s.devices.len() ==> ((#[trigger] s.devices[i]).status == "offline"@
            <==> !s.connections.contains(s.devices[i].agent_id))
}

/// A server that was just made has no device, so its devices and channels
/// agree.
pub proof fn lemma_liveness_initially(admin: NetworkFactsPayloadView, token: Text, now: i64)
    ensures
        liveness_coherent(initial_state(admin, token, now)),
{
}

/// A register keeps devices and channels in agreement: the agent has a
/// channel and its device is online.
pub proof fn lemma_liveness_register(s: ServerState, p: RegisterPayloadView, now: i64, id: Text)
    requires
        sound(s),
        liveness_coherent(s),
    ensures
        liveness_coherent(register_step(s, p, now, id).state),
{
    lemma_status_words();
    let ids = device_ids(s.devices);
    lemma_index_of_first(ids, p.agent_id);
    let s1 = after_register(s, p, now);
    let last = register_step(s, p, now, id).state;
    assert(last.devices == s1.devices);
    assert(last.connections == s1.connections);
    let i = device_position(s, p.agent_id);
    assert forall|k: int| 0 <= k < s1.devices.len() implies ((#[trigger] s1.devices[k]).status
        == "offline"@ <==> !s1.connections.contains(s1.devices[k].agent_id)) by {
        if k != i {
            assert(s1.devices[k] == s.devices[k]);
            assert(ids[k] != p.agent_id) by {
                if i < s.devices.len() {
                    assert(ids[i] == p.agent_id);
                    if k < i {
                        assert(ids[k] != ids[i]);
                    } else {
                        assert(ids[i] != ids[k]);
                    }
                }
            }
        }
    }
}

/// The end of a session keeps devices and channels in agreement: the agent
/// has no channel and its device is offline.
pub proof fn lemma_liveness_disconnect(s: ServerState, agent_id: Text, now: i64, id: Text)
    requires
        sound(s),
        liveness_coherent(s),
    ensures
        liveness_coherent(disconnect_step(s, agent_id, now, id).state),
{
    let ids = device_ids(s.devices);
    lemma_index_of_first(ids, agent_id);
    let s1 = after_disconnect(s, agent_id, now);
    let last = disconnect_step(s, agent_id, now, id).state;
    assert(last.devices == s1.devices);
    assert(last.connections == s1.connections);
    let i = device_position(s, agent_id);
    assert forall|k: int| 0 <= k < s1.devices.len() implies ((#[trigger] s1.devices[k]).status
        == "offline"@ <==> !s1.connections.contains(s1.devices[k].agent_id)) by {
        if k != i {
            assert(s1.devices[k] == s.devices[k]);
            assert(ids[k] != agent_id) by {
                if i < s.devices.len() {
                    assert(ids[i] == agent_id);
                    if k < i {
                        assert(ids[k] != ids[i]);
                    } else {
                        assert(ids[i] != ids[k]);
                    }
                }
            }
        }
    }
}

/// A heartbeat keeps devices and channels in agreement unless the status it
/// reports is at odds with them: `offline` from an agent that has a channel,
/// or another status from one that has none.
pub proof fn lemma_liveness_heartbeat(
    s: ServerState,
    agent_id: Text,
    p: HeartbeatPayloadView,
    now: i64,
    ids: FrameIdsView,
)
    requires
        sound(s),
        liveness_coherent(s),
        has_device(s, agent_id) && p.status.len() > 0 ==> (p.status == "offline"@
            <==> !s.connections.contains(agent_id)),
    ensures
        liveness_coherent(heartbeat_step(s, agent_id, p, now, ids).state),
{
    let all = device_ids(s.devices);
    lemma_index_of_first(all, agent_id);
    let s1 = after_heartbeat(s, agent_id, p, now);
    let last = heartbeat_step(s, agent_id, p, now, ids).state;
    if has_device(s, agent_id) {
        assert(last.devices == s1.devices);
        assert(last.connections == s1.connections);
        let i = device_position(s, agent_id);
        assert(all[i] == agent_id);
        assert forall|k: int| 0 <= k < s1.devices.len() implies ((#[trigger] s1.devices[k]).status
            == "offline"@ <==> !s1.connections.contains(s1.devices[k].agent_id)) by {
            if k != i {
                assert(s1.devices[k] == s.devices[k]);
            } else {
                assert(s.devices[i].status == "offline"@ <==> !s.connections.contains(agent_id));
            }
        }
    }
}

/// A run of the watchdog that finds no device stale keeps devices and
/// channels in agreement. One that finds a device stale does not: the device
/// is marked offline and its channel stays.
pub proof fn lemma_liveness_sweep(s: ServerState, now: i64)
    requires
        liveness_coherent(s),
        forall|i: int| 0 <= i < s.devices.len() ==> !is_stale(#[trigger] s.devices[i], now),
    ensures
        liveness_coherent(after_sweep(s, now)),
{
    let w = after_sweep(s, now);
    assert forall|k: int| 0 <= k < w.devices.len() implies ((#[trigger] w.devices[k]).status
        == "offline"@ <==> !w.connections.contains(w.devices[k].agent_id)) by {
        assert(w.devices[k] == s.devices[k]);
    }
}

/// A task report, the note that a task went out, and a new secret leave
/// devices and channels as they are.
pub proof fn lemma_liveness_elsewhere(
    s: ServerState,
    agent_id: Text,
    p: TaskResultPayloadView,
    task_id: Text,
    delivered: int,
    token: Text,
    now: i64,
    id: Text,
)
    requires
        liveness_coherent(s),
    ensures
        liveness_coherent(task_result_step(s, agent_id, p, now, id).state),
        liveness_coherent(sent_step(s, task_id, delivered, now, id).state),
        liveness_coherent(rotate_step(s, token, now, id).state),
{
    let a = task_result_step(s, agent_id, p, now, id).state;
    assert(a.devices == s.devices && a.connections == s.connections);
    let b = sent_step(s, task_id, delivered, now, id).state;
    assert(b.devices == s.devices && b.connections == s.connections);
    let c = rotate_step(s, token, now, id).state;
    assert(c.devices == s.devices && c.connections == s.connections);
}

/// Whether every agent that has a channel has a device record.
pub open spec fn channels_have_devices(s: ServerState) -> bool {
    forall|a: Text| #[trigger] s.connections.contains(a) ==> has_device(s, a)
}

/// The position of an agent's device does not change where every device
/// keeps its identifier.
proof fn lemma_same_ids_same_positions(before: ServerState, after: ServerState, a: Text)
    requires
        device_ids(after.devices) == device_ids(before.devices),
    ensures
        has_device(after, a) == has_device(before, a),
{
    assert(after.devices.len() == device_ids(after.devices).len());
    assert(before.devices.len() == device_ids(before.devices).len());
}

/// Whatever a frame or the end of a session does, every agent that has a
/// channel has a device record: records are never taken away, and a channel
/// is given only together with a record.
pub proof fn lemma_channels_have_devices(
    s: ServerState,
    agent_id: Text,
    register: RegisterPayloadView,
    heartbeat: HeartbeatPayloadView,
    now: i64,
    ids: FrameIdsView,
)
    requires
        sound(s),
        channels_have_devices(s),
    ensures
        channels_have_devices(register_step(s, register, now, ids.activity).state),
        channels_have_devices(heartbeat_step(s, agent_id, heartbeat, now, ids).state),
        channels_have_devices(disconnect_step(s, agent_id, now, ids.activity).state),
        channels_have_devices(after_sweep(s, now)),
{
    let r = register_step(s, register, now, ids.activity).state;
    let r1 = after_register(s, register, now);
    assert(r.devices == r1.devices && r.connections == r1.connections);
    let all = device_ids(s.devices);
    lemma_index_of_first(all, register.agent_id);
    let i = device_position(s, register.agent_id);
    assert forall|a: Text| #[trigger] r.connections.contains(a) implies has_device(r, a) by {
        let now_ids = device_ids(r.devices);
        if i < s.devices.len() {
            assert(now_ids =~= all);
            lemma_same_ids_same_positions(s, r, a);
        } else {
            assert(now_ids =~= all.push(register.agent_id));
            lemma_index_of_first(all, a);
            if a == register.agent_id {
                lemma_index_of(now_ids, a, i);
            } else {
                assert(s.connections.contains(a));
                let k = device_position(s, a);
                assert forall|j: int| 0 <= j < k implies #[trigger] now_ids[j] != a by {
                    assert(now_ids[j] == all[j]);
                }
                assert(now_ids[k] == all[k]);
                lemma_index_of(now_ids, a, k);
            }
        }
    }
    let h = heartbeat_step(s, agent_id, heartbeat, now, ids).state;
    assert(h.connections == s.connections);
    assert(device_ids(h.devices) =~= all) by {
        lemma_index_of_first(all, agent_id);
        let h1 = after_heartbeat(s, agent_id, heartbeat, now);
        assert(h.devices == h1.devices || h.devices == s.devices);
    }
    assert forall|a: Text| #[trigger] h.connections.contains(a) implies has_device(h, a) by {
        lemma_same_ids_same_positions(s, h, a);
    }
    let d = disconnect_step(s, agent_id, now, ids.activity).state;
    let d1 = after_disconnect(s, agent_id, now);
    assert(d.devices == d1.devices && d.connections == d1.connections);
    assert(device_ids(d.devices) =~= all) by {
        lemma_index_of_first(all, agent_id);
    }
    assert forall|a: Text| #[trigger] d.connections.contains(a) implies has_device(d, a) by {
        lemma_same_ids_same_positions(s, d, a);
    }
    let w = after_sweep(s, now);
    assert(device_ids(w.devices) =~= all);
    assert forall|a: Text| #[trigger] w.connections.contains(a) implies has_device(w, a) by {
        lemma_same_ids_same_positions(s, w, a);
    }
}

/// Whether a task is settled: it has ended if and only if it has as many
/// reports as agents.
pub open spec fn task_settled(t: TaskRecordView) -> bool {
    is_terminal(t.status) <==> t.results.len() == t.assigned_agents.len()
}

/// A task for at least one agent is settled when it is created.
pub proof fn lemma_settled_when_queued(
    task_id: Text,
    kind: Text,
    params: serde_json::Value,
    agents: Seq<Text>,
    now: i64,
)
    requires
        agents.len() > 0,
    ensures
        task_settled(queued_task(task_id, kind, params, agents, now)),
{
    lemma_status_words();
}

/// A task that still waits for reports stays settled when it is marked as
/// running.
pub proof fn lemma_settled_when_running(t: TaskRecordView, now: i64)
    requires
        t.results.len() != t.assigned_agents.len(),
    ensures
        task_settled(running_task(t, now)),
{
    lemma_status_words();
}

/// Whether `agent_id` has a report in the list.
pub open spec fn has_reported(results: Seq<TaskResultRecordView>, agent_id: Text) -> bool {
    exists|i: int| 0 <= i < results.len() && (#[trigger] results[i]).agent_id == agent_id
}

/// Whether no agent has two reports in the list.
pub open spec fn one_report_each(results: Seq<TaskResultRecordView>) -> bool {
    forall|i: int, j: int|
        0 <= i < j < results.len() ==> (#[trigger] results[i]).agent_id != (
        #[trigger] results[j]).agent_id
}

/// How many reports are left without those of an agent: all, if it has none,
/// and one less, if it has one and nobody has two.
proof fn lemma_without_agent_len(results: Seq<TaskResultRecordView>, agent_id: Text)
    ensures
        without_agent(results, agent_id).len() <= results.len(),
        !has_reported(results, agent_id) ==> without_agent(results, agent_id).len()
            == results.len(),
        one_report_each(results) && has_reported(results, agent_id) ==> without_agent(
            results,
            agent_id,
        ).len() + 1 == results.len(),
    decreases results.len(),
{
    if results.len() > 0 {
        let rest = results.drop_last();
        lemma_without_agent_len(rest, agent_id);
        if has_reported(rest, agent_id) {
            let i = choose|i: int| 0 <= i < rest.len() && (#[trigger] rest[i]).agent_id == agent_id;
            assert(results[i].agent_id == agent_id);
        }
        if !has_reported(results, agent_id) {
            assert(results[results.len() - 1].agent_id != agent_id);
        }
        if one_report_each(results) && has_reported(results, agent_id) {
            assert(one_report_each(rest)) by {
                assert forall|i: int, j: int| 0 <= i < j < rest.len() implies (
                #[trigger] rest[i]).agent_id != (#[trigger] rest[j]).agent_id by {
                    assert(results[i].agent_id != results[j].agent_id);
                }
            }
            let k = choose|k: int|
                0 <= k < results.len() && (#[trigger] results[k]).agent_id == agent_id;
            if results.last().agent_id == agent_id {
                if has_reported(rest, agent_id) {
                    let i = choose|i: int|
                        0 <= i < rest.len() && (#[trigger] rest[i]).agent_id == agent_id;
                    assert(results[i].agent_id != results[results.len() - 1].agent_id);
                }
            } else {
                assert(rest[k].agent_id == agent_id);
            }
        }
    }
}

/// A settled task stays settled under a report, unless all reports were in
/// and this one is of an agent that had not reported.
pub proof fn lemma_settled_when_reported(
    t: TaskRecordView,
    agent_id: Text,
    p: TaskResultPayloadView,
    now: i64,
)
    requires
        task_settled(t),
        one_report_each(t.results),
        t.results.len() != t.assigned_agents.len() || has_reported(t.results, agent_id),
    ensures
        task_settled(reported_task(t, agent_id, p, now)),
{
    lemma_status_words();
    lemma_without_agent_len(t.results, agent_id);
}

/// The revision of the topology goes up by one when the structure changes,
/// and only then; a topology of the same structure is not put in place.
pub proof fn lemma_revision_rebuild(s: ServerState, now: i64)
    requires
        s.topology.revision < u64::MAX,
    ensures
        topology_changed(s, now) ==> after_rebuild(s, now).topology.revision
            == s.topology.revision + 1 && after_rebuild(s, now).topology_key != s.topology_key,
        !topology_changed(s, now) ==> after_rebuild(s, now) == s,
{
}

/// Whatever a frame, the end of a session, a task or a new secret does, the
/// revision of the topology never goes down, and it goes up, by one, exactly
/// when the structural key changes.
pub proof fn lemma_revision_steps(
    s: ServerState,
    agent_id: Text,
    register: RegisterPayloadView,
    heartbeat: HeartbeatPayloadView,
    report: TaskResultPayloadView,
    task_id: Text,
    delivered: int,
    token: Text,
    now: i64,
    ids: FrameIdsView,
)
    requires
        s.topology.revision < u64::MAX,
    ensures
        revision_moves(s, register_step(s, register, now, ids.activity).state),
        revision_moves(s, heartbeat_step(s, agent_id, heartbeat, now, ids).state),
        revision_moves(s, task_result_step(s, agent_id, report, now, ids.activity).state),
        revision_moves(s, disconnect_step(s, agent_id, now, ids.activity).state),
        revision_moves(s, sent_step(s, task_id, delivered, now, ids.activity).state),
        revision_moves(s, rotate_step(s, token, now, ids.activity).state),
        revision_moves(s, after_sweep(s, now)),
{
}

/// Whether the topology of `after` is that of `before`, or one of another
/// structure with the next revision.
pub open spec fn revision_moves(before: ServerState, after: ServerState) -> bool {
    if after.topology_key == before.topology_key {
        after.topology == before.topology
    } else {
        after.topology.revision == before.topology.revision + 1
    }
}

/// An activity event that follows one of its kind and agent within the dedupe
/// time makes no new entry. If it is not dropped, the entry it goes into
/// counts one more: two, if it stood for a single event.
pub proof fn lemma_activity_dedupe(
    s: ServerState,
    kind: Text,
    agent_id: Option<Text>,
    first_message: Text,
    first: i64,
    first_id: Text,
    second_message: Text,
    second: i64,
    second_id: Text,
)
    requires
        !activity_dropped(s, agent_id, first),
        second - first <= ACTIVITY_DEDUPE_MS,
        count_or_one(after_activity(s, kind, agent_id, first_message, first, first_id).activity[0])
            < u32::MAX,
    ensures
        ({
            let s1 = after_activity(s, kind, agent_id, first_message, first, first_id);
            let s2 = after_activity(s1, kind, agent_id, second_message, second, second_id);
            &&& s1.activity.len() > 0
            &&& s2.activity.len() == s1.activity.len()
            &&& activity_dropped(s1, agent_id, second) ==> s2 == s1
            &&& !activity_dropped(s1, agent_id, second) ==> {
                &&& s2.activity[0].id == s1.activity[0].id
                &&& s2.activity[0].count == Some((count_or_one(s1.activity[0]) + 1) as u32)
                &&& s1.activity[0].count is None ==> s2.activity[0].count == Some(2u32)
                &&& s2.activity[0].ts == second
            }
        }),
{
}

/// After a device update of an agent was shown, the next one that is not
/// forced is shown no sooner than the throttle time later.
pub proof fn lemma_upsert_spacing(
    s: ServerState,
    agent_id: Text,
    first: i64,
    forced: bool,
    second: i64,
)
    requires
        upsert_due(s, agent_id, first, forced),
        upsert_due(after_upsert_check(s, agent_id, first, forced), agent_id, second, false),
    ensures
        second - first >= DEVICE_EMIT_THROTTLE_MS,
{
}

/// A register shows the device exactly once: first of all, and nowhere else.
pub open spec fn shows_device_once(events: Seq<UiEventView>) -> bool {
    &&& events.len() >= 2
    &&& events[0] is DeviceUpsert
    &&& forall|k: int| 1 <= k < events.len() ==> !(#[trigger] events[k] is DeviceUpsert)
}

/// A second register of an agent, even at once and with the same facts, shows
/// the device once, makes no second record and leaves alone the time the
/// device was first seen.
pub proof fn lemma_register_twice(
    s: ServerState,
    p: RegisterPayloadView,
    first: i64,
    first_id: Text,
    second: i64,
    second_id: Text,
)
    requires
        sound(s),
    ensures
        ({
            let one = register_step(s, p, first, first_id);
            let two = register_step(one.state, p, second, second_id);
            let i = device_position(one.state, p.agent_id);
            &&& has_device(one.state, p.agent_id)
            &&& shows_device_once(two.events)
            &&& two.state.devices.len() == one.state.devices.len()
            &&& two.state.devices[i].first_seen_ms == one.state.devices[i].first_seen_ms
            &&& two.state.devices[i].agent_id == p.agent_id
        }),
{
    let one = register_step(s, p, first, first_id);
    let s1 = after_register(s, p, first);
    assert(one.state.devices == s1.devices);
    let ids = device_ids(s.devices);
    lemma_index_of_first(ids, p.agent_id);
    let ids1 = device_ids(s1.devices);
    let i0 = device_position(s, p.agent_id);
    assert(ids1[i0] == p.agent_id);
    assert forall|k: int| 0 <= k < i0 implies #[trigger] ids1[k] != p.agent_id by {
        assert(ids1[k] == ids[k]);
    }
    lemma_index_of(ids1, p.agent_id, i0);
    let two = register_step(one.state, p, second, second_id);
    let s2 = after_register(one.state, p, second);
    assert(two.state.devices == s2.devices);
}

/// Two tasks created under different identifiers are two records: the second
/// leaves the first as it was stored.
pub proof fn lemma_dispatch_twice(
    s: ServerState,
    first_id: Text,
    second_id: Text,
    kind: Text,
    params: serde_json::Value,
    agents: Seq<Text>,
    first: i64,
    second: i64,
)
    requires
        sound(s),
        first_id != second_id,
    ensures
        ({
            let a = queued_task(first_id, kind, params, agents, first);
            let b = queued_task(second_id, kind, params, agents, second);
            let s2 = after_task_stored(after_task_stored(s, a), b);
            &&& has_task(s2, first_id)
            &&& has_task(s2, second_id)
            &&& task_position(s2, first_id) != task_position(s2, second_id)
            &&& s2.tasks[task_position(s2, first_id)] == a
            &&& s2.tasks[task_position(s2, second_id)] == b
            &&& !has_task(s, first_id) && !has_task(s, second_id) ==> s2.tasks.len()
                == s.tasks.len() + 2
        }),
{
    let a = queued_task(first_id, kind, params, agents, first);
    let b = queued_task(second_id, kind, params, agents, second);
    let s1 = after_task_stored(s, a);
    let s2 = after_task_stored(s1, b);
    let ids0 = task_ids(s.tasks);
    let ids1 = task_ids(s1.tasks);
    let ids2 = task_ids(s2.tasks);
    lemma_index_of_first(ids0, first_id);
    lemma_index_of_first(ids0, second_id);
    let i = task_position(s, first_id);
    assert(ids1[i] == first_id);
    assert forall|k: int| 0 <= k < i implies #[trigger] ids1[k] != first_id by {
        assert(ids1[k] == ids0[k]);
    }
    lemma_index_of(ids1, first_id, i);
    lemma_index_of_first(ids1, second_id);
    let j = task_position(s1, second_id);
    assert(j != i) by {
        if j == i {
            assert(ids1[j] == second_id);
        }
    }
    assert(ids2[j] == second_id);
    assert forall|k: int| 0 <= k < j implies #[trigger] ids2[k] != second_id by {
        assert(ids2[k] == ids1[k]);
    }
    lemma_index_of(ids2, second_id, j);
    assert(ids2[i] == first_id);
    assert forall|k: int| 0 <= k < i implies #[trigger] ids2[k] != first_id by {
        assert(ids2[k] == ids1[k]);
    }
    lemma_index_of(ids2, first_id, i);
    if !has_task(s, first_id) && !has_task(s, second_id) {
        assert forall|k: int| 0 <= k < i implies #[trigger] ids1[k] != second_id by {
            assert(ids1[k] == ids0[k]);
        }
        assert(j == i + 1);
    }
}

/// The watchdog marks a device offline only when more than the timeout has
/// passed since it was last seen: at exactly the timeout the device stays as
/// it is.
pub proof fn lemma_timeout_boundary(d: DeviceRecordView, now: i64)
    ensures
        now - d.last_seen_ms <= HEARTBEAT_TIMEOUT_MS ==> swept_device(d, now) == d,
        now - d.last_seen_ms > HEARTBEAT_TIMEOUT_MS ==> swept_device(d, now).status == "offline"@,
        swept_device(d, now).last_seen_ms == d.last_seen_ms,
{
}

/// A new secret closes no session: who had a channel before has one after,
/// and no device changes.
pub proof fn lemma_rotate_keeps_sessions(s: ServerState, token: Text, now: i64, id: Text)
    ensures
        rotate_step(s, token, now, id).state.connections == s.connections,
        rotate_step(s, token, now, id).state.devices == s.devices,
        rotate_step(s, token, now, id).state.pair_token == token,
{
}

/// A heartbeat whose own time is zero or less is stamped with the admin's
/// time; any other keeps its own.
pub proof fn lemma_heartbeat_time(d: DeviceRecordView, p: HeartbeatPayloadView, now: i64)
    ensures
        p.last_seen <= 0 ==> heartbeat_device(d, p, now).last_seen_ms == now,
        p.last_seen > 0 ==> heartbeat_device(d, p, now).last_seen_ms == p.last_seen,
{
}

/// What is left of a list of reports without those of an agent: none of
/// that agent, each of the others from the list, and no agent twice if none
/// was twice before.
proof fn lemma_without_agent(results: Seq<TaskResultRecordView>, agent_id: Text)
    ensures
        forall|k: int|
            0 <= k < without_agent(results, agent_id).len() ==> (#[trigger] without_agent(
                results,
                agent_id,
            )[k]).agent_id != agent_id,
        forall|k: int|
            0 <= k < without_agent(results, agent_id).len() ==> results.contains(
                #[trigger] without_agent(results, agent_id)[k],
            ),
        one_report_each(results) ==> one_report_each(without_agent(results, agent_id)),
    decreases results.len(),
{
    if results.len() > 0 {
        let rest = results.drop_last();
        lemma_without_agent(rest, agent_id);
        let head = without_agent(rest, agent_id);
        let out = without_agent(results, agent_id);
        assert forall|k: int| 0 <= k < out.len() implies results.contains(#[trigger] out[k]) by {
            if k < head.len() {
                assert(rest.contains(head[k]));
                let m = choose|m: int| 0 <= m < rest.len() && rest[m] == head[k];
                assert(results[m] == out[k]);
            } else {
                assert(results[results.len() - 1] == out[k]);
            }
        }
        if one_report_each(results) {
            assert(one_report_each(rest)) by {
                assert forall|i: int, j: int| 0 <= i < j < rest.len() implies (
                #[trigger] rest[i]).agent_id != (#[trigger] rest[j]).agent_id by {
                    assert(results[i].agent_id != results[j].agent_id);
                }
            }
            assert forall|i: int, j: int| 0 <= i < j < out.len() implies (
            #[trigger] out[i]).agent_id != (#[trigger] out[j]).agent_id by {
                if j < head.len() {
                    assert(head[i].agent_id != head[j].agent_id);
                } else {
                    assert(rest.contains(head[i]));
                    let m = choose|m: int| 0 <= m < rest.len() && rest[m] == head[i];
                    assert(results[m].agent_id != results[results.len() - 1].agent_id);
                }
            }
        }
    }
}

/// A task never has two reports of one agent, and the agents it was given to
/// stay the same, whatever is reported and whenever it is marked as running.
pub proof fn lemma_task_reports(t: TaskRecordView, agent_id: Text, p: TaskResultPayloadView, now: i64)
    requires
        one_report_each(t.results),
    ensures
        one_report_each(reported_task(t, agent_id, p, now).results),
        reported_task(t, agent_id, p, now).assigned_agents == t.assigned_agents,
        reported_task(t, agent_id, p, now).task_id == t.task_id,
        running_task(t, now).assigned_agents == t.assigned_agents,
        running_task(t, now).results == t.results,
{
    lemma_without_agent(t.results, agent_id);
    let kept = without_agent(t.results, agent_id);
    let out = reported_task(t, agent_id, p, now).results;
    assert forall|i: int, j: int| 0 <= i < j < out.len() implies (#[trigger] out[i]).agent_id != (
    #[trigger] out[j]).agent_id by {
        if j < kept.len() {
            assert(kept[i].agent_id != kept[j].agent_id);
        } else {
            assert(kept[i].agent_id != agent_id);
        }
    }
}

/// Devices keep the order of their first register: a register of a new agent
/// puts its device behind all others, and nothing else changes who stands
/// where.
pub proof fn lemma_device_order(
    s: ServerState,
    agent_id: Text,
    register: RegisterPayloadView,
    heartbeat: HeartbeatPayloadView,
    now: i64,
    ids: FrameIdsView,
)
    ensures
        device_ids(register_step(s, register, now, ids.activity).state.devices) == if has_device(
            s,
            register.agent_id,
        ) {
            device_ids(s.devices)
        } else {
            device_ids(s.devices).push(register.agent_id)
        },
        device_ids(heartbeat_step(s, agent_id, heartbeat, now, ids).state.devices) == device_ids(
            s.devices,
        ),
        device_ids(disconnect_step(s, agent_id, now, ids.activity).state.devices) == device_ids(
            s.devices,
        ),
        device_ids(after_sweep(s, now).devices) == device_ids(s.devices),
{
    let all = device_ids(s.devices);
    lemma_index_of_first(all, register.agent_id);
    lemma_index_of_first(all, agent_id);
    let r = register_step(s, register, now, ids.activity).state;
    assert(r.devices == after_register(s, register, now).devices);
    if has_device(s, register.agent_id) {
        assert(device_ids(r.devices) =~= all);
    } else {
        assert(device_ids(r.devices) =~= all.push(register.agent_id));
    }
    let h = heartbeat_step(s, agent_id, heartbeat, now, ids).state;
    assert(h.devices == after_heartbeat(s, agent_id, heartbeat, now).devices || h.devices
        == s.devices);
    assert(device_ids(h.devices) =~= all);
    let d = disconnect_step(s, agent_id, now, ids.activity).state;
    assert(d.devices == after_disconnect(s, agent_id, now).devices);
    assert(device_ids(d.devices) =~= all);
    assert(device_ids(after_sweep(s, now).devices) =~= all);
}

} // verus!
