use labscan_admin::compare::{compare_device_topology_order, compare_topology_nodes};
use labscan_admin::control::Stamp;
use labscan_admin::network::{apply_network_payload, clean_non_empty_owned};
use labscan_admin::records::{
    ArpEntry, DeviceRecord, NetworkFactsPayload, ServerStatus, TopologyNode,
};
use labscan_admin::session::{FrameIds, Session};
use labscan_admin::sorting::{dedup, sort_stable};
use labscan_admin::state::ServerManager;
use labscan_admin::wire::{
    frame_kind, Frame, FrameKind, HeartbeatPayload, RegisterPayload, TaskResultPayload, UiEvent,
};
use std::cmp::Ordering;

const T0: i64 = 1_700_000_000_000;

fn blank_facts() -> NetworkFactsPayload {
    NetworkFactsPayload::default()
}

fn server() -> ServerManager {
    let mut admin = blank_facts();
    admin.ip = "10.0.0.2".to_string();
    admin.subnet_cidr = "10.0.0.0/24".to_string();
    admin.default_gateway_ip = "10.0.0.1".to_string();
    ServerManager::new_at(admin, "token".to_string(), T0)
}

fn register_payload(agent: &str, hostname: &str, ip: &str) -> RegisterPayload {
    RegisterPayload {
        agent_id: agent.to_string(),
        secret: "token".to_string(),
        hostname: hostname.to_string(),
        ips: vec![ip.to_string()],
        os: "linux".to_string(),
        version: "1.0".to_string(),
        network: blank_facts(),
    }
}

fn frame_ids(tag: &str) -> FrameIds {
    FrameIds {
        activity: format!("{}-a", tag),
        internet_log: format!("{}-il", tag),
        internet_activity: format!("{}-ia", tag),
        dns_log: format!("{}-dl", tag),
        dns_activity: format!("{}-da", tag),
    }
}

fn beat(status: &str, last_seen: i64, metrics: Option<&str>) -> HeartbeatPayload {
    HeartbeatPayload {
        status: status.to_string(),
        last_seen,
        metrics: metrics.map(|m| serde_json::from_str(m).unwrap()),
        network: blank_facts(),
    }
}

fn event_names(events: &[UiEvent]) -> Vec<&'static str> {
    events.iter().map(|e| e.name()).collect()
}

fn device(agent: &str, hostname: &str, ip: Option<&str>, ips: &[&str]) -> DeviceRecord {
    DeviceRecord {
        agent_id: agent.to_string(),
        hostname: hostname.to_string(),
        ips: ips.iter().map(|s| s.to_string()).collect(),
        os: String::new(),
        version: String::new(),
        status: "online".to_string(),
        last_seen_ms: 0,
        internet_reachable: None,
        dns_ok: None,
        gateway_reachable: None,
        latency_ms: None,
        last_internet_change_ms: None,
        last_dns_change_ms: None,
        first_seen_ms: 0,
        ip: ip.map(|s| s.to_string()),
        subnet_cidr: None,
        default_gateway_ip: None,
        interface_type: None,
        mac: None,
        gateway_mac: None,
        dhcp_server_ip: None,
        ssid: None,
        arp_snapshot: Vec::new(),
    }
}

#[test]
fn new_server_is_offline_and_empty() {
    let m = server();
    assert_eq!(m.get_status(), ServerStatus { online: false, port_ws: 8148, port_udp: 8870 });
    assert_eq!(m.get_pair_token(), "token");
    assert!(m.get_devices_snapshot().devices.is_empty());
    assert!(m.get_tasks_snapshot().tasks.is_empty());
    assert!(m.get_activity_snapshot().events.is_empty());
    let t = m.get_topology_snapshot();
    assert_eq!(t.revision, 0);
    assert_eq!(t.updated_at, T0);
    assert!(t.nodes.is_empty() && t.edges.is_empty());
    assert!(m.has_headroom());
}

#[test]
fn fresh_server_has_a_fresh_secret() {
    let a = ServerManager::new(blank_facts());
    let b = ServerManager::new(blank_facts());
    assert_eq!(a.get_pair_token().len(), 36);
    assert_ne!(a.get_pair_token(), b.get_pair_token());
    assert!(a.get_topology_snapshot().updated_at > 1_600_000_000_000);
}

#[test]
fn stamps_are_fresh() {
    let a = Stamp::fresh();
    let b = Stamp::fresh();
    assert_eq!(a.id.len(), 36);
    assert_ne!(a.id, b.id);
    assert!(a.id.chars().all(|c| c == '-' || c.is_ascii_hexdigit()));
    assert!(a.now > 1_600_000_000_000);
    assert!(b.now >= a.now);
    let ids = FrameIds::fresh();
    assert_ne!(ids.activity, ids.dns_log);
}

#[test]
fn device_upsert_is_throttled_to_one_a_second() {
    let mut m = server();
    assert!(m.device_upsert_due("A", T0, false));
    assert!(!m.device_upsert_due("A", T0 + 999, false));
    assert!(m.device_upsert_due("A", T0 + 1_000, false));
    assert!(!m.device_upsert_due("A", T0 + 1_500, false));
    assert!(m.device_upsert_due("A", T0 + 1_500, true));
    assert!(!m.device_upsert_due("A", T0 + 2_499, false));
    assert!(m.device_upsert_due("B", T0 + 1_600, false));
    assert!(m.device_upsert_due("A", T0 + 2_500, false));
}

#[test]
fn first_upsert_of_an_agent_is_measured_from_zero() {
    let mut m = server();
    assert!(!m.device_upsert_due("A", 999, false));
    assert!(m.device_upsert_due("A", 1_000, false));
}

#[test]
fn activity_merges_within_thirty_seconds() {
    let mut m = server();
    let first = m
        .record_activity("task_started", None, "one".to_string(), T0, "id-1".to_string())
        .unwrap();
    assert_eq!(first.count, None);
    assert_eq!(first.id, "id-1");
    let second = m
        .record_activity("task_started", None, "two".to_string(), T0 + 30_000, "id-2".to_string())
        .unwrap();
    assert_eq!(second.id, "id-1");
    assert_eq!(second.message, "one");
    assert_eq!(second.count, Some(2));
    assert_eq!(second.ts, T0 + 30_000);
    let third = m
        .record_activity("task_started", None, "three".to_string(), T0 + 31_000, "id-3".to_string())
        .unwrap();
    assert_eq!(third.count, Some(3));
    assert_eq!(m.get_activity_snapshot().events.len(), 1);
    let late = m
        .record_activity("task_started", None, "late".to_string(), T0 + 61_001, "id-4".to_string())
        .unwrap();
    assert_eq!(late.id, "id-4");
    assert_eq!(late.count, None);
    let other = m
        .record_activity("task_failed", None, "x".to_string(), T0 + 61_002, "id-5".to_string())
        .unwrap();
    assert_eq!(other.id, "id-5");
    let feed = m.get_activity_snapshot().events;
    let ids: Vec<&str> = feed.iter().map(|e| e.id.as_str()).collect();
    assert_eq!(ids, vec!["id-5", "id-4", "id-1"]);
}

#[test]
fn activity_of_one_agent_is_limited_to_one_in_five_seconds() {
    let mut m = server();
    let agent = Some("A".to_string());
    assert!(m
        .record_activity("k", agent.clone(), "m".to_string(), T0, "1".to_string())
        .is_some());
    assert!(m
        .record_activity("k", agent.clone(), "m".to_string(), T0 + 4_999, "2".to_string())
        .is_none());
    assert!(m
        .record_activity("other", agent.clone(), "m".to_string(), T0 + 4_999, "3".to_string())
        .is_none());
    assert!(m
        .record_activity("k", Some("B".to_string()), "m".to_string(), T0 + 1, "4".to_string())
        .is_some());
    let merged = m
        .record_activity("k", agent.clone(), "m".to_string(), T0 + 5_000, "5".to_string())
        .unwrap();
    assert_eq!(merged.id, "5");
    assert_eq!(m.get_activity_snapshot().events.len(), 3);
}

#[test]
fn activity_feed_keeps_two_hundred_entries() {
    let mut m = server();
    for i in 0..250 {
        let kind = format!("kind-{}", i);
        m.record_activity(&kind, None, "m".to_string(), T0 + i, format!("id-{}", i));
    }
    let feed = m.get_activity_snapshot().events;
    assert_eq!(feed.len(), 200);
    assert_eq!(feed[0].id, "id-249");
    assert_eq!(feed[199].id, "id-50");
}

#[test]
fn log_keeps_four_hundred_entries() {
    let mut m = server();
    let mut last = Vec::new();
    for i in 0..401 {
        let mut events = Vec::new();
        m.emit_log_at(&mut events, None, "INFO", format!("line {}", i), T0 + i, format!("l{}", i));
        last = events;
    }
    assert_eq!(event_names(&last), vec!["log_event"]);
    match &last[0] {
        UiEvent::Log(e) => {
            assert_eq!(e.message, "line 400");
            assert_eq!(e.level, "INFO");
            assert_eq!(e.agent_id, None);
            assert_eq!(e.ts, T0 + 400);
        }
        other => panic!("unexpected {:?}", other),
    }
}

#[test]
fn second_register_shows_the_device_once_and_keeps_first_seen() {
    let mut m = server();
    let mut session = Session::new();
    m.handle_frame_at(
        &mut session,
        Frame::Register(register_payload("A", "h1", "10.0.0.5")),
        T0,
        frame_ids("1"),
    );
    let out = m.handle_frame_at(
        &mut session,
        Frame::Register(register_payload("A", "h1", "10.0.0.5")),
        T0 + 10,
        frame_ids("2"),
    );
    assert_eq!(event_names(&out.events), vec!["device_upsert", "devices_snapshot"]);
    let devices = m.get_devices_snapshot().devices;
    assert_eq!(devices.len(), 1);
    assert_eq!(devices[0].first_seen_ms, T0);
    assert_eq!(devices[0].last_seen_ms, T0 + 10);
}

#[test]
fn register_after_going_offline_announces_the_change() {
    let mut m = server();
    let mut session = Session::new();
    m.handle_frame_at(
        &mut session,
        Frame::Register(register_payload("A", "h1", "10.0.0.5")),
        T0,
        frame_ids("1"),
    );
    let gone = m.on_agent_disconnect_at("A".to_string(), T0 + 10_000, "gone".to_string());
    assert_eq!(event_names(&gone), vec!["device_upsert", "devices_snapshot", "activity_event"]);
    match &gone[2] {
        UiEvent::Activity(a) => {
            assert_eq!(a.kind, "device_disconnected");
            assert_eq!(a.message, "h1 disconnected");
        }
        other => panic!("unexpected {:?}", other),
    }
    assert!(!m.is_connected("A"));
    let d = m.device("A").unwrap();
    assert_eq!(d.status, "offline");
    assert_eq!(d.last_seen_ms, T0 + 10_000);
    let mut again = Session::new();
    let out = m.handle_frame_at(
        &mut again,
        Frame::Register(register_payload("A", "h1", "10.0.0.5")),
        T0 + 20_000,
        frame_ids("2"),
    );
    assert_eq!(event_names(&out.events), vec!["device_upsert", "devices_snapshot", "activity_event"]);
    match &out.events[2] {
        UiEvent::Activity(a) => {
            assert_eq!(a.kind, "device_status_changed");
            assert_eq!(a.message, "h1 status offline -> online");
        }
        other => panic!("unexpected {:?}", other),
    }
    assert!(m.is_connected("A"));
}

#[test]
fn disconnect_of_an_unknown_agent_shows_a_removal() {
    let mut m = server();
    let events = m.on_agent_disconnect_at("ghost".to_string(), T0, "id".to_string());
    assert_eq!(
        event_names(&events),
        vec!["device_remove", "devices_snapshot", "topology_snapshot", "topology_changed"]
    );
    match &events[0] {
        UiEvent::DeviceRemove(id) => assert_eq!(id, "ghost"),
        other => panic!("unexpected {:?}", other),
    }
}

#[test]
fn frames_before_register_are_passed_over() {
    let mut m = server();
    let mut session = Session::new();
    let out = m.handle_frame_at(
        &mut session,
        Frame::Heartbeat(beat("online", 0, None)),
        T0,
        frame_ids("1"),
    );
    assert!(out.reply.is_none() && !out.close && out.events.is_empty());
    let report = TaskResultPayload {
        task_id: "t".to_string(),
        ok: true,
        result: serde_json::Value::Null,
        error: None,
    };
    let out = m.handle_frame_at(&mut session, Frame::TaskResult(report), T0, frame_ids("2"));
    assert!(out.reply.is_none() && !out.close && out.events.is_empty());
    let out = m.handle_frame_at(&mut session, Frame::Other, T0, frame_ids("3"));
    assert!(out.reply.is_none() && !out.close && out.events.is_empty());
    assert_eq!(session.registered_agent_id, None);
}

#[test]
fn frame_kinds_go_by_type() {
    assert_eq!(frame_kind("register"), FrameKind::Register);
    assert_eq!(frame_kind("heartbeat"), FrameKind::Heartbeat);
    assert_eq!(frame_kind("task_result"), FrameKind::TaskResult);
    assert_eq!(frame_kind("registered"), FrameKind::Other);
    assert_eq!(frame_kind("Register"), FrameKind::Other);
    assert_eq!(frame_kind(""), FrameKind::Other);
}

#[test]
fn heartbeat_takes_server_time_when_its_own_is_not_positive() {
    let mut m = server();
    let mut session = Session::new();
    m.handle_frame_at(
        &mut session,
        Frame::Register(register_payload("A", "h1", "10.0.0.5")),
        T0,
        frame_ids("1"),
    );
    m.handle_frame_at(&mut session, Frame::Heartbeat(beat("", 0, None)), T0 + 5, frame_ids("2"));
    assert_eq!(m.device("A").unwrap().last_seen_ms, T0 + 5);
    m.handle_frame_at(&mut session, Frame::Heartbeat(beat("", -7, None)), T0 + 6, frame_ids("3"));
    assert_eq!(m.device("A").unwrap().last_seen_ms, T0 + 6);
    m.handle_frame_at(&mut session, Frame::Heartbeat(beat("", 42, None)), T0 + 7, frame_ids("4"));
    assert_eq!(m.device("A").unwrap().last_seen_ms, 42);
    assert_eq!(m.device("A").unwrap().status, "online");
}

#[test]
fn heartbeat_reads_metrics_and_announces_changes() {
    let mut m = server();
    let mut session = Session::new();
    m.handle_frame_at(
        &mut session,
        Frame::Register(register_payload("A", "h1", "10.0.0.5")),
        T0,
        frame_ids("1"),
    );
    let metrics = r#"{"internet_reachable": true, "dns_ok": false, "gateway_reachable": "yes", "latency_ms": 23}"#;
    let out = m.handle_frame_at(
        &mut session,
        Frame::Heartbeat(beat("degraded", 0, Some(metrics))),
        T0 + 10_000,
        frame_ids("hb"),
    );
    assert_eq!(
        event_names(&out.events),
        vec!["device_upsert", "devices_snapshot", "activity_event", "log_event", "log_event"]
    );
    match &out.events[2] {
        UiEvent::Activity(a) => {
            assert_eq!(a.kind, "device_status_changed");
            assert_eq!(a.message, "h1 status online -> degraded");
            assert_eq!(a.id, "hb-a");
        }
        other => panic!("unexpected {:?}", other),
    }
    match &out.events[3] {
        UiEvent::Log(e) => {
            assert_eq!(e.message, "internet_reachable changed None -> Some(true)");
            assert_eq!(e.agent_id, Some("A".to_string()));
            assert_eq!(e.id, "hb-il");
        }
        other => panic!("unexpected {:?}", other),
    }
    match &out.events[4] {
        UiEvent::Log(e) => assert_eq!(e.message, "dns_ok changed None -> Some(false)"),
        other => panic!("unexpected {:?}", other),
    }
    let d = m.device("A").unwrap();
    assert_eq!(d.status, "degraded");
    assert_eq!(d.internet_reachable, Some(true));
    assert_eq!(d.dns_ok, Some(false));
    assert_eq!(d.gateway_reachable, None);
    assert_eq!(d.latency_ms, Some(23));
    assert_eq!(d.last_internet_change_ms, Some(T0 + 10_000));
    assert_eq!(d.last_dns_change_ms, Some(T0 + 10_000));

    let partial = r#"{"latency_ms": 1.5, "dns_ok": true}"#;
    let out = m.handle_frame_at(
        &mut session,
        Frame::Heartbeat(beat("", 0, Some(partial))),
        T0 + 20_000,
        frame_ids("hb2"),
    );
    assert_eq!(
        event_names(&out.events),
        vec!["device_upsert", "devices_snapshot", "log_event", "activity_event"]
    );
    match &out.events[3] {
        UiEvent::Activity(a) => {
            assert_eq!(a.kind, "dns_status_changed");
            assert_eq!(a.message, "h1 dns Some(false) -> Some(true)");
        }
        other => panic!("unexpected {:?}", other),
    }
    let d = m.device("A").unwrap();
    assert_eq!(d.status, "degraded");
    assert_eq!(d.internet_reachable, Some(true));
    assert_eq!(d.dns_ok, Some(true));
    assert_eq!(d.latency_ms, None);
    assert_eq!(d.last_internet_change_ms, Some(T0 + 10_000));
    assert_eq!(d.last_dns_change_ms, Some(T0 + 20_000));

    let not_an_object = m.handle_frame_at(
        &mut session,
        Frame::Heartbeat(beat("", 0, Some("[1, 2]"))),
        T0 + 20_100,
        frame_ids("hb3"),
    );
    assert!(not_an_object.events.is_empty());
    assert_eq!(m.device("A").unwrap().dns_ok, Some(true));
}

#[test]
fn unforced_upsert_of_a_heartbeat_is_throttled() {
    let mut m = server();
    let mut session = Session::new();
    m.handle_frame_at(
        &mut session,
        Frame::Register(register_payload("A", "h1", "10.0.0.5")),
        T0,
        frame_ids("1"),
    );
    let soon =
        m.handle_frame_at(&mut session, Frame::Heartbeat(beat("", 0, None)), T0 + 999, frame_ids("2"));
    assert!(soon.events.is_empty());
    let later = m.handle_frame_at(
        &mut session,
        Frame::Heartbeat(beat("", 0, None)),
        T0 + 1_000,
        frame_ids("3"),
    );
    assert_eq!(event_names(&later.events), vec!["device_upsert", "devices_snapshot"]);
}

#[test]
fn rotating_the_secret_keeps_sessions_open() {
    let mut m = server();
    let mut session = Session::new();
    m.handle_frame_at(
        &mut session,
        Frame::Register(register_payload("A", "h1", "10.0.0.5")),
        T0,
        frame_ids("1"),
    );
    let events = m.rotate_pair_token_at("next".to_string(), T0 + 1, "log".to_string());
    assert_eq!(event_names(&events), vec!["server_status", "log_event"]);
    match &events[1] {
        UiEvent::Log(e) => assert_eq!(e.message, "Pair token rotated"),
        other => panic!("unexpected {:?}", other),
    }
    assert_eq!(m.get_pair_token(), "next");
    assert!(m.is_connected("A"));
    assert_eq!(m.device("A").unwrap().status, "online");
    let out = m.handle_frame_at(
        &mut session,
        Frame::Heartbeat(beat("", 0, None)),
        T0 + 2_000,
        frame_ids("2"),
    );
    assert!(!out.close);
    let mut other = Session::new();
    let refused = m.handle_frame_at(
        &mut other,
        Frame::Register(register_payload("B", "h2", "10.0.0.6")),
        T0 + 3_000,
        frame_ids("3"),
    );
    assert!(refused.close);
    let rotation = m.rotate_pair_token();
    assert_eq!(rotation.token.len(), 36);
    assert_eq!(m.get_pair_token(), rotation.token);
    assert!(m.is_connected("A"));
}

#[test]
fn dispatch_refuses_no_agents_and_unknown_kinds() {
    let mut m = server();
    let none = m.dispatch_task_at(
        Vec::new(),
        "ping".to_string(),
        serde_json::Value::Null,
        T0,
        "t1".to_string(),
    );
    assert_eq!(none.unwrap_err(), "at least one agent is required");
    let both = m.dispatch_task_at(
        Vec::new(),
        "reboot".to_string(),
        serde_json::Value::Null,
        T0,
        "t1".to_string(),
    );
    assert_eq!(both.unwrap_err(), "at least one agent is required");
    let kind = m.dispatch_task_at(
        vec!["A".to_string()],
        "reboot".to_string(),
        serde_json::Value::Null,
        T0,
        "t1".to_string(),
    );
    assert_eq!(kind.unwrap_err(), "unsupported task kind");
    assert!(m.get_tasks_snapshot().tasks.is_empty());
    for kind in ["ping", "port_scan", "arp_snapshot"] {
        let ok = m.dispatch_task_at(
            vec!["A".to_string()],
            kind.to_string(),
            serde_json::Value::Null,
            T0,
            format!("task-{}", kind),
        );
        assert!(ok.is_ok());
    }
    assert_eq!(m.get_tasks_snapshot().tasks.len(), 3);
}

#[test]
fn two_dispatches_make_two_tasks() {
    let mut m = server();
    let params: serde_json::Value = serde_json::from_str(r#"{"target":"1.1.1.1"}"#).unwrap();
    let a = m.dispatch_task(vec!["A".to_string()], "ping".to_string(), params.clone()).unwrap();
    let b = m.dispatch_task(vec!["A".to_string()], "ping".to_string(), params.clone()).unwrap();
    assert_ne!(a.task.task_id, b.task.task_id);
    assert_eq!(a.task.task_id.len(), 36);
    assert_eq!(a.task.params, params);
    let tasks = m.get_tasks_snapshot().tasks;
    assert_eq!(tasks.len(), 2);
    assert!(a.frames.is_empty());
    assert_eq!(m.task(&a.task.task_id).unwrap().status, "queued");
    let report = m.dispatch_sent_at(&a.task.task_id, 0, T0, "act".to_string());
    assert_eq!(report.task.unwrap().status, "queued");
    assert_eq!(m.task(&b.task.task_id).unwrap().status, "queued");
    let unknown = m.dispatch_sent_at("no-such-task", 1, T0, "act".to_string());
    assert!(unknown.task.is_none() && unknown.events.is_empty());
}

#[test]
fn tasks_snapshot_lists_the_newest_first() {
    let mut m = server();
    for (id, at) in [("old", T0), ("new", T0 + 2), ("mid", T0 + 1), ("mid2", T0 + 1)] {
        m.dispatch_task_at(
            vec!["A".to_string()],
            "ping".to_string(),
            serde_json::Value::Null,
            at,
            id.to_string(),
        )
        .unwrap();
    }
    let ids: Vec<String> = m.get_tasks_snapshot().tasks.into_iter().map(|t| t.task_id).collect();
    assert_eq!(ids, vec!["new", "mid", "mid2", "old"]);
}

#[test]
fn a_second_report_of_an_agent_replaces_the_first() {
    let mut m = server();
    m.dispatch_task_at(
        vec!["A".to_string(), "B".to_string()],
        "ping".to_string(),
        serde_json::Value::Null,
        T0,
        "t".to_string(),
    )
    .unwrap();
    let report = |ok: bool| TaskResultPayload {
        task_id: "t".to_string(),
        ok,
        result: serde_json::Value::Bool(ok),
        error: None,
    };
    let first = m.apply_task_result("A", report(false), T0 + 1).unwrap();
    assert_eq!(first.results.len(), 1);
    assert_eq!(first.status, "queued");
    let second = m.apply_task_result("A", report(true), T0 + 2).unwrap();
    assert_eq!(second.results.len(), 1);
    assert!(second.results[0].ok);
    assert_eq!(second.results[0].ts, T0 + 2);
    assert_eq!(second.results[0].result, serde_json::Value::Bool(true));
    assert_eq!(second.status, "queued");
    let third = m.apply_task_result("B", report(true), T0 + 3).unwrap();
    assert_eq!(third.status, "done");
    assert_eq!(third.ended_at, Some(T0 + 3));
    assert!(m.apply_task_result("A", TaskResultPayload { task_id: "none".to_string(), ..report(true) }, T0).is_none());
}

#[test]
fn watchdog_boundary_is_strict() {
    let mut m = server();
    let mut session = Session::new();
    m.handle_frame_at(
        &mut session,
        Frame::Register(register_payload("A", "h1", "10.0.0.5")),
        T0,
        frame_ids("1"),
    );
    assert!(m.sweep_stale(T0 + 20_000).is_empty());
    let stale = m.sweep_stale(T0 + 20_001);
    assert_eq!(stale.len(), 1);
    assert_eq!(stale[0].agent_id, "A");
    assert_eq!(stale[0].status, "offline");
    assert!(m.sweep_stale(T0 + 90_000).is_empty());
}

#[test]
fn network_facts_are_cleaned_and_guessed() {
    let mut d = device("A", "h1", None, &["  ", " 10.1.2.3 "]);
    d.arp_snapshot = vec![ArpEntry { ip: "1.1.1.1".to_string(), mac: "aa".to_string() }];
    let mut n = blank_facts();
    n.mac = Some("  ".to_string());
    n.ssid = Some(" lab ".to_string());
    n.interface_type = " wifi".to_string();
    apply_network_payload(&mut d, &n);
    assert_eq!(d.ip, Some("10.1.2.3".to_string()));
    assert_eq!(d.subnet_cidr, Some("10.1.2.0/24".to_string()));
    assert_eq!(d.default_gateway_ip, None);
    assert_eq!(d.interface_type, Some("wifi".to_string()));
    assert_eq!(d.mac, None);
    assert_eq!(d.ssid, Some("lab".to_string()));
    assert_eq!(d.arp_snapshot.len(), 1);
    n.ip = "192.168.0.9".to_string();
    n.subnet_cidr = "192.168.0.0/16".to_string();
    n.arp_snapshot = vec![
        ArpEntry { ip: "2.2.2.2".to_string(), mac: "bb".to_string() },
        ArpEntry { ip: "3.3.3.3".to_string(), mac: "cc".to_string() },
    ];
    apply_network_payload(&mut d, &n);
    assert_eq!(d.ip, Some("192.168.0.9".to_string()));
    assert_eq!(d.subnet_cidr, Some("192.168.0.0/16".to_string()));
    assert_eq!(d.arp_snapshot.len(), 2);
    assert_eq!(d.arp_snapshot[1].mac, "cc");
    assert_eq!(clean_non_empty_owned(" \t\n"), None);
    assert_eq!(clean_non_empty_owned(" a b "), Some("a b".to_string()));
}

#[test]
fn hosts_are_ordered_by_address_name_and_identifier() {
    let a = device("A", "zeta", Some("10.0.0.10"), &[]);
    let b = device("B", "alpha", Some("10.0.0.9"), &[]);
    let c = device("C", "alpha", None, &["10.0.0.9"]);
    let d = device("D", "alpha", Some("not an address"), &["10.0.0.1"]);
    let e = device("E", "alpha", None, &[]);
    assert_eq!(compare_device_topology_order(&b, &a), Ordering::Less);
    assert_eq!(compare_device_topology_order(&a, &b), Ordering::Greater);
    assert_eq!(compare_device_topology_order(&b, &c), Ordering::Less);
    assert_eq!(compare_device_topology_order(&a, &d), Ordering::Less);
    assert_eq!(compare_device_topology_order(&d, &e), Ordering::Less);
    assert_eq!(compare_device_topology_order(&e, &d), Ordering::Greater);
    assert_eq!(compare_device_topology_order(&e, &e), Ordering::Equal);
    let sorted = sort_stable(vec![e.clone(), d.clone(), a.clone(), c.clone(), b.clone()]);
    let ids: Vec<&str> = sorted.iter().map(|x| x.agent_id.as_str()).collect();
    assert_eq!(ids, vec!["B", "C", "A", "D", "E"]);
}

fn node(id: &str, node_type: &str, label: &str, gateway: Option<&str>) -> TopologyNode {
    TopologyNode {
        id: id.to_string(),
        node_type: node_type.to_string(),
        label: label.to_string(),
        subnet_cidr: None,
        gateway_ip: gateway.map(|g| g.to_string()),
        agent_id: None,
        interface_type: None,
        attached_count: None,
    }
}

#[test]
fn nodes_are_ordered_by_kind_address_and_identifier() {
    let subnet = node("subnet:x", "subnet", "x", None);
    let gw_low = node("gw:10.0.0.1", "gateway", "Gateway 10.0.0.1", Some("10.0.0.1"));
    let gw_high = node("gw:10.0.0.20", "gateway", "Gateway 10.0.0.20", Some("10.0.0.20"));
    let switch = node("sw", "switch", "sw", None);
    let hub = node("hub:x", "unknown_hub", "Unknown Hub", None);
    let admin = node("admin:self", "admin", "Admin", None);
    let host_by_label = node("host:z", "host", "10.0.0.3", None);
    let host_plain = node("host:a", "host", "h1", None);
    let other = node("a", "printer", "p", None);
    let want = vec![
        &subnet, &gw_low, &gw_high, &switch, &hub, &admin, &host_by_label, &host_plain, &other,
    ];
    for i in 0..want.len() {
        for j in 0..want.len() {
            let expected = i.cmp(&j);
            assert_eq!(compare_topology_nodes(want[i], want[j]), expected, "{} vs {}", i, j);
        }
    }
}

#[test]
fn sort_is_stable_and_dedup_drops_neighbours() {
    let words = vec!["b", "a", "c", "a", "b", "a"];
    let sorted = sort_stable(words.iter().map(|w| w.to_string()).collect::<Vec<String>>());
    assert_eq!(sorted, vec!["a", "a", "a", "b", "b", "c"]);
    assert_eq!(dedup(sorted), vec!["a", "b", "c"]);
    let mixed = vec!["a", "a", "b", "a"];
    assert_eq!(dedup(mixed.iter().map(|w| w.to_string()).collect::<Vec<String>>()), vec!["a", "b", "a"]);
    assert!(sort_stable(Vec::<String>::new()).is_empty());
}
