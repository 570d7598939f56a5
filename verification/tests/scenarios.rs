use labscan_admin::records::{DeviceRecord, NetworkFactsPayload, TopologySnapshot};
use labscan_admin::session::{FrameIds, FrameOutcome, Session};
use labscan_admin::state::ServerManager;
use labscan_admin::topology::{build_topology_snapshot, topology_key};
use labscan_admin::wire::{
    Frame, HeartbeatPayload, RegisterPayload, TaskResultPayload, UiEvent,
};

const T0: i64 = 1_700_000_000_000;

fn facts(ip: &str, subnet: &str, gateway: &str) -> NetworkFactsPayload {
    NetworkFactsPayload {
        ip: ip.to_string(),
        subnet_cidr: subnet.to_string(),
        default_gateway_ip: gateway.to_string(),
        interface_type: "ethernet".to_string(),
        mac: None,
        gateway_mac: None,
        dhcp_server_ip: None,
        ssid: None,
        arp_snapshot: Vec::new(),
    }
}

fn manager() -> ServerManager {
    ServerManager::new_at(facts("10.0.0.2", "10.0.0.0/24", "10.0.0.1"), "s3cret".to_string(), T0)
}

fn register(agent: &str, hostname: &str, ip: &str, secret: &str) -> RegisterPayload {
    RegisterPayload {
        agent_id: agent.to_string(),
        secret: secret.to_string(),
        hostname: hostname.to_string(),
        ips: vec![ip.to_string()],
        os: "linux".to_string(),
        version: "1.0.0".to_string(),
        network: NetworkFactsPayload::default(),
    }
}

fn ids(tag: &str) -> FrameIds {
    FrameIds {
        activity: format!("{}-activity", tag),
        internet_log: format!("{}-internet-log", tag),
        internet_activity: format!("{}-internet-activity", tag),
        dns_log: format!("{}-dns-log", tag),
        dns_activity: format!("{}-dns-activity", tag),
    }
}

fn json(text: &str) -> serde_json::Value {
    serde_json::from_str(text).unwrap()
}

fn names(events: &[UiEvent]) -> Vec<&'static str> {
    events.iter().map(|e| e.name()).collect()
}

fn join(m: &mut ServerManager, agent: &str, hostname: &str, ip: &str, now: i64) -> (Session, FrameOutcome) {
    let mut session = Session::new();
    let out = m.handle_frame_at(
        &mut session,
        Frame::Register(register(agent, hostname, ip, "s3cret")),
        now,
        ids(agent),
    );
    (session, out)
}

fn topology_of(events: &[UiEvent]) -> Option<&TopologySnapshot> {
    events.iter().find_map(|e| match e {
        UiEvent::TopologySnapshot(t) => Some(t),
        _ => None,
    })
}

#[test]
fn happy_register() {
    let mut m = manager();
    let (session, out) = join(&mut m, "A", "h1", "10.0.0.5", T0 + 10_000);
    let reply = out.reply.unwrap();
    assert!(reply.ok);
    assert_eq!(reply.error, None);
    assert_eq!(reply.agent_id, "A");
    assert_eq!(reply.server_time, T0 + 10_000);
    assert!(!out.close);
    assert_eq!(session.registered_agent_id, Some("A".to_string()));
    assert_eq!(
        names(&out.events),
        vec![
            "device_upsert",
            "devices_snapshot",
            "activity_event",
            "topology_snapshot",
            "topology_changed"
        ]
    );
    match &out.events[0] {
        UiEvent::DeviceUpsert(d) => {
            assert_eq!(d.agent_id, "A");
            assert_eq!(d.hostname, "h1");
            assert_eq!(d.status, "online");
            assert_eq!(d.ip, Some("10.0.0.5".to_string()));
            assert_eq!(d.subnet_cidr, Some("10.0.0.0/24".to_string()));
            assert_eq!(d.first_seen_ms, T0 + 10_000);
        }
        other => panic!("unexpected {:?}", other),
    }
    match &out.events[2] {
        UiEvent::Activity(a) => {
            assert_eq!(a.kind, "device_connected");
            assert_eq!(a.agent_id, Some("A".to_string()));
            assert_eq!(a.message, "h1 connected");
            assert_eq!(a.id, "A-activity");
            assert_eq!(a.count, None);
        }
        other => panic!("unexpected {:?}", other),
    }
    let topology = topology_of(&out.events).unwrap();
    assert_eq!(topology.revision, 1);
    assert!(topology.nodes.iter().any(|n| n.id == "host:A"));
    assert!(m.is_connected("A"));
    assert_eq!(m.get_devices_snapshot().devices.len(), 1);
}

#[test]
fn bad_secret() {
    let mut m = manager();
    let mut session = Session::new();
    let out = m.handle_frame_at(
        &mut session,
        Frame::Register(register("A", "h1", "10.0.0.5", "wrong")),
        T0 + 10_000,
        ids("A"),
    );
    let reply = out.reply.unwrap();
    assert!(!reply.ok);
    assert_eq!(reply.error, Some("invalid shared secret".to_string()));
    assert!(out.close);
    assert!(out.events.is_empty());
    assert_eq!(session.registered_agent_id, None);
    assert!(m.get_devices_snapshot().devices.is_empty());
    assert!(!m.is_connected("A"));
}

fn report(task_id: &str, ok: bool) -> TaskResultPayload {
    TaskResultPayload {
        task_id: task_id.to_string(),
        ok,
        result: json(r#"{"rtt_ms": 12}"#),
        error: if ok { None } else { Some("unreachable".to_string()) },
    }
}

fn dispatch_to_two(m: &mut ServerManager) -> (Session, Session) {
    let (sa, _) = join(m, "A", "h1", "10.0.0.5", T0 + 10_000);
    let (sb, _) = join(m, "B", "h2", "10.0.0.6", T0 + 10_000);
    let d = m
        .dispatch_task_at(
            vec!["A".to_string(), "B".to_string()],
            "ping".to_string(),
            json(r#"{"target":"1.1.1.1"}"#),
            T0 + 20_000,
            "task-1".to_string(),
        )
        .unwrap();
    assert_eq!(d.task.status, "queued");
    assert_eq!(d.task.created_at, T0 + 20_000);
    assert_eq!(d.frames.len(), 2);
    assert_eq!(d.frames[0].agent_id, "A");
    assert_eq!(d.frames[1].agent_id, "B");
    for f in &d.frames {
        assert_eq!(f.payload.task_id, "task-1");
        assert_eq!(f.payload.kind, "ping");
        assert_eq!(f.payload.params, json(r#"{"target":"1.1.1.1"}"#));
    }
    assert_eq!(m.task("task-1").unwrap().status, "queued");
    let sent = m.dispatch_sent_at("task-1", d.frames.len(), T0 + 20_000, "act-start".to_string());
    let task = sent.task.unwrap();
    assert_eq!(task.status, "running");
    assert_eq!(task.started_at, Some(T0 + 20_000));
    assert_eq!(names(&sent.events), vec!["task_update", "activity_event"]);
    match &sent.events[1] {
        UiEvent::Activity(a) => {
            assert_eq!(a.kind, "task_started");
            assert_eq!(a.agent_id, None);
            assert_eq!(a.message, "Task started: ping (task-1)");
        }
        other => panic!("unexpected {:?}", other),
    }
    (sa, sb)
}

#[test]
fn task_dispatch_and_completion() {
    let mut m = manager();
    let (mut sa, mut sb) = dispatch_to_two(&mut m);
    let first = m.handle_frame_at(
        &mut sa,
        Frame::TaskResult(report("task-1", true)),
        T0 + 30_000,
        ids("r1"),
    );
    assert_eq!(names(&first.events), vec!["task_update", "activity_event"]);
    match &first.events[0] {
        UiEvent::TaskUpdate(t) => {
            assert_eq!(t.status, "running");
            assert_eq!(t.results.len(), 1);
            assert_eq!(t.ended_at, None);
        }
        other => panic!("unexpected {:?}", other),
    }
    match &first.events[1] {
        UiEvent::Activity(a) => assert_eq!(a.kind, "task_started"),
        other => panic!("unexpected {:?}", other),
    }
    let second = m.handle_frame_at(
        &mut sb,
        Frame::TaskResult(report("task-1", true)),
        T0 + 31_000,
        ids("r2"),
    );
    assert_eq!(names(&second.events), vec!["task_update", "activity_event"]);
    match &second.events[0] {
        UiEvent::TaskUpdate(t) => {
            assert_eq!(t.status, "done");
            assert_eq!(t.results.len(), 2);
            assert_eq!(t.ended_at, Some(T0 + 31_000));
        }
        other => panic!("unexpected {:?}", other),
    }
    match &second.events[1] {
        UiEvent::Activity(a) => {
            assert_eq!(a.kind, "task_completed");
            assert_eq!(a.agent_id, Some("B".to_string()));
            assert_eq!(a.message, "Task task-1 status done");
        }
        other => panic!("unexpected {:?}", other),
    }
    assert_eq!(m.task("task-1").unwrap().status, "done");
}

#[test]
fn partial_failure() {
    let mut m = manager();
    let (mut sa, mut sb) = dispatch_to_two(&mut m);
    m.handle_frame_at(&mut sa, Frame::TaskResult(report("task-1", true)), T0 + 30_000, ids("r1"));
    let second = m.handle_frame_at(
        &mut sb,
        Frame::TaskResult(report("task-1", false)),
        T0 + 31_000,
        ids("r2"),
    );
    match &second.events[0] {
        UiEvent::TaskUpdate(t) => {
            assert_eq!(t.status, "failed");
            assert_eq!(t.results[1].error, Some("unreachable".to_string()));
        }
        other => panic!("unexpected {:?}", other),
    }
    match &second.events[1] {
        UiEvent::Activity(a) => {
            assert_eq!(a.kind, "task_failed");
            assert_eq!(a.message, "Task task-1 status failed");
        }
        other => panic!("unexpected {:?}", other),
    }
}

#[test]
fn heartbeat_timeout() {
    let mut m = manager();
    join(&mut m, "A", "h1", "10.0.0.5", T0);
    let quiet = m.heartbeat_watchdog_at(T0 + 20_000);
    assert!(quiet.is_empty());
    assert_eq!(m.device("A").unwrap().status, "online");
    let events = m.heartbeat_watchdog_at(T0 + 20_001);
    assert_eq!(names(&events), vec!["device_upsert", "devices_snapshot", "activity_event"]);
    match &events[0] {
        UiEvent::DeviceUpsert(d) => {
            assert_eq!(d.agent_id, "A");
            assert_eq!(d.status, "offline");
            assert_eq!(d.last_seen_ms, T0);
        }
        other => panic!("unexpected {:?}", other),
    }
    match &events[2] {
        UiEvent::Activity(a) => {
            assert_eq!(a.kind, "device_disconnected");
            assert_eq!(a.message, "h1 disconnected (heartbeat timeout)");
            assert_eq!(a.id.len(), 36);
        }
        other => panic!("unexpected {:?}", other),
    }
    assert_eq!(m.device("A").unwrap().status, "offline");
    assert!(m.is_connected("A"));
    assert_eq!(m.get_topology_snapshot().revision, 1);
    let again = m.heartbeat_watchdog_at(T0 + 40_000);
    assert!(again.is_empty());
}

fn host(agent: &str, hostname: &str, ip: &str, gateway: Option<&str>) -> DeviceRecord {
    DeviceRecord {
        agent_id: agent.to_string(),
        hostname: hostname.to_string(),
        ips: vec![ip.to_string()],
        os: "linux".to_string(),
        version: "1".to_string(),
        status: "online".to_string(),
        last_seen_ms: T0,
        internet_reachable: None,
        dns_ok: None,
        gateway_reachable: None,
        latency_ms: None,
        last_internet_change_ms: None,
        last_dns_change_ms: None,
        first_seen_ms: T0,
        ip: Some(ip.to_string()),
        subnet_cidr: Some("10.0.0.0/24".to_string()),
        default_gateway_ip: gateway.map(|g| g.to_string()),
        interface_type: Some("ethernet".to_string()),
        mac: None,
        gateway_mac: None,
        dhcp_server_ip: None,
        ssid: None,
        arp_snapshot: Vec::new(),
    }
}

#[test]
fn topology_stability() {
    let mut m = manager();
    let mut network = facts("10.0.0.5", "10.0.0.0/24", "10.0.0.1");
    let mut first = register("A", "h1", "10.0.0.5", "s3cret");
    first.network = network.clone();
    let mut sa = Session::new();
    m.handle_frame_at(&mut sa, Frame::Register(first), T0 + 1_000, ids("A"));
    network.ip = "10.0.0.6".to_string();
    let mut second = register("B", "h2", "10.0.0.6", "s3cret");
    second.network = network.clone();
    let mut sb = Session::new();
    let out = m.handle_frame_at(&mut sb, Frame::Register(second), T0 + 2_000, ids("B"));
    let published = topology_of(&out.events).unwrap().clone();
    assert_eq!(published.revision, 2);
    let key = topology_key(&published);
    let beat = HeartbeatPayload {
        status: "online".to_string(),
        last_seen: 0,
        metrics: Some(json(r#"{"internet_reachable": true, "latency_ms": 17}"#)),
        network,
    };
    let out = m.handle_frame_at(&mut sb, Frame::Heartbeat(beat), T0 + 10_000, ids("hb"));
    assert!(!names(&out.events).contains(&"topology_snapshot"));
    assert!(!names(&out.events).contains(&"topology_changed"));
    let after = m.get_topology_snapshot();
    assert_eq!(after, published);
    assert_eq!(topology_key(&after), key);
    let device = m.device("B").unwrap();
    assert_eq!(device.internet_reachable, Some(true));
    assert_eq!(device.latency_ms, Some(17));
}

#[test]
fn topology_of_two_hosts_behind_one_gateway() {
    let admin = facts("10.0.0.2", "10.0.0.0/24", "10.0.0.1");
    let devices = vec![
        host("B", "h2", "10.0.0.6", Some("10.0.0.1")),
        host("A", "h1", "10.0.0.5", Some("10.0.0.1")),
    ];
    let t = build_topology_snapshot(&devices, &admin, 7, T0);
    assert_eq!(t.revision, 7);
    assert_eq!(t.updated_at, T0);
    let node_ids: Vec<&str> = t.nodes.iter().map(|n| n.id.as_str()).collect();
    assert_eq!(node_ids, vec!["gw:10.0.0.1", "admin:self", "host:A", "host:B"]);
    assert_eq!(t.nodes[0].node_type, "gateway");
    assert_eq!(t.nodes[0].label, "Gateway 10.0.0.1");
    assert_eq!(t.nodes[0].attached_count, Some(3));
    assert_eq!(t.nodes[1].attached_count, None);
    let edges: Vec<(&str, &str, &str, u8)> = t
        .edges
        .iter()
        .map(|e| (e.child_id.as_str(), e.parent_id.as_str(), e.method.as_str(), e.confidence_pct))
        .collect();
    assert_eq!(
        edges,
        vec![
            ("admin:self", "gw:10.0.0.1", "evidence", 90),
            ("host:A", "gw:10.0.0.1", "evidence", 90),
            ("host:B", "gw:10.0.0.1", "evidence", 90),
        ]
    );
    assert_eq!(t.edges[0].id, "admin:self->gw:10.0.0.1");
    assert_eq!(
        topology_key(&t),
        "admin:self|admin|10.0.0.0/24|10.0.0.1;gw:10.0.0.1|gateway|10.0.0.0/24|10.0.0.1;\
         host:A|host|10.0.0.0/24|10.0.0.1;host:B|host|10.0.0.0/24|10.0.0.1\
         #admin:self|gw:10.0.0.1|evidence;host:A|gw:10.0.0.1|evidence;host:B|gw:10.0.0.1|evidence"
    );
}

#[test]
fn topology_with_two_subnets_and_an_unknown_hub() {
    let admin = facts("10.0.0.2", "10.0.0.0/24", "");
    let mut far = host("C", "h3", "192.168.1.9", None);
    far.subnet_cidr = Some("192.168.1.0/24".to_string());
    let near = host("A", "h1", "10.0.0.5", Some("10.0.0.1"));
    let t = build_topology_snapshot(&vec![far, near], &admin, 1, T0);
    let node_ids: Vec<&str> = t.nodes.iter().map(|n| n.id.as_str()).collect();
    assert_eq!(
        node_ids,
        vec![
            "subnet:10.0.0.0/24",
            "subnet:192.168.1.0/24",
            "gw:10.0.0.1",
            "hub:10.0.0.0/24",
            "hub:192.168.1.0/24",
            "admin:self",
            "host:A",
            "host:C",
        ]
    );
    let edges: Vec<(&str, &str, &str, u8)> = t
        .edges
        .iter()
        .map(|e| (e.child_id.as_str(), e.parent_id.as_str(), e.method.as_str(), e.confidence_pct))
        .collect();
    assert_eq!(
        edges,
        vec![
            ("admin:self", "hub:10.0.0.0/24", "heuristic", 50),
            ("gw:10.0.0.1", "subnet:10.0.0.0/24", "evidence", 100),
            ("host:A", "gw:10.0.0.1", "evidence", 90),
            ("host:C", "hub:192.168.1.0/24", "heuristic", 45),
            ("hub:10.0.0.0/24", "subnet:10.0.0.0/24", "heuristic", 50),
            ("hub:192.168.1.0/24", "subnet:192.168.1.0/24", "heuristic", 50),
        ]
    );
    let hub = t.nodes.iter().find(|n| n.id == "hub:10.0.0.0/24").unwrap();
    assert_eq!(hub.node_type, "unknown_hub");
    assert_eq!(hub.label, "Unknown Hub");
    assert_eq!(hub.attached_count, Some(1));
    let gateway = t.nodes.iter().find(|n| n.id == "gw:10.0.0.1").unwrap();
    assert_eq!(gateway.attached_count, Some(1));
}
