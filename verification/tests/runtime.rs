use labscan_admin::records::NetworkFactsPayload;
use labscan_admin::session::Session;
use labscan_admin::state::ServerManager;
use labscan_admin::wire::{Frame, HeartbeatPayload, RegisterPayload, UiEvent};

const RECENT: i64 = 1_600_000_000_000;

fn register(m: &ServerManager, agent: &str) -> RegisterPayload {
    RegisterPayload {
        agent_id: agent.to_string(),
        secret: m.get_pair_token(),
        hostname: format!("host-{}", agent),
        ips: vec!["10.0.0.5".to_string()],
        os: "linux".to_string(),
        version: "1".to_string(),
        network: NetworkFactsPayload::default(),
    }
}

#[test]
fn frames_are_stamped_with_the_clock_and_fresh_identifiers() {
    let mut m = ServerManager::new(NetworkFactsPayload::default());
    let mut session = Session::new();
    let payload = register(&m, "A");
    let out = m.handle_frame(&mut session, Frame::Register(payload));
    let reply = out.reply.unwrap();
    assert!(reply.ok);
    assert!(reply.server_time > RECENT);
    assert_eq!(reply.ts, reply.server_time);
    let activity = out
        .events
        .iter()
        .find_map(|e| match e {
            UiEvent::Activity(a) => Some(a),
            _ => None,
        })
        .unwrap();
    assert_eq!(activity.kind, "device_connected");
    assert_eq!(activity.id.len(), 36);
    assert_eq!(activity.ts, reply.server_time);
    let device = m.device("A").unwrap();
    assert_eq!(device.first_seen_ms, reply.server_time);
    let beat = HeartbeatPayload {
        status: String::new(),
        last_seen: 0,
        metrics: None,
        network: NetworkFactsPayload::default(),
    };
    let out = m.handle_frame(&mut session, Frame::Heartbeat(beat));
    assert!(out.reply.is_none());
    assert!(m.device("A").unwrap().last_seen_ms >= reply.server_time);
}

#[test]
fn session_end_and_watchdog_run_on_the_clock() {
    let mut m = ServerManager::new(NetworkFactsPayload::default());
    let mut session = Session::new();
    let payload = register(&m, "A");
    m.handle_frame(&mut session, Frame::Register(payload));
    assert!(m.heartbeat_watchdog().is_empty());
    assert_eq!(m.device("A").unwrap().status, "online");
    let events = m.on_agent_disconnect("A".to_string());
    assert!(matches!(&events[0], UiEvent::DeviceUpsert(d) if d.status == "offline"));
    assert!(!m.is_connected("A"));
    assert!(m.device("A").unwrap().last_seen_ms > RECENT);
}

#[test]
fn runtime_starts_once() {
    let mut m = ServerManager::new(NetworkFactsPayload::default());
    let first = m.start_runtime();
    assert!(first.start);
    assert_eq!(first.events.len(), 2);
    match &first.events[0] {
        UiEvent::TopologySnapshot(t) => {
            assert_eq!(t.revision, 1);
            assert!(t.updated_at > RECENT);
            assert!(t.nodes.iter().any(|n| n.id == "admin:self"));
        }
        other => panic!("unexpected {:?}", other),
    }
    m.set_online(true);
    let second = m.start_runtime();
    assert!(!second.start);
    assert!(second.events.is_empty());
}

#[test]
fn a_sent_task_runs() {
    let mut m = ServerManager::new(NetworkFactsPayload::default());
    let mut session = Session::new();
    let payload = register(&m, "A");
    m.handle_frame(&mut session, Frame::Register(payload));
    let d = m
        .dispatch_task(vec!["A".to_string(), "B".to_string()], "arp_snapshot".to_string(), serde_json::Value::Null)
        .unwrap();
    assert_eq!(d.frames.len(), 1);
    assert_eq!(d.frames[0].agent_id, "A");
    assert_eq!(d.frames[0].ts, d.task.created_at);
    assert!(d.task.created_at > RECENT);
    let report = m.dispatch_sent(&d.task.task_id, 1);
    let task = report.task.unwrap();
    assert_eq!(task.status, "running");
    assert!(task.started_at.unwrap() >= d.task.created_at);
    assert_eq!(report.events.len(), 2);
}
