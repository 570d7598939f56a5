use labscan_admin::control::{ws_bind_address, ws_path};
use labscan_admin::database::{Device, DeviceRow, Heartbeat};
use labscan_admin::discovery::{beacon_payload, beacon_payload_at, service_advertisement};
use labscan_admin::ipv4::detect_local_ipv4_string;
use labscan_admin::json::{format_context, react_log_line};
use labscan_admin::probe::{
    detect_admin_network_facts, detect_default_gateway_ip, detect_interface_type, detect_ssid,
    Platform,
};
use labscan_admin::provision::{
    provision_admin_ip, provision_destination, provision_listen_address, ProvisionAck,
    ProvisionFailure,
};
use labscan_admin::records::NetworkFactsPayload;
use labscan_admin::state::ServerManager;
use labscan_admin::text::{contains_part, fields, starts_with};
use labscan_admin::wire::UiEvent;

const T0: i64 = 1_700_000_000_000;

#[test]
fn words_are_split_at_white_space() {
    assert_eq!(fields("  default via 10.0.0.1\tdev eth0 \n"), vec!["default", "via", "10.0.0.1", "dev", "eth0"]);
    assert!(fields("").is_empty());
    assert!(fields(" \t\r\n").is_empty());
    assert_eq!(fields("one"), vec!["one"]);
    assert_eq!(fields("a\u{a0}b\u{3000}c"), vec!["a", "b", "c"]);
}

#[test]
fn parts_and_prefixes_are_found() {
    assert!(contains_part("there is no wireless interface on the system", "no wireless"));
    assert!(contains_part("abc", ""));
    assert!(contains_part("", ""));
    assert!(contains_part("abc", "c"));
    assert!(!contains_part("abc", "cd"));
    assert!(!contains_part("", "a"));
    assert!(starts_with("ssid : lab", "ssid"));
    assert!(!starts_with("bssid : 00", "ssid"));
    assert!(starts_with("x", ""));
    assert!(!starts_with("ss", "ssid"));
}

#[test]
fn linux_gateway_is_read_from_ip_route() {
    let out = "default via 192.168.1.1 dev wlan0 proto dhcp metric 600\n";
    assert_eq!(
        detect_default_gateway_ip(Platform::Linux, Some(out)),
        Some("192.168.1.1".to_string())
    );
    assert_eq!(detect_default_gateway_ip(Platform::Linux, Some("default via fe80::1 dev eth0")), None);
    assert_eq!(
        detect_default_gateway_ip(Platform::Linux, Some("via none via 10.0.0.1")),
        Some("10.0.0.1".to_string())
    );
    assert_eq!(detect_default_gateway_ip(Platform::Linux, Some("via")), None);
    assert_eq!(detect_default_gateway_ip(Platform::Linux, Some("")), None);
    assert_eq!(detect_default_gateway_ip(Platform::Linux, None), None);
    assert_eq!(detect_default_gateway_ip(Platform::Other, Some(out)), None);
}

#[test]
fn windows_gateway_is_read_from_route_print() {
    let out = "IPv4 Route Table\r\n===========\r\nActive Routes:\r\nNetwork Destination        Netmask          Gateway       Interface  Metric\r\n          0.0.0.0          0.0.0.0      10.0.0.1      10.0.0.55     25\r\n        127.0.0.0        255.0.0.0         On-link         127.0.0.1    331\r\n";
    assert_eq!(
        detect_default_gateway_ip(Platform::Windows, Some(out)),
        Some("10.0.0.1".to_string())
    );
    assert_eq!(
        detect_default_gateway_ip(Platform::Windows, Some("0.0.0.0 0.0.0.0 On-link\n0.0.0.0 0.0.0.0 10.9.9.9")),
        Some("10.9.9.9".to_string())
    );
    assert_eq!(detect_default_gateway_ip(Platform::Windows, Some("0.0.0.0 0.0.0.0")), None);
    assert_eq!(detect_default_gateway_ip(Platform::Windows, None), None);
    assert_eq!(detect_default_gateway_ip(Platform::Linux, Some(out)), None);
}

#[test]
fn interface_type_is_read_from_netsh() {
    let wifi = "    Name                   : Wi-Fi\r\n    SSID                   : LabNet\r\n    BSSID                  : 00:11:22:33:44:55\r\n";
    assert_eq!(detect_interface_type(Platform::Windows, Some(wifi)), "wifi");
    assert_eq!(
        detect_interface_type(Platform::Windows, Some("There is no wireless interface on the system. SSID")),
        "ethernet"
    );
    assert_eq!(detect_interface_type(Platform::Windows, Some("nothing here")), "ethernet");
    assert_eq!(detect_interface_type(Platform::Windows, None), "ethernet");
    assert_eq!(detect_interface_type(Platform::Linux, Some(wifi)), "ethernet");
}

#[test]
fn ssid_is_read_from_netsh() {
    let wifi = "    Name                   : Wi-Fi\r\n    BSSID                  : 00:11:22:33:44:55\r\n    SSID                   : Lab: Net \r\n";
    assert_eq!(detect_ssid(Platform::Windows, Some(wifi)), Some("Lab: Net".to_string()));
    assert_eq!(detect_ssid(Platform::Windows, Some("SSID :   \nssid: second")), Some("second".to_string()));
    assert_eq!(detect_ssid(Platform::Windows, Some("SSID without colon")), None);
    assert_eq!(detect_ssid(Platform::Windows, None), None);
    assert_eq!(detect_ssid(Platform::Linux, Some(wifi)), None);
}

#[test]
fn admin_facts_fall_back_on_loopback() {
    let none = detect_admin_network_facts(None, None, "ethernet".to_string(), None);
    assert_eq!(none.ip, "127.0.0.1");
    assert_eq!(none.subnet_cidr, "127.0.0.0/24");
    assert_eq!(none.default_gateway_ip, "");
    assert_eq!(none.interface_type, "ethernet");
    assert_eq!(none.ssid, None);
    let some = detect_admin_network_facts(
        Some("10.1.2.3".to_string()),
        Some("10.1.2.1".to_string()),
        "wifi".to_string(),
        Some("lab".to_string()),
    );
    assert_eq!(some.ip, "10.1.2.3");
    assert_eq!(some.subnet_cidr, "10.1.2.0/24");
    assert_eq!(some.default_gateway_ip, "10.1.2.1");
    assert_eq!(some.ssid, Some("lab".to_string()));
    let odd = detect_admin_network_facts(Some("fe80::1".to_string()), None, String::new(), None);
    assert_eq!(odd.subnet_cidr, "127.0.0.0/24");
    assert_eq!(detect_local_ipv4_string(Some([192, 168, 0, 254])), Some("192.168.0.254".to_string()));
    assert_eq!(detect_local_ipv4_string(None), None);
}

#[test]
fn log_context_is_written_as_json() {
    assert_eq!(format_context(None), "");
    assert_eq!(format_context(Some(serde_json::Value::Null)), "");
    let ctx: serde_json::Value = serde_json::from_str(r#"{"a": [1, true, "x"]}"#).unwrap();
    assert_eq!(format_context(Some(ctx.clone())), r#" | context={"a":[1,true,"x"]}"#);
    assert_eq!(react_log_line("clicked", Some(ctx)), r#"[React] clicked | context={"a":[1,true,"x"]}"#);
    assert_eq!(react_log_line("clicked", None), "[React] clicked");
    assert_eq!(format_context(Some(serde_json::Value::Bool(false))), " | context=false");
}

fn online_server() -> ServerManager {
    let mut m = ServerManager::new_at(NetworkFactsPayload::default(), "tok".to_string(), T0);
    m.set_online(true);
    m
}

#[test]
fn advertisement_goes_out_only_while_online() {
    let mut m = ServerManager::new_at(NetworkFactsPayload::default(), "tok".to_string(), T0);
    assert!(m.provision_broadcast("10.0.0.2", "n-1".to_string()).is_none());
    let events = m.set_online(true);
    assert_eq!(events.len(), 1);
    match &events[0] {
        UiEvent::ServerStatus(s) => assert!(s.online && s.port_ws == 8148 && s.port_udp == 8870),
        other => panic!("unexpected {:?}", other),
    }
    let b = m.provision_broadcast("10.0.0.2", "n-1".to_string()).unwrap();
    assert_eq!(b.message_type, "LABSCAN_PROVISION");
    assert_eq!(b.v, 1);
    assert_eq!(b.admin_ip, "10.0.0.2");
    assert_eq!(b.secret, "tok");
    assert_eq!(b.nonce, "n-1");
    assert_eq!(provision_destination(), "255.255.255.255:8870");
    assert_eq!(provision_listen_address(), "0.0.0.0:8870");
    assert_eq!(provision_admin_ip(None), "127.0.0.1");
    assert_eq!(provision_admin_ip(Some("10.0.0.2".to_string())), "10.0.0.2");
}

#[test]
fn valid_acks_are_logged() {
    let mut m = online_server();
    let mut ack = ProvisionAck {
        message_type: "LABSCAN_PROVISION_ACK".to_string(),
        v: 1,
        agent_id: "A".to_string(),
        hostname: "h1".to_string(),
        nonce: "n-1".to_string(),
        ts: -5,
    };
    let events = m.provision_ack_at(&ack, "10.0.0.5:50000", T0, "log-1".to_string());
    assert_eq!(events.len(), 1);
    match &events[0] {
        UiEvent::Log(e) => {
            assert_eq!(e.message, "Provision ACK from h1 (10.0.0.5:50000) nonce=n-1 ts=-5");
            assert_eq!(e.agent_id, Some("A".to_string()));
            assert_eq!(e.level, "INFO");
        }
        other => panic!("unexpected {:?}", other),
    }
    ack.v = 2;
    assert!(m.provision_ack_at(&ack, "x", T0, "log-2".to_string()).is_empty());
    ack.v = 1;
    ack.message_type = "LABSCAN_PROVISION".to_string();
    assert!(m.provision_ack_at(&ack, "x", T0, "log-3".to_string()).is_empty());
}

#[test]
fn provisioner_logs_its_start_and_its_failures() {
    let mut m = online_server();
    let started = m.provision_started_at("10.0.0.2", T0, "l1".to_string());
    match &started[0] {
        UiEvent::Log(e) => {
            assert_eq!(e.message, "provision: broadcasting on UDP 8870, admin_ip=10.0.0.2");
            assert_eq!(e.level, "INFO");
        }
        other => panic!("unexpected {:?}", other),
    }
    let failed = m.provision_failed_at(ProvisionFailure::Socket, "denied", T0, "l2".to_string());
    match &failed[0] {
        UiEvent::Log(e) => {
            assert_eq!(e.message, "UDP broadcast socket error: denied");
            assert_eq!(e.level, "ERROR");
        }
        other => panic!("unexpected {:?}", other),
    }
    let failed = m.provision_failed_at(ProvisionFailure::Broadcast, "denied", T0, "l3".to_string());
    match &failed[0] {
        UiEvent::Log(e) => assert_eq!(e.message, "UDP broadcast enable failed: denied"),
        other => panic!("unexpected {:?}", other),
    }
}

#[test]
fn endpoint_life_is_logged() {
    let mut m = ServerManager::new_at(NetworkFactsPayload::default(), "tok".to_string(), T0);
    assert_eq!(ws_bind_address(), "0.0.0.0:8148");
    assert_eq!(ws_path(), "/ws/agent");
    let start = m.start_runtime_at(T0);
    assert!(start.start);
    assert_eq!(start.events.len(), 2);
    assert_eq!(m.get_topology_snapshot().revision, 1);
    let starting = m.ws_starting_at(T0, "l0".to_string());
    match &starting[0] {
        UiEvent::Log(e) => assert_eq!(e.message, "Starting WS server on 0.0.0.0:8148"),
        other => panic!("unexpected {:?}", other),
    }
    let bound = m.ws_bound_at(None, T0, "l1".to_string());
    assert_eq!(bound.len(), 2);
    match &bound[1] {
        UiEvent::Log(e) => assert_eq!(e.message, "WS server listening on 0.0.0.0:8148"),
        other => panic!("unexpected {:?}", other),
    }
    assert!(m.get_status().online);
    let again = m.start_runtime_at(T0 + 1);
    assert!(!again.start && again.events.is_empty());
    let stopped = m.ws_stopped_at("reset", T0, "l2".to_string());
    match &stopped[1] {
        UiEvent::Log(e) => {
            assert_eq!(e.message, "WS server stopped: reset");
            assert_eq!(e.level, "ERROR");
        }
        other => panic!("unexpected {:?}", other),
    }
    assert!(!m.get_status().online);
    let failed = m.ws_bound_at(Some("in use".to_string()), T0, "l3".to_string());
    match &failed[0] {
        UiEvent::ServerStatus(s) => assert!(!s.online),
        other => panic!("unexpected {:?}", other),
    }
    match &failed[1] {
        UiEvent::Log(e) => assert_eq!(e.message, "ws: bind failed: in use"),
        other => panic!("unexpected {:?}", other),
    }
    let connect = m.on_agent_connect_at("10.0.0.5:4242", T0, "l4".to_string());
    match &connect[0] {
        UiEvent::Log(e) => assert_eq!(e.message, "[WS] connect remote=10.0.0.5:4242 path=/ws/agent"),
        other => panic!("unexpected {:?}", other),
    }
}

#[test]
fn beacon_and_service_are_spelled_out() {
    let b = beacon_payload_at([10, 0, 0, 2], "ab:cd", "join".to_string(), 1_700_000_000);
    assert_eq!(b.beacon_type, "NETMON_ADMIN");
    assert_eq!(b.version, "1");
    assert_eq!(b.admin_https_url, "https://10.0.0.2:8443");
    assert_eq!(b.tls_fingerprint_sha256, "ab:cd");
    assert_eq!(b.join_token, "join");
    assert_eq!(b.issued_at_unix, 1_700_000_000);
    let now = beacon_payload([10, 0, 0, 2], "ab:cd", "join".to_string());
    assert!(now.issued_at_unix > 1_600_000_000 && now.issued_at_unix < 100_000_000_000);
    let s = service_advertisement("admin-1", 8443, "ab:cd");
    assert_eq!(s.service_type, "_netmon._tcp.local.");
    assert_eq!(s.instance_name, "admin-1");
    assert_eq!(s.hostname, "admin-1._netmon._tcp.local.");
    assert_eq!(s.port, 8443);
    assert_eq!(s.properties, vec!["v=1", "fp=ab:cd", "name=admin-1"]);
}

#[test]
fn rows_store_missing_text_as_empty() {
    let row = DeviceRow {
        id: "A".to_string(),
        hostname: "h1".to_string(),
        os: "linux".to_string(),
        arch: "x86_64".to_string(),
        agent_version: "1.0".to_string(),
        local_ip: "10.0.0.5".to_string(),
        mac_address: String::new(),
        gateway_ip: "10.0.0.1".to_string(),
        dns_servers: String::new(),
        registered_at: 1,
        last_seen: 2,
        is_online: true,
    };
    let d = Device::from_row(row.clone());
    assert_eq!(d.mac_address, None);
    assert_eq!(d.gateway_ip, Some("10.0.0.1".to_string()));
    assert_eq!(d.dns_servers, None);
    assert_eq!(d.into_row(), row);
    let h = Heartbeat {
        id: "h".to_string(),
        device_id: "A".to_string(),
        timestamp: 3,
        gateway_reachable: true,
        dns_resolves: false,
        https_latency_ms: Some(20),
        local_ports: None,
    };
    let r = h.into_row();
    assert_eq!(r.local_ports, "");
    assert_eq!(r.https_latency_ms, Some(20));
}
