//! Why the topology holds still: it rests on a few facts of each device, and
//! what changes none of them changes neither the graph nor its key.

use crate::emit::{then_activity, then_log, then_rebuild, then_upsert, Step};
use crate::model::{after_heartbeat, device_position, has_device, heartbeat_device, ServerState};
use crate::network::cleaned;
use crate::ranking::{
    device_address, device_precedes, lemma_edge_ranking, lemma_node_ranking, GatewaySpecView,
};
use crate::records::{
    DeviceRecord, DeviceRecordView, NetworkFactsPayloadView, TopologyEdge, TopologyNode,
};
use crate::session::{arrow_text, flag_text, heartbeat_step, status_message, FrameIdsView};
use crate::sorting::{insert_ranked, is_sorted, lemma_sort_is_sorted, stable_sort};
use crate::text::Text;
use crate::topology::{
    admin_node, admin_subnet, attached, counted, gateway_links, gateway_node, gateway_specs,
    host_gateways, host_node, host_subnets, key_of, observed_subnets, subnet_node, topology_of,
    with_hosts, DraftView,
};
use crate::wire::{HeartbeatPayloadView, UiEventView};
use vstd::prelude::*;

verus! {

/// Whether two device records agree in what the topology reads of a device:
/// who it is, what it is called, its addresses, its subnet, its gateway and
/// its kind of interface.
pub open spec fn same_structure(a: DeviceRecordView, b: DeviceRecordView) -> bool {
    &&& a.agent_id == b.agent_id
    &&& a.hostname == b.hostname
    &&& a.ip == b.ip
    &&& a.ips == b.ips
    &&& a.subnet_cidr == b.subnet_cidr
    &&& a.default_gateway_ip == b.default_gateway_ip
    &&& a.interface_type == b.interface_type
}

/// Whether two lists of devices agree, device by device, in what the topology
/// reads.
pub open spec fn same_structures(a: Seq<DeviceRecordView>, b: Seq<DeviceRecordView>) -> bool {
    &&& a.len() == b.len()
    &&& forall|i: int| 0 <= i < a.len() ==> same_structure(#[trigger] a[i], b[i])
}

/// Devices that agree in structure go to the same place of a sorted list.
proof fn lemma_insert_same_structure(
    s: Seq<DeviceRecordView>,
    t: Seq<DeviceRecordView>,
    x: DeviceRecordView,
    y: DeviceRecordView,
)
    requires
        same_structures(s, t),
        same_structure(x, y),
    ensures
        same_structures(insert_ranked::<DeviceRecord>(s, x), insert_ranked::<DeviceRecord>(t, y)),
    decreases s.len(),
{
    if s.len() == 0 {
    } else {
        assert(same_structure(s[0], t[0]));
        assert(device_address(x) == device_address(y));
        assert(device_address(s[0]) == device_address(t[0]));
        assert(device_precedes(x, s[0]) == device_precedes(y, t[0]));
        if device_precedes(x, s[0]) {
            let a = insert_ranked::<DeviceRecord>(s, x);
            let b = insert_ranked::<DeviceRecord>(t, y);
            assert forall|i: int| 0 <= i < a.len() implies same_structure(#[trigger] a[i], b[i]) by {
                if i > 0 {
                    assert(a[i] == s[i - 1] && b[i] == t[i - 1]);
                    assert(same_structure(s[i - 1], t[i - 1]));
                }
            }
        } else {
            let s1 = s.drop_first();
            let t1 = t.drop_first();
            assert(same_structures(s1, t1)) by {
                assert forall|i: int| 0 <= i < s1.len() implies same_structure(
                    #[trigger] s1[i],
                    t1[i],
                ) by {
                    assert(s1[i] == s[i + 1] && t1[i] == t[i + 1]);
                    assert(same_structure(s[i + 1], t[i + 1]));
                }
            }
            lemma_insert_same_structure(s1, t1, x, y);
            let a1 = insert_ranked::<DeviceRecord>(s1, x);
            let b1 = insert_ranked::<DeviceRecord>(t1, y);
            let a = insert_ranked::<DeviceRecord>(s, x);
            let b = insert_ranked::<DeviceRecord>(t, y);
            assert forall|i: int| 0 <= i < a.len() implies same_structure(#[trigger] a[i], b[i]) by {
                if i > 0 {
                    assert(a[i] == a1[i - 1] && b[i] == b1[i - 1]);
                    assert(same_structure(a1[i - 1], b1[i - 1]));
                }
            }
        }
    }
}

/// Lists of devices that agree in structure still do when they are sorted.
proof fn lemma_sort_same_structure(a: Seq<DeviceRecordView>, b: Seq<DeviceRecordView>)
    requires
        same_structures(a, b),
    ensures
        same_structures(stable_sort::<DeviceRecord>(a), stable_sort::<DeviceRecord>(b)),
    decreases a.len(),
{
    if a.len() > 0 {
        let a1 = a.drop_last();
        let b1 = b.drop_last();
        assert(same_structures(a1, b1)) by {
            assert forall|i: int| 0 <= i < a1.len() implies same_structure(#[trigger] a1[i], b1[i]) by {
                assert(a1[i] == a[i] && b1[i] == b[i]);
                assert(same_structure(a[i], b[i]));
            }
        }
        lemma_sort_same_structure(a1, b1);
        assert(same_structure(a[a.len() - 1], b[b.len() - 1]));
        lemma_insert_same_structure(
            stable_sort::<DeviceRecord>(a1),
            stable_sort::<DeviceRecord>(b1),
            a.last(),
            b.last(),
        );
    }
}

/// Hosts that agree in structure report the same subnets and gateways and
/// hang in the graph alike.
proof fn lemma_hosts_same_structure(
    a: Seq<DeviceRecordView>,
    b: Seq<DeviceRecordView>,
    g: DraftView,
    specs: Seq<GatewaySpecView>,
    observed: Seq<Text>,
    use_subnet_nodes: bool,
)
    requires
        same_structures(a, b),
    ensures
        host_subnets(a) == host_subnets(b),
        host_gateways(a) == host_gateways(b),
        with_hosts(g, a, specs, observed, use_subnet_nodes) == with_hosts(
            g,
            b,
            specs,
            observed,
            use_subnet_nodes,
        ),
    decreases a.len(),
{
    if a.len() > 0 {
        let a1 = a.drop_last();
        let b1 = b.drop_last();
        assert(same_structures(a1, b1)) by {
            assert forall|i: int| 0 <= i < a1.len() implies same_structure(#[trigger] a1[i], b1[i]) by {
                assert(a1[i] == a[i] && b1[i] == b[i]);
                assert(same_structure(a[i], b[i]));
            }
        }
        lemma_hosts_same_structure(a1, b1, g, specs, observed, use_subnet_nodes);
        assert(same_structure(a[a.len() - 1], b[b.len() - 1]));
        assert(host_node(a.last()) == host_node(b.last()));
    }
}

/// The topology rests on the structure of the devices alone: lists of devices
/// that agree in it give the same graph.
pub proof fn lemma_topology_rests_on_structure(
    a: Seq<DeviceRecordView>,
    b: Seq<DeviceRecordView>,
    admin: NetworkFactsPayloadView,
    revision: u64,
    now: i64,
)
    requires
        same_structures(a, b),
    ensures
        topology_of(a, admin, revision, now) == topology_of(b, admin, revision, now),
{
    lemma_sort_same_structure(a, b);
    let ha = stable_sort::<DeviceRecord>(a);
    let hb = stable_sort::<DeviceRecord>(b);
    let empty = DraftView {
        nodes: Seq::empty(),
        edges: Seq::empty(),
        hub_keys: Seq::empty(),
        parents: Seq::empty(),
    };
    lemma_hosts_same_structure(ha, hb, empty, Seq::empty(), Seq::empty(), false);
    let subnet = admin_subnet(admin);
    let observed = observed_subnets(ha, subnet);
    assert(observed == observed_subnets(hb, subnet));
    let gateway = cleaned(admin.default_gateway_ip);
    let specs = gateway_specs(ha, gateway, subnet);
    assert(specs == gateway_specs(hb, gateway, subnet));
    let use_subnet_nodes = observed.len() > 1;
    let g0 = DraftView {
        nodes: if use_subnet_nodes {
            Seq::new(observed.len(), |i: int| subnet_node(observed[i]))
        } else {
            Seq::empty()
        } + Seq::new(specs.len(), |i: int| gateway_node(specs[i])),
        edges: if use_subnet_nodes {
            gateway_links(specs, observed)
        } else {
            Seq::empty()
        },
        hub_keys: Seq::empty(),
        parents: Seq::empty(),
    };
    let g1 = attached(
        g0,
        admin_node(admin),
        subnet,
        gateway,
        specs,
        observed,
        use_subnet_nodes,
        50,
    );
    lemma_hosts_same_structure(ha, hb, g1, specs, observed, use_subnet_nodes);
}

/// The nodes and the edges of a topology stand in their orders.
pub proof fn lemma_topology_is_sorted(
    devices: Seq<DeviceRecordView>,
    admin: NetworkFactsPayloadView,
    revision: u64,
    now: i64,
)
    ensures
        is_sorted::<TopologyNode>(topology_of(devices, admin, revision, now).nodes),
        is_sorted::<TopologyEdge>(topology_of(devices, admin, revision, now).edges),
{
    lemma_node_ranking();
    lemma_edge_ranking();
    let hosts = stable_sort::<DeviceRecord>(devices);
    let observed = observed_subnets(hosts, admin_subnet(admin));
    let use_subnet_nodes = observed.len() > 1;
    let specs = gateway_specs(hosts, cleaned(admin.default_gateway_ip), admin_subnet(admin));
    let g0 = DraftView {
        nodes: if use_subnet_nodes {
            Seq::new(observed.len(), |i: int| subnet_node(observed[i]))
        } else {
            Seq::empty()
        } + Seq::new(specs.len(), |i: int| gateway_node(specs[i])),
        edges: if use_subnet_nodes {
            gateway_links(specs, observed)
        } else {
            Seq::empty()
        },
        hub_keys: Seq::empty(),
        parents: Seq::empty(),
    };
    let g1 = attached(
        g0,
        admin_node(admin),
        admin_subnet(admin),
        cleaned(admin.default_gateway_ip),
        specs,
        observed,
        use_subnet_nodes,
        50,
    );
    let g2 = with_hosts(g1, hosts, specs, observed, use_subnet_nodes);
    lemma_sort_is_sorted::<TopologyNode>(
        Seq::new(g2.nodes.len(), |i: int| counted(g2.nodes[i], g2.parents)),
    );
    lemma_sort_is_sorted::<TopologyEdge>(g2.edges);
}

/// The structural key does not look at the revision or the time of a
/// topology.
pub proof fn lemma_key_ignores_stamp(
    devices: Seq<DeviceRecordView>,
    admin: NetworkFactsPayloadView,
    revision: u64,
    now: i64,
    other_revision: u64,
    other_now: i64,
)
    ensures
        key_of(topology_of(devices, admin, revision, now)) == key_of(
            topology_of(devices, admin, other_revision, other_now),
        ),
{
}

/// Whether the key that the state holds is that of its devices as they are:
/// so it is after every look at the topology.
pub open spec fn key_is_current(s: ServerState) -> bool {
    s.topology_key == key_of(topology_of(s.devices, s.admin_network, 0, 0))
}

/// After a look at the topology the key is current.
pub proof fn lemma_rebuild_makes_key_current(st: Step, now: i64)
    ensures
        key_is_current(then_rebuild(st, now).state),
{
    let s = st.state;
    lemma_key_ignores_stamp(
        s.devices,
        s.admin_network,
        (s.topology.revision + 1) as u64,
        now,
        0,
        0,
    );
}

/// Whether no event of the list shows the topology.
pub open spec fn shows_no_topology(events: Seq<UiEventView>) -> bool {
    forall|k: int|
        0 <= k < events.len() ==> !(#[trigger] events[k] is TopologySnapshot) && !(events[k]
            is TopologyChanged)
}

/// Whether a step from `before` to `after` leaves alone what the topology
/// rests on and what was published of it, and shows no topology.
pub open spec fn leaves_topology(before: Step, after: Step) -> bool {
    &&& after.state.devices == before.state.devices
    &&& after.state.admin_network == before.state.admin_network
    &&& after.state.topology == before.state.topology
    &&& after.state.topology_key == before.state.topology_key
    &&& shows_no_topology(before.events) ==> shows_no_topology(after.events)
}

/// Showing a device, logging and announcing leave the topology alone.
proof fn lemma_feeds_leave_topology(
    st: Step,
    d: DeviceRecordView,
    force: bool,
    kind: Text,
    agent_id: Option<Text>,
    level: Text,
    message: Text,
    now: i64,
    id: Text,
)
    ensures
        leaves_topology(st, then_upsert(st, d, now, force)),
        leaves_topology(st, then_activity(st, kind, agent_id, message, now, id)),
        leaves_topology(st, then_log(st, agent_id, level, message, now, id)),
{
}

/// A look at a topology whose key is the one that the state holds changes
/// nothing and shows nothing.
proof fn lemma_rebuild_holds_still(st: Step, now: i64)
    requires
        key_is_current(st.state),
    ensures
        then_rebuild(st, now) == st,
{
    let s = st.state;
    lemma_key_ignores_stamp(
        s.devices,
        s.admin_network,
        (s.topology.revision + 1) as u64,
        now,
        0,
        0,
    );
}

/// A heartbeat that changes nothing of the structure of its device leaves the
/// topology as it is and shows none.
pub proof fn lemma_heartbeat_keeps_topology(
    s: ServerState,
    agent_id: Text,
    p: HeartbeatPayloadView,
    now: i64,
    ids: FrameIdsView,
)
    requires
        key_is_current(s),
        has_device(s, agent_id) ==> same_structure(
            heartbeat_device(s.devices[device_position(s, agent_id)], p, now),
            s.devices[device_position(s, agent_id)],
        ),
    ensures
        heartbeat_step(s, agent_id, p, now, ids).state.topology == s.topology,
        heartbeat_step(s, agent_id, p, now, ids).state.topology_key == s.topology_key,
        shows_no_topology(heartbeat_step(s, agent_id, p, now, ids).events),
{
    if has_device(s, agent_id) {
        let i = device_position(s, agent_id);
        let was = s.devices[i];
        let d = heartbeat_device(was, p, now);
        let s1 = after_heartbeat(s, agent_id, p, now);
        assert(same_structures(s1.devices, s.devices)) by {
            assert forall|k: int| 0 <= k < s1.devices.len() implies same_structure(
                #[trigger] s1.devices[k],
                s.devices[k],
            ) by {
                if k != i {
                    assert(s1.devices[k] == s.devices[k]);
                }
            }
        }
        lemma_topology_rests_on_structure(s1.devices, s.devices, s.admin_network, 0, 0);
        assert(key_is_current(s1));
        let st0 = Step { state: s1, events: Seq::empty() };
        let who = Some(d.agent_id);
        let st1 = then_upsert(st0, d, now, false);
        lemma_feeds_leave_topology(st0, d, false, Seq::empty(), None, Seq::empty(), Seq::empty(), now, Seq::empty());
        let st2 = if was.status != d.status {
            let m = status_message(d.hostname, was.status, d.status);
            lemma_feeds_leave_topology(st1, d, false, "device_status_changed"@, who, Seq::empty(), m, now, ids.activity);
            then_activity(st1, "device_status_changed"@, who, m, now, ids.activity)
        } else {
            st1
        };
        assert(leaves_topology(st0, st2));
        let st3 = if was.internet_reachable != d.internet_reachable {
            let change = arrow_text(flag_text(was.internet_reachable), flag_text(d.internet_reachable));
            let lm = "internet_reachable changed "@ + change;
            let am = d.hostname + " internet "@ + change;
            lemma_feeds_leave_topology(st2, d, false, Seq::empty(), who, "INFO"@, lm, now, ids.internet_log);
            let logged = then_log(st2, who, "INFO"@, lm, now, ids.internet_log);
            lemma_feeds_leave_topology(logged, d, false, "internet_status_changed"@, who, Seq::empty(), am, now, ids.internet_activity);
            then_activity(logged, "internet_status_changed"@, who, am, now, ids.internet_activity)
        } else {
            st2
        };
        assert(leaves_topology(st0, st3));
        let st4 = if was.dns_ok != d.dns_ok {
            let change = arrow_text(flag_text(was.dns_ok), flag_text(d.dns_ok));
            let lm = "dns_ok changed "@ + change;
            let am = d.hostname + " dns "@ + change;
            lemma_feeds_leave_topology(st3, d, false, Seq::empty(), who, "INFO"@, lm, now, ids.dns_log);
            let logged = then_log(st3, who, "INFO"@, lm, now, ids.dns_log);
            lemma_feeds_leave_topology(logged, d, false, "dns_status_changed"@, who, Seq::empty(), am, now, ids.dns_activity);
            then_activity(logged, "dns_status_changed"@, who, am, now, ids.dns_activity)
        } else {
            st3
        };
        assert(leaves_topology(st0, st4));
        assert(key_is_current(st4.state));
        lemma_rebuild_holds_still(st4, now);
        assert(heartbeat_step(s, agent_id, p, now, ids) == then_rebuild(st4, now));
    }
}

} // verus!
