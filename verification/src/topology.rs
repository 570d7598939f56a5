//! The topology graph: subnets, gateways, unknown hubs, the admin and the
//! hosts, derived from the network facts that agents report.

use crate::ipv4::{guess_subnet_from_ip, subnet_guess};
use crate::network::{clean_non_empty_owned, clean_opt, cleaned, cleaned_opt};
use crate::ranking::{GatewaySpec, GatewaySpecView};
use crate::records::{
    DeviceRecord, DeviceRecordView, NetworkFactsPayload, NetworkFactsPayloadView, TopologyEdge,
    TopologyEdgeView, TopologyNode, TopologyNodeView, TopologySnapshot, TopologySnapshotView,
};
use crate::sorting::{dedup, dedup_adjacent, sort_stable, stable_sort};
use crate::text::{
    clone_opt_text, contains_text, join2, join3, join_all, joined, opt_text, text_eq,
    text_or_empty, texts, views, Text,
};
use vstd::prelude::*;

verus! {

/// The identifier of the node of a subnet.
pub open spec fn subnet_id(subnet: Text) -> Text {
    "subnet:"@ + subnet
}

/// The identifier of the node of a gateway.
pub open spec fn gateway_id(gateway_ip: Text) -> Text {
    "gw:"@ + gateway_ip
}

/// The identifier of the node of the unknown hub of a subnet.
pub open spec fn hub_id(key: Text) -> Text {
    "hub:"@ + key
}

/// The identifier of the node of a host.
pub open spec fn host_id(agent_id: Text) -> Text {
    "host:"@ + agent_id
}

/// The node of a subnet.
pub open spec fn subnet_node(subnet: Text) -> TopologyNodeView {
    TopologyNodeView {
        id: subnet_id(subnet),
        node_type: "subnet"@,
        label: subnet,
        subnet_cidr: Some(subnet),
        gateway_ip: None,
        agent_id: None,
        interface_type: None,
        attached_count: None,
    }
}

/// The node of a gateway, before its attachments are counted.
pub open spec fn gateway_node(g: GatewaySpecView) -> TopologyNodeView {
    TopologyNodeView {
        id: gateway_id(g.gateway_ip),
        node_type: "gateway"@,
        label: "Gateway "@ + g.gateway_ip,
        subnet_cidr: g.subnet,
        gateway_ip: Some(g.gateway_ip),
        agent_id: None,
        interface_type: None,
        attached_count: None,
    }
}

/// The node of the hub that stands for the unknown attachment point of a
/// subnet, before its attachments are counted.
pub open spec fn hub_node(subnet: Option<Text>) -> TopologyNodeView {
    TopologyNodeView {
        id: hub_id(hub_key(subnet)),
        node_type: "unknown_hub"@,
        label: "Unknown Hub"@,
        subnet_cidr: subnet,
        gateway_ip: None,
        agent_id: None,
        interface_type: None,
        attached_count: None,
    }
}

/// The address of the admin: the one in its facts, or the loopback address
/// if that is blank.
pub open spec fn admin_address(admin: NetworkFactsPayloadView) -> Text {
    match cleaned(admin.ip) {
        Some(ip) => ip,
        None => "127.0.0.1"@,
    }
}

/// The subnet of the admin: the one in its facts, or a guess from its address.
pub open spec fn admin_subnet(admin: NetworkFactsPayloadView) -> Option<Text> {
    match cleaned(admin.subnet_cidr) {
        Some(s) => Some(s),
        None => subnet_guess(admin_address(admin)),
    }
}

/// The node of the admin itself.
pub open spec fn admin_node(admin: NetworkFactsPayloadView) -> TopologyNodeView {
    TopologyNodeView {
        id: "admin:self"@,
        node_type: "admin"@,
        label: "Admin"@,
        subnet_cidr: admin_subnet(admin),
        gateway_ip: cleaned(admin.default_gateway_ip),
        agent_id: None,
        interface_type: cleaned(admin.interface_type),
        attached_count: None,
    }
}

/// The node of a host.
pub open spec fn host_node(d: DeviceRecordView) -> TopologyNodeView {
    TopologyNodeView {
        id: host_id(d.agent_id),
        node_type: "host"@,
        label: d.hostname,
        subnet_cidr: d.subnet_cidr,
        gateway_ip: d.default_gateway_ip,
        agent_id: Some(d.agent_id),
        interface_type: d.interface_type,
        attached_count: None,
    }
}

/// The edge that attaches `child` to `parent`.
pub open spec fn link(child: Text, parent: Text, method: Text, confidence_pct: u8) -> TopologyEdgeView {
    TopologyEdgeView {
        id: child + "->"@ + parent,
        child_id: child,
        parent_id: parent,
        method,
        confidence_pct,
    }
}

/// The subnets that the hosts report, in the order of the hosts.
pub open spec fn host_subnets(hosts: Seq<DeviceRecordView>) -> Seq<Text>
    decreases hosts.len(),
{
    if hosts.len() == 0 {
        Seq::empty()
    } else {
        let head = host_subnets(hosts.drop_last());
        match hosts.last().subnet_cidr {
            Some(s) => head.push(s),
            None => head,
        }
    }
}

/// The subnets seen among the hosts and the admin, sorted, each once.
pub open spec fn observed_subnets(hosts: Seq<DeviceRecordView>, admin_subnet: Option<Text>) -> Seq<
    Text,
> {
    let seen = match admin_subnet {
        Some(s) => host_subnets(hosts).push(s),
        None => host_subnets(hosts),
    };
    dedup_adjacent(stable_sort::<String>(seen))
}

/// The gateways that the hosts name, each with the subnet of its host, in the
/// order of the hosts.
pub open spec fn host_gateways(hosts: Seq<DeviceRecordView>) -> Seq<GatewaySpecView>
    decreases hosts.len(),
{
    if hosts.len() == 0 {
        Seq::empty()
    } else {
        let head = host_gateways(hosts.drop_last());
        match cleaned_opt(hosts.last().default_gateway_ip) {
            Some(gw) => head.push(
                GatewaySpecView { gateway_ip: gw, subnet: hosts.last().subnet_cidr },
            ),
            None => head,
        }
    }
}

/// The gateways named by the admin and the hosts, sorted, each pair of
/// gateway and subnet once.
pub open spec fn gateway_specs(
    hosts: Seq<DeviceRecordView>,
    admin_gateway: Option<Text>,
    admin_subnet: Option<Text>,
) -> Seq<GatewaySpecView> {
    let first = match admin_gateway {
        Some(gw) => seq![GatewaySpecView { gateway_ip: gw, subnet: admin_subnet }],
        None => Seq::empty(),
    };
    dedup_adjacent(stable_sort::<GatewaySpec>(first + host_gateways(hosts)))
}

/// The edges from gateways to the nodes of their subnets.
pub open spec fn gateway_links(specs: Seq<GatewaySpecView>, observed: Seq<Text>) -> Seq<
    TopologyEdgeView,
>
    decreases specs.len(),
{
    if specs.len() == 0 {
        Seq::empty()
    } else {
        let head = gateway_links(specs.drop_last(), observed);
        let g = specs.last();
        match g.subnet {
            Some(s) => if observed.contains(s) {
                head.push(link(gateway_id(g.gateway_ip), subnet_id(s), "evidence"@, 100))
            } else {
                head
            },
            None => head,
        }
    }
}

/// What a gateway is looked up by: its subnet, a bar and its address.
pub open spec fn gateway_key(subnet: Option<Text>, gateway_ip: Text) -> Text {
    text_or_empty(subnet) + "|"@ + gateway_ip
}

/// The node that a host with gateway `gateway_ip` in `subnet` hangs on: the
/// last gateway of `specs` with the same key, or the gateway's own node if
/// there is none.
pub open spec fn gateway_parent(specs: Seq<GatewaySpecView>, subnet: Option<Text>, gateway_ip: Text) -> Text
    decreases specs.len(),
{
    if specs.len() == 0 {
        gateway_id(gateway_ip)
    } else if gateway_key(specs.last().subnet, specs.last().gateway_ip) == gateway_key(
        subnet,
        gateway_ip,
    ) {
        gateway_id(specs.last().gateway_ip)
    } else {
        gateway_parent(specs.drop_last(), subnet, gateway_ip)
    }
}

/// What an unknown hub is looked up by: the subnet, or `unknown`.
pub open spec fn hub_key(subnet: Option<Text>) -> Text {
    match subnet {
        Some(s) => s,
        None => "unknown"@,
    }
}

/// A graph under construction.
pub struct DraftView {
    pub nodes: Seq<TopologyNodeView>,
    pub edges: Seq<TopologyEdgeView>,
    /// The keys of the unknown hubs that have a node.
    pub hub_keys: Seq<Text>,
    /// For each host attached so far, the admin included, the node it hangs on.
    pub parents: Seq<Text>,
}

/// A graph under construction.
pub struct Draft {
    pub nodes: Vec<TopologyNode>,
    pub edges: Vec<TopologyEdge>,
    pub hub_keys: Vec<String>,
    pub parents: Vec<String>,
}

impl View for Draft {
    type V = DraftView;

    open spec fn view(&self) -> DraftView {
        DraftView {
            nodes: views(self.nodes@),
            edges: views(self.edges@),
            hub_keys: texts(self.hub_keys@),
            parents: texts(self.parents@),
        }
    }
}

/// The graph with an unknown hub for `subnet`: as it was if the hub is there,
/// else with the hub's node and, where subnets have nodes and this one is
/// among them, the edge from the hub to it.
pub open spec fn with_hub(
    g: DraftView,
    subnet: Option<Text>,
    observed: Seq<Text>,
    use_subnet_nodes: bool,
) -> DraftView {
    let key = hub_key(subnet);
    if g.hub_keys.contains(key) {
        g
    } else {
        DraftView {
            nodes: g.nodes.push(hub_node(subnet)),
            edges: if use_subnet_nodes && subnet is Some && observed.contains(subnet->0) {
                g.edges.push(link(hub_id(key), subnet_id(subnet->0), "heuristic"@, 50))
            } else {
                g.edges
            },
            hub_keys: g.hub_keys.push(key),
            parents: g.parents,
        }
    }
}

/// The graph with `node` attached: to its gateway where it names one, with
/// confidence 90, else to the unknown hub of its subnet, with the confidence
/// `guess_pct`.
pub open spec fn attached(
    g: DraftView,
    node: TopologyNodeView,
    subnet: Option<Text>,
    gateway: Option<Text>,
    specs: Seq<GatewaySpecView>,
    observed: Seq<Text>,
    use_subnet_nodes: bool,
    guess_pct: u8,
) -> DraftView {
    let g1 = DraftView { nodes: g.nodes.push(node), ..g };
    match gateway {
        Some(gw) => {
            let parent = gateway_parent(specs, subnet, gw);
            DraftView {
                edges: g1.edges.push(link(node.id, parent, "evidence"@, 90)),
                parents: g1.parents.push(parent),
                ..g1
            }
        },
        None => {
            let g2 = with_hub(g1, subnet, observed, use_subnet_nodes);
            let parent = hub_id(hub_key(subnet));
            DraftView {
                edges: g2.edges.push(link(node.id, parent, "heuristic"@, guess_pct)),
                parents: g2.parents.push(parent),
                ..g2
            }
        },
    }
}

/// The graph with the hosts attached, one after the other.
pub open spec fn with_hosts(
    g: DraftView,
    hosts: Seq<DeviceRecordView>,
    specs: Seq<GatewaySpecView>,
    observed: Seq<Text>,
    use_subnet_nodes: bool,
) -> DraftView
    decreases hosts.len(),
{
    if hosts.len() == 0 {
        g
    } else {
        let h = hosts.last();
        attached(
            with_hosts(g, hosts.drop_last(), specs, observed, use_subnet_nodes),
            host_node(h),
            h.subnet_cidr,
            cleaned_opt(h.default_gateway_ip),
            specs,
            observed,
            use_subnet_nodes,
            45,
        )
    }
}

/// How often `x` occurs among `items`.
pub open spec fn occurrences(items: Seq<Text>, x: Text) -> nat
    decreases items.len(),
{
    if items.len() == 0 {
        0
    } else {
        occurrences(items.drop_last(), x) + if items.last() == x {
            1nat
        } else {
            0nat
        }
    }
}

/// A node with its attachments counted, if it is a gateway or a hub.
pub open spec fn counted(n: TopologyNodeView, parents: Seq<Text>) -> TopologyNodeView {
    if n.node_type == "gateway"@ || n.node_type == "unknown_hub"@ {
        TopologyNodeView { attached_count: Some(occurrences(parents, n.id) as usize), ..n }
    } else {
        n
    }
}

/// The topology that the devices and the admin's own facts give.
///
/// Subnets get nodes only where more than one is seen. Every gateway that
/// somebody names gets a node. The admin and each host hang on their gateway
/// or, where they name none, on the unknown hub of their subnet. Nodes are
/// sorted by kind, address and identifier, edges by child and parent.
pub open spec fn topology_of(
    devices: Seq<DeviceRecordView>,
    admin: NetworkFactsPayloadView,
    revision: u64,
    now: i64,
) -> TopologySnapshotView {
    let hosts = stable_sort::<DeviceRecord>(devices);
    let observed = observed_subnets(hosts, admin_subnet(admin));
    let use_subnet_nodes = observed.len() > 1;
    let specs = gateway_specs(hosts, cleaned(admin.default_gateway_ip), admin_subnet(admin));
    let g0 = DraftView {
        nodes: if use_subnet_nodes {
            Seq::new(observed.len(), |i: int| subnet_node(observed[i]))
        } else {
            Seq::empty()
        } + Seq::new(specs.len(), |i: int| gateway_node(specs[i])),
        edges: if use_subnet_nodes {
            gateway_links(specs, observed)
        } else {
            Seq::empty()
        },
        hub_keys: Seq::empty(),
        parents: Seq::empty(),
    };
    let g1 = attached(
        g0,
        admin_node(admin),
        admin_subnet(admin),
        cleaned(admin.default_gateway_ip),
        specs,
        observed,
        use_subnet_nodes,
        50,
    );
    let g2 = with_hosts(g1, hosts, specs, observed, use_subnet_nodes);
    TopologySnapshotView {
        revision,
        updated_at: now,
        nodes: stable_sort::<TopologyNode>(
            Seq::new(g2.nodes.len(), |i: int| counted(g2.nodes[i], g2.parents)),
        ),
        edges: stable_sort::<TopologyEdge>(g2.edges),
    }
}

fn make_link(child: &str, parent: &str, method: &str, confidence_pct: u8) -> (e: TopologyEdge)
    ensures
        e@ == link(child@, parent@, method@, confidence_pct),
{
    TopologyEdge {
        id: join3(child, "->", parent),
        child_id: child.to_owned(),
        parent_id: parent.to_owned(),
        method: method.to_owned(),
        confidence_pct,
    }
}

fn collect_subnets(hosts: &Vec<DeviceRecord>, admin_subnet: &Option<String>) -> (r: Vec<String>)
    ensures
        texts(r@) == observed_subnets(views(hosts@), opt_text(*admin_subnet)),
{
    let mut seen: Vec<String> = Vec::new();
    let mut i: usize = 0;
    assert(views(hosts@).take(0) =~= Seq::empty());
    assert(texts(seen@) =~= Seq::empty());
    while i < hosts.len()
        invariant
            i <= hosts.len(),
            texts(seen@) == host_subnets(views(hosts@).take(i as int)),
        decreases hosts.len() - i,
    {
        proof {
            let now = views(hosts@).take(i + 1);
            assert(now.drop_last() == views(hosts@).take(i as int));
            assert(now.last() == hosts@[i as int]@);
        }
        let ghost before = texts(seen@);
        match &hosts[i].subnet_cidr {
            Some(s) => {
                seen.push(s.clone());
                assert(texts(seen@) =~= before.push(s@));
            },
            None => {},
        }
        i += 1;
    }
    assert(views(hosts@).take(hosts.len() as int) == views(hosts@));
    let ghost before = texts(seen@);
    match admin_subnet {
        Some(s) => {
            seen.push(s.clone());
            assert(texts(seen@) =~= before.push(s@));
        },
        None => {},
    }
    dedup(sort_stable(seen))
}

fn collect_gateways(
    hosts: &Vec<DeviceRecord>,
    admin_gateway: &Option<String>,
    admin_subnet: &Option<String>,
) -> (r: Vec<GatewaySpec>)
    ensures
        views(r@) == gateway_specs(
            views(hosts@),
            opt_text(*admin_gateway),
            opt_text(*admin_subnet),
        ),
{
    let mut named: Vec<GatewaySpec> = Vec::new();
    match admin_gateway {
        Some(gw) => {
            named.push(GatewaySpec { gateway_ip: gw.clone(), subnet: clone_opt_text(admin_subnet) });
        },
        None => {},
    }
    let ghost first = views(named@);
    assert(first =~= match opt_text(*admin_gateway) {
        Some(gw) => seq![GatewaySpecView { gateway_ip: gw, subnet: opt_text(*admin_subnet) }],
        None => Seq::empty(),
    });
    let mut i: usize = 0;
    assert(views(hosts@).take(0) =~= Seq::empty());
    assert(views(named@) =~= first + host_gateways(views(hosts@).take(0)));
    while i < hosts.len()
        invariant
            i <= hosts.len(),
            views(named@) == first + host_gateways(views(hosts@).take(i as int)),
        decreases hosts.len() - i,
    {
        proof {
            let now = views(hosts@).take(i + 1);
            assert(now.drop_last() == views(hosts@).take(i as int));
            assert(now.last() == hosts@[i as int]@);
        }
        let ghost before = views(named@);
        match clean_opt(&hosts[i].default_gateway_ip) {
            Some(gw) => {
                let g = GatewaySpec { gateway_ip: gw, subnet: clone_opt_text(&hosts[i].subnet_cidr) };
                named.push(g);
                assert(views(named@) =~= before.push(
                    GatewaySpecView { gateway_ip: gw@, subnet: hosts@[i as int]@.subnet_cidr },
                ));
                assert(views(named@) =~= first + host_gateways(views(hosts@).take(i + 1)));
            },
            None => {},
        }
        i += 1;
    }
    assert(views(hosts@).take(hosts.len() as int) == views(hosts@));
    dedup(sort_stable(named))
}

fn push_subnet_nodes(nodes: &mut Vec<TopologyNode>, observed: &Vec<String>)
    requires
        old(nodes)@.len() == 0,
    ensures
        views(final(nodes)@) == Seq::new(
            texts(observed@).len(),
            |i: int| subnet_node(texts(observed@)[i]),
        ),
{
    let mut i: usize = 0;
    while i < observed.len()
        invariant
            i <= observed.len(),
            nodes@.len() == i,
            forall|k: int| 0 <= k < i ==> (#[trigger] nodes@[k])@ == subnet_node(observed@[k]@),
        decreases observed.len() - i,
    {
        let s = &observed[i];
        nodes.push(
            TopologyNode {
                id: join2("subnet:", s.as_str()),
                node_type: "subnet".to_owned(),
                label: s.clone(),
                subnet_cidr: Some(s.clone()),
                gateway_ip: None,
                agent_id: None,
                interface_type: None,
                attached_count: None,
            },
        );
        i += 1;
    }
    assert(views(nodes@) =~= Seq::new(
        texts(observed@).len(),
        |i: int| subnet_node(texts(observed@)[i]),
    ));
}

fn push_gateways(
    nodes: &mut Vec<TopologyNode>,
    edges: &mut Vec<TopologyEdge>,
    specs: &Vec<GatewaySpec>,
    observed: &Vec<String>,
    use_subnet_nodes: bool,
)
    requires
        old(edges)@.len() == 0,
    ensures
        views(final(nodes)@) == views(old(nodes)@) + Seq::new(
            views(specs@).len(),
            |i: int| gateway_node(views(specs@)[i]),
        ),
        views(final(edges)@) == if use_subnet_nodes {
            gateway_links(views(specs@), texts(observed@))
        } else {
            Seq::empty()
        },
{
    let ghost base = nodes@;
    let mut i: usize = 0;
    assert(views(specs@).take(0) =~= Seq::empty());
    assert(views(edges@) =~= Seq::empty());
    while i < specs.len()
        invariant
            i <= specs.len(),
            nodes@.len() == base.len() + i,
            forall|k: int| 0 <= k < base.len() ==> #[trigger] nodes@[k] == base[k],
            forall|k: int|
                base.len() <= k < base.len() + i ==> (#[trigger] nodes@[k])@ == gateway_node(
                    specs@[k - base.len()]@,
                ),
            views(edges@) == if use_subnet_nodes {
                gateway_links(views(specs@).take(i as int), texts(observed@))
            } else {
                Seq::empty()
            },
        decreases specs.len() - i,
    {
        proof {
            let now = views(specs@).take(i + 1);
            assert(now.drop_last() == views(specs@).take(i as int));
            assert(now.last() == specs@[i as int]@);
        }
        let g = &specs[i];
        let id = join2("gw:", g.gateway_ip.as_str());
        nodes.push(
            TopologyNode {
                id: id.clone(),
                node_type: "gateway".to_owned(),
                label: join2("Gateway ", g.gateway_ip.as_str()),
                subnet_cidr: clone_opt_text(&g.subnet),
                gateway_ip: Some(g.gateway_ip.clone()),
                agent_id: None,
                interface_type: None,
                attached_count: None,
            },
        );
        if use_subnet_nodes {
            match &g.subnet {
                Some(s) => {
                    if contains_text(observed, s.as_str()) {
                        let ghost before = views(edges@);
                        let parent = join2("subnet:", s.as_str());
                        let e = make_link(id.as_str(), parent.as_str(), "evidence", 100);
                        edges.push(e);
                        assert(views(edges@) =~= before.push(e@));
                    }
                },
                None => {},
            }
        }
        i += 1;
    }
    assert(views(specs@).take(specs.len() as int) == views(specs@));
    assert(views(nodes@) =~= views(base) + Seq::new(
        views(specs@).len(),
        |i: int| gateway_node(views(specs@)[i]),
    ));
}

fn find_gateway_parent(specs: &Vec<GatewaySpec>, subnet: &Option<String>, gateway_ip: &str) -> (r:
    String)
    ensures
        r@ == gateway_parent(views(specs@), opt_text(*subnet), gateway_ip@),
{
    let wanted = match subnet {
        Some(s) => join3(s.as_str(), "|", gateway_ip),
        None => join2("|", gateway_ip),
    };
    assert(wanted@ =~= gateway_key(opt_text(*subnet), gateway_ip@));
    let mut i: usize = specs.len();
    assert(views(specs@).take(i as int) == views(specs@));
    while i > 0
        invariant
            i <= specs.len(),
            wanted@ == gateway_key(opt_text(*subnet), gateway_ip@),
            gateway_parent(views(specs@), opt_text(*subnet), gateway_ip@) == gateway_parent(
                views(specs@).take(i as int),
                opt_text(*subnet),
                gateway_ip@,
            ),
        decreases i,
    {
        let g = &specs[i - 1];
        let key = match &g.subnet {
            Some(s) => join3(s.as_str(), "|", g.gateway_ip.as_str()),
            None => join2("|", g.gateway_ip.as_str()),
        };
        proof {
            let now = views(specs@).take(i as int);
            assert(now.last() == g@);
            assert(now.drop_last() == views(specs@).take(i - 1));
            assert(key@ =~= gateway_key(g@.subnet, g@.gateway_ip));
        }
        if key == wanted {
            return join2("gw:", g.gateway_ip.as_str());
        }
        i -= 1;
    }
    join2("gw:", gateway_ip)
}

/// Makes sure that the unknown hub of `subnet` has a node, and gives the
/// identifier of that node.
pub fn ensure_unknown_hub_node(
    g: &mut Draft,
    observed: &Vec<String>,
    subnet: &Option<String>,
    use_subnet_nodes: bool,
) -> (id: String)
    ensures
        id@ == hub_id(hub_key(opt_text(*subnet))),
        final(g)@ == with_hub(old(g)@, opt_text(*subnet), texts(observed@), use_subnet_nodes),
{
    let key = match subnet {
        Some(s) => s.clone(),
        None => "unknown".to_owned(),
    };
    let id = join2("hub:", key.as_str());
    if contains_text(&g.hub_keys, key.as_str()) {
        return id;
    }
    let ghost before = g@;
    g.nodes.push(
        TopologyNode {
            id: id.clone(),
            node_type: "unknown_hub".to_owned(),
            label: "Unknown Hub".to_owned(),
            subnet_cidr: clone_opt_text(subnet),
            gateway_ip: None,
            agent_id: None,
            interface_type: None,
            attached_count: None,
        },
    );
    assert(views(g.nodes@) =~= before.nodes.push(hub_node(opt_text(*subnet))));
    if use_subnet_nodes {
        match subnet {
            Some(s) => {
                if contains_text(observed, s.as_str()) {
                    let parent = join2("subnet:", s.as_str());
                    let e = make_link(id.as_str(), parent.as_str(), "heuristic", 50);
                    g.edges.push(e);
                    assert(views(g.edges@) =~= before.edges.push(e@));
                }
            },
            None => {},
        }
    }
    g.hub_keys.push(key);
    assert(texts(g.hub_keys@) =~= before.hub_keys.push(hub_key(opt_text(*subnet))));
    id
}

fn attach(
    g: &mut Draft,
    node: TopologyNode,
    subnet: &Option<String>,
    gateway: &Option<String>,
    specs: &Vec<GatewaySpec>,
    observed: &Vec<String>,
    use_subnet_nodes: bool,
    guess_pct: u8,
)
    ensures
        final(g)@ == attached(
            old(g)@,
            node@,
            opt_text(*subnet),
            opt_text(*gateway),
            views(specs@),
            texts(observed@),
            use_subnet_nodes,
            guess_pct,
        ),
{
    let ghost before = g@;
    let child = node.id.clone();
    g.nodes.push(node);
    assert(views(g.nodes@) =~= before.nodes.push(node@));
    let ghost g1 = g@;
    match gateway {
        Some(gw) => {
            let parent = find_gateway_parent(specs, subnet, gw.as_str());
            let e = make_link(child.as_str(), parent.as_str(), "evidence", 90);
            g.edges.push(e);
            assert(views(g.edges@) =~= g1.edges.push(e@));
            g.parents.push(parent);
            assert(texts(g.parents@) =~= g1.parents.push(parent@));
        },
        None => {
            let parent = ensure_unknown_hub_node(g, observed, subnet, use_subnet_nodes);
            let ghost g2 = g@;
            let e = make_link(child.as_str(), parent.as_str(), "heuristic", guess_pct);
            g.edges.push(e);
            assert(views(g.edges@) =~= g2.edges.push(e@));
            g.parents.push(parent);
            assert(texts(g.parents@) =~= g2.parents.push(parent@));
        },
    }
}

/// The count stays within the number of items.
proof fn lemma_occurrences_bound(items: Seq<Text>, x: Text)
    ensures
        occurrences(items, x) <= items.len(),
    decreases items.len(),
{
    if items.len() > 0 {
        lemma_occurrences_bound(items.drop_last(), x);
    }
}

fn count_occurrences(items: &Vec<String>, x: &str) -> (r: usize)
    ensures
        r == occurrences(texts(items@), x@),
{
    let mut n: usize = 0;
    let mut i: usize = 0;
    assert(texts(items@).take(0) =~= Seq::<Text>::empty());
    while i < items.len()
        invariant
            i <= items.len(),
            n <= i,
            n == occurrences(texts(items@).take(i as int), x@),
        decreases items.len() - i,
    {
        proof {
            let now = texts(items@).take(i + 1);
            assert(now.drop_last() == texts(items@).take(i as int));
            assert(now.last() == items@[i as int]@);
        }
        if text_eq(items[i].as_str(), x) {
            n += 1;
        }
        i += 1;
    }
    assert(texts(items@).take(items.len() as int) == texts(items@));
    n
}

fn count_attachments(nodes: Vec<TopologyNode>, parents: &Vec<String>) -> (out: Vec<TopologyNode>)
    ensures
        views(out@) == Seq::new(
            views(nodes@).len(),
            |i: int| counted(views(nodes@)[i], texts(parents@)),
        ),
{
    let ghost all = views(nodes@);
    let mut rest = nodes;
    let mut out: Vec<TopologyNode> = Vec::new();
    assert(views(rest@) =~= all.skip(0));
    while rest.len() > 0
        invariant
            out@.len() + rest@.len() == all.len(),
            views(rest@) == all.skip(out@.len() as int),
            forall|k: int| 0 <= k < out@.len() ==> (#[trigger] out@[k])@ == counted(all[k], texts(parents@)),
        decreases rest.len(),
    {
        let ghost before = rest@;
        let ghost done = out@.len() as int;
        assert(views(before)[0] == all.skip(done)[0]);
        let mut n = rest.remove(0);
        assert(n@ == all[done]);
        if text_eq(n.node_type.as_str(), "gateway") || text_eq(n.node_type.as_str(), "unknown_hub") {
            n.attached_count = Some(count_occurrences(parents, n.id.as_str()));
        }
        out.push(n);
        proof {
            assert(views(rest@) =~= all.skip(done + 1)) by {
                assert forall|k: int| 0 <= k < rest@.len() implies views(rest@)[k] == all.skip(
                    done + 1,
                )[k] by {
                    assert(rest@[k] == before[k + 1]);
                    assert(views(before)[k + 1] == all.skip(done)[k + 1]);
                }
            }
        }
    }
    assert(views(out@) =~= Seq::new(all.len(), |i: int| counted(all[i], texts(parents@))));
    out
}

/// Builds the topology from the devices, in the order of their first register,
/// and the admin's own network facts.
pub fn build_topology_snapshot(
    devices: &Vec<DeviceRecord>,
    admin_network: &NetworkFactsPayload,
    revision: u64,
    now: i64,
) -> (snapshot: TopologySnapshot)
    ensures
        snapshot@ == topology_of(views(devices@), admin_network@, revision, now),
{
    let copies = devices.clone();
    assert(views(copies@) =~= views(devices@));
    let hosts = sort_stable(copies);
    let admin_ip = match clean_non_empty_owned(admin_network.ip.as_str()) {
        Some(ip) => ip,
        None => "127.0.0.1".to_owned(),
    };
    let subnet = match clean_non_empty_owned(admin_network.subnet_cidr.as_str()) {
        Some(s) => Some(s),
        None => guess_subnet_from_ip(admin_ip.as_str()),
    };
    let gateway = clean_non_empty_owned(admin_network.default_gateway_ip.as_str());
    let observed = collect_subnets(&hosts, &subnet);
    let use_subnet_nodes = observed.len() > 1;
    let specs = collect_gateways(&hosts, &gateway, &subnet);
    let mut nodes: Vec<TopologyNode> = Vec::new();
    let mut edges: Vec<TopologyEdge> = Vec::new();
    if use_subnet_nodes {
        push_subnet_nodes(&mut nodes, &observed);
    }
    assert(views(nodes@) =~= if use_subnet_nodes {
        Seq::new(texts(observed@).len(), |i: int| subnet_node(texts(observed@)[i]))
    } else {
        Seq::empty()
    });
    push_gateways(&mut nodes, &mut edges, &specs, &observed, use_subnet_nodes);
    let mut g = Draft { nodes, edges, hub_keys: Vec::new(), parents: Vec::new() };
    assert(g@.hub_keys =~= Seq::empty());
    assert(g@.parents =~= Seq::empty());
    let admin = TopologyNode {
        id: "admin:self".to_owned(),
        node_type: "admin".to_owned(),
        label: "Admin".to_owned(),
        subnet_cidr: clone_opt_text(&subnet),
        gateway_ip: clone_opt_text(&gateway),
        agent_id: None,
        interface_type: clean_non_empty_owned(admin_network.interface_type.as_str()),
        attached_count: None,
    };
    attach(&mut g, admin, &subnet, &gateway, &specs, &observed, use_subnet_nodes, 50);
    let ghost g1 = g@;
    let mut i: usize = 0;
    assert(views(hosts@).take(0) =~= Seq::empty());
    while i < hosts.len()
        invariant
            i <= hosts.len(),
            g@ == with_hosts(
                g1,
                views(hosts@).take(i as int),
                views(specs@),
                texts(observed@),
                use_subnet_nodes,
            ),
        decreases hosts.len() - i,
    {
        proof {
            let now = views(hosts@).take(i + 1);
            assert(now.drop_last() == views(hosts@).take(i as int));
            assert(now.last() == hosts@[i as int]@);
        }
        let h = &hosts[i];
        let node = TopologyNode {
            id: join2("host:", h.agent_id.as_str()),
            node_type: "host".to_owned(),
            label: h.hostname.clone(),
            subnet_cidr: clone_opt_text(&h.subnet_cidr),
            gateway_ip: clone_opt_text(&h.default_gateway_ip),
            agent_id: Some(h.agent_id.clone()),
            interface_type: clone_opt_text(&h.interface_type),
            attached_count: None,
        };
        let gw = clean_opt(&h.default_gateway_ip);
        attach(&mut g, node, &h.subnet_cidr, &gw, &specs, &observed, use_subnet_nodes, 45);
        i += 1;
    }
    assert(views(hosts@).take(hosts.len() as int) == views(hosts@));
    let Draft { nodes, edges, hub_keys, parents } = g;
    let nodes = sort_stable(count_attachments(nodes, &parents));
    let edges = sort_stable(edges);
    TopologySnapshot { revision, updated_at: now, nodes, edges }
}

/// What a node adds to the structural key.
pub open spec fn node_part(n: TopologyNodeView) -> Text {
    n.id + "|"@ + n.node_type + "|"@ + text_or_empty(n.subnet_cidr) + "|"@ + text_or_empty(
        n.gateway_ip,
    )
}

/// What an edge adds to the structural key.
pub open spec fn edge_part(e: TopologyEdgeView) -> Text {
    e.child_id + "|"@ + e.parent_id + "|"@ + e.method
}

/// The structural key of a snapshot: the parts of its nodes, sorted and
/// joined by semicolons, a hash sign, and the parts of its edges likewise.
/// Revision, time, labels and counts are not in it.
pub open spec fn key_of(s: TopologySnapshotView) -> Text {
    joined(
        stable_sort::<String>(Seq::new(s.nodes.len(), |i: int| node_part(s.nodes[i]))),
        ";"@,
    ) + "#"@ + joined(
        stable_sort::<String>(Seq::new(s.edges.len(), |i: int| edge_part(s.edges[i]))),
        ";"@,
    )
}

/// The structural key of a snapshot.
pub fn topology_key(snapshot: &TopologySnapshot) -> (key: String)
    ensures
        key@ == key_of(snapshot@),
{
    let mut node_parts: Vec<String> = Vec::new();
    let mut i: usize = 0;
    while i < snapshot.nodes.len()
        invariant
            i <= snapshot.nodes.len(),
            node_parts@.len() == i,
            forall|k: int| 0 <= k < i ==> (#[trigger] node_parts@[k])@ == node_part(snapshot.nodes@[k]@),
        decreases snapshot.nodes.len() - i,
    {
        let n = &snapshot.nodes[i];
        let subnet = match &n.subnet_cidr {
            Some(s) => s.clone(),
            None => String::new(),
        };
        let gateway = match &n.gateway_ip {
            Some(s) => s.clone(),
            None => String::new(),
        };
        let head = join3(n.id.as_str(), "|", n.node_type.as_str());
        let tail = join3(subnet.as_str(), "|", gateway.as_str());
        let part = join3(head.as_str(), "|", tail.as_str());
        assert(part@ =~= node_part(n@));
        node_parts.push(part);
        i += 1;
    }
    assert(texts(node_parts@) =~= Seq::new(
        snapshot@.nodes.len(),
        |i: int| node_part(snapshot@.nodes[i]),
    ));
    let mut edge_parts: Vec<String> = Vec::new();
    let mut j: usize = 0;
    while j < snapshot.edges.len()
        invariant
            j <= snapshot.edges.len(),
            edge_parts@.len() == j,
            forall|k: int| 0 <= k < j ==> (#[trigger] edge_parts@[k])@ == edge_part(snapshot.edges@[k]@),
        decreases snapshot.edges.len() - j,
    {
        let e = &snapshot.edges[j];
        let head = join3(e.child_id.as_str(), "|", e.parent_id.as_str());
        let part = join3(head.as_str(), "|", e.method.as_str());
        assert(part@ =~= edge_part(e@));
        edge_parts.push(part);
        j += 1;
    }
    assert(texts(edge_parts@) =~= Seq::new(
        snapshot@.edges.len(),
        |i: int| edge_part(snapshot@.edges[i]),
    ));
    let nodes_text = join_all(&sort_stable(node_parts), ";");
    let edges_text = join_all(&sort_stable(edge_parts), ";");
    join3(nodes_text.as_str(), "#", edges_text.as_str())
}

} // verus!
