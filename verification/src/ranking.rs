//! The orders in which the topology lists its hosts, gateways, nodes and
//! edges.

use crate::ipv4::{ip_to_u32, ipv4_value};
use crate::records::{
    DeviceRecord, DeviceRecordView, TaskRecord, TaskRecordView, TopologyEdge, TopologyEdgeView,
    TopologyNode, TopologyNodeView,
};
use crate::sorting::{is_ranking, Ranked, Same};
use crate::text::{
    lemma_text_lt_irreflexive, lemma_text_lt_total, lemma_text_lt_transitive, opt_text,
    opt_text_eq, text_eq, text_lt, text_or_empty, text_precedes, Text,
};
use vstd::prelude::*;

verus! {

/// What two optional addresses decide between their owners: the lower
/// address comes first, and any address comes before none. Nothing is decided
/// between equal addresses, nor where both are missing.
pub open spec fn by_address(a: Option<u32>, b: Option<u32>) -> Option<bool> {
    match (a, b) {
        (Some(x), Some(y)) => if x != y {
            Some(x < y)
        } else {
            None
        },
        (Some(_), None) => Some(true),
        (None, Some(_)) => Some(false),
        (None, None) => None,
    }
}

fn decide_by_address(a: Option<u32>, b: Option<u32>) -> (r: Option<bool>)
    ensures
        r == by_address(a, b),
{
    match (a, b) {
        (Some(x), Some(y)) => if x != y {
            Some(x < y)
        } else {
            None
        },
        (Some(_), None) => Some(true),
        (None, Some(_)) => Some(false),
        (None, None) => None,
    }
}

/// The address a device is ordered by: the one it reported, or else the first
/// of its list, read as a number. A reported address that is no dotted quad
/// gives none, whatever the list holds.
pub open spec fn device_address(d: DeviceRecordView) -> Option<u32> {
    match d.ip {
        Some(ip) => ipv4_value(ip),
        None => if d.ips.len() > 0 {
            ipv4_value(d.ips[0])
        } else {
            None
        },
    }
}

fn address_of_device(d: &DeviceRecord) -> (r: Option<u32>)
    ensures
        r == device_address(d@),
{
    match &d.ip {
        Some(ip) => ip_to_u32(ip.as_str()),
        None => if d.ips.len() > 0 {
            ip_to_u32(d.ips[0].as_str())
        } else {
            None
        },
    }
}

/// The order of hosts in the topology: by address, then by host name, then by
/// agent identifier.
pub open spec fn device_precedes(a: DeviceRecordView, b: DeviceRecordView) -> bool {
    match by_address(device_address(a), device_address(b)) {
        Some(first) => first,
        None => text_lt(a.hostname, b.hostname) || (a.hostname == b.hostname && text_lt(
            a.agent_id,
            b.agent_id,
        )),
    }
}

impl Ranked for DeviceRecord {
    open spec fn precedes(a: DeviceRecordView, b: DeviceRecordView) -> bool {
        device_precedes(a, b)
    }

    fn comes_before(&self, other: &Self) -> (r: bool) {
        match decide_by_address(address_of_device(self), address_of_device(other)) {
            Some(first) => first,
            None => {
                if text_precedes(self.hostname.as_str(), other.hostname.as_str()) {
                    true
                } else if self.hostname == other.hostname {
                    text_precedes(self.agent_id.as_str(), other.agent_id.as_str())
                } else {
                    false
                }
            },
        }
    }
}

/// The rank of a kind of node: subnets first, hosts last, unknown kinds after
/// all.
pub open spec fn type_rank(node_type: Text) -> int {
    if node_type == "subnet"@ {
        0
    } else if node_type == "gateway"@ {
        1
    } else if node_type == "switch"@ {
        2
    } else if node_type == "unknown_hub"@ {
        3
    } else if node_type == "admin"@ {
        4
    } else if node_type == "host"@ {
        5
    } else {
        6
    }
}

fn rank_of_type(node_type: &str) -> (r: u8)
    ensures
        r == type_rank(node_type@),
{
    if text_eq(node_type, "subnet") {
        0
    } else if text_eq(node_type, "gateway") {
        1
    } else if text_eq(node_type, "switch") {
        2
    } else if text_eq(node_type, "unknown_hub") {
        3
    } else if text_eq(node_type, "admin") {
        4
    } else if text_eq(node_type, "host") {
        5
    } else {
        6
    }
}

/// The address a node is ordered by: that of its gateway if it reads as one,
/// else its label if that does.
pub open spec fn node_address(n: TopologyNodeView) -> Option<u32> {
    match n.gateway_ip {
        Some(g) => match ipv4_value(g) {
            Some(v) => Some(v),
            None => ipv4_value(n.label),
        },
        None => ipv4_value(n.label),
    }
}

fn address_of_node(n: &TopologyNode) -> (r: Option<u32>)
    ensures
        r == node_address(n@),
{
    let from_gateway = match &n.gateway_ip {
        Some(g) => ip_to_u32(g.as_str()),
        None => None,
    };
    match from_gateway {
        Some(v) => Some(v),
        None => ip_to_u32(n.label.as_str()),
    }
}

/// The order of nodes in a snapshot: by the rank of their kind, then by
/// address, then by identifier.
pub open spec fn node_precedes(a: TopologyNodeView, b: TopologyNodeView) -> bool {
    if type_rank(a.node_type) != type_rank(b.node_type) {
        type_rank(a.node_type) < type_rank(b.node_type)
    } else {
        match by_address(node_address(a), node_address(b)) {
            Some(first) => first,
            None => text_lt(a.id, b.id),
        }
    }
}

impl Ranked for TopologyNode {
    open spec fn precedes(a: TopologyNodeView, b: TopologyNodeView) -> bool {
        node_precedes(a, b)
    }

    fn comes_before(&self, other: &Self) -> (r: bool) {
        let ra = rank_of_type(self.node_type.as_str());
        let rb = rank_of_type(other.node_type.as_str());
        if ra != rb {
            ra < rb
        } else {
            match decide_by_address(address_of_node(self), address_of_node(other)) {
                Some(first) => first,
                None => text_precedes(self.id.as_str(), other.id.as_str()),
            }
        }
    }
}

/// The order of edges in a snapshot: by child, then by parent.
pub open spec fn edge_precedes(a: TopologyEdgeView, b: TopologyEdgeView) -> bool {
    text_lt(a.child_id, b.child_id) || (a.child_id == b.child_id && text_lt(
        a.parent_id,
        b.parent_id,
    ))
}

impl Ranked for TopologyEdge {
    open spec fn precedes(a: TopologyEdgeView, b: TopologyEdgeView) -> bool {
        edge_precedes(a, b)
    }

    fn comes_before(&self, other: &Self) -> (r: bool) {
        if text_precedes(self.child_id.as_str(), other.child_id.as_str()) {
            true
        } else if self.child_id == other.child_id {
            text_precedes(self.parent_id.as_str(), other.parent_id.as_str())
        } else {
            false
        }
    }
}

/// A gateway that some host named, with the subnet of that host.
#[derive(Debug, PartialEq, Eq)]
pub struct GatewaySpec {
    pub gateway_ip: String,
    pub subnet: Option<String>,
}

/// The value of a `GatewaySpec`.
pub struct GatewaySpecView {
    pub gateway_ip: Text,
    pub subnet: Option<Text>,
}

impl View for GatewaySpec {
    type V = GatewaySpecView;

    open spec fn view(&self) -> GatewaySpecView {
        GatewaySpecView { gateway_ip: self.gateway_ip@, subnet: opt_text(self.subnet) }
    }
}

/// The order on optional texts: none first, then the texts in their order.
pub open spec fn opt_text_lt(a: Option<Text>, b: Option<Text>) -> bool {
    match (a, b) {
        (None, Some(_)) => true,
        (Some(x), Some(y)) => text_lt(x, y),
        _ => false,
    }
}

fn opt_text_precedes(a: &Option<String>, b: &Option<String>) -> (r: bool)
    ensures
        r == opt_text_lt(opt_text(*a), opt_text(*b)),
{
    match (a, b) {
        (None, Some(_)) => true,
        (Some(x), Some(y)) => text_precedes(x.as_str(), y.as_str()),
        _ => false,
    }
}

/// The order of gateways: by subnet, those without one first; then by
/// address; then by the address as text.
pub open spec fn gateway_precedes(a: GatewaySpecView, b: GatewaySpecView) -> bool {
    if a.subnet != b.subnet {
        opt_text_lt(a.subnet, b.subnet)
    } else {
        match by_address(ipv4_value(a.gateway_ip), ipv4_value(b.gateway_ip)) {
            Some(first) => first,
            None => text_lt(a.gateway_ip, b.gateway_ip),
        }
    }
}

impl Ranked for GatewaySpec {
    open spec fn precedes(a: GatewaySpecView, b: GatewaySpecView) -> bool {
        gateway_precedes(a, b)
    }

    fn comes_before(&self, other: &Self) -> (r: bool) {
        if !opt_text_eq(&self.subnet, &other.subnet) {
            opt_text_precedes(&self.subnet, &other.subnet)
        } else {
            match decide_by_address(
                ip_to_u32(self.gateway_ip.as_str()),
                ip_to_u32(other.gateway_ip.as_str()),
            ) {
                Some(first) => first,
                None => text_precedes(self.gateway_ip.as_str(), other.gateway_ip.as_str()),
            }
        }
    }
}

impl Same for GatewaySpec {
    fn same_as(&self, other: &Self) -> (r: bool) {
        self.gateway_ip == other.gateway_ip && opt_text_eq(&self.subnet, &other.subnet)
    }
}

/// The order of tasks in a snapshot: the newer before the older.
pub open spec fn task_precedes(a: TaskRecordView, b: TaskRecordView) -> bool {
    a.created_at > b.created_at
}

impl Ranked for TaskRecord {
    open spec fn precedes(a: TaskRecordView, b: TaskRecordView) -> bool {
        task_precedes(a, b)
    }

    fn comes_before(&self, other: &Self) -> (r: bool) {
        self.created_at > other.created_at
    }
}

/// Between two texts: they are equal, or one comes before the other, not
/// both.
proof fn lemma_texts_compare(a: Text, b: Text)
    ensures
        a == b || text_lt(a, b) || text_lt(b, a),
        !(text_lt(a, b) && text_lt(b, a)),
        !text_lt(a, a),
{
    lemma_text_lt_total(a, b);
    lemma_text_lt_irreflexive(a);
}

/// Among three texts the order carries over.
proof fn lemma_texts_chain(a: Text, b: Text, c: Text)
    ensures
        text_lt(a, b) && text_lt(b, c) ==> text_lt(a, c),
{
    if text_lt(a, b) && text_lt(b, c) {
        lemma_text_lt_transitive(a, b, c);
    }
}

/// The facts about three texts that the orders below rest on.
proof fn lemma_three_texts(a: Text, b: Text, c: Text)
    ensures
        a == b || text_lt(a, b) || text_lt(b, a),
        b == c || text_lt(b, c) || text_lt(c, b),
        a == c || text_lt(a, c) || text_lt(c, a),
        !(text_lt(a, b) && text_lt(b, a)),
        !(text_lt(b, c) && text_lt(c, b)),
        !(text_lt(a, c) && text_lt(c, a)),
        !text_lt(a, a) && !text_lt(b, b) && !text_lt(c, c),
        text_lt(a, b) && text_lt(b, c) ==> text_lt(a, c),
        text_lt(c, a) && text_lt(a, b) ==> text_lt(c, b),
        text_lt(b, c) && text_lt(c, a) ==> text_lt(b, a),
{
    lemma_texts_compare(a, b);
    lemma_texts_compare(b, c);
    lemma_texts_compare(c, a);
    lemma_texts_chain(a, b, c);
    lemma_texts_chain(c, a, b);
    lemma_texts_chain(b, c, a);
}

/// The order of hosts is one to sort by.
pub proof fn lemma_device_ranking()
    ensures
        is_ranking::<DeviceRecord>(),
{
    assert forall|a: DeviceRecordView, b: DeviceRecordView| #[trigger]
        device_precedes(a, b) implies !device_precedes(b, a) by {
        lemma_texts_compare(a.hostname, b.hostname);
        lemma_texts_compare(a.agent_id, b.agent_id);
    }
    assert forall|a: DeviceRecordView, b: DeviceRecordView, c: DeviceRecordView|
        !#[trigger] device_precedes(b, a) && !#[trigger] device_precedes(c, b)
        implies !device_precedes(c, a) by {
        lemma_three_texts(a.hostname, b.hostname, c.hostname);
        lemma_three_texts(a.agent_id, b.agent_id, c.agent_id);
    }
}

/// The order of nodes is one to sort by.
pub proof fn lemma_node_ranking()
    ensures
        is_ranking::<TopologyNode>(),
{
    assert forall|a: TopologyNodeView, b: TopologyNodeView| #[trigger]
        node_precedes(a, b) implies !node_precedes(b, a) by {
        lemma_texts_compare(a.id, b.id);
    }
    assert forall|a: TopologyNodeView, b: TopologyNodeView, c: TopologyNodeView|
        !#[trigger] node_precedes(b, a) && !#[trigger] node_precedes(c, b) implies !node_precedes(
        c,
        a,
    ) by {
        lemma_three_texts(a.id, b.id, c.id);
    }
}

/// The order of edges is one to sort by.
pub proof fn lemma_edge_ranking()
    ensures
        is_ranking::<TopologyEdge>(),
{
    assert forall|a: TopologyEdgeView, b: TopologyEdgeView| #[trigger]
        edge_precedes(a, b) implies !edge_precedes(b, a) by {
        lemma_texts_compare(a.child_id, b.child_id);
        lemma_texts_compare(a.parent_id, b.parent_id);
    }
    assert forall|a: TopologyEdgeView, b: TopologyEdgeView, c: TopologyEdgeView|
        !#[trigger] edge_precedes(b, a) && !#[trigger] edge_precedes(c, b) implies !edge_precedes(
        c,
        a,
    ) by {
        lemma_three_texts(a.child_id, b.child_id, c.child_id);
        lemma_three_texts(a.parent_id, b.parent_id, c.parent_id);
    }
}

/// The order of gateways is one to sort by.
pub proof fn lemma_gateway_ranking()
    ensures
        is_ranking::<GatewaySpec>(),
{
    assert forall|a: GatewaySpecView, b: GatewaySpecView| #[trigger]
        gateway_precedes(a, b) implies !gateway_precedes(b, a) by {
        lemma_texts_compare(text_or_empty(a.subnet), text_or_empty(b.subnet));
        lemma_texts_compare(a.gateway_ip, b.gateway_ip);
    }
    assert forall|a: GatewaySpecView, b: GatewaySpecView, c: GatewaySpecView|
        !#[trigger] gateway_precedes(b, a) && !#[trigger] gateway_precedes(c, b)
        implies !gateway_precedes(c, a) by {
        lemma_three_texts(text_or_empty(a.subnet), text_or_empty(b.subnet), text_or_empty(c.subnet));
        lemma_three_texts(a.gateway_ip, b.gateway_ip, c.gateway_ip);
    }
}

/// The order of tasks is one to sort by.
pub proof fn lemma_task_ranking()
    ensures
        is_ranking::<TaskRecord>(),
{
}

} // verus!
