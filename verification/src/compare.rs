//! The two orders of the topology as three-way comparisons.

use crate::ranking::{device_precedes, node_precedes};
use crate::records::{DeviceRecord, DeviceRecordView, TopologyNode, TopologyNodeView};
use crate::sorting::Ranked;
use std::cmp::Ordering;
use vstd::prelude::*;

verus! {

/// How two hosts stand in the order of the topology.
pub open spec fn device_order(a: DeviceRecordView, b: DeviceRecordView) -> Ordering {
    if device_precedes(a, b) {
        Ordering::Less
    } else if device_precedes(b, a) {
        Ordering::Greater
    } else {
        Ordering::Equal
    }
}

/// How two nodes stand in the order of a snapshot.
pub open spec fn node_order(a: TopologyNodeView, b: TopologyNodeView) -> Ordering {
    if node_precedes(a, b) {
        Ordering::Less
    } else if node_precedes(b, a) {
        Ordering::Greater
    } else {
        Ordering::Equal
    }
}

/// Compares two hosts by address, then host name, then agent identifier.
pub fn compare_device_topology_order(a: &DeviceRecord, b: &DeviceRecord) -> (o: Ordering)
    ensures
        o == device_order(a@, b@),
{
    if a.comes_before(b) {
        Ordering::Less
    } else if b.comes_before(a) {
        Ordering::Greater
    } else {
        Ordering::Equal
    }
}

/// Compares two nodes by the rank of their kind, then address, then
/// identifier.
pub fn compare_topology_nodes(a: &TopologyNode, b: &TopologyNode) -> (o: Ordering)
    ensures
        o == node_order(a@, b@),
{
    if a.comes_before(b) {
        Ordering::Less
    } else if b.comes_before(a) {
        Ordering::Greater
    } else {
        Ordering::Equal
    }
}

} // verus!
