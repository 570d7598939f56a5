//! Network facts as agents report them, cleaned and laid into a device record.

use crate::ipv4::{guess_subnet_from_ip, subnet_guess};
use crate::records::{DeviceRecord, DeviceRecordView, NetworkFactsPayload, NetworkFactsPayloadView};
use crate::text::{opt_text, texts, trim, trimmed, views, Text};
use vstd::prelude::*;

verus! {

/// A reported text with the white space at its ends removed, or nothing if
/// nothing is left.
pub open spec fn cleaned(s: Text) -> Option<Text> {
    if trimmed(s).len() == 0 {
        None
    } else {
        Some(trimmed(s))
    }
}

/// An optional reported text, cleaned.
pub open spec fn cleaned_opt(s: Option<Text>) -> Option<Text> {
    match s {
        Some(t) => cleaned(t),
        None => None,
    }
}

/// The first of `items` that is not blank, cleaned.
pub open spec fn first_cleaned(items: Seq<Text>) -> Option<Text>
    decreases items.len(),
{
    if items.len() == 0 {
        None
    } else if cleaned(items[0]) is Some {
        cleaned(items[0])
    } else {
        first_cleaned(items.drop_first())
    }
}

/// `value` without surrounding white space, or nothing if it is blank.
pub fn clean_non_empty_owned(value: &str) -> (r: Option<String>)
    ensures
        opt_text(r) == cleaned(value@),
{
    let t = trim(value);
    if t.as_str().is_empty() {
        None
    } else {
        Some(t)
    }
}

/// An optional reported text, cleaned.
pub fn clean_opt(value: &Option<String>) -> (r: Option<String>)
    ensures
        opt_text(r) == cleaned_opt(opt_text(*value)),
{
    match value {
        Some(v) => clean_non_empty_owned(v.as_str()),
        None => None,
    }
}

/// The first of `items` that is not blank, cleaned.
pub fn first_clean(items: &Vec<String>) -> (r: Option<String>)
    ensures
        opt_text(r) == first_cleaned(texts(items@)),
{
    let mut i: usize = 0;
    assert(texts(items@).skip(0) == texts(items@));
    while i < items.len()
        invariant
            i <= items.len(),
            first_cleaned(texts(items@)) == first_cleaned(texts(items@).skip(i as int)),
        decreases items.len() - i,
    {
        let c = clean_non_empty_owned(items[i].as_str());
        assert(texts(items@).skip(i as int)[0] == items@[i as int]@);
        if c.is_some() {
            return c;
        }
        assert(texts(items@).skip(i as int).drop_first() == texts(items@).skip(i + 1));
        i += 1;
    }
    None
}

/// A device record after its agent reported `network`. The reported facts
/// replace the old ones, blank or not, with two exceptions: a blank address
/// falls back on the first usable one of the device's list, and an empty ARP
/// table leaves the old table in place. A blank subnet is guessed from the
/// address.
pub open spec fn with_network(d: DeviceRecordView, n: NetworkFactsPayloadView) -> DeviceRecordView {
    let ip = match cleaned(n.ip) {
        Some(ip) => Some(ip),
        None => first_cleaned(d.ips),
    };
    DeviceRecordView {
        ip,
        subnet_cidr: match cleaned(n.subnet_cidr) {
            Some(s) => Some(s),
            None => match ip {
                Some(ip) => subnet_guess(ip),
                None => None,
            },
        },
        default_gateway_ip: cleaned(n.default_gateway_ip),
        interface_type: cleaned(n.interface_type),
        mac: cleaned_opt(n.mac),
        gateway_mac: cleaned_opt(n.gateway_mac),
        dhcp_server_ip: cleaned_opt(n.dhcp_server_ip),
        ssid: cleaned_opt(n.ssid),
        arp_snapshot: if n.arp_snapshot.len() > 0 {
            n.arp_snapshot
        } else {
            d.arp_snapshot
        },
        ..d
    }
}

/// Lays the reported network facts into the device record.
pub fn apply_network_payload(device: &mut DeviceRecord, network: &NetworkFactsPayload)
    ensures
        final(device)@ == with_network(old(device)@, network@),
{
    let ip = match clean_non_empty_owned(network.ip.as_str()) {
        Some(ip) => Some(ip),
        None => first_clean(&device.ips),
    };
    let subnet = match clean_non_empty_owned(network.subnet_cidr.as_str()) {
        Some(s) => Some(s),
        None => match &ip {
            Some(ip) => guess_subnet_from_ip(ip.as_str()),
            None => None,
        },
    };
    device.ip = ip;
    device.subnet_cidr = subnet;
    device.default_gateway_ip = clean_non_empty_owned(network.default_gateway_ip.as_str());
    device.interface_type = clean_non_empty_owned(network.interface_type.as_str());
    device.mac = clean_opt(&network.mac);
    device.gateway_mac = clean_opt(&network.gateway_mac);
    device.dhcp_server_ip = clean_opt(&network.dhcp_server_ip);
    device.ssid = clean_opt(&network.ssid);
    if network.arp_snapshot.len() > 0 {
        let table = network.arp_snapshot.clone();
        assert(views(table@) =~= views(network.arp_snapshot@));
        device.arp_snapshot = table;
    }
}

} // verus!
