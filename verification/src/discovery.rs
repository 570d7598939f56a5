//! The beacon by which the admin makes itself known on the link, and the
//! service it advertises by mDNS.

use crate::clock::now_ms;
use crate::ipv4::dotted;
use crate::text::{clone_texts, join2, join3, texts, u64_to_text, Text};
use vstd::prelude::*;

verus! {

/// The multicast group that the beacon goes to.
pub open spec fn multicast_group() -> Text {
    "239.255.77.77"@
}

/// The multicast group that the beacon goes to.
pub fn beacon_group() -> (r: &'static str)
    ensures
        r@ == multicast_group(),
{
    "239.255.77.77"
}

/// The port that the beacon goes to.
pub const MULTICAST_PORT: u16 = 47777;

/// The time between two beacons, in seconds.
pub const BEACON_INTERVAL_SECS: u64 = 2;

/// The type of service that is advertised by mDNS.
pub open spec fn service_type() -> Text {
    "_netmon._tcp.local."@
}

/// What a beacon says.
#[derive(Debug, PartialEq, Eq)]
pub struct BeaconPayload {
    /// Always `NETMON_ADMIN`.
    pub beacon_type: String,
    pub version: String,
    pub admin_https_url: String,
    pub tls_fingerprint_sha256: String,
    pub join_token: String,
    pub issued_at_unix: i64,
}

/// The value of a `BeaconPayload`.
pub struct BeaconPayloadView {
    pub beacon_type: Text,
    pub version: Text,
    pub admin_https_url: Text,
    pub tls_fingerprint_sha256: Text,
    pub join_token: Text,
    pub issued_at_unix: i64,
}

impl View for BeaconPayload {
    type V = BeaconPayloadView;

    open spec fn view(&self) -> BeaconPayloadView {
        BeaconPayloadView {
            beacon_type: self.beacon_type@,
            version: self.version@,
            admin_https_url: self.admin_https_url@,
            tls_fingerprint_sha256: self.tls_fingerprint_sha256@,
            join_token: self.join_token@,
            issued_at_unix: self.issued_at_unix,
        }
    }
}

impl Clone for BeaconPayload {
    fn clone(&self) -> (r: Self)
        ensures
            r@ == self@,
    {
        BeaconPayload {
            beacon_type: self.beacon_type.clone(),
            version: self.version.clone(),
            admin_https_url: self.admin_https_url.clone(),
            tls_fingerprint_sha256: self.tls_fingerprint_sha256.clone(),
            join_token: self.join_token.clone(),
            issued_at_unix: self.issued_at_unix,
        }
    }
}
/// A service to advertise by mDNS.
#[derive(Debug, PartialEq, Eq)]
pub struct ServiceAdvertisement {
    pub service_type: String,
    pub instance_name: String,
    pub hostname: String,
    pub port: u16,
    /// The TXT records, each `key=value`.
    pub properties: Vec<String>,
}

/// The value of a `ServiceAdvertisement`.
pub struct ServiceAdvertisementView {
    pub service_type: Text,
    pub instance_name: Text,
    pub hostname: Text,
    pub port: u16,
    pub properties: Seq<Text>,
}

impl View for ServiceAdvertisement {
    type V = ServiceAdvertisementView;

    open spec fn view(&self) -> ServiceAdvertisementView {
        ServiceAdvertisementView {
            service_type: self.service_type@,
            instance_name: self.instance_name@,
            hostname: self.hostname@,
            port: self.port,
            properties: texts(self.properties@),
        }
    }
}

impl Clone for ServiceAdvertisement {
    fn clone(&self) -> (r: Self)
        ensures
            r@ == self@,
    {
        ServiceAdvertisement {
            service_type: self.service_type.clone(),
            instance_name: self.instance_name.clone(),
            hostname: self.hostname.clone(),
            port: self.port,
            properties: clone_texts(&self.properties),
        }
    }
}
/// The beacon of an admin at the address `a.b.c.d`.
pub open spec fn beacon_of(
    a: u8,
    b: u8,
    c: u8,
    d: u8,
    tls_fingerprint: Text,
    join_token: Text,
    issued_at_unix: i64,
) -> BeaconPayloadView {
    BeaconPayloadView {
        beacon_type: "NETMON_ADMIN"@,
        version: "1"@,
        admin_https_url: "https://"@ + dotted(a, b, c, d) + ":8443"@,
        tls_fingerprint_sha256: tls_fingerprint,
        join_token,
        issued_at_unix,
    }
}

/// The beacon of an admin at the address `admin_ip`, issued at the given time
/// in seconds.
pub fn beacon_payload_at(
    admin_ip: [u8; 4],
    tls_fingerprint: &str,
    join_token: String,
    issued_at_unix: i64,
) -> (r: BeaconPayload)
    ensures
        r@ == beacon_of(
            admin_ip[0],
            admin_ip[1],
            admin_ip[2],
            admin_ip[3],
            tls_fingerprint@,
            join_token@,
            issued_at_unix,
        ),
{
    let a = u64_to_text(admin_ip[0] as u64);
    let b = u64_to_text(admin_ip[1] as u64);
    let c = u64_to_text(admin_ip[2] as u64);
    let d = u64_to_text(admin_ip[3] as u64);
    let ab = join3(a.as_str(), ".", b.as_str());
    let cd = join3(c.as_str(), ".", d.as_str());
    let ip = join3(ab.as_str(), ".", cd.as_str());
    assert(ip@ == dotted(admin_ip[0], admin_ip[1], admin_ip[2], admin_ip[3]));
    BeaconPayload {
        beacon_type: "NETMON_ADMIN".to_owned(),
        version: "1".to_owned(),
        admin_https_url: join3("https://", ip.as_str(), ":8443"),
        tls_fingerprint_sha256: tls_fingerprint.to_owned(),
        join_token,
        issued_at_unix,
    }
}

/// The beacon of an admin at the address `admin_ip`, issued now.
pub fn beacon_payload(admin_ip: [u8; 4], tls_fingerprint: &str, join_token: String) -> (r:
    BeaconPayload)
    ensures
        r@ == beacon_of(
            admin_ip[0],
            admin_ip[1],
            admin_ip[2],
            admin_ip[3],
            tls_fingerprint@,
            join_token@,
            r@.issued_at_unix,
        ),
        r@.issued_at_unix >= 0,
{
    let seconds = now_ms() / 1000;
    beacon_payload_at(admin_ip, tls_fingerprint, join_token, seconds)
}

/// The service that an admin called `name` advertises.
pub open spec fn advertisement_of(name: Text, port: u16, tls_fingerprint: Text) -> ServiceAdvertisementView {
    ServiceAdvertisementView {
        service_type: service_type(),
        instance_name: name,
        hostname: name + "."@ + service_type(),
        port,
        properties: seq!["v=1"@, "fp="@ + tls_fingerprint, "name="@ + name],
    }
}

/// The service that an admin called `name` advertises.
pub fn service_advertisement(name: &str, port: u16, tls_fingerprint: &str) -> (r:
    ServiceAdvertisement)
    ensures
        r@ == advertisement_of(name@, port, tls_fingerprint@),
{
    let mut properties: Vec<String> = Vec::new();
    properties.push("v=1".to_owned());
    properties.push(join2("fp=", tls_fingerprint));
    properties.push(join2("name=", name));
    assert(texts(properties@) =~= seq!["v=1"@, "fp="@ + tls_fingerprint@, "name="@ + name@]);
    ServiceAdvertisement {
        service_type: "_netmon._tcp.local.".to_owned(),
        instance_name: name.to_owned(),
        hostname: join3(name, ".", "_netmon._tcp.local."),
        port,
        properties,
    }
}

} // verus!
