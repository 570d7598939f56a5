//! What the admin finds out of its own network attachment. The commands are
//! run elsewhere; here their output is read.

use crate::ipv4::{guess_subnet_from_ip, ip_to_u32, ipv4_value, subnet_guess};
use crate::records::{NetworkFactsPayload, NetworkFactsPayloadView};
use crate::text::{
    contains_part, fields, fields_of, has_part, has_prefix, index_of, lemma_index_of,
    lowercase_of, opt_text, slice, split, split_on, starts_with, text_eq, texts, to_chars,
    to_lowercase, trim, trimmed, Text,
};
use vstd::prelude::*;

verus! {

/// The kind of system that the admin runs on.
#[derive(Clone, Copy, Debug, PartialEq, Eq)]
pub enum Platform {
    Windows,
    Linux,
    Other,
}

/// The gateway that a line of `route print -4` names, if it is the line of
/// the default route: its first two words are `0.0.0.0` and its third is an
/// address.
pub open spec fn route_line_gateway(line: Text) -> Option<Text> {
    let f = fields_of(line);
    if f.len() >= 3 && f[0] == "0.0.0.0"@ && f[1] == "0.0.0.0"@ && ipv4_value(f[2]) is Some {
        Some(f[2])
    } else {
        None
    }
}

/// The gateway that the first of `lines` names which names one.
pub open spec fn first_route_gateway(lines: Seq<Text>) -> Option<Text>
    decreases lines.len(),
{
    if lines.len() == 0 {
        None
    } else if route_line_gateway(lines[0]) is Some {
        route_line_gateway(lines[0])
    } else {
        first_route_gateway(lines.drop_first())
    }
}

/// The first word of `words` that follows the word `via` and is an address.
pub open spec fn first_via(words: Seq<Text>) -> Option<Text>
    decreases words.len(),
{
    if words.len() < 2 {
        None
    } else if words[0] == "via"@ && ipv4_value(words[1]) is Some {
        Some(words[1])
    } else {
        first_via(words.drop_first())
    }
}

/// The default gateway that the output of the routing command names: on
/// Windows that of `route print -4`, on Linux that of `ip route show default`.
/// None where the command gave nothing, and none on other systems.
pub open spec fn default_gateway(platform: Platform, output: Option<Text>) -> Option<Text> {
    match (platform, output) {
        (Platform::Windows, Some(out)) => first_route_gateway(split_on(out, '\n')),
        (Platform::Linux, Some(out)) => first_via(fields_of(out)),
        _ => None,
    }
}

fn gateway_of_route_line(line: &str) -> (r: Option<String>)
    ensures
        opt_text(r) == route_line_gateway(line@),
{
    let f = fields(line);
    if f.len() >= 3 {
        assert(texts(f@)[0] == f@[0]@);
        assert(texts(f@)[1] == f@[1]@);
        assert(texts(f@)[2] == f@[2]@);
        if text_eq(f[0].as_str(), "0.0.0.0") && text_eq(f[1].as_str(), "0.0.0.0") && ip_to_u32(
            f[2].as_str(),
        ).is_some() {
            return Some(f[2].clone());
        }
    }
    None
}

/// The default gateway that the output of the routing command names.
#[verifier::loop_isolation(false)]
pub fn detect_default_gateway_ip(platform: Platform, output: Option<&str>) -> (r: Option<String>)
    ensures
        opt_text(r) == default_gateway(
            platform,
            match output {
                Some(o) => Some(o@),
                None => None,
            },
        ),
{
    let out = match output {
        Some(o) => o,
        None => {
            return None;
        },
    };
    match platform {
        Platform::Windows => {
            let lines = split(out, '\n');
            let mut i: usize = 0;
            assert(texts(lines@).skip(0) == texts(lines@));
            while i < lines.len()
                invariant
                    i <= lines.len(),
                    first_route_gateway(texts(lines@)) == first_route_gateway(
                        texts(lines@).skip(i as int),
                    ),
                decreases lines.len() - i,
            {
                assert(texts(lines@).skip(i as int)[0] == lines@[i as int]@);
                let found = gateway_of_route_line(lines[i].as_str());
                if found.is_some() {
                    return found;
                }
                assert(texts(lines@).skip(i as int).drop_first() == texts(lines@).skip(i + 1));
                i += 1;
            }
            None
        },
        Platform::Linux => {
            let words = fields(out);
            let mut i: usize = 0;
            assert(texts(words@).skip(0) == texts(words@));
            while i < words.len() && words.len() - i >= 2
                invariant
                    i <= words.len(),
                    first_via(texts(words@)) == first_via(texts(words@).skip(i as int)),
                decreases words.len() - i,
            {
                assert(texts(words@).skip(i as int)[0] == words@[i as int]@);
                assert(texts(words@).skip(i as int)[1] == words@[i + 1]@);
                if text_eq(words[i].as_str(), "via") && ip_to_u32(words[i + 1].as_str()).is_some() {
                    return Some(words[i + 1].clone());
                }
                assert(texts(words@).skip(i as int).drop_first() == texts(words@).skip(i + 1));
                i += 1;
            }
            None
        },
        Platform::Other => None,
    }
}

/// The kind of interface that the output of `netsh wlan show interfaces`
/// points to: `wifi` on Windows if the output, in lower case, speaks of an
/// SSID and does not say that there is no wireless interface; else
/// `ethernet`.
pub open spec fn interface_type_of(platform: Platform, output: Option<Text>) -> Text {
    match (platform, output) {
        (Platform::Windows, Some(out)) => if has_part(lowercase_of(out), "ssid"@) && !has_part(
            lowercase_of(out),
            "there is no wireless interface"@,
        ) {
            "wifi"@
        } else {
            "ethernet"@
        },
        _ => "ethernet"@,
    }
}

/// The kind of interface that the admin is attached by.
pub fn detect_interface_type(platform: Platform, output: Option<&str>) -> (r: String)
    ensures
        r@ == interface_type_of(
            platform,
            match output {
                Some(o) => Some(o@),
                None => None,
            },
        ),
{
    match (platform, output) {
        (Platform::Windows, Some(out)) => {
            let lower = to_lowercase(out);
            if contains_part(lower.as_str(), "ssid") && !contains_part(
                lower.as_str(),
                "there is no wireless interface",
            ) {
                "wifi".to_owned()
            } else {
                "ethernet".to_owned()
            }
        },
        _ => "ethernet".to_owned(),
    }
}

/// The SSID that a line of `netsh wlan show interfaces` names: the line,
/// trimmed, begins with `ssid` in whatever case, not with `bssid`, and has
/// something other than white space behind its first colon.
pub open spec fn ssid_of_line(line: Text) -> Option<Text> {
    let t = trimmed(line);
    let colon = index_of(t, ':') as int;
    if has_prefix(lowercase_of(t), "ssid"@) && !has_prefix(lowercase_of(t), "bssid"@) && colon
        < t.len() && trimmed(t.skip(colon + 1)).len() > 0 {
        Some(trimmed(t.skip(colon + 1)))
    } else {
        None
    }
}

/// The SSID that the first of `lines` names which names one.
pub open spec fn first_ssid(lines: Seq<Text>) -> Option<Text>
    decreases lines.len(),
{
    if lines.len() == 0 {
        None
    } else if ssid_of_line(lines[0]) is Some {
        ssid_of_line(lines[0])
    } else {
        first_ssid(lines.drop_first())
    }
}

/// The SSID that the output of `netsh wlan show interfaces` names. None
/// where the command gave nothing, and none on systems other than Windows.
pub open spec fn ssid_of(platform: Platform, output: Option<Text>) -> Option<Text> {
    match (platform, output) {
        (Platform::Windows, Some(out)) => first_ssid(split_on(out, '\n')),
        _ => None,
    }
}

fn line_ssid(line: &str) -> (r: Option<String>)
    ensures
        opt_text(r) == ssid_of_line(line@),
{
    let t = trim(line);
    let lower = to_lowercase(t.as_str());
    if !starts_with(lower.as_str(), "ssid") || starts_with(lower.as_str(), "bssid") {
        return None;
    }
    let chars = to_chars(t.as_str());
    let mut colon: usize = 0;
    while colon < chars.len() && chars[colon] != ':'
        invariant
            colon <= chars.len(),
            forall|k: int| 0 <= k < colon ==> #[trigger] chars@[k] != ':',
        decreases chars.len() - colon,
    {
        colon += 1;
    }
    proof {
        lemma_index_of(t@, ':', colon as int);
    }
    if colon >= chars.len() {
        return None;
    }
    let rest = slice(t.as_str(), colon + 1, chars.len());
    assert(rest@ == t@.skip(colon + 1));
    let ssid = trim(rest.as_str());
    if ssid.as_str().is_empty() {
        None
    } else {
        Some(ssid)
    }
}

/// The SSID of the wireless network that the admin is on.
#[verifier::loop_isolation(false)]
pub fn detect_ssid(platform: Platform, output: Option<&str>) -> (r: Option<String>)
    ensures
        opt_text(r) == ssid_of(
            platform,
            match output {
                Some(o) => Some(o@),
                None => None,
            },
        ),
{
    match (platform, output) {
        (Platform::Windows, Some(out)) => {
            let lines = split(out, '\n');
            let mut i: usize = 0;
            assert(texts(lines@).skip(0) == texts(lines@));
            while i < lines.len()
                invariant
                    i <= lines.len(),
                    first_ssid(texts(lines@)) == first_ssid(texts(lines@).skip(i as int)),
                decreases lines.len() - i,
            {
                assert(texts(lines@).skip(i as int)[0] == lines@[i as int]@);
                let found = line_ssid(lines[i].as_str());
                if found.is_some() {
                    return found;
                }
                assert(texts(lines@).skip(i as int).drop_first() == texts(lines@).skip(i + 1));
                i += 1;
            }
            None
        },
        _ => None,
    }
}

/// The admin's own network facts, from what was found out: the local
/// address or else the loopback address, the /24 network of that address, the
/// gateway or else none, the kind of interface and the SSID.
pub open spec fn admin_facts(
    local_ip: Option<Text>,
    gateway: Option<Text>,
    interface_type: Text,
    ssid: Option<Text>,
) -> NetworkFactsPayloadView {
    let ip = match local_ip {
        Some(ip) => ip,
        None => "127.0.0.1"@,
    };
    NetworkFactsPayloadView {
        ip,
        subnet_cidr: match subnet_guess(ip) {
            Some(s) => s,
            None => "127.0.0.0/24"@,
        },
        default_gateway_ip: match gateway {
            Some(g) => g,
            None => Seq::empty(),
        },
        interface_type,
        mac: None,
        gateway_mac: None,
        dhcp_server_ip: None,
        ssid,
        arp_snapshot: Seq::empty(),
    }
}

/// The admin's own network facts, from what was found out.
pub fn detect_admin_network_facts(
    local_ip: Option<String>,
    gateway: Option<String>,
    interface_type: String,
    ssid: Option<String>,
) -> (r: NetworkFactsPayload)
    ensures
        r@ == admin_facts(opt_text(local_ip), opt_text(gateway), interface_type@, opt_text(ssid)),
{
    let ip = match local_ip {
        Some(ip) => ip,
        None => "127.0.0.1".to_owned(),
    };
    let subnet_cidr = match guess_subnet_from_ip(ip.as_str()) {
        Some(s) => s,
        None => "127.0.0.0/24".to_owned(),
    };
    let default_gateway_ip = match gateway {
        Some(g) => g,
        None => String::new(),
    };
    let r = NetworkFactsPayload {
        ip,
        subnet_cidr,
        default_gateway_ip,
        interface_type,
        mac: None,
        gateway_mac: None,
        dhcp_server_ip: None,
        ssid,
        arp_snapshot: Vec::new(),
    };
    assert(r@.arp_snapshot =~= Seq::empty());
    r
}

} // verus!
