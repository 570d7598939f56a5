//! IPv4 addresses in dotted-decimal text.

use crate::text::{decimal, join2, join3, opt_text, split, split_on, texts, to_chars, u64_to_text, Text};
use vstd::prelude::*;

verus! {

/// Whether `c` is one of the ten ASCII digits.
pub open spec fn is_digit(c: char) -> bool {
    '0' as int <= c as int <= '9' as int
}

/// The number that a run of ASCII digits writes.
pub open spec fn digits_value(s: Text) -> int
    decreases s.len(),
{
    if s.len() == 0 {
        0
    } else {
        10 * digits_value(s.drop_last()) + (s.last() as int - '0' as int)
    }
}

/// Whether `s` writes one octet of an address: one to three digits, no
/// leading zero before another digit, at most 255.
pub open spec fn is_octet(s: Text) -> bool {
    &&& 1 <= s.len() <= 3
    &&& forall|i: int| 0 <= i < s.len() ==> is_digit(#[trigger] s[i])
    &&& (s.len() > 1 ==> s[0] != '0')
    &&& digits_value(s) <= 255
}

/// The address that `s` writes, most significant octet first, if `s` is four
/// octets separated by dots and nothing else.
pub open spec fn ipv4_value(s: Text) -> Option<u32> {
    let parts = split_on(s, '.');
    if parts.len() == 4 && is_octet(parts[0]) && is_octet(parts[1]) && is_octet(parts[2])
        && is_octet(parts[3]) {
        Some(
            (digits_value(parts[0]) * 16777216 + digits_value(parts[1]) * 65536 + digits_value(
                parts[2],
            ) * 256 + digits_value(parts[3])) as u32,
        )
    } else {
        None
    }
}

/// The octet that `s` writes, if it writes one.
fn parse_octet(s: &str) -> (r: Option<u32>)
    ensures
        r is Some == is_octet(s@),
        r is Some ==> r->0 == digits_value(s@) && r->0 <= 255,
{
    let chars = to_chars(s);
    let n = chars.len();
    if n < 1 || n > 3 {
        return None;
    }
    let mut value: u32 = 0;
    let mut i: usize = 0;
    while i < n
        invariant
            i <= n <= 3,
            n == chars.len(),
            chars@ == s@,
            forall|k: int| 0 <= k < i ==> is_digit(#[trigger] s@[k]),
            value == digits_value(s@.take(i as int)),
            value <= 999,
            i < 3 ==> value <= 99,
            i < 2 ==> value <= 9,
            i < 1 ==> value == 0,
        decreases n - i,
    {
        let c = chars[i];
        if c < '0' || c > '9' {
            return None;
        }
        assert(s@.take(i + 1).drop_last() == s@.take(i as int));
        value = value * 10 + (c as u32 - '0' as u32);
        i += 1;
    }
    assert(s@.take(n as int) == s@);
    if n > 1 && chars[0] == '0' {
        return None;
    }
    if value > 255 {
        return None;
    }
    Some(value)
}

/// The address that `value` writes in dotted decimal, as a number, if it
/// writes one.
pub fn ip_to_u32(value: &str) -> (r: Option<u32>)
    ensures
        r == ipv4_value(value@),
{
    let parts = split(value, '.');
    if parts.len() != 4 {
        return None;
    }
    assert(texts(parts@)[0] == parts@[0]@);
    assert(texts(parts@)[1] == parts@[1]@);
    assert(texts(parts@)[2] == parts@[2]@);
    assert(texts(parts@)[3] == parts@[3]@);
    let a = match parse_octet(parts[0].as_str()) {
        Some(v) => v,
        None => { return None; },
    };
    let b = match parse_octet(parts[1].as_str()) {
        Some(v) => v,
        None => { return None; },
    };
    let c = match parse_octet(parts[2].as_str()) {
        Some(v) => v,
        None => { return None; },
    };
    let d = match parse_octet(parts[3].as_str()) {
        Some(v) => v,
        None => { return None; },
    };
    Some(a * 16777216 + b * 65536 + c * 256 + d)
}

/// The /24 network that an address in dotted text lies in: the first three of
/// its four dot-separated parts, then `.0/24`. The parts are not checked to be
/// numbers.
pub open spec fn subnet_guess(ip: Text) -> Option<Text> {
    let parts = split_on(ip, '.');
    if parts.len() == 4 {
        Some(parts[0] + "."@ + parts[1] + "."@ + parts[2] + ".0/24"@)
    } else {
        None
    }
}

/// The /24 network of `ip`, guessed from its text alone.
pub fn guess_subnet_from_ip(ip: &str) -> (r: Option<String>)
    ensures
        opt_text(r) == subnet_guess(ip@),
{
    let parts = split(ip, '.');
    if parts.len() == 4 {
        assert(texts(parts@)[0] == parts@[0]@);
        assert(texts(parts@)[1] == parts@[1]@);
        assert(texts(parts@)[2] == parts@[2]@);
        let head = join3(parts[0].as_str(), ".", parts[1].as_str());
        let tail = join3(".", parts[2].as_str(), ".0/24");
        let r = join2(head.as_str(), tail.as_str());
        assert(r@ == parts@[0]@ + "."@ + parts@[1]@ + "."@ + parts@[2]@ + ".0/24"@);
        Some(r)
    } else {
        None
    }
}

/// An address written in dotted decimal.
pub open spec fn dotted(a: u8, b: u8, c: u8, d: u8) -> Text {
    decimal(a as int) + "."@ + decimal(b as int) + "."@ + decimal(c as int) + "."@ + decimal(
        d as int,
    )
}

/// The local address as text, if one was found.
pub fn detect_local_ipv4_string(local: Option<[u8; 4]>) -> (r: Option<String>)
    ensures
        opt_text(r) == match local {
            Some(o) => Some(dotted(o[0], o[1], o[2], o[3])),
            None => None,
        },
{
    match local {
        Some(o) => {
            let a = u64_to_text(o[0] as u64);
            let b = u64_to_text(o[1] as u64);
            let c = u64_to_text(o[2] as u64);
            let d = u64_to_text(o[3] as u64);
            let ab = join3(a.as_str(), ".", b.as_str());
            let cd = join3(c.as_str(), ".", d.as_str());
            let r = join3(ab.as_str(), ".", cd.as_str());
            assert(r@ == dotted(o[0], o[1], o[2], o[3]));
            Some(r)
        },
        None => None,
    }
}

} // verus!
