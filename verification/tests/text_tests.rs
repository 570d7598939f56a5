use labscan_admin::ipv4::{guess_subnet_from_ip, ip_to_u32};
use labscan_admin::text::{i64_to_text, split, text_precedes, trim};

#[test]
fn trims_both_ends() {
    assert_eq!(trim("  10.0.0.5 \r\n"), "10.0.0.5");
    assert_eq!(trim(" \t "), "");
    assert_eq!(trim(""), "");
    assert_eq!(trim("a b"), "a b");
}

#[test]
fn splits_on_dots() {
    assert_eq!(split("10.0.0.5", '.'), vec!["10", "0", "0", "5"]);
    assert_eq!(split("", '.'), vec![""]);
    assert_eq!(split("a..b.", '.'), vec!["a", "", "b", ""]);
}

#[test]
fn orders_text_as_str_does() {
    let samples = ["", "a", "ab", "b", "B", "10.0.0.5", "10.0.0.10", "é", "z", "日本"];
    for a in samples {
        for b in samples {
            assert_eq!(text_precedes(a, b), a < b, "{:?} < {:?}", a, b);
        }
    }
}

#[test]
fn writes_decimal() {
    assert_eq!(i64_to_text(0), "0");
    assert_eq!(i64_to_text(8148), "8148");
    assert_eq!(i64_to_text(-17), "-17");
    assert_eq!(i64_to_text(i64::MIN), i64::MIN.to_string());
    assert_eq!(i64_to_text(i64::MAX), i64::MAX.to_string());
}

#[test]
fn parses_dotted_quads() {
    assert_eq!(ip_to_u32("10.0.0.5"), Some(0x0A000005));
    assert_eq!(ip_to_u32("255.255.255.255"), Some(u32::MAX));
    assert_eq!(ip_to_u32("0.0.0.0"), Some(0));
    assert_eq!(ip_to_u32("256.0.0.1"), None);
    assert_eq!(ip_to_u32("01.2.3.4"), None);
    assert_eq!(ip_to_u32("1.2.3"), None);
    assert_eq!(ip_to_u32("1.2.3.4.5"), None);
    assert_eq!(ip_to_u32("1.2.3."), None);
    assert_eq!(ip_to_u32(" 1.2.3.4"), None);
    assert_eq!(ip_to_u32("a.b.c.d"), None);
    assert_eq!(ip_to_u32(""), None);
}

#[test]
fn ip_parsing_rejects_what_is_no_address() {
    let bad = [
        "256.1.1.1", "1.1.1", "1..1.1", "001.1.1.1", "1.1.1.1 ", "1.1.1.1.1", "1.1.1.01",
        "1234.1.1.1", "+1.1.1.1", "1.1.1.-1", "١.1.1.1", "Unknown Hub", "gateway",
    ];
    for s in bad {
        assert_eq!(ip_to_u32(s), None, "{:?}", s);
    }
    assert_eq!(ip_to_u32("192.168.1.1"), Some(3232235777));
    assert_eq!(ip_to_u32("1.1.1.0"), Some(16843008));
}

#[test]
fn guesses_slash_24() {
    assert_eq!(guess_subnet_from_ip("10.0.0.5"), Some("10.0.0.0/24".to_string()));
    assert_eq!(guess_subnet_from_ip("a.b.c.d"), Some("a.b.c.0/24".to_string()));
    assert_eq!(guess_subnet_from_ip("10.0.0"), None);
    assert_eq!(guess_subnet_from_ip(""), None);
}
