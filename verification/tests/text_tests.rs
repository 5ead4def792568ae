use warpinator_lib::ids::{protocol_id_from_uuid, uuid_to_string, new_uuid_v4_value};
use warpinator_lib::net::Ipv4Addr;
use warpinator_lib::text::{
    contains_dot_dot, parse_decimal, parse_u16, parse_u8, str_eq, to_lowercase, trim_end_char,
    trim_end_matches,
};

#[test]
fn parse_numbers_like_std() {
    assert_eq!(parse_u16("42001"), Some(42001));
    assert_eq!(parse_u16("+7"), Some(7));
    assert_eq!(parse_u16("65535"), Some(65535));
    assert_eq!(parse_u16("65536"), None);
    assert_eq!(parse_u16(""), None);
    assert_eq!(parse_u16("+"), None);
    assert_eq!(parse_u16("-1"), None);
    assert_eq!(parse_u16(" 1"), None);
    assert_eq!(parse_u8("2"), Some(2));
    assert_eq!(parse_u8("256"), None);
    assert_eq!(parse_u8("007"), Some(7));
    assert_eq!(parse_decimal("1000", 999), None);
    assert_eq!(parse_decimal("999", 999), Some(999));
}

#[test]
fn trims_like_std() {
    assert_eq!(trim_end_matches("a.b.cc", "c"), "a.b.");
    assert_eq!(trim_end_matches("xabab", "ab"), "x");
    assert_eq!(trim_end_matches("abc", ""), "abc");
    assert_eq!(trim_end_char("name...", '.'), "name");
    assert_eq!(trim_end_char("...", '.'), "");
}

#[test]
fn text_helpers() {
    assert!(contains_dot_dot("a/../b"));
    assert!(!contains_dot_dot("a/./b"));
    assert!(str_eq("abc", "abc"));
    assert!(!str_eq("abc", "abd"));
    assert_eq!(to_lowercase("Auth-PORT"), "auth-port");
}

#[test]
fn ipv4_text() {
    assert_eq!(Ipv4Addr::new(192, 168, 0, 10).to_text(), "192.168.0.10");
    assert_eq!(Ipv4Addr::new(0, 0, 0, 0).to_text(), "0.0.0.0");
    assert_eq!(Ipv4Addr::new(255, 9, 100, 1).to_text(), "255.9.100.1");
}

#[test]
fn uuid_text_and_protocol_id() {
    let v: u128 = 0x0123_4567_89ab_cdef_0011_2233_4455_6677;
    assert_eq!(uuid_to_string(v), "01234567-89ab-cdef-0011-223344556677");
    assert_eq!(protocol_id_from_uuid(v), 0x0123_4567_89ab_cdef_u64.wrapping_add(0x0011_2233_4455_6677));
    assert_eq!(protocol_id_from_uuid(u128::MAX), u64::MAX.wrapping_add(u64::MAX));
    let s = uuid_to_string(new_uuid_v4_value());
    assert_eq!(s.len(), 36);
    assert_eq!(s.as_bytes()[14], b'4');
}

fn v6(segs: [u16; 8]) -> warpinator_lib::net::Ipv6Addr {
    let mut bits: u128 = 0;
    for s in segs {
        bits = (bits << 16) | s as u128;
    }
    warpinator_lib::net::Ipv6Addr { bits }
}

#[test]
fn ipv6_text_like_std() {
    assert_eq!(v6([0; 8]).to_text(), "::");
    assert_eq!(v6([0, 0, 0, 0, 0, 0, 0, 1]).to_text(), "::1");
    assert_eq!(v6([0xfe80, 0, 0, 0, 0, 0, 0, 1]).to_text(), "fe80::1");
    assert_eq!(v6([0x2001, 0xdb8, 0, 0, 0, 0xff00, 0x42, 0x8329]).to_text(), "2001:db8::ff00:42:8329");
    assert_eq!(v6([0x2001, 0xdb8, 0, 0, 1, 0, 0, 1]).to_text(), "2001:db8::1:0:0:1");
    assert_eq!(v6([0x2001, 0xdb8, 0, 1, 1, 1, 1, 1]).to_text(), "2001:db8:0:1:1:1:1:1");
    assert_eq!(v6([1, 0, 0, 0, 0, 0, 0, 0]).to_text(), "1::");
    assert_eq!(v6([0, 0, 0, 0, 0, 0xffff, 0xc000, 0x0280]).to_text(), "::ffff:192.0.2.128");
    assert_eq!(v6([0, 0, 0, 0, 0, 0xffff, 0, 0]).to_text(), "::ffff:0.0.0.0");
    assert_eq!(v6([0, 0, 0, 0, 0, 0, 0xc000, 0x0280]).to_text(), "::c000:280");
    assert_eq!(v6([1, 0, 1, 0, 0, 1, 0, 0]).to_text(), "1:0:1::1:0:0");
    assert_eq!(v6([0xabcd, 0xffff, 0x10, 2, 3, 4, 5, 6]).to_text(), "abcd:ffff:10:2:3:4:5:6");
}

#[test]
fn peer_urls() {
    let a = warpinator_lib::net::IpAddr::V4(Ipv4Addr::new(10, 0, 0, 5));
    assert_eq!(warpinator_lib::server::remote_worker::peer_url(false, a, 42001), "http://10.0.0.5:42001");
    let b = warpinator_lib::net::IpAddr::V6(v6([0xfe80, 0, 0, 0, 0, 0, 0, 1]));
    assert_eq!(warpinator_lib::server::remote_worker::peer_url(true, b, 42000), "https://[fe80::1]:42000");
}
