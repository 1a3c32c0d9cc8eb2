//! The network-address grammar.

use peerd::addr::Addr;

fn ok(s: &str) -> bool {
    Addr::parse(s.as_bytes()).is_some()
}

#[test]
fn ipv4_valid() {
    assert!(ok("10.0.0.5"));
    assert!(ok("0.0.0.0"));
    assert!(ok("255.255.255.255"));
    assert!(ok("192.0.2.1"));
}

#[test]
fn ipv4_invalid() {
    assert!(!ok("not-an-ip"));
    assert!(!ok(""));
    assert!(!ok("10.0.0"));
    assert!(!ok("10.0.0.5.6"));
    assert!(!ok("256.0.0.1"));
    assert!(!ok("01.2.3.4"));
    assert!(!ok("10.0.0.5 "));
    assert!(!ok("1.2.3.+4"));
}

#[test]
fn ipv6_valid() {
    assert!(ok("::"));
    assert!(ok("::1"));
    assert!(ok("1::"));
    assert!(ok("2001:db8::8a2e:370:7334"));
    assert!(ok("1:2:3:4:5:6:7:8"));
    assert!(ok("fe80::1"));
    assert!(ok("ABCD:ef01::2"));
}

#[test]
fn ipv6_invalid() {
    assert!(!ok(":"));
    assert!(!ok(":::"));
    assert!(!ok("1::2::3"));
    assert!(!ok("1:2:3:4:5:6:7"));
    assert!(!ok("1:2:3:4:5:6:7:8:9"));
    assert!(!ok("1:2:3:4:5:6:7:8::"));
    assert!(!ok("12345::"));
    assert!(!ok("g::1"));
    assert!(!ok("1:"));
}

#[test]
fn parse_keeps_text() {
    let a = Addr::parse(b"2001:db8::1".as_slice()).unwrap();
    assert_eq!(a.bytes(), b"2001:db8::1".as_slice());
}
