//! Local interfaces, and texts.

use nvnmos_gst::iface::{
    format_is04_mac, iface_identity_for_ip, iface_name_for_ip, port_id_for_interface,
    x_nvnmos_iface_value_for_ip, InterfaceAddress, IpAddress, LocalAddress,
};
use nvnmos_gst::text::{
    decimal_text, eq_ignore_ascii_case, parse_u32, parse_unsigned, signed_decimal_text,
    split_once, starts_with, strip_prefix, trim,
};
use nvnmos_gst::types::FlowFormat;

const MAC: [u8; 6] = [0x02, 0xAB, 0x00, 0x10, 0xFF, 0x5E];

fn entry(name: &str, address: LocalAddress) -> InterfaceAddress {
    InterfaceAddress { interface_name: name.to_owned(), address }
}

fn v4(a: u8, b: u8, c: u8, d: u8) -> IpAddress {
    IpAddress::V4(u32::from_be_bytes([a, b, c, d]))
}

fn host() -> Vec<InterfaceAddress> {
    vec![
        entry("lo", LocalAddress::Link(Some([0; 6]))),
        entry("eth0", LocalAddress::Link(Some(MAC))),
        entry("tun0", LocalAddress::Link(None)),
        entry("lo", LocalAddress::Ip(v4(127, 0, 0, 1))),
        entry("eth0", LocalAddress::Ip(v4(192, 0, 2, 1))),
        entry("lo", LocalAddress::Ip(IpAddress::V6(1))),
        entry("tun0", LocalAddress::Ip(v4(10, 8, 0, 1))),
        entry("ppp0", LocalAddress::Absent),
    ]
}

#[test]
fn interfaces_are_found_by_their_address() {
    let addrs = host();
    assert_eq!(iface_name_for_ip(&addrs, v4(127, 0, 0, 1)).unwrap(), "lo");
    assert_eq!(iface_name_for_ip(&addrs, IpAddress::V6(1)).unwrap(), "lo");
    assert_eq!(iface_name_for_ip(&addrs, v4(192, 0, 2, 1)).unwrap(), "eth0");
    assert!(iface_name_for_ip(&addrs, v4(192, 0, 2, 123)).is_none());
}

#[test]
fn port_id_is_the_lower_case_mac() {
    assert_eq!(format_is04_mac(&MAC), "02-ab-00-10-ff-5e");
    let addrs = host();
    assert_eq!(port_id_for_interface(&addrs, "eth0").as_deref(), Some("02-ab-00-10-ff-5e"));
    assert_eq!(port_id_for_interface(&addrs, "tun0"), None);
    assert_eq!(port_id_for_interface(&addrs, "ppp0"), None);
}

#[test]
fn interface_value_holds_name_and_port_id() {
    let addrs = host();
    let identity = iface_identity_for_ip(&addrs, v4(192, 0, 2, 1)).unwrap();
    assert_eq!(identity.name, "eth0");
    assert_eq!(identity.port_id, "02-ab-00-10-ff-5e");
    assert_eq!(
        x_nvnmos_iface_value_for_ip(&addrs, Some(v4(192, 0, 2, 1))),
        Some(identity.to_sdp_value())
    );
    assert_eq!(identity.to_sdp_value(), "eth0 02-ab-00-10-ff-5e");
    assert_eq!(x_nvnmos_iface_value_for_ip(&addrs, None), None);
    assert!(iface_identity_for_ip(&addrs, v4(10, 8, 0, 1)).is_none());
}

#[test]
fn groups_are_multicast() {
    assert!(v4(224, 0, 0, 1).is_multicast());
    assert!(v4(239, 255, 255, 255).is_multicast());
    assert!(!v4(223, 255, 255, 255).is_multicast());
    assert!(!v4(240, 0, 0, 0).is_multicast());
    assert!(IpAddress::V6(0xff02 << 112 | 1).is_multicast());
    assert!(!IpAddress::V6(1).is_multicast());
}

#[test]
fn formats_have_urns() {
    for format in [FlowFormat::Video, FlowFormat::Audio, FlowFormat::Data] {
        assert_eq!(FlowFormat::from_format_urn(format.as_format_urn().unwrap()), format);
    }
    assert_eq!(FlowFormat::Unspecified.as_format_urn(), None);
    assert_eq!(FlowFormat::from_format_urn("urn:bogus"), FlowFormat::Unspecified);
    assert_eq!(FlowFormat::Video.as_format_urn(), Some("urn:x-nmos:format:video"));
}

#[test]
fn numbers_are_written_and_read_back() {
    for n in [0u64, 7, 10, 4_294_967_295, 4_294_967_296, u64::MAX] {
        assert_eq!(decimal_text(n), format!("{n}"));
        assert_eq!(parse_unsigned(&decimal_text(n), u64::MAX), Some(n));
    }
    assert_eq!(signed_decimal_text(i32::MIN), "-2147483648");
    assert_eq!(signed_decimal_text(42), "42");
    assert_eq!(parse_u32("4294967295"), Some(u32::MAX));
    for text in ["", "+", "-1", "4294967296", " 1", "1x"] {
        assert_eq!(parse_u32(text), text.parse::<u32>().ok(), "{text:?}");
    }
    assert_eq!(parse_u32("+5"), Some(5));
}

#[test]
fn texts_are_cut_by_characters() {
    assert_eq!(split_once("é:b:c", ':'), Some(("é", "b:c")));
    assert_eq!(split_once("abc", ':'), None);
    assert_eq!(strip_prefix("unix:/x", "unix:"), Some("/x"));
    assert_eq!(strip_prefix("uni", "unix:"), None);
    assert!(starts_with("anything", ""));
    assert!(eq_ignore_ascii_case("rAw", "RAW"));
    assert!(!eq_ignore_ascii_case("é", "É"));
    assert_eq!(trim(" \ta b\r\n"), "a b");
}
