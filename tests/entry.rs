use proc_route_parser::fields::split_fields;
use proc_route_parser::flags::{Ipv4RouteFlags, Ipv6RouteFlags};
use proc_route_parser::hex::ConvertError;
use proc_route_parser::ipv4::Ipv4RouteEntry;
use proc_route_parser::ipv6::Ipv6RouteEntry;
use proc_route_parser::RouteParseError;

const LO_LINE: &str = "lo\t00000000\t00000000\t0001\t0\t0\t0\t00000000\t0\t0\t0";
const ETH_LINE: &str = "eth0\t00000000\t0102A8C0\t0003\t0\t0\t64\t00000000\t0\t0\t0\t";
const V6_LINE: &str = "fe800000000000000000000000000000 40 00000000000000000000000000000000 00 00000000000000000000000000000000 00000100 00000001 00000002 00000001     eth0";
const V6_LO: &str = "00000000000000000000000000000001 80 00000000000000000000000000000000 00 00000000000000000000000000000000 00000000 00000002 00000000 80200001       lo";

#[test]
fn fields_split_on_runs_of_white_space() {
    assert_eq!(split_fields("  a \t bc\n d  "), vec!["a", "bc", "d"]);
    assert_eq!(split_fields(""), Vec::<&str>::new());
    assert_eq!(split_fields(" \t "), Vec::<&str>::new());
    assert_eq!(split_fields("x\u{a0}y\u{3000}z"), vec!["x", "y", "z"]);
}

#[test]
fn loopback_fixture() {
    let e = Ipv4RouteEntry::parse_line(LO_LINE).unwrap();
    assert_eq!(e.name, "lo");
    assert!(e.flags.contains(Ipv4RouteFlags::UP));
    assert_eq!(e.flags.bits(), 1);
    assert_eq!(e.dest.octets, [0, 0, 0, 0]);
    assert_eq!(e.gateway.octets, [0, 0, 0, 0]);
    assert_eq!(e.mask.octets, [0, 0, 0, 0]);
    assert_eq!((e.ref_count, e.use_count, e.metric), (0, 0, 0));
    assert_eq!((e.mtu, e.window, e.irtt), (0, 0, 0));
}

#[test]
fn gateway_line() {
    let e: Ipv4RouteEntry = ETH_LINE.parse().unwrap();
    assert_eq!(e.name, "eth0");
    assert_eq!(e.gateway.octets, [192, 168, 2, 1]);
    assert!(e.flags.contains(Ipv4RouteFlags::UP | Ipv4RouteFlags::GATEWAY));
    assert_eq!(e.metric, 0x64);
}

#[test]
fn ipv4_too_few_fields() {
    match Ipv4RouteEntry::parse_line("lo 00000000 00000000 0001") {
        Err(RouteParseError::InvalidFieldCount { expected, found }) => assert_eq!((expected, found), (11, 4)),
        other => panic!("unexpected {:?}", other),
    }
}

#[test]
fn ipv4_field_errors() {
    let bad_dest = "lo 0000000 00000000 0001 0 0 0 00000000 0 0 0";
    assert!(matches!(Ipv4RouteEntry::parse_line(bad_dest), Err(RouteParseError::Convert(ConvertError::OddStringLength(_)))));
    let bad_flags = "lo 00000000 00000000 001 0 0 0 00000000 0 0 0";
    assert!(matches!(Ipv4RouteEntry::parse_line(bad_flags), Err(RouteParseError::Convert(ConvertError::OddStringLength(_)))));
    let wide_flags = "lo 00000000 00000000 000001 0 0 0 00000000 0 0 0";
    assert!(matches!(Ipv4RouteEntry::parse_line(wide_flags), Err(RouteParseError::SliceToBytes)));
    let bad_counter = "lo 00000000 00000000 0001 q 0 0 00000000 0 0 0";
    assert!(matches!(Ipv4RouteEntry::parse_line(bad_counter), Err(RouteParseError::Convert(ConvertError::OutOfHexRange(b'q')))));
    let long_counter = "lo 00000000 00000000 0001 0 0 100 00000000 0 0 0";
    assert!(matches!(Ipv4RouteEntry::parse_line(long_counter), Err(RouteParseError::SliceToBytes)));
    // the first failing field decides
    let two_bad = "lo 0000000Z 0000 0001 0 0 0 00000000 0 0 0";
    assert!(matches!(Ipv4RouteEntry::parse_line(two_bad), Err(RouteParseError::Convert(ConvertError::OutOfHexRange(b'Z')))));
}

#[test]
fn ipv6_line() {
    let e = Ipv6RouteEntry::parse_line(V6_LINE).unwrap();
    assert_eq!(e.dest.octets[0..2], [0xfe, 0x80]);
    assert_eq!(e.dest_prefix, 64);
    assert_eq!(e.src_prefix, 0);
    assert_eq!(e.next_hop.octets, [0; 16]);
    assert_eq!((e.metric, e.ref_count, e.use_count), (256, 1, 2));
    assert!(e.flags.contains(Ipv6RouteFlags::UP));
    assert_eq!(e.name, "eth0");
    assert!(e.is_inbound());
    assert!(!e.is_outbound());
    assert!(!e.is_loopback());
    assert!(e.is_default());
}

#[test]
fn ipv6_loopback_line() {
    let e: Ipv6RouteEntry = V6_LO.parse().unwrap();
    assert_eq!(e.dest.octets[15], 1);
    assert_eq!(e.dest_prefix, 0x80);
    assert!(e.is_loopback());
    assert!(e.flags.contains(Ipv6RouteFlags::LOCAL | Ipv6RouteFlags::UP));
    assert_eq!(e.flags.bits(), 0x8020_0001);
    assert_eq!(e.name, "lo");
}

#[test]
fn ipv6_nine_fields() {
    let line = "fe800000000000000000000000000000 40 00000000000000000000000000000000 00 00000000000000000000000000000000 00000100 00000001 00000000 00000001";
    match Ipv6RouteEntry::parse_line(line) {
        Err(RouteParseError::InvalidFieldCount { expected, found }) => assert_eq!((expected, found), (10, 9)),
        other => panic!("unexpected {:?}", other),
    }
}

#[test]
fn ipv6_default_flag_field() {
    let line = "00000000000000000000000000000000 00 00000000000000000000000000000000 00 fe800000000000000000000000000001 00000400 00000001 00000000 00010000 eth0";
    let e = Ipv6RouteEntry::parse_line(line).unwrap();
    assert_eq!(e.flags.bits(), Ipv6RouteFlags::DEFAULT);
    assert!(e.is_outbound());
    assert!(e.is_loopback());
}

#[test]
fn ipv6_field_errors() {
    let short_prefix = "fe800000000000000000000000000000 4 00000000000000000000000000000000 00 00000000000000000000000000000000 00000100 00000001 00000000 00000001 eth0";
    assert!(matches!(Ipv6RouteEntry::parse_line(short_prefix), Err(RouteParseError::SliceToBytes)));
    let bad_dest = "fe80000000000000000000000000000g 40 00000000000000000000000000000000 00 00000000000000000000000000000000 00000100 00000001 00000000 00000001 eth0";
    assert!(matches!(Ipv6RouteEntry::parse_line(bad_dest), Err(RouteParseError::Convert(ConvertError::OutOfHexRange(b'g')))));
    let short_metric = "fe800000000000000000000000000000 40 00000000000000000000000000000000 00 00000000000000000000000000000000 000100 00000001 00000000 00000001 eth0";
    assert!(matches!(Ipv6RouteEntry::parse_line(short_metric), Err(RouteParseError::SliceToBytes)));
    let odd_flags = "fe800000000000000000000000000000 40 00000000000000000000000000000000 00 00000000000000000000000000000000 00000100 00000001 00000000 0000001 eth0";
    assert!(matches!(Ipv6RouteEntry::parse_line(odd_flags), Err(RouteParseError::Convert(ConvertError::OddStringLength(_)))));
}
