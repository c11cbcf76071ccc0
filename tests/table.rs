use proc_route_parser::ipv4::Ipv4RouteTable;
use proc_route_parser::ipv6::Ipv6RouteTable;
use proc_route_parser::{get_ipv4_route_table, get_ipv6_route_table, RouteParseError, TableStep};

const HEADER: &str = "Iface\tDestination\tGateway \tFlags\tRefCnt\tUse\tMetric\tMask\t\tMTU\tWindow\tIRTT";
const LO_LINE: &str = "lo\t00000000\t00000000\t0001\t0\t0\t0\t00000000\t0\t0\t0";
const V6_LINE: &str = "fe800000000000000000000000000000 40 00000000000000000000000000000000 00 00000000000000000000000000000000 00000100 00000001 00000000 00000001 eth0";

#[test]
fn empty_source_yields_nothing() {
    let mut t = get_ipv6_route_table();
    assert!(t.read_all(&[]).is_empty());
    assert!(t.exhausted);
    let mut t = get_ipv4_route_table();
    assert!(matches!(t.next_line(None), TableStep::Exhausted));
    assert!(matches!(t.next_line(Some(Ok(LO_LINE.to_string()))), TableStep::Exhausted));
}

#[test]
fn bad_line_does_not_stop_the_table() {
    let mut t = get_ipv6_route_table();
    let items = t.read_all(&["not a route".to_string(), V6_LINE.to_string()]);
    assert_eq!(items.len(), 2);
    assert!(matches!(items[0], Err(RouteParseError::InvalidFieldCount { expected: 10, found: 3 })));
    assert_eq!(items[1].as_ref().unwrap().name, "eth0");
}

#[test]
fn ipv4_header_is_skipped() {
    let mut t = get_ipv4_route_table();
    assert_eq!(t.header_lines, 1);
    let items = t.read_all(&[HEADER.to_string(), LO_LINE.to_string(), "x".to_string()]);
    assert_eq!(items.len(), 2);
    assert_eq!(items[0].as_ref().unwrap().name, "lo");
    assert!(items[1].is_err());
    assert_eq!(t.header_lines, 0);
}

#[test]
fn header_count_is_configurable() {
    let mut t = Ipv4RouteTable::new(0);
    assert_eq!(t.read_all(&[LO_LINE.to_string()]).len(), 1);
    let mut t = Ipv6RouteTable::new(2);
    assert!(t.read_all(&[V6_LINE.to_string()]).is_empty());
    assert_eq!(t.header_lines, 1);
}

#[test]
fn read_failure_is_an_item() {
    let mut t = get_ipv4_route_table();
    assert!(matches!(t.next_line(Some(Ok(HEADER.to_string()))), TableStep::Skipped));
    let e = std::io::Error::new(std::io::ErrorKind::Other, "boom");
    assert!(matches!(t.next_line(Some(Err(e))), TableStep::Item(Err(RouteParseError::Io(_)))));
    match t.next_line(Some(Ok(LO_LINE.to_string()))) {
        TableStep::Item(Ok(entry)) => assert_eq!(entry.name, "lo"),
        _ => panic!("expected an entry"),
    }
    assert!(matches!(t.next_line(None), TableStep::Exhausted));
    assert!(t.exhausted);
}

#[test]
fn read_failure_before_header_is_an_item() {
    let mut t = get_ipv4_route_table();
    let e = std::io::Error::new(std::io::ErrorKind::Other, "boom");
    assert!(matches!(t.next_line(Some(Err(e))), TableStep::Item(Err(RouteParseError::Io(_)))));
    assert_eq!(t.header_lines, 1);
    assert!(matches!(t.next_line(Some(Ok(HEADER.to_string()))), TableStep::Skipped));
    assert!(matches!(t.next_line(Some(Ok(LO_LINE.to_string()))), TableStep::Item(Ok(_))));
}

#[test]
fn parse_through_from_str() {
    let e: Result<proc_route_parser::ipv4::Ipv4RouteEntry, RouteParseError> = LO_LINE.parse();
    assert_eq!(e.unwrap().name, "lo");
    let bad: Result<proc_route_parser::ipv6::Ipv6RouteEntry, RouteParseError> = "a b".parse();
    assert!(matches!(bad, Err(RouteParseError::InvalidFieldCount { expected: 10, found: 2 })));
}
