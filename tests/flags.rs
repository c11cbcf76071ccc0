use proc_route_parser::fields::u32_field;
use proc_route_parser::flags::{Ipv4RouteFlags, Ipv6RouteFlags, RoutePreference};

const V6_NAMED: [u32; 23] = [
    Ipv6RouteFlags::UP, Ipv6RouteFlags::GATEWAY, Ipv6RouteFlags::HOST, Ipv6RouteFlags::REINSTATE,
    Ipv6RouteFlags::DYNAMIC, Ipv6RouteFlags::MODIFIED, Ipv6RouteFlags::MTU, Ipv6RouteFlags::WINDOW,
    Ipv6RouteFlags::IRTT, Ipv6RouteFlags::REJECT, Ipv6RouteFlags::DEFAULT, Ipv6RouteFlags::ALL_ON_LINK,
    Ipv6RouteFlags::ADDR_CONF, Ipv6RouteFlags::PREFIX_ONLY, Ipv6RouteFlags::ANYCAST,
    Ipv6RouteFlags::NO_NEXT_HOP, Ipv6RouteFlags::EXPIRES, Ipv6RouteFlags::ROUTE_INFO,
    Ipv6RouteFlags::CACHE, Ipv6RouteFlags::FLOW, Ipv6RouteFlags::POLICY, Ipv6RouteFlags::PER_CPU,
    Ipv6RouteFlags::LOCAL,
];

#[test]
fn unknown_bits_are_kept() {
    assert_eq!(Ipv4RouteFlags::from_bits_retain(0xffff).bits(), 0xffff);
    assert_eq!(Ipv4RouteFlags::from_bits_retain(0x8000).bits(), 0x8000);
    assert_eq!(Ipv6RouteFlags::from_bits_retain(0x2000_0000).bits(), 0x2000_0000);
    assert_eq!(Ipv4RouteFlags::empty().bits(), 0);
}

#[test]
fn contains_agrees_with_and() {
    for raw in [0u16, 1, 3, 0x0201, 0x8001, 0xffff] {
        let f = Ipv4RouteFlags::from_bits_retain(raw);
        for mask in [0u16, 1, 2, 3, 0x200, 0x8000, 0xffff] {
            assert_eq!(f.contains(mask), raw & mask == mask);
        }
    }
    let f = Ipv4RouteFlags::from_bits_retain(0x0003);
    assert!(f.contains(Ipv4RouteFlags::UP));
    assert!(f.contains(Ipv4RouteFlags::GATEWAY));
    assert!(!f.contains(Ipv4RouteFlags::HOST));
}

#[test]
fn union_and_intersection() {
    let a = Ipv6RouteFlags::from_bits_retain(Ipv6RouteFlags::UP | Ipv6RouteFlags::DEFAULT);
    let b = Ipv6RouteFlags::from_bits_retain(Ipv6RouteFlags::DEFAULT | Ipv6RouteFlags::LOCAL);
    assert_eq!(a.union(b).bits(), 0x8001_0001);
    assert_eq!(a.intersection(b).bits(), Ipv6RouteFlags::DEFAULT);
    let c = Ipv4RouteFlags::from_bits_retain(0x0005);
    let d = Ipv4RouteFlags::from_bits_retain(0x0006);
    assert_eq!(c.union(d).bits(), 0x0007);
    assert_eq!(c.intersection(d).bits(), 0x0004);
}

#[test]
fn default_flag_alone() {
    let f = Ipv6RouteFlags::from_bits_retain(u32_field("00010000").unwrap());
    for named in V6_NAMED {
        assert_eq!(f.contains(named), named == Ipv6RouteFlags::DEFAULT);
    }
    assert_eq!(f.preference(), RoutePreference::Reserved);
}

#[test]
fn preference_bits() {
    assert_eq!(Ipv6RouteFlags::from_bits_retain(Ipv6RouteFlags::PREF_HIGH).preference(), RoutePreference::High);
    assert_eq!(Ipv6RouteFlags::from_bits_retain(Ipv6RouteFlags::PREF_MEDIUM | 1).preference(), RoutePreference::Medium);
    assert_eq!(Ipv6RouteFlags::from_bits_retain(0xffff_ffff).preference(), RoutePreference::Low);
    assert_eq!(Ipv6RouteFlags::from_bits_retain(0xe7ff_ffff).preference(), RoutePreference::Reserved);
    assert_eq!(Ipv6RouteFlags::PREF_LOW, Ipv6RouteFlags::PREF_MASK);
}
