//! Route status bits of the two families; bits without a name are kept.
use vstd::prelude::*;

verus! {

/// The flags of an IPv4 route: a 16-bit mask of the kernel's `RTF_*` bits.
#[derive(Clone, Copy, Debug, PartialEq, Eq, Structural)]
pub struct Ipv4RouteFlags {
    pub bits: u16,
}

impl Ipv4RouteFlags {
    /// Route is up (`RTF_UP`).
    pub const UP: u16 = 0x0001;
    /// Route goes through a gateway (`RTF_GATEWAY`).
    pub const GATEWAY: u16 = 0x0002;
    /// Route to a single host (`RTF_HOST`).
    pub const HOST: u16 = 0x0004;
    /// Reinstate route after a timeout (`RTF_REINSTATE`).
    pub const REINSTATE: u16 = 0x0008;
    /// Installed by a routing daemon or a redirect (`RTF_DYNAMIC`).
    pub const DYNAMIC: u16 = 0x0010;
    /// Modified by a routing daemon or a redirect (`RTF_MODIFIED`).
    pub const MODIFIED: u16 = 0x0020;
    /// The MTU field is valid (`RTF_MTU`).
    pub const MTU: u16 = 0x0040;
    /// The window field is valid (`RTF_WINDOW`).
    pub const WINDOW: u16 = 0x0080;
    /// The initial round trip time field is valid (`RTF_IRTT`).
    pub const IRTT: u16 = 0x0100;
    /// Packets to this route are rejected (`RTF_REJECT`).
    pub const REJECT: u16 = 0x0200;

    /// Flags with exactly the given bits, named or not.
    pub fn from_bits_retain(bits: u16) -> (r: Self)
        ensures
            r.bits == bits,
    {
        Ipv4RouteFlags { bits }
    }

    /// Flags with no bit set.
    pub fn empty() -> (r: Self)
        ensures
            r.bits == 0,
    {
        Ipv4RouteFlags { bits: 0 }
    }

    /// The raw mask.
    pub fn bits(&self) -> (r: u16)
        ensures
            r == self.bits,
    {
        self.bits
    }

    /// Every bit of `mask` is set.
    pub fn contains(&self, mask: u16) -> (r: bool)
        ensures
            r == (self.bits & mask == mask),
    {
        self.bits & mask == mask
    }

    /// The bits set in either.
    pub fn union(self, other: Self) -> (r: Self)
        ensures
            r.bits == self.bits | other.bits,
    {
        Ipv4RouteFlags { bits: self.bits | other.bits }
    }

    /// The bits set in both.
    pub fn intersection(self, other: Self) -> (r: Self)
        ensures
            r.bits == self.bits & other.bits,
    {
        Ipv4RouteFlags { bits: self.bits & other.bits }
    }
}

/// The router preference held in bits 27 and 28 of IPv6 route flags.
#[derive(Clone, Copy, Debug, PartialEq, Eq, Structural)]
pub enum RoutePreference {
    Reserved,
    High,
    Medium,
    Low,
}

/// The preference that the two-bit value `v` stands for.
pub open spec fn preference_of(v: u32) -> RoutePreference {
    if v == 0 {
        RoutePreference::Reserved
    } else if v == 1 {
        RoutePreference::High
    } else if v == 2 {
        RoutePreference::Medium
    } else {
        RoutePreference::Low
    }
}

/// The flags of an IPv6 route: a 32-bit mask whose low bits mean what they
/// mean for IPv4.
#[derive(Clone, Copy, Debug, PartialEq, Eq, Structural)]
pub struct Ipv6RouteFlags {
    pub bits: u32,
}

impl Ipv6RouteFlags {
    /// Route is up (`RTF_UP`).
    pub const UP: u32 = 0x0001;
    /// Route goes through a gateway (`RTF_GATEWAY`).
    pub const GATEWAY: u32 = 0x0002;
    /// Route to a single host (`RTF_HOST`).
    pub const HOST: u32 = 0x0004;
    /// Reinstate route after a timeout (`RTF_REINSTATE`).
    pub const REINSTATE: u32 = 0x0008;
    /// Installed by a routing daemon or a redirect (`RTF_DYNAMIC`).
    pub const DYNAMIC: u32 = 0x0010;
    /// Modified by a routing daemon or a redirect (`RTF_MODIFIED`).
    pub const MODIFIED: u32 = 0x0020;
    /// The MTU field is valid (`RTF_MTU`).
    pub const MTU: u32 = 0x0040;
    /// The window field is valid (`RTF_WINDOW`).
    pub const WINDOW: u32 = 0x0080;
    /// The initial round trip time field is valid (`RTF_IRTT`).
    pub const IRTT: u32 = 0x0100;
    /// Packets to this route are rejected (`RTF_REJECT`).
    pub const REJECT: u32 = 0x0200;
    /// Default route learned through neighbour discovery (`RTF_DEFAULT`).
    pub const DEFAULT: u32 = 0x0001_0000;
    /// All gateways assumed on link; deprecated (`RTF_ALLONLINK`).
    pub const ALL_ON_LINK: u32 = 0x0002_0000;
    /// Route from address autoconfiguration (`RTF_ADDRCONF`).
    pub const ADDR_CONF: u32 = 0x0004_0000;
    /// Prefix route from a router advertisement (`RTF_PREFIX_RT`).
    pub const PREFIX_ONLY: u32 = 0x0008_0000;
    /// Route to an anycast address (`RTF_ANYCAST`).
    pub const ANYCAST: u32 = 0x0010_0000;
    /// Route without a next hop (`RTF_NONEXTHOP`).
    pub const NO_NEXT_HOP: u32 = 0x0020_0000;
    /// Route that expires (`RTF_EXPIRES`).
    pub const EXPIRES: u32 = 0x0040_0000;
    /// Route from a route information option (`RTF_ROUTEINFO`).
    pub const ROUTE_INFO: u32 = 0x0080_0000;
    /// Cached route (`RTF_CACHE`).
    pub const CACHE: u32 = 0x0100_0000;
    /// Flow-specific route (`RTF_FLOW`).
    pub const FLOW: u32 = 0x0200_0000;
    /// Policy route (`RTF_POLICY`).
    pub const POLICY: u32 = 0x0400_0000;
    /// The two preference bits (`RTF_PREF` mask).
    pub const PREF_MASK: u32 = 0x1800_0000;
    /// Reserved preference: both preference bits clear.
    pub const PREF_RESERVED: u32 = 0;
    /// High preference.
    pub const PREF_HIGH: u32 = 0x0800_0000;
    /// Medium preference.
    pub const PREF_MEDIUM: u32 = 0x1000_0000;
    /// Low preference.
    pub const PREF_LOW: u32 = 0x1800_0000;
    /// Per-CPU route copy (`RTF_PCPU`).
    pub const PER_CPU: u32 = 0x4000_0000;
    /// Local address route (`RTF_LOCAL`).
    pub const LOCAL: u32 = 0x8000_0000;

    /// Flags with exactly the given bits, named or not.
    pub fn from_bits_retain(bits: u32) -> (r: Self)
        ensures
            r.bits == bits,
    {
        Ipv6RouteFlags { bits }
    }

    /// Flags with no bit set.
    pub fn empty() -> (r: Self)
        ensures
            r.bits == 0,
    {
        Ipv6RouteFlags { bits: 0 }
    }

    /// The raw mask.
    pub fn bits(&self) -> (r: u32)
        ensures
            r == self.bits,
    {
        self.bits
    }

    /// Every bit of `mask` is set.
    pub fn contains(&self, mask: u32) -> (r: bool)
        ensures
            r == (self.bits & mask == mask),
    {
        self.bits & mask == mask
    }

    /// The bits set in either.
    pub fn union(self, other: Self) -> (r: Self)
        ensures
            r.bits == self.bits | other.bits,
    {
        Ipv6RouteFlags { bits: self.bits | other.bits }
    }

    /// The bits set in both.
    pub fn intersection(self, other: Self) -> (r: Self)
        ensures
            r.bits == self.bits & other.bits,
    {
        Ipv6RouteFlags { bits: self.bits & other.bits }
    }

    /// The router preference held in bits 27 and 28.
    pub fn preference(&self) -> (r: RoutePreference)
        ensures
            r == preference_of((self.bits & 0x1800_0000) >> 27),
    {
        let v = (self.bits & 0x1800_0000) >> 27;
        if v == 0 {
            RoutePreference::Reserved
        } else if v == 1 {
            RoutePreference::High
        } else if v == 2 {
            RoutePreference::Medium
        } else {
            RoutePreference::Low
        }
    }
}

} // verus!
