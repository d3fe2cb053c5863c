use crate::nl::Ipv4Address;
use vstd::prelude::*;

verus! {

/// The reply to a route query: the routes of the main table, in the order
/// the kernel reported them.
#[derive(Debug)]
pub struct RouteGetResponse {
    pub routes: Vec<Route>,
}

/// One route of the main routing table.
#[derive(Debug)]
pub struct Route {
    pub dst: Option<Ipv4Address>,
    pub dst_prefix_len: u8,
    pub gateway: Option<Ipv4Address>,
    pub prefsrc: Option<Ipv4Address>,
    pub oif_name: Option<String>,
    pub protocol: RouteProtocol,
    pub scope: RouteScope,
    pub route_type: RouteType,
    pub metric: Option<u32>,
    pub flags: RouteFlags,
}

/// `RTNH_F_DEAD` (`linux/rtnetlink.h`).
pub const RTNH_F_DEAD: u32 = 1;
/// `RTNH_F_PERVASIVE`.
pub const RTNH_F_PERVASIVE: u32 = 2;
/// `RTNH_F_ONLINK`.
pub const RTNH_F_ONLINK: u32 = 4;
/// `RTNH_F_OFFLOAD`.
pub const RTNH_F_OFFLOAD: u32 = 8;
/// `RTNH_F_LINKDOWN`.
pub const RTNH_F_LINKDOWN: u32 = 16;
/// `RTNH_F_UNRESOLVED`.
pub const RTNH_F_UNRESOLVED: u32 = 32;
/// `RTNH_F_TRAP`.
pub const RTNH_F_TRAP: u32 = 64;

/// Next-hop flags of a route (`RTNH_F_*` bits of `rtm_flags`).
#[derive(Debug, Clone, Copy, PartialEq, Eq)]
pub struct RouteFlags {
    pub dead: bool,
    pub pervasive: bool,
    pub onlink: bool,
    pub offload: bool,
    pub linkdown: bool,
    pub unresolved: bool,
    pub trap: bool,
}

impl RouteFlags {
    /// The flags that an `rtm_flags` word encodes.
    pub open spec fn spec_from_bits(bits: u32) -> RouteFlags {
        RouteFlags {
            dead: bits & RTNH_F_DEAD != 0,
            pervasive: bits & RTNH_F_PERVASIVE != 0,
            onlink: bits & RTNH_F_ONLINK != 0,
            offload: bits & RTNH_F_OFFLOAD != 0,
            linkdown: bits & RTNH_F_LINKDOWN != 0,
            unresolved: bits & RTNH_F_UNRESOLVED != 0,
            trap: bits & RTNH_F_TRAP != 0,
        }
    }

    /// Decodes the `rtm_flags` word of a route message.
    pub fn from_bits(bits: u32) -> (r: RouteFlags)
        ensures
            r == Self::spec_from_bits(bits),
    {
        RouteFlags {
            dead: bits & RTNH_F_DEAD != 0,
            pervasive: bits & RTNH_F_PERVASIVE != 0,
            onlink: bits & RTNH_F_ONLINK != 0,
            offload: bits & RTNH_F_OFFLOAD != 0,
            linkdown: bits & RTNH_F_LINKDOWN != 0,
            unresolved: bits & RTNH_F_UNRESOLVED != 0,
            trap: bits & RTNH_F_TRAP != 0,
        }
    }
}

impl Default for RouteFlags {
    /// No flag set.
    fn default() -> (r: RouteFlags)
        ensures
            r == (RouteFlags {
                dead: false,
                pervasive: false,
                onlink: false,
                offload: false,
                linkdown: false,
                unresolved: false,
                trap: false,
            }),
    {
        RouteFlags {
            dead: false,
            pervasive: false,
            onlink: false,
            offload: false,
            linkdown: false,
            unresolved: false,
            trap: false,
        }
    }
}

/// Who installed a route (`rtm_protocol`, `RTPROT_*`).
#[derive(Debug, Clone, Copy, PartialEq, Eq)]
pub enum RouteProtocol {
    Unspec,
    Redirect,
    Kernel,
    Boot,
    Static,
    Dhcp,
    Other(u8),
}

impl RouteProtocol {
    /// The protocol an `rtm_protocol` value denotes.
    pub open spec fn spec_from_raw(v: u8) -> RouteProtocol {
        match v {
            0 => RouteProtocol::Unspec,
            1 => RouteProtocol::Redirect,
            2 => RouteProtocol::Kernel,
            3 => RouteProtocol::Boot,
            4 => RouteProtocol::Static,
            16 => RouteProtocol::Dhcp,
            v => RouteProtocol::Other(v),
        }
    }

    /// Maps an `rtm_protocol` value to its protocol.
    pub fn from_raw(v: u8) -> (r: RouteProtocol)
        ensures
            r == Self::spec_from_raw(v),
    {
        match v {
            0 => RouteProtocol::Unspec,
            1 => RouteProtocol::Redirect,
            2 => RouteProtocol::Kernel,
            3 => RouteProtocol::Boot,
            4 => RouteProtocol::Static,
            16 => RouteProtocol::Dhcp,
            v => RouteProtocol::Other(v),
        }
    }
}

/// The reach of a route (`rtm_scope`, `RT_SCOPE_*`).
#[derive(Debug, Clone, Copy, PartialEq, Eq)]
pub enum RouteScope {
    Universe,
    Site,
    Link,
    Host,
    Nowhere,
    Other(u8),
}

impl RouteScope {
    /// The scope an `rtm_scope` value denotes.
    pub open spec fn spec_from_raw(v: u8) -> RouteScope {
        match v {
            0 => RouteScope::Universe,
            200 => RouteScope::Site,
            253 => RouteScope::Link,
            254 => RouteScope::Host,
            255 => RouteScope::Nowhere,
            v => RouteScope::Other(v),
        }
    }

    /// Maps an `rtm_scope` value to its scope.
    pub fn from_raw(v: u8) -> (r: RouteScope)
        ensures
            r == Self::spec_from_raw(v),
    {
        match v {
            0 => RouteScope::Universe,
            200 => RouteScope::Site,
            253 => RouteScope::Link,
            254 => RouteScope::Host,
            255 => RouteScope::Nowhere,
            v => RouteScope::Other(v),
        }
    }
}

/// The kind of a route (`rtm_type`, `RTN_*`).
#[derive(Debug, Clone, Copy, PartialEq, Eq)]
pub enum RouteType {
    Unspec,
    Unicast,
    Local,
    Broadcast,
    Anycast,
    Multicast,
    Blackhole,
    Unreachable,
    Prohibit,
    Throw,
    Nat,
    Xresolve,
    Other(u8),
}

impl RouteType {
    /// The route kind an `rtm_type` value denotes.
    pub open spec fn spec_from_raw(v: u8) -> RouteType {
        match v {
            0 => RouteType::Unspec,
            1 => RouteType::Unicast,
            2 => RouteType::Local,
            3 => RouteType::Broadcast,
            4 => RouteType::Anycast,
            5 => RouteType::Multicast,
            6 => RouteType::Blackhole,
            7 => RouteType::Unreachable,
            8 => RouteType::Prohibit,
            9 => RouteType::Throw,
            10 => RouteType::Nat,
            11 => RouteType::Xresolve,
            v => RouteType::Other(v),
        }
    }

    /// Maps an `rtm_type` value to its route kind.
    pub fn from_raw(v: u8) -> (r: RouteType)
        ensures
            r == Self::spec_from_raw(v),
    {
        match v {
            0 => RouteType::Unspec,
            1 => RouteType::Unicast,
            2 => RouteType::Local,
            3 => RouteType::Broadcast,
            4 => RouteType::Anycast,
            5 => RouteType::Multicast,
            6 => RouteType::Blackhole,
            7 => RouteType::Unreachable,
            8 => RouteType::Prohibit,
            9 => RouteType::Throw,
            10 => RouteType::Nat,
            11 => RouteType::Xresolve,
            v => RouteType::Other(v),
        }
    }
}

} // verus!
