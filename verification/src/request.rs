//! The rtnetlink requests the library sends, as plain values: the command,
//! the header flags, the fixed message header and its attributes.
use vstd::prelude::*;

verus! {

/// The rtnetlink commands the library sends.
#[derive(Clone, Copy, Debug, PartialEq, Eq)]
pub enum RtmCommand {
    Newlink,
    Dellink,
    Getlink,
    Setlink,
    Getaddr,
    Deladdr,
    Getroute,
}

/// Netlink header flags of a request (`NLM_F_*`).
#[derive(Clone, Copy, Debug, PartialEq, Eq)]
pub struct NlFlags {
    pub dump: bool,
    pub ack: bool,
    pub create: bool,
    pub excl: bool,
}

impl NlFlags {
    /// `NLM_F_DUMP` alone.
    pub open spec fn spec_dump() -> NlFlags {
        NlFlags { dump: true, ack: false, create: false, excl: false }
    }

    /// `NLM_F_ACK` alone.
    pub open spec fn spec_ack() -> NlFlags {
        NlFlags { dump: false, ack: true, create: false, excl: false }
    }

    /// `NLM_F_CREATE | NLM_F_EXCL | NLM_F_ACK`.
    pub open spec fn spec_create_exclusive() -> NlFlags {
        NlFlags { dump: false, ack: true, create: true, excl: true }
    }

    /// `NLM_F_DUMP`.
    pub fn dump() -> (r: NlFlags)
        ensures
            r == (NlFlags { dump: true, ack: false, create: false, excl: false }),
    {
        NlFlags { dump: true, ack: false, create: false, excl: false }
    }

    /// `NLM_F_ACK`.
    pub fn ack() -> (r: NlFlags)
        ensures
            r == (NlFlags { dump: false, ack: true, create: false, excl: false }),
    {
        NlFlags { dump: false, ack: true, create: false, excl: false }
    }

    /// `NLM_F_CREATE | NLM_F_EXCL | NLM_F_ACK`.
    pub fn create_exclusive() -> (r: NlFlags)
        ensures
            r == (NlFlags { dump: false, ack: true, create: true, excl: true }),
    {
        NlFlags { dump: false, ack: true, create: true, excl: true }
    }
}

/// A request: command, header flags and message.
#[derive(Debug, PartialEq, Eq)]
pub struct Request<M> {
    pub command: RtmCommand,
    pub flags: NlFlags,
    pub message: M,
}

/// Nested attributes of a bridge's `IFLA_INFO_DATA` (`IFLA_BR_*`).
#[derive(Clone, Copy, Debug, PartialEq, Eq)]
pub enum BridgeAttr {
    ForwardDelay(u32),
    HelloTime(u32),
    MaxAge(u32),
    AgeingTime(u32),
    StpState(u32),
    Priority(u16),
    VlanFiltering(u8),
}

impl BridgeAttr {
    /// The `IFLA_BR_*` number of the attribute (`linux/if_link.h`).
    pub open spec fn spec_attr_type(&self) -> u16 {
        match self {
            BridgeAttr::ForwardDelay(_) => 1,
            BridgeAttr::HelloTime(_) => 2,
            BridgeAttr::MaxAge(_) => 3,
            BridgeAttr::AgeingTime(_) => 4,
            BridgeAttr::StpState(_) => 5,
            BridgeAttr::Priority(_) => 6,
            BridgeAttr::VlanFiltering(_) => 7,
        }
    }

    /// The `IFLA_BR_*` number of the attribute.
    #[verifier::when_used_as_spec(spec_attr_type)]
    pub fn attr_type(&self) -> (r: u16)
        ensures
            r == self.spec_attr_type(),
    {
        match self {
            BridgeAttr::ForwardDelay(_) => 1,
            BridgeAttr::HelloTime(_) => 2,
            BridgeAttr::MaxAge(_) => 3,
            BridgeAttr::AgeingTime(_) => 4,
            BridgeAttr::StpState(_) => 5,
            BridgeAttr::Priority(_) => 6,
            BridgeAttr::VlanFiltering(_) => 7,
        }
    }
}

/// Nested attributes of an `AF_BRIDGE` `IFLA_AF_SPEC` (`IFLA_BRIDGE_*`).
#[derive(Clone, Copy, Debug, PartialEq, Eq)]
pub enum BridgeAfAttr {
    /// `IFLA_BRIDGE_FLAGS`.
    Flags(u16),
    /// `IFLA_BRIDGE_VLAN_INFO`: a `struct bridge_vlan_info`, two 16-bit
    /// fields in host byte order.
    VlanInfo { flags: u16, vid: u16 },
}

impl BridgeAfAttr {
    /// The `IFLA_BRIDGE_*` number of the attribute (`linux/if_bridge.h`).
    pub open spec fn spec_attr_type(&self) -> u16 {
        match self {
            BridgeAfAttr::Flags(_) => 0,
            BridgeAfAttr::VlanInfo { .. } => 2,
        }
    }

    /// The `IFLA_BRIDGE_*` number of the attribute.
    #[verifier::when_used_as_spec(spec_attr_type)]
    pub fn attr_type(&self) -> (r: u16)
        ensures
            r == self.spec_attr_type(),
    {
        match self {
            BridgeAfAttr::Flags(_) => 0,
            BridgeAfAttr::VlanInfo { .. } => 2,
        }
    }
}

/// Nested attributes of `IFLA_LINKINFO` (`IFLA_INFO_*`).
#[derive(Debug, PartialEq, Eq)]
pub enum LinkInfoAttr {
    /// `IFLA_INFO_KIND`, a NUL-terminated string.
    Kind(String),
    /// `IFLA_INFO_DATA` of a bridge.
    Data(Vec<BridgeAttr>),
}

/// The value of a [`LinkInfoAttr`].
pub enum LinkInfoAttrView {
    Kind(Seq<char>),
    Data(Seq<BridgeAttr>),
}

impl View for LinkInfoAttr {
    type V = LinkInfoAttrView;

    open spec fn view(&self) -> LinkInfoAttrView {
        match self {
            LinkInfoAttr::Kind(s) => LinkInfoAttrView::Kind(s@),
            LinkInfoAttr::Data(v) => LinkInfoAttrView::Data(v@),
        }
    }
}

/// Attributes of an outgoing `struct ifinfomsg` (`IFLA_*`).
#[derive(Debug, PartialEq, Eq)]
pub enum LinkAttr {
    /// `IFLA_IFNAME`, a NUL-terminated string.
    Ifname(String),
    /// `IFLA_ADDRESS`, a hardware address.
    Address([u8; 6]),
    /// `IFLA_MASTER`.
    Master(u32),
    /// `IFLA_MTU`.
    Mtu(u32),
    /// `IFLA_LINKINFO`.
    LinkInfo(Vec<LinkInfoAttr>),
    /// `IFLA_AF_SPEC`.
    AfSpec(Vec<BridgeAfAttr>),
}

/// The value of a [`LinkAttr`].
pub enum LinkAttrView {
    Ifname(Seq<char>),
    Address(Seq<u8>),
    Master(u32),
    Mtu(u32),
    LinkInfo(Seq<LinkInfoAttrView>),
    AfSpec(Seq<BridgeAfAttr>),
}

/// The values of a sequence of link-info attributes.
pub open spec fn link_info_view(v: Seq<LinkInfoAttr>) -> Seq<LinkInfoAttrView> {
    v.map_values(|a: LinkInfoAttr| a@)
}

impl View for LinkAttr {
    type V = LinkAttrView;

    open spec fn view(&self) -> LinkAttrView {
        match self {
            LinkAttr::Ifname(s) => LinkAttrView::Ifname(s@),
            LinkAttr::Address(a) => LinkAttrView::Address(a@),
            LinkAttr::Master(m) => LinkAttrView::Master(*m),
            LinkAttr::Mtu(m) => LinkAttrView::Mtu(*m),
            LinkAttr::LinkInfo(v) => LinkAttrView::LinkInfo(link_info_view(v@)),
            LinkAttr::AfSpec(v) => LinkAttrView::AfSpec(v@),
        }
    }
}

/// The values of a sequence of link attributes.
pub open spec fn link_attrs_view(v: Seq<LinkAttr>) -> Seq<LinkAttrView> {
    v.map_values(|a: LinkAttr| a@)
}

/// An outgoing `struct ifinfomsg` with its attributes.
#[derive(Debug, PartialEq, Eq)]
pub struct LinkRequestMsg {
    pub family: u8,
    pub index: i32,
    pub flags: u32,
    pub change: u32,
    pub attrs: Vec<LinkAttr>,
}

/// An outgoing `struct rtmsg` (without attributes).
#[derive(Clone, Copy, Debug, PartialEq, Eq)]
pub struct RouteRequestMsg {
    pub family: u8,
    pub dst_len: u8,
    pub src_len: u8,
    pub tos: u8,
    pub table: u8,
    pub protocol: u8,
    pub scope: u8,
    pub route_type: u8,
}

} // verus!
