//! Per-port (and per-bridge) VLAN membership.
//!
//! These mirror `bridge vlan add` / `bridge vlan del`: they program a VLAN ID
//! onto a bridge port (or onto the bridge itself with `self_link`). A VLAN
//! marked `pvid` + `untagged` turns the port into an "access port" for that
//! VLAN. VLAN filtering must be enabled on the bridge
//! (`BridgeOptions::vlan_filtering`) for these to take effect.
use crate::error::Error;
use crate::mappers::{lookup_may_resolve, resolve_ifname};
use crate::nl::AF_BRIDGE;
use crate::request::{
    link_attrs_view, BridgeAfAttr, LinkAttr, LinkAttrView, LinkRequestMsg, NlFlags, Request,
    RtmCommand,
};
use vstd::prelude::*;

verus! {

/// `BRIDGE_VLAN_INFO_PVID` (`linux/if_bridge.h`).
pub const BRIDGE_VLAN_INFO_PVID: u16 = 2;
/// `BRIDGE_VLAN_INFO_UNTAGGED`.
pub const BRIDGE_VLAN_INFO_UNTAGGED: u16 = 4;
/// `BRIDGE_FLAGS_SELF`, an `IFLA_BRIDGE_FLAGS` value.
pub const BRIDGE_FLAGS_SELF: u16 = 2;

/// Result of a VLAN membership change.
#[derive(Debug)]
pub struct BridgeVlanResponse {
    /// Index of the interface the VLAN was changed on.
    pub if_index: u32,
    /// The VLAN ID that was added or removed.
    pub vid: u16,
}

/// The `IFLA_AF_SPEC` attributes of a VLAN request: `IFLA_BRIDGE_FLAGS` with
/// `BRIDGE_FLAGS_SELF` when acting on the bridge itself, then the VLAN info.
pub open spec fn vlan_af_spec(vid: u16, vinfo_flags: u16, self_link: bool) -> Seq<BridgeAfAttr> {
    (if self_link {
        seq![BridgeAfAttr::Flags(BRIDGE_FLAGS_SELF)]
    } else {
        Seq::empty()
    }) + seq![BridgeAfAttr::VlanInfo { flags: vinfo_flags, vid }]
}

/// Builds an `AF_BRIDGE` VLAN message: an `IFLA_AF_SPEC` carrying an
/// `IFLA_BRIDGE_VLAN_INFO` (and `IFLA_BRIDGE_FLAGS` when operating on
/// `self`), sent with `NLM_F_ACK`.
pub fn vlan_request(
    command: RtmCommand,
    if_index: u32,
    vid: u16,
    vinfo_flags: u16,
    self_link: bool,
) -> (r: Request<LinkRequestMsg>)
    ensures
        r.command == command,
        r.flags == NlFlags::spec_ack(),
        r.message.family == AF_BRIDGE,
        r.message.index == if_index as i32,
        r.message.flags == 0,
        r.message.change == 0,
        link_attrs_view(r.message.attrs@) == seq![
            LinkAttrView::AfSpec(vlan_af_spec(vid, vinfo_flags, self_link)),
        ],
{
    let mut af_spec: Vec<BridgeAfAttr> = Vec::new();
    if self_link {
        af_spec.push(BridgeAfAttr::Flags(BRIDGE_FLAGS_SELF));
    }
    af_spec.push(BridgeAfAttr::VlanInfo { flags: vinfo_flags, vid });
    assert(af_spec@ =~= vlan_af_spec(vid, vinfo_flags, self_link));
    let mut attrs: Vec<LinkAttr> = Vec::new();
    attrs.push(LinkAttr::AfSpec(af_spec));
    assert(link_attrs_view(attrs@) =~= seq![
        LinkAttrView::AfSpec(vlan_af_spec(vid, vinfo_flags, self_link)),
    ]);
    Request {
        command,
        flags: NlFlags::ack(),
        message: LinkRequestMsg {
            family: AF_BRIDGE,
            index: if_index as i32,
            flags: 0,
            change: 0,
            attrs,
        },
    }
}

/// Request to add a VLAN to a bridge port (or the bridge itself).
pub struct BridgeVlanAddRequest {
    if_index: u32,
    vid: u16,
    pvid: bool,
    untagged: bool,
    self_link: bool,
}

/// The value of a [`BridgeVlanAddRequest`].
pub struct BridgeVlanAddRequestView {
    pub if_index: u32,
    pub vid: u16,
    pub pvid: bool,
    pub untagged: bool,
    pub self_link: bool,
}

impl View for BridgeVlanAddRequest {
    type V = BridgeVlanAddRequestView;

    closed spec fn view(&self) -> BridgeVlanAddRequestView {
        BridgeVlanAddRequestView {
            if_index: self.if_index,
            vid: self.vid,
            pvid: self.pvid,
            untagged: self.untagged,
            self_link: self.self_link,
        }
    }
}

/// The `struct bridge_vlan_info` flags of a VLAN addition.
pub open spec fn vinfo_flags(pvid: bool, untagged: bool) -> u16 {
    (if pvid {
        BRIDGE_VLAN_INFO_PVID
    } else {
        0u16
    }) | (if untagged {
        BRIDGE_VLAN_INFO_UNTAGGED
    } else {
        0u16
    })
}

impl BridgeVlanAddRequest {
    /// Target the interface with the given name and VLAN ID.
    pub fn for_ifname(ifname: &str, vid: u16) -> (r: Result<BridgeVlanAddRequest, Error>)
        ensures
            r matches Ok(req) ==> req@.if_index != 0 && req@.vid == vid && !req@.pvid
                && !req@.untagged && !req@.self_link && lookup_may_resolve(ifname@, Ok(req@.if_index)),
            r matches Err(e) ==> e@ is InterfaceLookup && e@->ifname == ifname@
                && lookup_may_resolve(ifname@, Err(e@->errno)),
    {
        Ok(Self::for_index(resolve_ifname(ifname)?, vid))
    }

    /// Target the interface with the given index and VLAN ID.
    pub fn for_index(if_index: u32, vid: u16) -> (r: BridgeVlanAddRequest)
        ensures
            r@ == (BridgeVlanAddRequestView {
                if_index,
                vid,
                pvid: false,
                untagged: false,
                self_link: false,
            }),
    {
        BridgeVlanAddRequest { if_index, vid, pvid: false, untagged: false, self_link: false }
    }

    /// Make this VLAN the port's PVID (untagged ingress is assigned to it).
    pub fn pvid(self, on: bool) -> (r: BridgeVlanAddRequest)
        ensures
            r@ == (BridgeVlanAddRequestView { pvid: on, ..self@ }),
    {
        BridgeVlanAddRequest { pvid: on, ..self }
    }

    /// Egress frames for this VLAN untagged.
    pub fn untagged(self, on: bool) -> (r: BridgeVlanAddRequest)
        ensures
            r@ == (BridgeVlanAddRequestView { untagged: on, ..self@ }),
    {
        BridgeVlanAddRequest { untagged: on, ..self }
    }

    /// Operate on the bridge device itself rather than treating the target as
    /// a member port (the `self` keyword in `bridge vlan`).
    pub fn self_link(self, on: bool) -> (r: BridgeVlanAddRequest)
        ensures
            r@ == (BridgeVlanAddRequestView { self_link: on, ..self@ }),
    {
        BridgeVlanAddRequest { self_link: on, ..self }
    }

    /// The request to send: an `RTM_SETLINK` VLAN message whose VLAN info
    /// carries the PVID and untagged flags.
    pub fn request(&self) -> (r: Request<LinkRequestMsg>)
        ensures
            r.command == RtmCommand::Setlink,
            r.flags == NlFlags::spec_ack(),
            r.message.family == AF_BRIDGE,
            r.message.index == self@.if_index as i32,
            r.message.flags == 0,
            r.message.change == 0,
            link_attrs_view(r.message.attrs@) == seq![
                LinkAttrView::AfSpec(
                    vlan_af_spec(self@.vid, vinfo_flags(self@.pvid, self@.untagged), self@.self_link),
                ),
            ],
    {
        let mut flags: u16 = 0;
        if self.pvid {
            flags = flags | BRIDGE_VLAN_INFO_PVID;
        }
        if self.untagged {
            flags = flags | BRIDGE_VLAN_INFO_UNTAGGED;
        }
        assert(0u16 | 2u16 == 2u16 && 0u16 | 4u16 == 4u16 && 0u16 | 0u16 == 0u16 && 2u16 | 0u16
            == 2u16) by (bit_vector);
        vlan_request(RtmCommand::Setlink, self.if_index, self.vid, flags, self.self_link)
    }

    /// The response once the kernel acknowledged the request.
    pub fn response(&self) -> (r: BridgeVlanResponse)
        ensures
            r.if_index == self@.if_index,
            r.vid == self@.vid,
    {
        BridgeVlanResponse { if_index: self.if_index, vid: self.vid }
    }
}

/// Request to remove a VLAN from a bridge port (or the bridge itself).
pub struct BridgeVlanDelRequest {
    if_index: u32,
    vid: u16,
    self_link: bool,
}

/// The value of a [`BridgeVlanDelRequest`].
pub struct BridgeVlanDelRequestView {
    pub if_index: u32,
    pub vid: u16,
    pub self_link: bool,
}

impl View for BridgeVlanDelRequest {
    type V = BridgeVlanDelRequestView;

    closed spec fn view(&self) -> BridgeVlanDelRequestView {
        BridgeVlanDelRequestView { if_index: self.if_index, vid: self.vid, self_link: self.self_link }
    }
}

impl BridgeVlanDelRequest {
    /// Target the interface with the given name and VLAN ID.
    pub fn for_ifname(ifname: &str, vid: u16) -> (r: Result<BridgeVlanDelRequest, Error>)
        ensures
            r matches Ok(req) ==> req@.if_index != 0 && req@.vid == vid && !req@.self_link
                && lookup_may_resolve(ifname@, Ok(req@.if_index)),
            r matches Err(e) ==> e@ is InterfaceLookup && e@->ifname == ifname@
                && lookup_may_resolve(ifname@, Err(e@->errno)),
    {
        Ok(Self::for_index(resolve_ifname(ifname)?, vid))
    }

    /// Target the interface with the given index and VLAN ID.
    pub fn for_index(if_index: u32, vid: u16) -> (r: BridgeVlanDelRequest)
        ensures
            r@ == (BridgeVlanDelRequestView { if_index, vid, self_link: false }),
    {
        BridgeVlanDelRequest { if_index, vid, self_link: false }
    }

    /// Operate on the bridge device itself rather than treating the target as
    /// a member port (the `self` keyword in `bridge vlan`).
    pub fn self_link(self, on: bool) -> (r: BridgeVlanDelRequest)
        ensures
            r@ == (BridgeVlanDelRequestView { self_link: on, ..self@ }),
    {
        BridgeVlanDelRequest { self_link: on, ..self }
    }

    /// The request to send: an `RTM_DELLINK` VLAN message with no VLAN info
    /// flags.
    pub fn request(&self) -> (r: Request<LinkRequestMsg>)
        ensures
            r.command == RtmCommand::Dellink,
            r.flags == NlFlags::spec_ack(),
            r.message.family == AF_BRIDGE,
            r.message.index == self@.if_index as i32,
            r.message.flags == 0,
            r.message.change == 0,
            link_attrs_view(r.message.attrs@) == seq![
                LinkAttrView::AfSpec(vlan_af_spec(self@.vid, 0, self@.self_link)),
            ],
    {
        vlan_request(RtmCommand::Dellink, self.if_index, self.vid, 0, self.self_link)
    }

    /// The response once the kernel acknowledged the request.
    pub fn response(&self) -> (r: BridgeVlanResponse)
        ensures
            r.if_index == self@.if_index,
            r.vid == self@.vid,
    {
        BridgeVlanResponse { if_index: self.if_index, vid: self.vid }
    }
}

} // verus!
