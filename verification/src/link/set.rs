use crate::error::Error;
use crate::link::flags::{IFF_PROMISC, IFF_UP};
use crate::link::set_response::LinkSetResponse;
use crate::mappers::{lookup_may_resolve, resolve_ifname};
use crate::nl::AF_UNSPEC;
use crate::request::{
    link_attrs_view, LinkAttr, LinkAttrView, LinkRequestMsg, NlFlags, Request, RtmCommand,
};
use vstd::prelude::*;

verus! {

/// A request to change properties of an existing link.
pub struct LinkSetRequest {
    if_index: u32,
    promisc: Option<bool>,
    // `None` leaves the master unchanged; `Some(0)` detaches the link from its
    // current master; `Some(idx)` enslaves it to the link with that index.
    master: Option<u32>,
    // `None` leaves the hardware address unchanged; `Some(mac)` pins it.
    address: Option<[u8; 6]>,
    // `None` leaves the MTU unchanged; `Some(mtu)` sets it.
    mtu: Option<u32>,
    // `None` leaves the admin state unchanged; `Some(true)` brings the link up,
    // `Some(false)` brings it down.
    up: Option<bool>,
}

/// The value of a [`LinkSetRequest`]: the target and each requested change
/// (`None` leaves a property as it is).
pub struct LinkSetRequestView {
    pub if_index: u32,
    pub promisc: Option<bool>,
    pub master: Option<u32>,
    pub address: Option<[u8; 6]>,
    pub mtu: Option<u32>,
    pub up: Option<bool>,
}

impl View for LinkSetRequest {
    type V = LinkSetRequestView;

    closed spec fn view(&self) -> LinkSetRequestView {
        LinkSetRequestView {
            if_index: self.if_index,
            promisc: self.promisc,
            master: self.master,
            address: self.address,
            mtu: self.mtu,
            up: self.up,
        }
    }
}

/// The `ifi_change` mask of a link update: the bits whose value is set.
pub open spec fn set_change_bits(v: LinkSetRequestView) -> u32 {
    (if v.promisc is Some {
        IFF_PROMISC
    } else {
        0u32
    }) | (if v.up is Some {
        IFF_UP
    } else {
        0u32
    })
}

/// The `ifi_flags` of a link update: the bits turned on.
pub open spec fn set_flag_bits(v: LinkSetRequestView) -> u32 {
    (if v.promisc == Some(true) {
        IFF_PROMISC
    } else {
        0u32
    }) | (if v.up == Some(true) {
        IFF_UP
    } else {
        0u32
    })
}

/// The attributes of a link update: master, then hardware address, then
/// MTU, each only when requested.
pub open spec fn set_attrs(v: LinkSetRequestView) -> Seq<LinkAttrView> {
    (if v.master is Some {
        seq![LinkAttrView::Master(v.master->0)]
    } else {
        Seq::empty()
    }) + (if v.address is Some {
        seq![LinkAttrView::Address(v.address->0@)]
    } else {
        Seq::empty()
    }) + (if v.mtu is Some {
        seq![LinkAttrView::Mtu(v.mtu->0)]
    } else {
        Seq::empty()
    })
}

/// A link update never turns on a flag outside its change mask, and it
/// changes exactly the flags that were requested.
pub proof fn lemma_set_flags_within_change(v: LinkSetRequestView)
    ensures
        set_flag_bits(v) & !set_change_bits(v) == 0,
        set_change_bits(v) & IFF_PROMISC != 0 <==> v.promisc is Some,
        set_change_bits(v) & IFF_UP != 0 <==> v.up is Some,
        set_flag_bits(v) & IFF_PROMISC != 0 <==> v.promisc == Some(true),
        set_flag_bits(v) & IFF_UP != 0 <==> v.up == Some(true),
{
    let a: u32 = if v.promisc == Some(true) { IFF_PROMISC } else { 0 };
    let b: u32 = if v.up == Some(true) { IFF_UP } else { 0 };
    let c: u32 = if v.promisc is Some { IFF_PROMISC } else { 0 };
    let d: u32 = if v.up is Some { IFF_UP } else { 0 };
    lemma_two_flag_bits(a, b, c, d);
}

proof fn lemma_two_flag_bits(a: u32, b: u32, c: u32, d: u32)
    by (bit_vector)
    requires
        a == 0 || a == 0x100,
        b == 0 || b == 1,
        c == 0 || c == 0x100,
        d == 0 || d == 1,
        a != 0 ==> c != 0,
        b != 0 ==> d != 0,
    ensures
        (a | b) & !(c | d) == 0,
        (c | d) & 0x100 != 0 <==> c != 0,
        (c | d) & 1 != 0 <==> d != 0,
        (a | b) & 0x100 != 0 <==> a != 0,
        (a | b) & 1 != 0 <==> b != 0,
{
}

impl LinkSetRequest {
    /// Target the interface with the given name.
    pub fn for_ifname(ifname: &str) -> (r: Result<LinkSetRequest, Error>)
        ensures
            r matches Ok(req) ==> req@.if_index != 0 && req@.promisc is None && req@.master is None
                && req@.address is None && req@.mtu is None && req@.up is None
                && lookup_may_resolve(ifname@, Ok(req@.if_index)),
            r matches Err(e) ==> e@ is InterfaceLookup && e@->ifname == ifname@
                && lookup_may_resolve(ifname@, Err(e@->errno)),
    {
        Ok(Self::for_index(resolve_ifname(ifname)?))
    }

    /// Target the interface with the given index, changing nothing yet.
    pub fn for_index(if_index: u32) -> (r: LinkSetRequest)
        ensures
            r@ == (LinkSetRequestView {
                if_index,
                promisc: None,
                master: None,
                address: None,
                mtu: None,
                up: None,
            }),
    {
        LinkSetRequest { if_index, promisc: None, master: None, address: None, mtu: None, up: None }
    }

    /// Enable or disable promiscuous mode (`IFF_PROMISC`) on the link.
    pub fn promisc(self, on: bool) -> (r: LinkSetRequest)
        ensures
            r@ == (LinkSetRequestView { promisc: Some(on), ..self@ }),
    {
        LinkSetRequest { promisc: Some(on), ..self }
    }

    /// Enslave the link to the link with the given index.
    pub fn master(self, master_if_index: u32) -> (r: LinkSetRequest)
        ensures
            r@ == (LinkSetRequestView { master: Some(master_if_index), ..self@ }),
    {
        LinkSetRequest { master: Some(master_if_index), ..self }
    }

    /// Enslave the link to the link with the given name.
    pub fn master_ifname(self, master: &str) -> (r: Result<LinkSetRequest, Error>)
        ensures
            r matches Ok(req) ==> req@.master matches Some(m) && m != 0 && req@ == (
            LinkSetRequestView { master: req@.master, ..self@ }) && lookup_may_resolve(master@, Ok(m)),
            r matches Err(e) ==> e@ is InterfaceLookup && e@->ifname == master@
                && lookup_may_resolve(master@, Err(e@->errno)),
    {
        let idx = resolve_ifname(master)?;
        Ok(self.master(idx))
    }

    /// Detach the link from its current master, e.g. to remove it from a
    /// bridge.
    pub fn nomaster(self) -> (r: LinkSetRequest)
        ensures
            r@ == (LinkSetRequestView { master: Some(0), ..self@ }),
    {
        LinkSetRequest { master: Some(0), ..self }
    }

    /// Set the hardware (MAC) address.
    pub fn address(self, mac: [u8; 6]) -> (r: LinkSetRequest)
        ensures
            r@ == (LinkSetRequestView { address: Some(mac), ..self@ }),
    {
        LinkSetRequest { address: Some(mac), ..self }
    }

    /// Set the MTU.
    pub fn mtu(self, mtu: u32) -> (r: LinkSetRequest)
        ensures
            r@ == (LinkSetRequestView { mtu: Some(mtu), ..self@ }),
    {
        LinkSetRequest { mtu: Some(mtu), ..self }
    }

    /// Bring the link up (`true`) or down (`false`).
    pub fn up(self, up: bool) -> (r: LinkSetRequest)
        ensures
            r@ == (LinkSetRequestView { up: Some(up), ..self@ }),
    {
        LinkSetRequest { up: Some(up), ..self }
    }

    /// The request to send: `RTM_NEWLINK` with `NLM_F_ACK` for the link,
    /// whose flags and change mask carry the requested promiscuity and
    /// admin state, and whose attributes carry the master, hardware address
    /// and MTU.
    pub fn request(&self) -> (r: Request<LinkRequestMsg>)
        ensures
            r.command == RtmCommand::Newlink,
            r.flags == NlFlags::spec_ack(),
            r.message.family == AF_UNSPEC,
            r.message.index == self@.if_index as i32,
            r.message.flags == set_flag_bits(self@),
            r.message.change == set_change_bits(self@),
            link_attrs_view(r.message.attrs@) == set_attrs(self@),
    {
        // `change` selects which bits the kernel should honour and `flags`
        // carries the desired value of those bits.
        let mut flags: u32 = 0;
        let mut change: u32 = 0;
        if let Some(on) = self.promisc {
            change = change | IFF_PROMISC;
            if on {
                flags = flags | IFF_PROMISC;
            }
        }
        if let Some(on) = self.up {
            change = change | IFF_UP;
            if on {
                flags = flags | IFF_UP;
            }
        }
        assert(0u32 | 0x100u32 == 0x100u32 && 0x100u32 | 0u32 == 0x100u32 && 0u32 | 0u32 == 0u32)
            by (bit_vector);
        let mut attrs: Vec<LinkAttr> = Vec::new();
        if let Some(master) = self.master {
            attrs.push(LinkAttr::Master(master));
        }
        if let Some(address) = self.address {
            attrs.push(LinkAttr::Address(address));
        }
        if let Some(mtu) = self.mtu {
            attrs.push(LinkAttr::Mtu(mtu));
        }
        assert(link_attrs_view(attrs@) =~= set_attrs(self@));
        Request {
            command: RtmCommand::Newlink,
            flags: NlFlags::ack(),
            message: LinkRequestMsg {
                family: AF_UNSPEC,
                index: self.if_index as i32,
                flags,
                change,
                attrs,
            },
        }
    }

    /// The response once the kernel acknowledged the request.
    pub fn response(&self) -> (r: LinkSetResponse)
        ensures
            r.if_index == self@.if_index,
    {
        LinkSetResponse { if_index: self.if_index }
    }
}

} // verus!
