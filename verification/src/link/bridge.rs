use crate::error::Error;
use crate::mappers::{lookup_may_resolve, resolve_ifname};
use crate::nl::AF_UNSPEC;
use crate::request::{
    link_attrs_view, link_info_view, BridgeAttr, LinkAttr, LinkAttrView, LinkInfoAttr,
    LinkInfoAttrView, LinkRequestMsg, NlFlags, Request, RtmCommand,
};
use vstd::prelude::*;
use vstd::string::*;

verus! {

/// Options of a bridge device; each one left `None` is not changed.
#[derive(Clone, Copy, Debug, PartialEq, Eq)]
pub struct BridgeOptions {
    stp: Option<bool>,
    forward_delay: Option<u32>,
    hello_time: Option<u32>,
    max_age: Option<u32>,
    ageing_time: Option<u32>,
    priority: Option<u16>,
    vlan_filtering: Option<bool>,
}

/// The value of a [`BridgeOptions`].
pub struct BridgeOptionsView {
    pub stp: Option<bool>,
    pub forward_delay: Option<u32>,
    pub hello_time: Option<u32>,
    pub max_age: Option<u32>,
    pub ageing_time: Option<u32>,
    pub priority: Option<u16>,
    pub vlan_filtering: Option<bool>,
}

impl View for BridgeOptions {
    type V = BridgeOptionsView;

    closed spec fn view(&self) -> BridgeOptionsView {
        BridgeOptionsView {
            stp: self.stp,
            forward_delay: self.forward_delay,
            hello_time: self.hello_time,
            max_age: self.max_age,
            ageing_time: self.ageing_time,
            priority: self.priority,
            vlan_filtering: self.vlan_filtering,
        }
    }
}

/// Options that change nothing.
pub open spec fn no_bridge_options() -> BridgeOptionsView {
    BridgeOptionsView {
        stp: None,
        forward_delay: None,
        hello_time: None,
        max_age: None,
        ageing_time: None,
        priority: None,
        vlan_filtering: None,
    }
}

/// Whether no option is set.
pub open spec fn options_empty(o: BridgeOptionsView) -> bool {
    &&& o.stp is None
    &&& o.forward_delay is None
    &&& o.hello_time is None
    &&& o.max_age is None
    &&& o.ageing_time is None
    &&& o.priority is None
    &&& o.vlan_filtering is None
}

/// The `IFLA_BR_STP_STATE` attribute (0 or 1), when STP is set.
pub open spec fn stp_attrs(o: BridgeOptionsView) -> Seq<BridgeAttr> {
    match o.stp {
        Some(on) => seq![BridgeAttr::StpState(if on { 1 } else { 0 })],
        None => Seq::empty(),
    }
}

/// The `IFLA_BR_FORWARD_DELAY` attribute, when set.
pub open spec fn forward_delay_attrs(o: BridgeOptionsView) -> Seq<BridgeAttr> {
    match o.forward_delay {
        Some(v) => seq![BridgeAttr::ForwardDelay(v)],
        None => Seq::empty(),
    }
}

/// The `IFLA_BR_HELLO_TIME` attribute, when set.
pub open spec fn hello_time_attrs(o: BridgeOptionsView) -> Seq<BridgeAttr> {
    match o.hello_time {
        Some(v) => seq![BridgeAttr::HelloTime(v)],
        None => Seq::empty(),
    }
}

/// The `IFLA_BR_MAX_AGE` attribute, when set.
pub open spec fn max_age_attrs(o: BridgeOptionsView) -> Seq<BridgeAttr> {
    match o.max_age {
        Some(v) => seq![BridgeAttr::MaxAge(v)],
        None => Seq::empty(),
    }
}

/// The `IFLA_BR_AGEING_TIME` attribute, when set.
pub open spec fn ageing_time_attrs(o: BridgeOptionsView) -> Seq<BridgeAttr> {
    match o.ageing_time {
        Some(v) => seq![BridgeAttr::AgeingTime(v)],
        None => Seq::empty(),
    }
}

/// The `IFLA_BR_PRIORITY` attribute, when set.
pub open spec fn priority_attrs(o: BridgeOptionsView) -> Seq<BridgeAttr> {
    match o.priority {
        Some(v) => seq![BridgeAttr::Priority(v)],
        None => Seq::empty(),
    }
}

/// The `IFLA_BR_VLAN_FILTERING` attribute (0 or 1), when set.
pub open spec fn vlan_filtering_attrs(o: BridgeOptionsView) -> Seq<BridgeAttr> {
    match o.vlan_filtering {
        Some(on) => seq![BridgeAttr::VlanFiltering(if on { 1 } else { 0 })],
        None => Seq::empty(),
    }
}

/// The `IFLA_INFO_DATA` attributes for a set of options: STP state, forward
/// delay, hello time, max age, ageing time, priority and VLAN filtering, in
/// that order, each only when set.
pub open spec fn info_data_attrs(o: BridgeOptionsView) -> Seq<BridgeAttr> {
    stp_attrs(o) + forward_delay_attrs(o) + hello_time_attrs(o) + max_age_attrs(o)
        + ageing_time_attrs(o) + priority_attrs(o) + vlan_filtering_attrs(o)
}

/// The `IFLA_LINKINFO` attribute for a bridge: kind `bridge`, then the
/// options as `IFLA_INFO_DATA` unless there are none.
pub open spec fn linkinfo_attr(o: BridgeOptionsView) -> LinkAttrView {
    LinkAttrView::LinkInfo(
        seq![LinkInfoAttrView::Kind("bridge"@)] + if options_empty(o) {
            Seq::empty()
        } else {
            seq![LinkInfoAttrView::Data(info_data_attrs(o))]
        },
    )
}

/// The data attributes are empty exactly when no option is set.
pub proof fn lemma_info_data_empty_iff(o: BridgeOptionsView)
    ensures
        info_data_attrs(o).len() == 0 <==> options_empty(o),
{
}

/// The STP and VLAN-filtering attributes carry the requested setting: STP
/// comes first as `StpState(1)` when on and `StpState(0)` when off, and VLAN
/// filtering comes last as `VlanFiltering(1)` when on and `VlanFiltering(0)`
/// when off.
pub proof fn lemma_switches_carry_setting(o: BridgeOptionsView)
    ensures
        o.stp matches Some(on) ==> (info_data_attrs(o).len() > 0 && (info_data_attrs(o)[0]
            matches BridgeAttr::StpState(v) && (v == 1 <==> on) && (v == 0 <==> !on))),
        o.vlan_filtering matches Some(on) ==> (info_data_attrs(o).len() > 0 && (info_data_attrs(
            o,
        ).last() matches BridgeAttr::VlanFiltering(v) && (v == 1 <==> on) && (v == 0 <==> !on))),
{
}

impl Default for BridgeOptions {
    /// Options that change nothing.
    fn default() -> (r: BridgeOptions)
        ensures
            r@ == no_bridge_options(),
    {
        BridgeOptions::new()
    }
}

impl BridgeOptions {
    /// Create an empty set of options that changes nothing.
    pub fn new() -> (r: BridgeOptions)
        ensures
            r@ == no_bridge_options(),
    {
        BridgeOptions {
            stp: None,
            forward_delay: None,
            hello_time: None,
            max_age: None,
            ageing_time: None,
            priority: None,
            vlan_filtering: None,
        }
    }

    /// Enable or disable IEEE 802.1d Spanning Tree Protocol (`IFLA_BR_STP_STATE`).
    pub fn stp(self, on: bool) -> (r: BridgeOptions)
        ensures
            r@ == (BridgeOptionsView { stp: Some(on), ..self@ }),
    {
        BridgeOptions { stp: Some(on), ..self }
    }

    /// Set the forward delay (`IFLA_BR_FORWARD_DELAY`).
    pub fn forward_delay(self, value: u32) -> (r: BridgeOptions)
        ensures
            r@ == (BridgeOptionsView { forward_delay: Some(value), ..self@ }),
    {
        BridgeOptions { forward_delay: Some(value), ..self }
    }

    /// Set the hello time (`IFLA_BR_HELLO_TIME`).
    pub fn hello_time(self, value: u32) -> (r: BridgeOptions)
        ensures
            r@ == (BridgeOptionsView { hello_time: Some(value), ..self@ }),
    {
        BridgeOptions { hello_time: Some(value), ..self }
    }

    /// Set the max age (`IFLA_BR_MAX_AGE`).
    pub fn max_age(self, value: u32) -> (r: BridgeOptions)
        ensures
            r@ == (BridgeOptionsView { max_age: Some(value), ..self@ }),
    {
        BridgeOptions { max_age: Some(value), ..self }
    }

    /// Set the FDB ageing time (`IFLA_BR_AGEING_TIME`).
    pub fn ageing_time(self, value: u32) -> (r: BridgeOptions)
        ensures
            r@ == (BridgeOptionsView { ageing_time: Some(value), ..self@ }),
    {
        BridgeOptions { ageing_time: Some(value), ..self }
    }

    /// Set the bridge priority (`IFLA_BR_PRIORITY`); lower wins root election.
    pub fn priority(self, value: u16) -> (r: BridgeOptions)
        ensures
            r@ == (BridgeOptionsView { priority: Some(value), ..self@ }),
    {
        BridgeOptions { priority: Some(value), ..self }
    }

    /// Enable or disable 802.1q VLAN filtering (`IFLA_BR_VLAN_FILTERING`).
    pub fn vlan_filtering(self, on: bool) -> (r: BridgeOptions)
        ensures
            r@ == (BridgeOptionsView { vlan_filtering: Some(on), ..self@ }),
    {
        BridgeOptions { vlan_filtering: Some(on), ..self }
    }

    /// Whether no option has been set (so there is nothing to send).
    pub fn is_empty(&self) -> (r: bool)
        ensures
            r == options_empty(self@),
    {
        self.stp.is_none() && self.forward_delay.is_none() && self.hello_time.is_none()
            && self.max_age.is_none() && self.ageing_time.is_none() && self.priority.is_none()
            && self.vlan_filtering.is_none()
    }

    /// Encodes the options as the attributes of the nested
    /// `IFLA_INFO_DATA`.
    pub fn to_info_data(&self) -> (r: Vec<BridgeAttr>)
        ensures
            r@ == info_data_attrs(self@),
    {
        let ghost o = self@;
        let mut data: Vec<BridgeAttr> = Vec::new();
        push_opt(
            &mut data,
            match self.stp {
                Some(on) => Some(BridgeAttr::StpState(if on { 1 } else { 0 })),
                None => None,
            },
        );
        push_opt(
            &mut data,
            match self.forward_delay {
                Some(v) => Some(BridgeAttr::ForwardDelay(v)),
                None => None,
            },
        );
        push_opt(
            &mut data,
            match self.hello_time {
                Some(v) => Some(BridgeAttr::HelloTime(v)),
                None => None,
            },
        );
        push_opt(
            &mut data,
            match self.max_age {
                Some(v) => Some(BridgeAttr::MaxAge(v)),
                None => None,
            },
        );
        push_opt(
            &mut data,
            match self.ageing_time {
                Some(v) => Some(BridgeAttr::AgeingTime(v)),
                None => None,
            },
        );
        push_opt(
            &mut data,
            match self.priority {
                Some(v) => Some(BridgeAttr::Priority(v)),
                None => None,
            },
        );
        push_opt(
            &mut data,
            match self.vlan_filtering {
                Some(on) => Some(BridgeAttr::VlanFiltering(if on { 1 } else { 0 })),
                None => None,
            },
        );
        assert(data@ =~= info_data_attrs(o));
        data
    }
}

/// The attribute, if any, as a sequence.
pub open spec fn opt_seq(a: Option<BridgeAttr>) -> Seq<BridgeAttr> {
    match a {
        Some(a) => seq![a],
        None => Seq::empty(),
    }
}

/// Appends the attribute, if any.
fn push_opt(data: &mut Vec<BridgeAttr>, a: Option<BridgeAttr>)
    ensures
        final(data)@ == old(data)@ + opt_seq(a),
{
    if let Some(a) = a {
        data.push(a);
    }
    assert(data@ =~= old(data)@ + opt_seq(a));
}

/// Builds the `IFLA_LINKINFO` attribute of a bridge with these options.
pub fn build_linkinfo(options: &BridgeOptions) -> (r: LinkAttr)
    ensures
        r@ == linkinfo_attr(options@),
{
    let mut info: Vec<LinkInfoAttr> = Vec::new();
    proof {
        reveal_strlit("bridge");
    }
    info.push(LinkInfoAttr::Kind(String::from_str("bridge")));
    if !options.is_empty() {
        info.push(LinkInfoAttr::Data(options.to_info_data()));
    }
    assert(link_info_view(info@) =~= seq![LinkInfoAttrView::Kind("bridge"@)] + if options_empty(
        options@,
    ) {
        Seq::empty()
    } else {
        seq![LinkInfoAttrView::Data(info_data_attrs(options@))]
    });
    LinkAttr::LinkInfo(info)
}

/// Result of creating a bridge.
#[derive(Debug)]
pub struct BridgeCreateResponse {
    /// Name the bridge was created with.
    pub name: String,
}

/// Result of updating a bridge.
#[derive(Debug)]
pub struct BridgeSetResponse {
    /// Index of the bridge that was modified.
    pub if_index: u32,
}

/// A request to create a bridge device.
pub struct BridgeCreateRequest {
    name: String,
    options: BridgeOptions,
    address: Option<[u8; 6]>,
}

/// The value of a [`BridgeCreateRequest`].
pub struct BridgeCreateRequestView {
    pub name: Seq<char>,
    pub options: BridgeOptionsView,
    pub address: Option<[u8; 6]>,
}

impl View for BridgeCreateRequest {
    type V = BridgeCreateRequestView;

    closed spec fn view(&self) -> BridgeCreateRequestView {
        BridgeCreateRequestView {
            name: self.name@,
            options: self.options@,
            address: self.address,
        }
    }
}

/// The attributes that create a bridge: its name, its hardware address when
/// given, and its link info.
pub open spec fn create_attrs(v: BridgeCreateRequestView) -> Seq<LinkAttrView> {
    seq![LinkAttrView::Ifname(v.name)] + (if v.address is Some {
        seq![LinkAttrView::Address(v.address->0@)]
    } else {
        Seq::empty()
    }) + seq![linkinfo_attr(v.options)]
}

impl BridgeCreateRequest {
    /// A bridge with the given name, default options and a kernel-chosen
    /// address.
    pub fn new(name: &str) -> (r: BridgeCreateRequest)
        ensures
            r@ == (BridgeCreateRequestView {
                name: name@,
                options: no_bridge_options(),
                address: None,
            }),
    {
        BridgeCreateRequest { name: String::from_str(name), options: BridgeOptions::new(), address: None }
    }

    /// Create the bridge with these options.
    pub fn options(self, options: BridgeOptions) -> (r: BridgeCreateRequest)
        ensures
            r@ == (BridgeCreateRequestView { options: options@, ..self@ }),
    {
        BridgeCreateRequest { options, ..self }
    }

    /// Create the bridge with this hardware address.
    pub fn address(self, mac: [u8; 6]) -> (r: BridgeCreateRequest)
        ensures
            r@ == (BridgeCreateRequestView { address: Some(mac), ..self@ }),
    {
        BridgeCreateRequest { address: Some(mac), ..self }
    }

    /// The request to send: `RTM_NEWLINK` with `NLM_F_CREATE | NLM_F_EXCL |
    /// NLM_F_ACK` (so it fails if a link with the name already exists, as
    /// `ip link add` does) and an `AF_UNSPEC` `ifinfomsg` carrying the name,
    /// the address and the bridge link info.
    pub fn request(&self) -> (r: Request<LinkRequestMsg>)
        ensures
            r.command == RtmCommand::Newlink,
            r.flags == NlFlags::spec_create_exclusive(),
            r.message.family == AF_UNSPEC,
            r.message.index == 0,
            r.message.flags == 0,
            r.message.change == 0,
            link_attrs_view(r.message.attrs@) == create_attrs(self@),
    {
        let mut attrs: Vec<LinkAttr> = Vec::new();
        attrs.push(LinkAttr::Ifname(self.name.clone()));
        if let Some(address) = self.address {
            attrs.push(LinkAttr::Address(address));
        }
        attrs.push(build_linkinfo(&self.options));
        assert(link_attrs_view(attrs@) =~= create_attrs(self@));
        Request {
            command: RtmCommand::Newlink,
            flags: NlFlags::create_exclusive(),
            message: LinkRequestMsg { family: AF_UNSPEC, index: 0, flags: 0, change: 0, attrs },
        }
    }

    /// The response once the kernel acknowledged the request.
    pub fn response(&self) -> (r: BridgeCreateResponse)
        ensures
            r.name@ == self@.name,
    {
        BridgeCreateResponse { name: self.name.clone() }
    }
}

/// A request to update the options of an existing bridge.
pub struct BridgeSetRequest {
    if_index: u32,
    options: BridgeOptions,
}

/// The value of a [`BridgeSetRequest`].
pub struct BridgeSetRequestView {
    pub if_index: u32,
    pub options: BridgeOptionsView,
}

impl View for BridgeSetRequest {
    type V = BridgeSetRequestView;

    closed spec fn view(&self) -> BridgeSetRequestView {
        BridgeSetRequestView { if_index: self.if_index, options: self.options@ }
    }
}

impl BridgeSetRequest {
    /// Build a request targeting the bridge with the given name.
    pub fn for_ifname(ifname: &str) -> (r: Result<BridgeSetRequest, Error>)
        ensures
            r matches Ok(req) ==> req@.if_index != 0 && req@.options == no_bridge_options()
                && lookup_may_resolve(ifname@, Ok(req@.if_index)),
            r matches Err(e) ==> e@ is InterfaceLookup && e@->ifname == ifname@
                && lookup_may_resolve(ifname@, Err(e@->errno)),
    {
        Ok(Self::for_index(resolve_ifname(ifname)?))
    }

    /// Build a request targeting the bridge with the given index.
    pub fn for_index(if_index: u32) -> (r: BridgeSetRequest)
        ensures
            r@ == (BridgeSetRequestView { if_index, options: no_bridge_options() }),
    {
        BridgeSetRequest { if_index, options: BridgeOptions::new() }
    }

    /// Apply the given options to the bridge.
    pub fn options(self, options: BridgeOptions) -> (r: BridgeSetRequest)
        ensures
            r@ == (BridgeSetRequestView { options: options@, ..self@ }),
    {
        BridgeSetRequest { options, ..self }
    }

    /// The request to send: `RTM_NEWLINK` with `NLM_F_ACK` for the bridge,
    /// carrying only its link info.
    pub fn request(&self) -> (r: Request<LinkRequestMsg>)
        ensures
            r.command == RtmCommand::Newlink,
            r.flags == NlFlags::spec_ack(),
            r.message.family == AF_UNSPEC,
            r.message.index == self@.if_index as i32,
            r.message.flags == 0,
            r.message.change == 0,
            link_attrs_view(r.message.attrs@) == seq![linkinfo_attr(self@.options)],
    {
        let mut attrs: Vec<LinkAttr> = Vec::new();
        attrs.push(build_linkinfo(&self.options));
        assert(link_attrs_view(attrs@) =~= seq![linkinfo_attr(self@.options)]);
        Request {
            command: RtmCommand::Newlink,
            flags: NlFlags::ack(),
            message: LinkRequestMsg {
                family: AF_UNSPEC,
                index: self.if_index as i32,
                flags: 0,
                change: 0,
                attrs,
            },
        }
    }

    /// The response once the kernel acknowledged the request.
    pub fn response(&self) -> (r: BridgeSetResponse)
        ensures
            r.if_index == self@.if_index,
    {
        BridgeSetResponse { if_index: self.if_index }
    }
}

} // verus!
