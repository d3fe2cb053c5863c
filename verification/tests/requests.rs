use ip_nlroute::addr::flush::AddrFlushRequest;
use ip_nlroute::addr::get::AddrGetRequest;
use ip_nlroute::cli::{
    addr_main, addr_show_request, link_main, link_show_request, route_main, AddrArgs,
    AddrShowArgs, AddrSubcommand, LinkArgs, LinkShowArgs, LinkSubcommand, RouteArgs,
    RouteSubcommand,
};
use ip_nlroute::link::bridge::{build_linkinfo, BridgeCreateRequest, BridgeOptions, BridgeSetRequest};
use ip_nlroute::link::bridge_vlan::{BridgeVlanAddRequest, BridgeVlanDelRequest};
use ip_nlroute::link::delete::LinkDeleteRequest;
use ip_nlroute::link::get::LinkGetRequest;
use ip_nlroute::link::set::LinkSetRequest;
use ip_nlroute::request::{BridgeAfAttr, BridgeAttr, LinkAttr, LinkInfoAttr, NlFlags, RtmCommand};
use ip_nlroute::route::get::RouteGetRequest;
use ip_nlroute::Error;

fn ack() -> NlFlags {
    NlFlags { dump: false, ack: true, create: false, excl: false }
}

fn dump() -> NlFlags {
    NlFlags { dump: true, ack: false, create: false, excl: false }
}

#[test]
fn link_set_flags_and_change() {
    let r = LinkSetRequest::for_index(4).promisc(false).up(true).request();
    assert_eq!(r.command, RtmCommand::Newlink);
    assert_eq!(r.flags, ack());
    assert_eq!(r.message.index, 4);
    assert_eq!(r.message.family, 0);
    assert_eq!(r.message.change, 0x100 | 0x1);
    assert_eq!(r.message.flags, 0x1);
    assert!(r.message.attrs.is_empty());
}

#[test]
fn link_set_nothing_requested() {
    let r = LinkSetRequest::for_index(4).request();
    assert_eq!((r.message.flags, r.message.change), (0, 0));
    assert!(r.message.attrs.is_empty());
}

#[test]
fn link_set_attributes_in_order() {
    let r = LinkSetRequest::for_index(9)
        .mtu(9000)
        .address([2, 0, 0, 0, 0, 7])
        .master(3)
        .promisc(true)
        .request();
    assert_eq!(r.message.flags, 0x100);
    assert_eq!(r.message.change, 0x100);
    assert_eq!(
        r.message.attrs,
        vec![LinkAttr::Master(3), LinkAttr::Address([2, 0, 0, 0, 0, 7]), LinkAttr::Mtu(9000)]
    );
    assert_eq!(LinkSetRequest::for_index(9).response().if_index, 9);
}

#[test]
fn link_set_nomaster_detaches() {
    let r = LinkSetRequest::for_index(2).master(8).nomaster().request();
    assert_eq!(r.message.attrs, vec![LinkAttr::Master(0)]);
}

#[test]
fn link_set_last_setting_wins() {
    let r = LinkSetRequest::for_index(2).up(true).up(false).mtu(1).mtu(1400).request();
    assert_eq!(r.message.change, 0x1);
    assert_eq!(r.message.flags, 0);
    assert_eq!(r.message.attrs, vec![LinkAttr::Mtu(1400)]);
}

#[test]
fn link_set_unknown_master_name() {
    let r = LinkSetRequest::for_index(2).master_ifname("no-such-if-zz8");
    assert!(matches!(r, Err(Error::InterfaceLookup { .. })));
}

#[test]
fn bridge_options_encode_in_order() {
    let o = BridgeOptions::new()
        .vlan_filtering(true)
        .priority(0x8000)
        .stp(false)
        .forward_delay(1500)
        .hello_time(200)
        .max_age(2000)
        .ageing_time(30000);
    assert!(!o.is_empty());
    assert_eq!(
        o.to_info_data(),
        vec![
            BridgeAttr::StpState(0),
            BridgeAttr::ForwardDelay(1500),
            BridgeAttr::HelloTime(200),
            BridgeAttr::MaxAge(2000),
            BridgeAttr::AgeingTime(30000),
            BridgeAttr::Priority(0x8000),
            BridgeAttr::VlanFiltering(1),
        ]
    );
    let types: Vec<u16> = o.to_info_data().iter().map(|a| a.attr_type()).collect();
    assert_eq!(types, vec![5, 1, 2, 3, 4, 6, 7]);
}

#[test]
fn bridge_options_empty() {
    let o = BridgeOptions::new();
    assert!(o.is_empty());
    assert!(o.to_info_data().is_empty());
    assert_eq!(BridgeOptions::default(), o);
    assert_eq!(build_linkinfo(&o), LinkAttr::LinkInfo(vec![LinkInfoAttr::Kind("bridge".to_string())]));
    assert!(!BridgeOptions::new().stp(true).is_empty());
}

#[test]
fn bridge_create_request() {
    let r = BridgeCreateRequest::new("br0")
        .address([2, 1, 1, 1, 1, 1])
        .options(BridgeOptions::new().stp(true))
        .request();
    assert_eq!(r.command, RtmCommand::Newlink);
    assert_eq!(r.flags, NlFlags { dump: false, ack: true, create: true, excl: true });
    assert_eq!(r.message.index, 0);
    assert_eq!(
        r.message.attrs,
        vec![
            LinkAttr::Ifname("br0".to_string()),
            LinkAttr::Address([2, 1, 1, 1, 1, 1]),
            LinkAttr::LinkInfo(vec![
                LinkInfoAttr::Kind("bridge".to_string()),
                LinkInfoAttr::Data(vec![BridgeAttr::StpState(1)]),
            ]),
        ]
    );
    assert_eq!(BridgeCreateRequest::new("br0").response().name, "br0");
}

#[test]
fn bridge_create_without_address() {
    let r = BridgeCreateRequest::new("br1").request();
    assert_eq!(
        r.message.attrs,
        vec![
            LinkAttr::Ifname("br1".to_string()),
            LinkAttr::LinkInfo(vec![LinkInfoAttr::Kind("bridge".to_string())]),
        ]
    );
}

#[test]
fn bridge_set_request() {
    let r = BridgeSetRequest::for_index(6).options(BridgeOptions::new().ageing_time(10)).request();
    assert_eq!(r.command, RtmCommand::Newlink);
    assert_eq!(r.flags, ack());
    assert_eq!(r.message.index, 6);
    assert_eq!(
        r.message.attrs,
        vec![LinkAttr::LinkInfo(vec![
            LinkInfoAttr::Kind("bridge".to_string()),
            LinkInfoAttr::Data(vec![BridgeAttr::AgeingTime(10)]),
        ])]
    );
    assert_eq!(BridgeSetRequest::for_index(6).response().if_index, 6);
}

#[test]
fn vlan_add_access_port() {
    let r = BridgeVlanAddRequest::for_index(5, 100).pvid(true).untagged(true).request();
    assert_eq!(r.command, RtmCommand::Setlink);
    assert_eq!(r.flags, ack());
    assert_eq!(r.message.family, 7);
    assert_eq!(r.message.index, 5);
    assert_eq!(
        r.message.attrs,
        vec![LinkAttr::AfSpec(vec![BridgeAfAttr::VlanInfo { flags: 2 | 4, vid: 100 }])]
    );
    let resp = BridgeVlanAddRequest::for_index(5, 100).response();
    assert_eq!((resp.if_index, resp.vid), (5, 100));
}

#[test]
fn vlan_add_on_bridge_itself() {
    let r = BridgeVlanAddRequest::for_index(3, 20).self_link(true).request();
    assert_eq!(
        r.message.attrs,
        vec![LinkAttr::AfSpec(vec![
            BridgeAfAttr::Flags(2),
            BridgeAfAttr::VlanInfo { flags: 0, vid: 20 },
        ])]
    );
    assert_eq!(BridgeAfAttr::Flags(2).attr_type(), 0);
    assert_eq!(BridgeAfAttr::VlanInfo { flags: 0, vid: 20 }.attr_type(), 2);
}

#[test]
fn vlan_del_request() {
    let r = BridgeVlanDelRequest::for_index(3, 20).self_link(true).request();
    assert_eq!(r.command, RtmCommand::Dellink);
    assert_eq!(
        r.message.attrs,
        vec![LinkAttr::AfSpec(vec![
            BridgeAfAttr::Flags(2),
            BridgeAfAttr::VlanInfo { flags: 0, vid: 20 },
        ])]
    );
    let plain = BridgeVlanDelRequest::for_index(3, 20).request();
    assert_eq!(plain.message.attrs, vec![LinkAttr::AfSpec(vec![BridgeAfAttr::VlanInfo { flags: 0, vid: 20 }])]);
    assert_eq!(BridgeVlanDelRequest::for_index(3, 20).response().vid, 20);
}

#[test]
fn link_delete_request() {
    let r = LinkDeleteRequest::for_index(12).request();
    assert_eq!(r.command, RtmCommand::Dellink);
    assert_eq!(r.flags, ack());
    assert_eq!(r.message.index, 12);
    assert!(r.message.attrs.is_empty());
    assert_eq!(LinkDeleteRequest::for_index(12).response().if_index, 12);
}

#[test]
fn large_index_wraps_to_negative() {
    let r = LinkDeleteRequest::for_index(0xffff_ffff).request();
    assert_eq!(r.message.index, -1);
}

#[test]
fn dump_requests() {
    let a = AddrGetRequest::all().request();
    assert_eq!(a.command, RtmCommand::Getaddr);
    assert_eq!(a.flags, dump());
    assert_eq!((a.message.family, a.message.index, a.message.scope), (2, 0, 0));
    assert_eq!(AddrGetRequest::for_index(3).request().message.index, 3);
    let f = AddrFlushRequest::for_index(8).request();
    assert_eq!((f.command, f.message.index), (RtmCommand::Getaddr, 8));
    let l = LinkGetRequest::for_index(3).request();
    assert_eq!(l.command, RtmCommand::Getlink);
    assert_eq!((l.message.index, l.message.family), (0, 0));
    let r = RouteGetRequest::new().request();
    assert_eq!(r.command, RtmCommand::Getroute);
    assert_eq!(r.flags, dump());
    assert_eq!((r.message.family, r.message.table, r.message.scope, r.message.route_type), (2, 0, 0, 0));
}

#[test]
fn unknown_interface_names_fail() {
    assert!(matches!(AddrGetRequest::for_ifname("no-such-if-zz7"), Err(Error::InterfaceLookup { .. })));
    assert!(matches!(LinkGetRequest::for_ifname("no-such-if-zz7"), Err(Error::InterfaceLookup { .. })));
    assert!(matches!(AddrFlushRequest::for_ifname("no-such-if-zz7"), Err(Error::InterfaceLookup { .. })));
    assert!(matches!(LinkDeleteRequest::for_ifname("no-such-if-zz7"), Err(Error::InterfaceLookup { .. })));
    assert!(matches!(BridgeSetRequest::for_ifname("no-such-if-zz7"), Err(Error::InterfaceLookup { .. })));
    assert!(matches!(BridgeVlanAddRequest::for_ifname("no-such-if-zz7", 1), Err(Error::InterfaceLookup { .. })));
    assert!(matches!(BridgeVlanDelRequest::for_ifname("no-such-if-zz7", 1), Err(Error::InterfaceLookup { .. })));
    assert!(matches!(LinkSetRequest::for_ifname("no-such-if-zz7"), Err(Error::InterfaceLookup { .. })));
}

#[test]
fn cli_dispatch() {
    let a = addr_main(AddrArgs { sc: None });
    assert_eq!(a.ifname, None);
    let a = addr_main(AddrArgs { sc: Some(AddrSubcommand::Show(AddrShowArgs { ifname: Some("eth0".to_string()) })) });
    assert_eq!(a.ifname.as_deref(), Some("eth0"));
    let l = link_main(LinkArgs { sc: Some(LinkSubcommand::Show(LinkShowArgs { ifname: None })) });
    assert_eq!(l.ifname, None);
    assert_eq!(link_main(LinkArgs { sc: None }).ifname, None);
    let r = route_main(RouteArgs { sc: Some(RouteSubcommand::Show) }).request();
    assert_eq!(r.command, RtmCommand::Getroute);
    let _ = route_main(RouteArgs { sc: None });
}

#[test]
fn cli_show_requests() {
    let a = addr_show_request(&AddrShowArgs::default()).unwrap().request();
    assert_eq!(a.message.index, 0);
    let l = link_show_request(&LinkShowArgs::default()).unwrap().request();
    assert_eq!(l.command, RtmCommand::Getlink);
    assert!(addr_show_request(&AddrShowArgs { ifname: Some("no-such-if-zz6".to_string()) }).is_err());
    assert!(link_show_request(&LinkShowArgs { ifname: Some("no-such-if-zz6".to_string()) }).is_err());
}
