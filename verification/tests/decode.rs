use ip_nlroute::addr::flags::AddressFlags;
use ip_nlroute::link::flags::LinkFlags;
use ip_nlroute::link::get_response::{HwAddr, LinkType};
use ip_nlroute::mappers::{
    lookup_result, resolve_ifname, rtattr_to_ipv4, rtattr_to_string, rtattr_to_u32, trim_nuls,
};
use ip_nlroute::nl::{Ipv4Address, RawAttr};
use ip_nlroute::route::get::route_covers;
use ip_nlroute::route::get_response::{RouteFlags, RouteProtocol, RouteScope, RouteType};
use ip_nlroute::Error;

fn attr(ty: u16, payload: &[u8]) -> RawAttr {
    RawAttr { ty, payload: payload.to_vec() }
}

#[test]
fn link_type_maps_named_values() {
    assert_eq!(LinkType::from(1), LinkType::Ether);
    assert_eq!(LinkType::from(772), LinkType::Loopback);
    assert_eq!(LinkType::from(801), LinkType::Ieee80211);
    assert_eq!(LinkType::from(0), LinkType::Netrom);
    assert_eq!(LinkType::from(0xFFFE), LinkType::NoLinkHeader);
    assert_eq!(LinkType::from(0xFFFF), LinkType::Void);
}

#[test]
fn link_type_keeps_unnamed_values() {
    assert_eq!(LinkType::from(9), LinkType::Other(9));
    assert_eq!(LinkType::from(1000), LinkType::Other(1000));
}

#[test]
fn hwaddr_renders_colon_hex() {
    let h = HwAddr(vec![0x02, 0xab, 0x00, 0x10, 0xff, 0x9c]);
    assert_eq!(h.to_string(), "02:ab:00:10:ff:9c");
    assert_eq!(HwAddr(vec![0x0a]).to_string(), "0a");
    assert_eq!(HwAddr(vec![]).to_string(), "");
}

#[test]
fn address_flags_decode_each_bit() {
    let f = AddressFlags::from_bits(0x80 | 0x01);
    assert!(f.permanent && f.secondary);
    assert!(!f.nodad && !f.optimistic && !f.dadfailed && !f.homeaddress && !f.deprecated && !f.tentative);
    let g = AddressFlags::from_bits(0x02 | 0x04 | 0x08 | 0x10 | 0x20 | 0x40);
    assert!(g.nodad && g.optimistic && g.dadfailed && g.homeaddress && g.deprecated && g.tentative);
    assert!(!g.permanent && !g.secondary);
    assert_eq!(AddressFlags::default(), AddressFlags::from_bits(0));
}

#[test]
fn link_flags_decode_each_bit() {
    let f = LinkFlags::from_bits(0x1 | 0x40 | 0x1000 | 0x10000);
    assert!(f.up && f.running && f.multicast && f.lower_up);
    assert!(!f.broadcast && !f.loopback && !f.promisc && !f.dormant && !f.master && !f.slave);
    let g = LinkFlags::from_bits(0x8 | 0x100 | 0x20000);
    assert!(g.loopback && g.promisc && g.dormant && !g.up);
    assert_eq!(LinkFlags::default(), LinkFlags::from_bits(0));
}

#[test]
fn route_flags_decode_each_bit() {
    let f = RouteFlags::from_bits(4 | 16);
    assert!(f.onlink && f.linkdown);
    assert!(!f.dead && !f.pervasive && !f.offload && !f.unresolved && !f.trap);
    let g = RouteFlags::from_bits(1 | 2 | 8 | 32 | 64);
    assert!(g.dead && g.pervasive && g.offload && g.unresolved && g.trap && !g.onlink);
    assert_eq!(RouteFlags::default(), RouteFlags::from_bits(0));
}

#[test]
fn route_enums_from_raw() {
    assert_eq!(RouteProtocol::from_raw(2), RouteProtocol::Kernel);
    assert_eq!(RouteProtocol::from_raw(4), RouteProtocol::Static);
    assert_eq!(RouteProtocol::from_raw(16), RouteProtocol::Dhcp);
    assert_eq!(RouteProtocol::from_raw(186), RouteProtocol::Other(186));
    assert_eq!(RouteScope::from_raw(0), RouteScope::Universe);
    assert_eq!(RouteScope::from_raw(253), RouteScope::Link);
    assert_eq!(RouteScope::from_raw(254), RouteScope::Host);
    assert_eq!(RouteScope::from_raw(7), RouteScope::Other(7));
    assert_eq!(RouteType::from_raw(1), RouteType::Unicast);
    assert_eq!(RouteType::from_raw(2), RouteType::Local);
    assert_eq!(RouteType::from_raw(11), RouteType::Xresolve);
    assert_eq!(RouteType::from_raw(12), RouteType::Other(12));
}

#[test]
fn ipv4_address_from_octets() {
    assert_eq!(Ipv4Address::new(192, 168, 1, 20).0, 0xc0a8_0114);
    assert_eq!(Ipv4Address::unspecified().0, 0);
}

#[test]
fn route_covers_default_route() {
    let t = Ipv4Address::new(8, 8, 8, 8);
    assert!(route_covers(None, 0, t));
    assert!(route_covers(Some(Ipv4Address::new(10, 0, 0, 0)), 0, t));
}

#[test]
fn route_covers_by_prefix() {
    let net = Some(Ipv4Address::new(192, 168, 1, 0));
    assert!(route_covers(net, 24, Ipv4Address::new(192, 168, 1, 77)));
    assert!(!route_covers(net, 24, Ipv4Address::new(192, 168, 2, 77)));
    assert!(route_covers(net, 16, Ipv4Address::new(192, 168, 2, 77)));
    assert!(route_covers(Some(Ipv4Address::new(10, 0, 0, 0)), 8, Ipv4Address::new(10, 200, 3, 4)));
    assert!(!route_covers(Some(Ipv4Address::new(10, 0, 0, 0)), 8, Ipv4Address::new(11, 0, 0, 1)));
    // a missing destination is 0.0.0.0
    assert!(route_covers(None, 8, Ipv4Address::new(0, 1, 2, 3)));
    assert!(!route_covers(None, 8, Ipv4Address::new(1, 1, 2, 3)));
}

#[test]
fn route_covers_host_route() {
    let h = Some(Ipv4Address::new(172, 16, 0, 9));
    assert!(route_covers(h, 32, Ipv4Address::new(172, 16, 0, 9)));
    assert!(!route_covers(h, 32, Ipv4Address::new(172, 16, 0, 8)));
    assert!(route_covers(h, 40, Ipv4Address::new(172, 16, 0, 9)));
    assert!(!route_covers(h, 31, Ipv4Address::new(172, 16, 0, 10)));
    assert!(route_covers(h, 31, Ipv4Address::new(172, 16, 0, 8)));
}

#[test]
fn ipv4_attribute_is_network_order() {
    let a = rtattr_to_ipv4(&attr(1, &[192, 168, 1, 20])).unwrap();
    assert_eq!(a, Ipv4Address::new(192, 168, 1, 20));
    // bytes after the first four are ignored
    let b = rtattr_to_ipv4(&attr(1, &[10, 0, 0, 1, 99])).unwrap();
    assert_eq!(b, Ipv4Address::new(10, 0, 0, 1));
}

#[test]
fn ipv4_attribute_too_short() {
    assert_eq!(rtattr_to_ipv4(&attr(1, &[1, 2, 3])), Err(Error::Deserialise { what: "IPv4 address" }));
}

#[test]
fn u32_attribute_is_host_order() {
    assert_eq!(rtattr_to_u32(&attr(4, &1500u32.to_ne_bytes()), "link MTU"), Ok(1500));
    assert_eq!(rtattr_to_u32(&attr(4, &[1, 2]), "link MTU"), Err(Error::Deserialise { what: "link MTU" }));
}

#[test]
fn string_attribute_drops_terminator() {
    assert_eq!(rtattr_to_string(&attr(3, b"eth0\0")), Ok("eth0".to_string()));
    assert_eq!(rtattr_to_string(&attr(3, b"\0")), Ok(String::new()));
    // the last byte is dropped whatever it is
    assert_eq!(rtattr_to_string(&attr(3, b"lo")), Ok("l".to_string()));
}

#[test]
fn string_attribute_not_utf8() {
    assert_eq!(
        rtattr_to_string(&attr(3, &[0xff, 0xfe, 0])),
        Err(Error::Deserialise { what: "string attribute" })
    );
}

#[test]
fn trim_nuls_removes_trailing_only() {
    assert_eq!(trim_nuls("br0\0\0"), "br0");
    assert_eq!(trim_nuls("a\0b\0"), "a\0b");
    assert_eq!(trim_nuls("\0\0"), "");
    assert_eq!(trim_nuls("plain"), "plain");
}

#[test]
fn lookup_result_maps_errno() {
    assert_eq!(lookup_result("eth9", Ok(4)), Ok(4));
    assert_eq!(
        lookup_result("eth9", Err(19)),
        Err(Error::InterfaceLookup { ifname: "eth9".to_string(), errno: 19 })
    );
}

#[test]
fn resolve_unknown_interface_fails() {
    let r = resolve_ifname("no-such-if-zz9");
    match r {
        Err(Error::InterfaceLookup { ifname, .. }) => assert_eq!(ifname, "no-such-if-zz9"),
        other => panic!("unexpected {:?}", other),
    }
}
