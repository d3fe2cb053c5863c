use ip_nlroute::addr::flush::{AddrFlushAction, AddrFlushRequest};
use ip_nlroute::addr::get::AddrGetRequest;
use ip_nlroute::link::get::LinkGetRequest;
use ip_nlroute::link::get_response::{HwAddr, LinkType};
use ip_nlroute::nl::{AddrMsg, Ipv4Address, LinkMsg, RawAttr, Reply, RouteMsg};
use ip_nlroute::request::RtmCommand;
use ip_nlroute::route::get::RouteGetRequest;
use ip_nlroute::route::get_response::{RouteProtocol, RouteScope, RouteType};
use ip_nlroute::Error;

fn attr(ty: u16, payload: &[u8]) -> RawAttr {
    RawAttr { ty, payload: payload.to_vec() }
}

fn nested(ty: u16, payload: &[u8]) -> Vec<u8> {
    let len = (4 + payload.len()) as u16;
    let mut out = Vec::new();
    out.extend_from_slice(&len.to_ne_bytes());
    out.extend_from_slice(&ty.to_ne_bytes());
    out.extend_from_slice(payload);
    while out.len() % 4 != 0 {
        out.push(0);
    }
    out
}

fn link_msg(index: i32, attrs: Vec<RawAttr>) -> LinkMsg {
    LinkMsg { family: 0, hw_type: 1, index, flags: 0x1 | 0x40, change: 0, attrs }
}

fn link_reply(index: i32, attrs: Vec<RawAttr>) -> Result<Reply<LinkMsg>, Error> {
    Ok(Reply { nl_type: 16, payload: Some(link_msg(index, attrs)) })
}

fn addr_msg(index: u32, prefix_len: u8, attrs: Vec<RawAttr>) -> AddrMsg {
    AddrMsg { family: 2, prefix_len, flags: 0x80, scope: 0, index, attrs }
}

fn addr_reply(index: u32, prefix_len: u8, attrs: Vec<RawAttr>) -> Result<Reply<AddrMsg>, Error> {
    Ok(Reply { nl_type: 20, payload: Some(addr_msg(index, prefix_len, attrs)) })
}

fn route_reply(table: u8, dst_len: u8, attrs: Vec<RawAttr>) -> Result<Reply<RouteMsg>, Error> {
    Ok(Reply {
        nl_type: 24,
        payload: Some(RouteMsg {
            family: 2,
            dst_len,
            src_len: 0,
            tos: 0,
            table,
            protocol: 4,
            scope: 0,
            route_type: 1,
            flags: 4,
            attrs,
        }),
    })
}

#[test]
fn link_dump_collects_every_link() {
    let linkinfo = nested(1, b"bridge\0");
    let replies = vec![
        link_reply(
            1,
            vec![
                attr(3, b"lo\0"),
                attr(4, &65536u32.to_ne_bytes()),
                attr(1, &[0, 0, 0, 0, 0, 0]),
            ],
        ),
        link_reply(
            5,
            vec![
                attr(3, b"br0\0"),
                attr(4, &1500u32.to_ne_bytes()),
                attr(1, &[0x02, 0xab, 0, 0, 0, 1]),
                attr(2, &[0xff; 6]),
                attr(18, &linkinfo),
            ],
        ),
        Ok(Reply { nl_type: 3, payload: None }),
    ];
    let resp = LinkGetRequest::all().collect(replies).unwrap().unwrap();
    assert_eq!(resp.links.len(), 2);
    let lo = &resp.links[&1];
    assert_eq!(lo.if_index, 1);
    assert_eq!(lo.if_name.as_deref(), Some("lo"));
    assert_eq!(lo.mtu, Some(65536));
    assert_eq!(lo.hw_type, LinkType::Ether);
    assert!(lo.flags.up && lo.flags.running && !lo.flags.promisc);
    assert_eq!(lo.kind, None);
    assert_eq!(lo.master, None);
    assert_eq!(lo.master_name, None);
    let br = &resp.links[&5];
    assert_eq!(br.if_name.as_deref(), Some("br0"));
    assert_eq!(br.kind.as_deref(), Some("bridge"));
    assert_eq!(br.address, Some(HwAddr(vec![0x02, 0xab, 0, 0, 0, 1])));
    assert_eq!(br.broadcast.as_ref().map(|h| h.to_string()), Some("ff:ff:ff:ff:ff:ff".to_string()));
    let order: Vec<u32> = resp.links_iter().iter().map(|l| l.if_index).collect();
    assert_eq!(order, vec![1, 5]);
    assert!(matches!(resp.get_only(), Err(Error::ExpectedExactlyOne { what: "link", len: 2 })));
}

#[test]
fn link_dump_filters_to_requested_index() {
    let replies = vec![
        link_reply(1, vec![attr(3, b"lo\0")]),
        link_reply(7, vec![attr(3, b"eth0\0"), attr(10, &5u32.to_ne_bytes())]),
    ];
    let resp = LinkGetRequest::for_index(7).collect(replies).unwrap().unwrap();
    let only = resp.get_only().unwrap();
    assert_eq!(only.if_index, 7);
    assert_eq!(only.if_name.as_deref(), Some("eth0"));
    assert_eq!(only.master, Some(5));
}

#[test]
fn link_dump_later_message_replaces_earlier() {
    let replies = vec![
        link_reply(3, vec![attr(3, b"old\0")]),
        link_reply(3, vec![attr(3, b"new\0"), attr(3, b"newer\0")]),
    ];
    let resp = LinkGetRequest::all().collect(replies).unwrap().unwrap();
    assert_eq!(resp.links.len(), 1);
    assert_eq!(resp.links[&3].if_name.as_deref(), Some("newer"));
}

#[test]
fn link_dump_unexpected_type() {
    let replies = vec![Ok(Reply { nl_type: 20, payload: Some(link_msg(1, vec![])) })];
    let r = LinkGetRequest::all().collect(replies).unwrap();
    assert_eq!(
        r.unwrap_err(),
        Error::UnexpectedNlType { expected: "Newlink".to_string(), actual: "Newaddr".to_string() }
    );
}

#[test]
fn link_dump_receive_error_passes_through() {
    let replies = vec![link_reply(1, vec![]), Err(Error::Receive("boom".to_string())), link_reply(2, vec![])];
    let r = LinkGetRequest::all().collect(replies).unwrap();
    assert_eq!(r.unwrap_err(), Error::Receive("boom".to_string()));
}

#[test]
fn link_dump_short_mtu() {
    let replies = vec![link_reply(1, vec![attr(4, &[1, 0])])];
    let r = LinkGetRequest::all().collect(replies).unwrap();
    assert_eq!(r.unwrap_err(), Error::Deserialise { what: "link MTU" });
}

#[test]
fn link_dump_empty_name_would_panic() {
    let replies = vec![link_reply(1, vec![attr(3, b"")])];
    assert!(LinkGetRequest::all().collect(replies).is_none());
}

#[test]
fn link_dump_empty_kind_would_panic() {
    let replies = vec![link_reply(1, vec![attr(18, &nested(1, b""))])];
    assert!(LinkGetRequest::all().collect(replies).is_none());
}

#[test]
fn link_dump_unparsable_linkinfo_has_no_kind() {
    let replies = vec![link_reply(1, vec![attr(18, &[1, 2])])];
    let resp = LinkGetRequest::all().collect(replies).unwrap().unwrap();
    assert_eq!(resp.links[&1].kind, None);
}

#[test]
fn addr_dump_groups_by_interface() {
    let replies = vec![
        addr_reply(2, 24, vec![attr(2, &[192, 168, 1, 20]), attr(1, &[192, 168, 1, 20]), attr(4, &[192, 168, 1, 255]), attr(3, b"eth0\0")]),
        addr_reply(1, 8, vec![attr(2, &[127, 0, 0, 1]), attr(1, &[127, 0, 0, 1]), attr(3, b"lo\0")]),
        addr_reply(2, 32, vec![attr(2, &[10, 0, 0, 1]), attr(1, &[10, 0, 0, 2])]),
        Ok(Reply { nl_type: 3, payload: None }),
    ];
    let resp = AddrGetRequest::all().collect(replies).unwrap().unwrap();
    assert_eq!(resp.interfaces.len(), 2);
    let eth = resp.interfaces[&2].addresses_v4();
    assert_eq!(eth.len(), 2);
    assert_eq!(eth[0].prefix_len, 24);
    assert_eq!(eth[0].ip(), Some(Ipv4Address::new(192, 168, 1, 20)));
    assert_eq!(eth[0].peer_ip(), None);
    assert_eq!(eth[0].broadcast, Some(Ipv4Address::new(192, 168, 1, 255)));
    assert_eq!(eth[0].label.as_deref(), Some("eth0"));
    assert!(eth[0].flags.permanent);
    assert_eq!(eth[1].ip(), Some(Ipv4Address::new(10, 0, 0, 1)));
    assert_eq!(eth[1].peer_ip(), Some(Ipv4Address::new(10, 0, 0, 2)));
    assert_eq!(eth[1].label, None);
    let order: Vec<usize> = resp.interfaces_iter().iter().map(|i| i.addresses_v4().len()).collect();
    assert_eq!(order, vec![1, 2]);
    assert!(matches!(resp.get_only(), Err(Error::ExpectedExactlyOne { what: "interface", len: 2 })));
}

#[test]
fn addr_dump_single_interface() {
    let replies = vec![addr_reply(4, 16, vec![attr(1, &[172, 16, 0, 1])])];
    let resp = AddrGetRequest::for_index(4).collect(replies).unwrap().unwrap();
    let iface = resp.get_only().unwrap();
    let a = &iface.addresses_v4()[0];
    assert_eq!(a.ip(), Some(Ipv4Address::new(172, 16, 0, 1)));
    assert_eq!(a.peer_ip(), None);
}

#[test]
fn addr_dump_empty_is_not_exactly_one() {
    let resp = AddrGetRequest::all().collect(vec![]).unwrap().unwrap();
    assert!(matches!(resp.get_only(), Err(Error::ExpectedExactlyOne { what: "interface", len: 0 })));
}

#[test]
fn addr_dump_short_address() {
    let replies = vec![addr_reply(1, 8, vec![attr(4, &[1, 2])])];
    let r = AddrGetRequest::all().collect(replies).unwrap();
    assert_eq!(r.unwrap_err(), Error::Deserialise { what: "IPv4 address" });
}

#[test]
fn addr_dump_empty_label_would_panic() {
    let replies = vec![addr_reply(1, 8, vec![attr(3, b"")])];
    assert!(AddrGetRequest::all().collect(replies).is_none());
}

#[test]
fn addr_dump_error_before_empty_label() {
    let replies = vec![Err(Error::Receive("x".to_string())), addr_reply(1, 8, vec![attr(3, b"")])];
    assert_eq!(AddrGetRequest::all().collect(replies).unwrap().unwrap_err(), Error::Receive("x".to_string()));
}

#[test]
fn addr_dump_unexpected_type() {
    let replies = vec![Ok(Reply { nl_type: 16, payload: Some(addr_msg(1, 8, vec![])) })];
    assert_eq!(
        AddrGetRequest::all().collect(replies).unwrap().unwrap_err(),
        Error::UnexpectedNlType { expected: "Newaddr".to_string(), actual: "Newlink".to_string() }
    );
}

#[test]
fn flush_plans_addresses_of_target() {
    let req = AddrFlushRequest::for_index(3);
    let replies = vec![
        addr_reply(3, 24, vec![attr(2, &[10, 1, 1, 1])]),
        Ok(Reply { nl_type: 3, payload: None }),
        addr_reply(3, 24, vec![attr(2, &[10, 1, 1, 2])]),
    ];
    let plan = req.plan(replies).unwrap();
    assert_eq!(plan.len(), 2);
    assert_eq!(plan[1].attrs, vec![attr(2, &[10, 1, 1, 2])]);
    let del = AddrFlushRequest::delete_request(addr_msg(3, 24, vec![attr(2, &[10, 1, 1, 1])]));
    assert_eq!(del.command, RtmCommand::Deladdr);
    assert!(del.flags.ack && !del.flags.dump);
    assert_eq!(del.message, addr_msg(3, 24, vec![attr(2, &[10, 1, 1, 1])]));
}

#[test]
fn flush_rejects_foreign_interface() {
    let req = AddrFlushRequest::for_index(3);
    let replies = vec![addr_reply(3, 24, vec![]), addr_reply(4, 24, vec![])];
    assert_eq!(
        req.plan(replies).unwrap_err(),
        Error::InvalidDataInResponse { reason: "received ifindex violating filter" }
    );
}

#[test]
fn flush_nothing_to_delete() {
    let plan = AddrFlushRequest::for_index(9).plan(vec![]).unwrap();
    assert!(plan.is_empty());
    match AddrFlushRequest::deletion(plan) {
        AddrFlushAction::Finish(resp) => assert_eq!(resp.addresses_flushed, 0),
        _ => panic!("nothing to delete, yet the flush goes on"),
    }
}

#[test]
fn route_dump_keeps_main_table() {
    let replies = vec![
        route_reply(254, 0, vec![attr(5, &[192, 168, 1, 1]), attr(6, &100u32.to_ne_bytes())]),
        route_reply(255, 32, vec![attr(1, &[127, 0, 0, 1])]),
        route_reply(254, 24, vec![attr(1, &[192, 168, 1, 0]), attr(7, &[192, 168, 1, 20])]),
        Ok(Reply { nl_type: 3, payload: None }),
    ];
    let resp = RouteGetRequest::new().collect(replies).unwrap();
    assert_eq!(resp.routes.len(), 2);
    let d = &resp.routes[0];
    assert_eq!(d.dst, None);
    assert_eq!(d.dst_prefix_len, 0);
    assert_eq!(d.gateway, Some(Ipv4Address::new(192, 168, 1, 1)));
    assert_eq!(d.metric, Some(100));
    assert_eq!(d.oif_name, None);
    assert_eq!(d.protocol, RouteProtocol::Static);
    assert_eq!(d.scope, RouteScope::Universe);
    assert_eq!(d.route_type, RouteType::Unicast);
    assert!(d.flags.onlink);
    let n = &resp.routes[1];
    assert_eq!(n.dst, Some(Ipv4Address::new(192, 168, 1, 0)));
    assert_eq!(n.prefsrc, Some(Ipv4Address::new(192, 168, 1, 20)));
}

#[test]
fn route_dump_to_match_filters() {
    let replies = vec![
        route_reply(254, 0, vec![attr(5, &[192, 168, 1, 1])]),
        route_reply(254, 24, vec![attr(1, &[192, 168, 1, 0])]),
        route_reply(254, 24, vec![attr(1, &[10, 0, 0, 0])]),
    ];
    let resp = RouteGetRequest::new().to_match(Ipv4Address::new(192, 168, 1, 50)).collect(replies).unwrap();
    assert_eq!(resp.routes.len(), 2);
    assert_eq!(resp.routes[1].dst, Some(Ipv4Address::new(192, 168, 1, 0)));
}

#[test]
fn route_dump_short_metric() {
    let replies = vec![route_reply(254, 0, vec![attr(6, &[1])])];
    assert_eq!(
        RouteGetRequest::new().collect(replies).unwrap_err(),
        Error::Deserialise { what: "route metric" }
    );
}

#[test]
fn route_dump_short_oif_in_other_table_is_skipped() {
    let replies = vec![route_reply(255, 0, vec![attr(4, &[1])])];
    assert_eq!(RouteGetRequest::new().collect(replies).unwrap().routes.len(), 0);
}

#[test]
fn route_dump_unexpected_type() {
    let replies = vec![Ok(Reply { nl_type: 20, payload: None }), Ok(Reply {
        nl_type: 16,
        payload: Some(RouteMsg {
            family: 2, dst_len: 0, src_len: 0, tos: 0, table: 254, protocol: 0, scope: 0, route_type: 0, flags: 0, attrs: vec![],
        }),
    })];
    assert_eq!(
        RouteGetRequest::new().collect(replies).unwrap_err(),
        Error::UnexpectedNlType { expected: "Newroute".to_string(), actual: "Newlink".to_string() }
    );
}

#[test]
fn flush_deletes_in_order_and_counts() {
    let plan = vec![
        addr_msg(3, 24, vec![attr(2, &[10, 1, 1, 1])]),
        addr_msg(3, 24, vec![attr(2, &[10, 1, 1, 2])]),
    ];
    let state = match AddrFlushRequest::deletion(plan) {
        AddrFlushAction::Delete(del, state) => {
            assert_eq!(del.command, RtmCommand::Deladdr);
            assert!(del.flags.ack);
            assert_eq!(del.message, addr_msg(3, 24, vec![attr(2, &[10, 1, 1, 1])]));
            state
        }
        _ => panic!("expected the first deletion"),
    };
    let state = match state.step(Ok(())) {
        AddrFlushAction::Delete(del, state) => {
            assert_eq!(del.message, addr_msg(3, 24, vec![attr(2, &[10, 1, 1, 2])]));
            state
        }
        _ => panic!("expected the second deletion"),
    };
    match state.step(Ok(())) {
        AddrFlushAction::Finish(resp) => assert_eq!(resp.addresses_flushed, 2),
        _ => panic!("expected the flush to finish"),
    }
}

#[test]
fn flush_stops_at_failed_deletion() {
    let plan = vec![
        addr_msg(3, 24, vec![attr(2, &[10, 1, 1, 1])]),
        addr_msg(3, 24, vec![attr(2, &[10, 1, 1, 2])]),
    ];
    let state = match AddrFlushRequest::deletion(plan) {
        AddrFlushAction::Delete(_, state) => state,
        _ => panic!("expected the first deletion"),
    };
    match state.step(Err(Error::Receive("EPERM".to_string()))) {
        AddrFlushAction::Abort(e) => assert_eq!(e, Error::Receive("EPERM".to_string())),
        _ => panic!("expected the flush to stop"),
    }
}

#[test]
fn addr_entry_keeps_local_and_address() {
    let replies = vec![addr_reply(
        5,
        32,
        vec![attr(2, &[10, 0, 0, 1]), attr(1, &[10, 0, 0, 2])],
    )];
    let resp = AddrGetRequest::for_index(5).collect(replies).unwrap().unwrap();
    let a = &resp.get_only().unwrap().addresses_v4()[0];
    assert_eq!(a.local(), Some(Ipv4Address::new(10, 0, 0, 1)));
    assert_eq!(a.address(), Some(Ipv4Address::new(10, 0, 0, 2)));
    assert_eq!(a.peer_ip(), Some(Ipv4Address::new(10, 0, 0, 2)));
}
