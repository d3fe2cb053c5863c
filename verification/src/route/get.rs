use crate::error::Error;
use crate::mappers::{
    be_u32, deserialise_error, interface_name, ipv4_attr, le_u32, lookup_may_name, rtattr_to_ipv4, rtattr_to_u32, u32_attr_is,
    unexpected_type, unexpected_type_error,
};
use crate::nl::{
    first_failure, fold_outcome, last_attr, lemma_fold_invariant, lemma_first_failure_prefix, lemma_first_failure_step,
    lemma_fold_prefix, lemma_fold_step, lemma_last_attr_step, Failure, Ipv4Address, Outcome,
    RawAttr, Reply, RouteMsg, AF_INET, RTA_DST, RTA_GATEWAY, RTA_OIF, RTA_PREFSRC, RTA_PRIORITY,
    RTM_NEWROUTE, RTN_UNSPEC, RTPROT_UNSPEC, RT_SCOPE_UNIVERSE, RT_TABLE_MAIN, RT_TABLE_UNSPEC,
};
use crate::request::{NlFlags, Request, RouteRequestMsg, RtmCommand};
use crate::route::get_response::{
    Route, RouteFlags, RouteGetResponse, RouteProtocol, RouteScope, RouteType,
};
use vstd::prelude::*;

verus! {

/// A query for the routes of the main table, optionally limited to those
/// that would match a destination address (as `ip route show to match`).
pub struct RouteGetRequest {
    to_match: Option<Ipv4Address>,
}

impl View for RouteGetRequest {
    /// The address that the routes must cover, if any.
    type V = Option<Ipv4Address>;

    closed spec fn view(&self) -> Option<Ipv4Address> {
        self.to_match
    }
}

/// Whether the route `dst`/`prefix_len` (a missing `dst` meaning the
/// default route) covers `target`: the first `prefix_len` bits of the two
/// addresses agree.
pub open spec fn spec_route_covers(
    dst: Option<Ipv4Address>,
    prefix_len: u8,
    target: Ipv4Address,
) -> bool {
    let network: u32 = match dst {
        Some(d) => d.0,
        None => 0,
    };
    if prefix_len == 0 {
        true
    } else if prefix_len >= 32 {
        target.0 == network
    } else {
        (target.0 >> ((32 - prefix_len) as u32)) == (network >> ((32 - prefix_len) as u32))
    }
}

/// Masking off the low `n` bits leaves two words equal exactly when their
/// high bits agree.
proof fn lemma_mask_agree(a: u32, b: u32, n: u32)
    by (bit_vector)
    requires
        1 <= n <= 31,
    ensures
        ((a & !(((1u32 << n) - 1) as u32)) == (b & !(((1u32 << n) - 1) as u32))) <==> ((a >> n) == (b >> n)),
{
}

/// Whether the route `dst`/`prefix_len` (a `None` dst meaning the default
/// route) covers `target`.
pub fn route_covers(dst: Option<Ipv4Address>, prefix_len: u8, target: Ipv4Address) -> (r: bool)
    ensures
        r == spec_route_covers(dst, prefix_len, target),
{
    if prefix_len == 0 {
        return true;
    }
    let network: u32 = match dst {
        Some(d) => d.0,
        None => 0,
    };
    let t: u32 = target.0;
    if prefix_len >= 32 {
        assert(t & u32::MAX == t && network & u32::MAX == network) by (bit_vector);
        return (t & u32::MAX) == (network & u32::MAX);
    }
    let shift: u32 = (32 - prefix_len) as u32;
    assert(1 <= shift <= 31 ==> (1u32 << shift) >= 1) by (bit_vector);
    let mask: u32 = !((1u32 << shift) - 1);
    proof {
        lemma_mask_agree(t, network, shift);
    }
    (t & mask) == (network & mask)
}

/// A default route covers every address.
pub proof fn lemma_default_route_covers_all(dst: Option<Ipv4Address>, target: Ipv4Address)
    ensures
        spec_route_covers(dst, 0, target),
{
}

/// A route covers its own network address, whatever its prefix length.
pub proof fn lemma_route_covers_its_network(dst: Ipv4Address, prefix_len: u8)
    ensures
        spec_route_covers(Some(dst), prefix_len, dst),
{
}

/// A host route (prefix length 32 or more) covers exactly its own address.
pub proof fn lemma_host_route_exact(dst: Ipv4Address, prefix_len: u8, target: Ipv4Address)
    requires
        prefix_len >= 32,
    ensures
        spec_route_covers(Some(dst), prefix_len, target) <==> target == dst,
{
}

proof fn lemma_shift_agree_shorter(a: u32, b: u32, n: u32, m: u32)
    by (bit_vector)
    requires
        n <= m <= 31,
        (a >> n) == (b >> n),
    ensures
        (a >> m) == (b >> m),
{
}

proof fn lemma_equal_shift_agree(a: u32, b: u32, m: u32)
    by (bit_vector)
    requires
        a == b,
    ensures
        (a >> m) == (b >> m),
{
}

/// Shortening the prefix keeps an address covered: a route that covers an
/// address covers it with any shorter prefix length too.
pub proof fn lemma_covers_shorter_prefix(
    dst: Option<Ipv4Address>,
    long: u8,
    short: u8,
    target: Ipv4Address,
)
    requires
        short <= long,
        spec_route_covers(dst, long, target),
    ensures
        spec_route_covers(dst, short, target),
{
    let network: u32 = match dst {
        Some(d) => d.0,
        None => 0,
    };
    if short > 0 && short < 32 {
        let m = (32 - short) as u32;
        if long >= 32 {
            lemma_equal_shift_agree(target.0, network, m);
        } else {
            lemma_shift_agree_shorter(target.0, network, (32 - long) as u32, m);
        }
    }
}

/// Why the attribute stops the decoding of a route message, if it does.
pub open spec fn route_attr_failure(a: RawAttr) -> Option<Failure> {
    if (a.ty == RTA_DST || a.ty == RTA_GATEWAY || a.ty == RTA_PREFSRC) && a.payload@.len() < 4 {
        Some(Failure::Error(deserialise_error("IPv4 address"@)))
    } else if a.ty == RTA_OIF && a.payload@.len() < 4 {
        Some(Failure::Error(deserialise_error("output interface index"@)))
    } else if a.ty == RTA_PRIORITY && a.payload@.len() < 4 {
        Some(Failure::Error(deserialise_error("route metric"@)))
    } else {
        None
    }
}

/// `route_attr_failure` as a function value.
pub open spec fn route_check() -> spec_fn(RawAttr) -> Option<Failure> {
    |a: RawAttr| route_attr_failure(a)
}

/// The first attribute that stops the decoding of a route message.
pub open spec fn route_msg_failure(m: RouteMsg) -> Option<Failure> {
    first_failure(m.attrs@, route_check())
}

/// The destination a route message names.
pub open spec fn route_dst(m: RouteMsg) -> Option<Ipv4Address> {
    ipv4_attr(last_attr(m.attrs@, RTA_DST))
}

/// Whether `r` has the fields that message `m` gives (the last attribute of
/// each type counts); the output interface's name is not among them.
pub open spec fn route_fields(r: Route, m: RouteMsg) -> bool {
    &&& r.dst == route_dst(m)
    &&& r.dst_prefix_len == m.dst_len
    &&& r.gateway == ipv4_attr(last_attr(m.attrs@, RTA_GATEWAY))
    &&& r.prefsrc == ipv4_attr(last_attr(m.attrs@, RTA_PREFSRC))
    &&& r.protocol == RouteProtocol::spec_from_raw(m.protocol)
    &&& r.scope == RouteScope::spec_from_raw(m.scope)
    &&& r.route_type == RouteType::spec_from_raw(m.route_type)
    &&& u32_attr_is(r.metric, last_attr(m.attrs@, RTA_PRIORITY))
    &&& r.flags == RouteFlags::spec_from_bits(m.flags)
}

/// Whether `r` is the route that message `m` describes. The output
/// interface's name comes from the machine; it is only present with an
/// output interface, and holds no NUL character.
pub open spec fn route_describes(r: Route, m: RouteMsg) -> bool {
    &&& route_fields(r, m)
    &&& oif_named(r.oif_name, last_attr(m.attrs@, RTA_OIF))
    &&& (r.oif_name matches Some(n) ==> !n@.contains('\0'))
}

/// Whether `name` is what the interface-name lookup may give for the index
/// in the optional `RTA_OIF` attribute (read in either byte order; the
/// machine's decides), and nothing without one.
pub open spec fn oif_named(name: Option<String>, a: Option<RawAttr>) -> bool {
    match a {
        None => name is None,
        Some(a) => lookup_may_name(be_u32(a.payload@), name) || lookup_may_name(
            le_u32(a.payload@),
            name,
        ),
    }
}

/// The route with the given name for its output interface.
pub fn with_oif_name(r: Route, oif_name: Option<String>) -> (out: Route)
    ensures
        out == (Route { oif_name, ..r }),
{
    Route { oif_name, ..r }
}

/// The effect of one reply of a route dump on the routes collected so far.
pub open spec fn route_step(
    to_match: Option<Ipv4Address>,
    found: Seq<RouteMsg>,
    item: Result<Reply<RouteMsg>, Error>,
) -> Outcome<Seq<RouteMsg>> {
    match item {
        Err(e) => Outcome::Failed(e@),
        Ok(rep) => match rep.payload {
            None => Outcome::Done(found),
            Some(p) => if rep.nl_type != RTM_NEWROUTE {
                Outcome::Failed(unexpected_type_error(RTM_NEWROUTE, rep.nl_type))
            } else if p.table != RT_TABLE_MAIN {
                Outcome::Done(found)
            } else {
                match route_msg_failure(p) {
                    Some(Failure::Panic) => Outcome::Panics,
                    Some(Failure::Error(e)) => Outcome::Failed(e),
                    None => if to_match is Some && !spec_route_covers(
                        route_dst(p),
                        p.dst_len,
                        to_match->0,
                    ) {
                        Outcome::Done(found)
                    } else {
                        Outcome::Done(found.push(p))
                    },
                }
            },
        },
    }
}

/// `route_step` as a function value.
pub open spec fn route_step_fn(to_match: Option<Ipv4Address>) -> spec_fn(
    Seq<RouteMsg>,
    Result<Reply<RouteMsg>, Error>,
) -> Outcome<Seq<RouteMsg>> {
    |found: Seq<RouteMsg>, item: Result<Reply<RouteMsg>, Error>| route_step(to_match, found, item)
}

/// The routes that a stream of replies to a route dump yields.
pub open spec fn route_replies(
    to_match: Option<Ipv4Address>,
    replies: Seq<Result<Reply<RouteMsg>, Error>>,
) -> Outcome<Seq<RouteMsg>> {
    fold_outcome(replies, Seq::empty(), route_step_fn(to_match))
}

/// Whether the routes are those that the messages describe, in order.
pub open spec fn routes_describe(routes: Seq<Route>, msgs: Seq<RouteMsg>) -> bool {
    &&& routes.len() == msgs.len()
    &&& forall|i: int| 0 <= i < routes.len() ==> route_describes(#[trigger] routes[i], msgs[i])
}

/// A route dump keeps every main-table route that the query asks for,
/// whatever its protocol, scope or type: one more reply carrying such a
/// route adds it after the routes collected so far.
pub proof fn lemma_route_dump_keeps_main_routes(
    to_match: Option<Ipv4Address>,
    replies: Seq<Result<Reply<RouteMsg>, Error>>,
    found: Seq<RouteMsg>,
    p: RouteMsg,
)
    requires
        route_replies(to_match, replies) == Outcome::Done(found),
        p.table == RT_TABLE_MAIN,
        route_msg_failure(p) is None,
        to_match matches Some(t) ==> spec_route_covers(route_dst(p), p.dst_len, t),
    ensures
        route_replies(
            to_match,
            replies.push(Ok(Reply { nl_type: RTM_NEWROUTE, payload: Some(p) })),
        ) == Outcome::Done(found.push(p)),
{
    let x: Result<Reply<RouteMsg>, Error> = Ok(Reply { nl_type: RTM_NEWROUTE, payload: Some(p) });
    assert(replies.push(x).drop_last() =~= replies);
    assert(route_step_fn(to_match)(found, x) == route_step(to_match, found, x));
}

/// A route dump skips the routes of other tables, and, when the query names
/// an address, the routes that do not cover it: one more reply carrying such
/// a route leaves the collected routes as they were.
pub proof fn lemma_route_dump_skips_other_routes(
    to_match: Option<Ipv4Address>,
    replies: Seq<Result<Reply<RouteMsg>, Error>>,
    found: Seq<RouteMsg>,
    p: RouteMsg,
)
    requires
        route_replies(to_match, replies) == Outcome::Done(found),
        p.table != RT_TABLE_MAIN || (route_msg_failure(p) is None && (to_match matches Some(t)
            && !spec_route_covers(route_dst(p), p.dst_len, t))),
    ensures
        route_replies(
            to_match,
            replies.push(Ok(Reply { nl_type: RTM_NEWROUTE, payload: Some(p) })),
        ) == Outcome::Done(found),
{
    let x: Result<Reply<RouteMsg>, Error> = Ok(Reply { nl_type: RTM_NEWROUTE, payload: Some(p) });
    assert(replies.push(x).drop_last() =~= replies);
    assert(route_step_fn(to_match)(found, x) == route_step(to_match, found, x));
}

/// Decodes one route message of the main table: the route, with its output
/// interface's name left to be looked up, and that interface's index.
pub fn route_from_msg(m: &RouteMsg) -> (r: Result<(Route, Option<u32>), Error>)
    ensures
        match route_msg_failure(*m) {
            Some(Failure::Error(e)) => r matches Err(x) && x@ == e,
            Some(Failure::Panic) => false,
            None => r matches Ok((route, oif)) && route_fields(route, *m) && route.oif_name is None
                && u32_attr_is(oif, last_attr(m.attrs@, RTA_OIF)),
        },
{
    let mut dst: Option<Ipv4Address> = None;
    let mut gateway: Option<Ipv4Address> = None;
    let mut prefsrc: Option<Ipv4Address> = None;
    let mut oif: Option<u32> = None;
    let mut metric: Option<u32> = None;
    let ghost check = route_check();
    let mut i: usize = 0;
    while i < m.attrs.len()
        invariant
            i <= m.attrs@.len(),
            check == route_check(),
            first_failure(m.attrs@.take(i as int), check) is None,
            dst == ipv4_attr(last_attr(m.attrs@.take(i as int), RTA_DST)),
            gateway == ipv4_attr(last_attr(m.attrs@.take(i as int), RTA_GATEWAY)),
            prefsrc == ipv4_attr(last_attr(m.attrs@.take(i as int), RTA_PREFSRC)),
            u32_attr_is(oif, last_attr(m.attrs@.take(i as int), RTA_OIF)),
            u32_attr_is(metric, last_attr(m.attrs@.take(i as int), RTA_PRIORITY)),
        decreases m.attrs@.len() - i,
    {
        let a = &m.attrs[i];
        proof {
            lemma_first_failure_step(m.attrs@, i as int, check);
            lemma_last_attr_step(m.attrs@, i as int, RTA_DST);
            lemma_last_attr_step(m.attrs@, i as int, RTA_GATEWAY);
            lemma_last_attr_step(m.attrs@, i as int, RTA_PREFSRC);
            lemma_last_attr_step(m.attrs@, i as int, RTA_OIF);
            lemma_last_attr_step(m.attrs@, i as int, RTA_PRIORITY);
            assert(check(m.attrs@[i as int]) == route_attr_failure(m.attrs@[i as int]));
            if check(m.attrs@[i as int]) is Some {
                lemma_first_failure_prefix(m.attrs@, i + 1, check);
            }
        }
        if a.ty == RTA_DST {
            dst = Some(rtattr_to_ipv4(a)?);
        } else if a.ty == RTA_GATEWAY {
            gateway = Some(rtattr_to_ipv4(a)?);
        } else if a.ty == RTA_PREFSRC {
            prefsrc = Some(rtattr_to_ipv4(a)?);
        } else if a.ty == RTA_OIF {
            oif = Some(rtattr_to_u32(a, "output interface index")?);
        } else if a.ty == RTA_PRIORITY {
            metric = Some(rtattr_to_u32(a, "route metric")?);
        }
        i = i + 1;
    }
    assert(m.attrs@.take(m.attrs@.len() as int) =~= m.attrs@);
    Ok(
        (Route {
            dst,
            dst_prefix_len: m.dst_len,
            gateway,
            prefsrc,
            oif_name: None,
            protocol: RouteProtocol::from_raw(m.protocol),
            scope: RouteScope::from_raw(m.scope),
            route_type: RouteType::from_raw(m.route_type),
            metric,
            flags: RouteFlags::from_bits(m.flags),
        }, oif),
    )
}

/// The collected routes all belong to the main table and, when the query
/// names an address, all cover it.
pub proof fn lemma_routes_main_and_covering(
    to_match: Option<Ipv4Address>,
    replies: Seq<Result<Reply<RouteMsg>, Error>>,
    routes: Seq<Route>,
)
    requires
        route_replies(to_match, replies) is Done,
        routes_describe(routes, route_replies(to_match, replies)->Done_0),
    ensures
        forall|i: int| 0 <= i < routes.len() ==> (#[trigger] route_replies(to_match, replies)->Done_0[i]).table
            == RT_TABLE_MAIN,
        forall|i: int| #![trigger routes[i]] 0 <= i < routes.len() ==> (to_match matches Some(t)
            ==> spec_route_covers(routes[i].dst, routes[i].dst_prefix_len, t)),
{
    let inv = |s: Seq<RouteMsg>| forall|i: int| 0 <= i < s.len() ==> (#[trigger] s[i]).table == RT_TABLE_MAIN
        && (to_match matches Some(t) ==> spec_route_covers(route_dst(s[i]), s[i].dst_len, t));
    let step = route_step_fn(to_match);
    assert forall|s: Seq<RouteMsg>, x: Result<Reply<RouteMsg>, Error>|
        inv(s) && (#[trigger] step(s, x)) is Done implies inv(step(s, x)->Done_0) by {
        assert(step(s, x) == route_step(to_match, s, x));
    }
    lemma_fold_invariant(replies, Seq::empty(), step, inv);
    let found = route_replies(to_match, replies)->Done_0;
    assert forall|i: int| #![trigger routes[i]] 0 <= i < routes.len() implies (to_match matches Some(t)
        ==> spec_route_covers(routes[i].dst, routes[i].dst_prefix_len, t)) by {
        assert(route_describes(routes[i], found[i]));
    }
}

impl Default for RouteGetRequest {
    /// The same as [`RouteGetRequest::new`].
    fn default() -> (r: RouteGetRequest)
        ensures
            r@ is None,
    {
        Self::new()
    }
}

impl RouteGetRequest {
    /// A query for every route of the main table.
    pub fn new() -> (r: RouteGetRequest)
        ensures
            r@ is None,
    {
        RouteGetRequest { to_match: None }
    }

    /// Only return routes that would match `addr` (as `ip route show to
    /// match`).
    pub fn to_match(self, addr: Ipv4Address) -> (r: RouteGetRequest)
        ensures
            r@ == Some(addr),
    {
        RouteGetRequest { to_match: Some(addr) }
    }

    /// The dump request to send: `RTM_GETROUTE` with `NLM_F_DUMP` and an
    /// `AF_INET` `rtmsg` with every other field unspecified (universe scope).
    pub fn request(&self) -> (r: Request<RouteRequestMsg>)
        ensures
            r.command == RtmCommand::Getroute,
            r.flags == NlFlags::spec_dump(),
            r.message == (RouteRequestMsg {
                family: AF_INET,
                dst_len: 0,
                src_len: 0,
                tos: 0,
                table: RT_TABLE_UNSPEC,
                protocol: RTPROT_UNSPEC,
                scope: RT_SCOPE_UNIVERSE,
                route_type: RTN_UNSPEC,
            }),
    {
        Request {
            command: RtmCommand::Getroute,
            flags: NlFlags::dump(),
            message: RouteRequestMsg {
                family: AF_INET,
                dst_len: 0,
                src_len: 0,
                tos: 0,
                table: RT_TABLE_UNSPEC,
                protocol: RTPROT_UNSPEC,
                scope: RT_SCOPE_UNIVERSE,
                route_type: RTN_UNSPEC,
            },
        }
    }

    /// Collects the routes of the main table from the replies to the dump,
    /// in order: a reply error, a message of the wrong type or an attribute
    /// that does not decode ends it with that error; routes of other tables,
    /// and with `to_match` routes that do not cover the address, are
    /// skipped.
    pub fn collect(&self, replies: Vec<Result<Reply<RouteMsg>, Error>>) -> (r: Result<
        RouteGetResponse,
        Error,
    >)
        ensures
            match route_replies(self@, replies@) {
                Outcome::Done(found) => r matches Ok(resp) && routes_describe(resp.routes@, found),
                Outcome::Failed(e) => r matches Err(x) && x@ == e,
                Outcome::Panics => false,
            },
    {
        let ghost all = replies@;
        assert(all.len() == replies.len());
        let ghost step = route_step_fn(self.to_match);
        let ghost mut found: Seq<RouteMsg> = Seq::empty();
        let mut rest = replies;
        let mut routes: Vec<Route> = Vec::new();
        let mut i: usize = 0;
        assert(all.skip(0) =~= all);
        while rest.len() > 0
            invariant
                i <= all.len(),
                all == replies@,
                all.len() <= usize::MAX,
                rest@ == all.skip(i as int),
                step == route_step_fn(self.to_match),
                fold_outcome(all.take(i as int), Seq::empty(), step) == Outcome::Done(found),
                routes_describe(routes@, found),
            decreases rest@.len(),
        {
            let item = rest.remove(0);
            proof {
                assert(item == all[i as int]);
                assert(rest@ =~= all.skip(i + 1));
                lemma_fold_step(all, i as int, Seq::empty(), step);
                assert(step(found, all[i as int]) == route_step(
                    self.to_match,
                    found,
                    all[i as int],
                ));
            }
            match item {
                Err(e) => {
                    proof {
                        lemma_fold_prefix(all, i + 1, Seq::empty(), step);
                    }
                    return Err(e);
                },
                Ok(rep) => {
                    match rep.payload {
                        None => {},
                        Some(p) => {
                            if rep.nl_type != RTM_NEWROUTE {
                                proof {
                                    lemma_fold_prefix(all, i + 1, Seq::empty(), step);
                                }
                                return Err(unexpected_type(RTM_NEWROUTE, rep.nl_type));
                            }
                            if p.table == RT_TABLE_MAIN {
                                match route_from_msg(&p) {
                                    Err(e) => {
                                        proof {
                                            lemma_fold_prefix(all, i + 1, Seq::empty(), step);
                                        }
                                        return Err(e);
                                    },
                                    Ok((route, oif)) => {
                                        let oif_name = match oif {
                                            Some(index) => interface_name(index),
                                            None => None,
                                        };
                                        let route = with_oif_name(route, oif_name);
                                        let keep = match self.to_match {
                                            Some(target) => route_covers(
                                                route.dst,
                                                route.dst_prefix_len,
                                                target,
                                            ),
                                            None => true,
                                        };
                                        if keep {
                                            routes.push(route);
                                            proof {
                                                found = found.push(p);
                                            }
                                        }
                                    },
                                }
                            }
                        },
                    }
                },
            }
            i = i + 1;
        }
        assert(all.take(i as int) =~= all);
        Ok(RouteGetResponse { routes })
    }
}

} // verus!
