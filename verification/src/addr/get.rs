use crate::addr::flags::AddressFlags;
use crate::addr::get_response::{
    opt_text, AddrGetInterface, AddrGetInterfaceAddressV4, AddrGetResponse, AddrV4View,
};
use crate::error::Error;
use crate::mappers::{
    lookup_may_resolve,
    deserialise_error, ipv4_attr, resolve_ifname, rtattr_to_ipv4, rtattr_to_string,
    string_attr_text, unexpected_type, unexpected_type_error,
};
use crate::nl::{
    first_failure, fold_outcome, last_attr, lemma_fold_invariant, lemma_first_failure_prefix, lemma_first_failure_step,
    lemma_fold_prefix, lemma_fold_step, lemma_last_attr_step, AddrMsg, Failure, Ipv4Address,
    Outcome, RawAttr, Reply, AF_INET, IFA_ADDRESS, IFA_BROADCAST, IFA_LABEL, IFA_LOCAL,
    RTM_NEWADDR, RT_SCOPE_UNIVERSE,
};
use crate::request::{NlFlags, Request, RtmCommand};
use std::collections::BTreeMap;
use vstd::prelude::*;

verus! {

broadcast use vstd::std_specs::btree::group_btree_axioms, vstd::laws_cmp::group_laws_cmp;

/// A query for the IPv4 addresses of all interfaces, or of one.
pub struct AddrGetRequest {
    if_index: Option<u32>,
}

impl View for AddrGetRequest {
    /// The index of the interface asked for, if any.
    type V = Option<u32>;

    closed spec fn view(&self) -> Option<u32> {
        self.if_index
    }
}

/// Why the attribute stops the decoding of an address message, if it does.
pub open spec fn addr_attr_failure(a: RawAttr) -> Option<Failure> {
    if (a.ty == IFA_LOCAL || a.ty == IFA_ADDRESS || a.ty == IFA_BROADCAST) && a.payload@.len()
        < 4 {
        Some(Failure::Error(deserialise_error("IPv4 address"@)))
    } else if a.ty == IFA_LABEL {
        if a.payload@.len() == 0 {
            Some(Failure::Panic)
        } else if string_attr_text(a.payload@) is None {
            Some(Failure::Error(deserialise_error("string attribute"@)))
        } else {
            None
        }
    } else {
        None
    }
}

/// `addr_attr_failure` as a function value.
pub open spec fn addr_check() -> spec_fn(RawAttr) -> Option<Failure> {
    |a: RawAttr| addr_attr_failure(a)
}

/// The first attribute that stops the decoding of an address message.
pub open spec fn addr_msg_failure(m: AddrMsg) -> Option<Failure> {
    first_failure(m.attrs@, addr_check())
}

/// The label an optional `IFA_LABEL` attribute gives.
pub open spec fn label_attr(a: Option<RawAttr>) -> Option<Seq<char>> {
    match a {
        None => None,
        Some(a) => string_attr_text(a.payload@),
    }
}

/// The address entry that message `m` describes (the last attribute of each
/// type counts).
pub open spec fn addr_entry(m: AddrMsg) -> AddrV4View {
    AddrV4View {
        local: ipv4_attr(last_attr(m.attrs@, IFA_LOCAL)),
        address: ipv4_attr(last_attr(m.attrs@, IFA_ADDRESS)),
        prefix_len: m.prefix_len,
        flags: AddressFlags::spec_from_bits(m.flags),
        broadcast: ipv4_attr(last_attr(m.attrs@, IFA_BROADCAST)),
        label: label_attr(last_attr(m.attrs@, IFA_LABEL)),
    }
}

/// Decodes one address message; `None` where the decoder panics.
pub fn addr_from_msg(m: &AddrMsg) -> (r: Option<Result<AddrGetInterfaceAddressV4, Error>>)
    ensures
        match addr_msg_failure(*m) {
            Some(Failure::Panic) => r is None,
            Some(Failure::Error(e)) => r matches Some(Err(x)) && x@ == e,
            None => r matches Some(Ok(a)) && a@ == addr_entry(*m),
        },
{
    let flags = AddressFlags::from_bits(m.flags);
    let mut local: Option<Ipv4Address> = None;
    let mut address: Option<Ipv4Address> = None;
    let mut broadcast: Option<Ipv4Address> = None;
    let mut label: Option<String> = None;
    let ghost check = addr_check();
    let mut i: usize = 0;
    while i < m.attrs.len()
        invariant
            i <= m.attrs@.len(),
            check == addr_check(),
            first_failure(m.attrs@.take(i as int), check) is None,
            local == ipv4_attr(last_attr(m.attrs@.take(i as int), IFA_LOCAL)),
            address == ipv4_attr(last_attr(m.attrs@.take(i as int), IFA_ADDRESS)),
            broadcast == ipv4_attr(last_attr(m.attrs@.take(i as int), IFA_BROADCAST)),
            opt_text(label) == label_attr(last_attr(m.attrs@.take(i as int), IFA_LABEL)),
        decreases m.attrs@.len() - i,
    {
        let a = &m.attrs[i];
        proof {
            lemma_first_failure_step(m.attrs@, i as int, check);
            lemma_last_attr_step(m.attrs@, i as int, IFA_LOCAL);
            lemma_last_attr_step(m.attrs@, i as int, IFA_ADDRESS);
            lemma_last_attr_step(m.attrs@, i as int, IFA_BROADCAST);
            lemma_last_attr_step(m.attrs@, i as int, IFA_LABEL);
            assert(check(m.attrs@[i as int]) == addr_attr_failure(m.attrs@[i as int]));
            if check(m.attrs@[i as int]) is Some {
                lemma_first_failure_prefix(m.attrs@, i + 1, check);
            }
        }
        if a.ty == IFA_LOCAL {
            match rtattr_to_ipv4(a) {
                Ok(v) => {
                    local = Some(v);
                },
                Err(e) => {
                    return Some(Err(e));
                },
            }
        } else if a.ty == IFA_ADDRESS {
            match rtattr_to_ipv4(a) {
                Ok(v) => {
                    address = Some(v);
                },
                Err(e) => {
                    return Some(Err(e));
                },
            }
        } else if a.ty == IFA_BROADCAST {
            match rtattr_to_ipv4(a) {
                Ok(v) => {
                    broadcast = Some(v);
                },
                Err(e) => {
                    return Some(Err(e));
                },
            }
        } else if a.ty == IFA_LABEL {
            if a.payload.len() == 0 {
                return None;
            }
            match rtattr_to_string(a) {
                Ok(s) => {
                    label = Some(s);
                },
                Err(e) => {
                    return Some(Err(e));
                },
            }
        }
        i = i + 1;
    }
    assert(m.attrs@.take(m.attrs@.len() as int) =~= m.attrs@);
    Some(Ok(AddrGetInterfaceAddressV4::new(local, address, m.prefix_len, flags, broadcast, label)))
}

/// The messages reported so far for interface `k`, in order.
pub open spec fn reported(m: Map<u32, Seq<AddrMsg>>, k: u32) -> Seq<AddrMsg> {
    if m.contains_key(k) {
        m[k]
    } else {
        Seq::empty()
    }
}

/// The effect of one reply of an address dump on the messages collected so
/// far (by interface index, in order).
pub open spec fn addr_step(
    msgs: Map<u32, Seq<AddrMsg>>,
    item: Result<Reply<AddrMsg>, Error>,
) -> Outcome<Map<u32, Seq<AddrMsg>>> {
    match item {
        Err(e) => Outcome::Failed(e@),
        Ok(rep) => match rep.payload {
            None => Outcome::Done(msgs),
            Some(p) => if rep.nl_type != RTM_NEWADDR {
                Outcome::Failed(unexpected_type_error(RTM_NEWADDR, rep.nl_type))
            } else {
                match addr_msg_failure(p) {
                    Some(Failure::Panic) => Outcome::Panics,
                    Some(Failure::Error(e)) => Outcome::Failed(e),
                    None => Outcome::Done(msgs.insert(p.index, reported(msgs, p.index).push(p))),
                }
            },
        },
    }
}

/// `addr_step` as a function value.
pub open spec fn addr_step_fn() -> spec_fn(
    Map<u32, Seq<AddrMsg>>,
    Result<Reply<AddrMsg>, Error>,
) -> Outcome<Map<u32, Seq<AddrMsg>>> {
    |msgs: Map<u32, Seq<AddrMsg>>, item: Result<Reply<AddrMsg>, Error>| addr_step(msgs, item)
}

/// The outcome of a stream of replies to an address dump.
pub open spec fn addr_replies(replies: Seq<Result<Reply<AddrMsg>, Error>>) -> Outcome<
    Map<u32, Seq<AddrMsg>>,
> {
    fold_outcome(replies, Map::empty(), addr_step_fn())
}

/// Whether the interfaces hold the addresses that the messages describe,
/// interface by interface and in order.
pub open spec fn interfaces_describe(
    ifaces: Map<u32, AddrGetInterface>,
    msgs: Map<u32, Seq<AddrMsg>>,
) -> bool {
    &&& ifaces.dom() == msgs.dom()
    &&& forall|k: u32| #[trigger]
        ifaces.contains_key(k) ==> ifaces[k]@ == msgs[k].map_values(|m: AddrMsg| addr_entry(m))
}

/// Every reported interface has at least one address, and the addresses
/// filed under an index all come from messages about that interface.
pub proof fn lemma_addr_grouping(replies: Seq<Result<Reply<AddrMsg>, Error>>)
    ensures
        addr_replies(replies) matches Outcome::Done(msgs) ==> forall|k: u32| #[trigger]
            msgs.contains_key(k) ==> msgs[k].len() > 0 && forall|i: int|
                0 <= i < msgs[k].len() ==> (#[trigger] msgs[k][i]).index == k,
{
    let inv = |m: Map<u32, Seq<AddrMsg>>| forall|k: u32| #[trigger]
        m.contains_key(k) ==> m[k].len() > 0 && forall|i: int|
            0 <= i < m[k].len() ==> (#[trigger] m[k][i]).index == k;
    let step = addr_step_fn();
    assert forall|m: Map<u32, Seq<AddrMsg>>, x: Result<Reply<AddrMsg>, Error>|
        inv(m) && (#[trigger] step(m, x)) is Done implies inv(step(m, x)->Done_0) by {
        assert(step(m, x) == addr_step(m, x));
    }
    lemma_fold_invariant(replies, Map::empty(), step, inv);
}

/// An address dump files every address message that decodes, whatever its
/// scope or flags: one more reply carrying it appends it to the messages of
/// its interface and leaves every other interface as it was.
pub proof fn lemma_addr_dump_files_every_address(
    replies: Seq<Result<Reply<AddrMsg>, Error>>,
    msgs: Map<u32, Seq<AddrMsg>>,
    p: AddrMsg,
)
    requires
        addr_replies(replies) == Outcome::Done(msgs),
        addr_msg_failure(p) is None,
    ensures
        addr_replies(replies.push(Ok(Reply { nl_type: RTM_NEWADDR, payload: Some(p) })))
            matches Outcome::Done(after) && after.contains_key(p.index) && after[p.index] == (
            if msgs.contains_key(p.index) {
                msgs[p.index]
            } else {
                Seq::empty()
            }).push(p) && after.remove(p.index) == msgs.remove(p.index),
{
    let x: Result<Reply<AddrMsg>, Error> = Ok(Reply { nl_type: RTM_NEWADDR, payload: Some(p) });
    assert(replies.push(x).drop_last() =~= replies);
    assert(addr_step_fn()(msgs, x) == addr_step(msgs, x));
    let after = msgs.insert(p.index, reported(msgs, p.index).push(p));
    assert(after.remove(p.index) =~= msgs.remove(p.index));
}

impl AddrGetRequest {
    /// Ask for the addresses of the interface with the given name.
    pub fn for_ifname(ifname: &str) -> (r: Result<AddrGetRequest, Error>)
        ensures
            r matches Ok(req) ==> req@ matches Some(i) && i != 0 && lookup_may_resolve(ifname@, Ok(i)),
            r matches Err(e) ==> e@ is InterfaceLookup && e@->ifname == ifname@
                && lookup_may_resolve(ifname@, Err(e@->errno)),
    {
        Ok(AddrGetRequest { if_index: Some(resolve_ifname(ifname)?) })
    }

    /// Ask for the addresses of the interface with the given index.
    pub fn for_index(if_index: u32) -> (r: AddrGetRequest)
        ensures
            r@ == Some(if_index),
    {
        AddrGetRequest { if_index: Some(if_index) }
    }

    /// Ask for the addresses of all interfaces.
    pub fn all() -> (r: AddrGetRequest)
        ensures
            r@ is None,
    {
        AddrGetRequest { if_index: None }
    }

    /// The dump request to send: `RTM_GETADDR` with `NLM_F_DUMP` and an
    /// `AF_INET` `ifaddrmsg` of universe scope, naming the interface (0 for
    /// all).
    pub fn request(&self) -> (r: Request<AddrMsg>)
        ensures
            r.command == RtmCommand::Getaddr,
            r.flags == NlFlags::spec_dump(),
            r.message.family == AF_INET,
            r.message.prefix_len == 0,
            r.message.flags == 0,
            r.message.scope == RT_SCOPE_UNIVERSE,
            r.message.index == match self@ {
                Some(i) => i,
                None => 0,
            },
            r.message.attrs@.len() == 0,
    {
        let index = match self.if_index {
            Some(i) => i,
            None => 0,
        };
        Request {
            command: RtmCommand::Getaddr,
            flags: NlFlags::dump(),
            message: AddrMsg {
                family: AF_INET,
                prefix_len: 0,
                flags: 0,
                scope: RT_SCOPE_UNIVERSE,
                index,
                attrs: Vec::new(),
            },
        }
    }

    /// Collects the addresses from the replies to the dump, in order, by
    /// interface: a reply error, a message of the wrong type or an attribute
    /// that does not decode ends it with that error. `None` where the
    /// decoder panics (an empty label).
    pub fn collect(&self, replies: Vec<Result<Reply<AddrMsg>, Error>>) -> (r: Option<
        Result<AddrGetResponse, Error>,
    >)
        ensures
            match addr_replies(replies@) {
                Outcome::Panics => r is None,
                Outcome::Failed(e) => r matches Some(Err(x)) && x@ == e,
                Outcome::Done(msgs) => r matches Some(Ok(resp)) && interfaces_describe(
                    resp.interfaces@,
                    msgs,
                ),
            },
    {
        let ghost all = replies@;
        assert(all.len() == replies.len());
        let ghost step = addr_step_fn();
        let ghost mut msgs: Map<u32, Seq<AddrMsg>> = Map::empty();
        let mut rest = replies;
        let mut interfaces: BTreeMap<u32, AddrGetInterface> = BTreeMap::new();
        let mut i: usize = 0;
        assert(all.skip(0) =~= all);
        while rest.len() > 0
            invariant
                i <= all.len(),
                all == replies@,
                all.len() <= usize::MAX,
                rest@ == all.skip(i as int),
                step == addr_step_fn(),
                fold_outcome(all.take(i as int), Map::empty(), step) == Outcome::Done(msgs),
                interfaces_describe(interfaces@, msgs),
            decreases rest@.len(),
        {
            let item = rest.remove(0);
            proof {
                assert(item == all[i as int]);
                assert(rest@ =~= all.skip(i + 1));
                lemma_fold_step(all, i as int, Map::empty(), step);
                assert(step(msgs, all[i as int]) == addr_step(msgs, all[i as int]));
            }
            match item {
                Err(e) => {
                    assert(fold_outcome(all.take(i + 1), Map::empty(), step)
                        == Outcome::<Map<u32, Seq<AddrMsg>>>::Failed(e@));
                    proof {
                        lemma_fold_prefix(all, i + 1, Map::empty(), step);
                    }
                    return Some(Err(e));
                },
                Ok(rep) => {
                    match rep.payload {
                        None => {},
                        Some(p) => {
                            if rep.nl_type != RTM_NEWADDR {
                                assert(fold_outcome(all.take(i + 1), Map::empty(), step)
                                    == Outcome::<Map<u32, Seq<AddrMsg>>>::Failed(
                                    unexpected_type_error(RTM_NEWADDR, rep.nl_type),
                                ));
                                proof {
                                    lemma_fold_prefix(all, i + 1, Map::empty(), step);
                                }
                                return Some(Err(unexpected_type(RTM_NEWADDR, rep.nl_type)));
                            }
                            match addr_from_msg(&p) {
                                None => {
                                    assert(fold_outcome(all.take(i + 1), Map::empty(), step)
                                        == Outcome::<Map<u32, Seq<AddrMsg>>>::Panics);
                                    proof {
                                        lemma_fold_prefix(all, i + 1, Map::empty(), step);
                                    }
                                    return None;
                                },
                                Some(Err(e)) => {
                                    assert(fold_outcome(all.take(i + 1), Map::empty(), step)
                                        == Outcome::<Map<u32, Seq<AddrMsg>>>::Failed(e@));
                                    proof {
                                        lemma_fold_prefix(all, i + 1, Map::empty(), step);
                                    }
                                    return Some(Err(e));
                                },
                                Some(Ok(entry)) => {
                                    let idx = p.index;
                                    let ghost old_ifaces = interfaces@;
                                    let mut iface = match interfaces.remove(&idx) {
                                        Some(iface) => iface,
                                        None => AddrGetInterface::new(),
                                    };
                                    assert(iface@ == reported(msgs, idx).map_values(
                                        |m: AddrMsg| addr_entry(m),
                                    ));
                                    iface.push(entry);
                                    interfaces.insert(idx, iface);
                                    proof {
                                        let old_msgs = msgs;
                                        msgs = msgs.insert(idx, reported(msgs, idx).push(p));
                                        assert(reported(old_msgs, idx).push(p).map_values(
                                            |m: AddrMsg| addr_entry(m),
                                        ) =~= reported(old_msgs, idx).map_values(
                                            |m: AddrMsg| addr_entry(m),
                                        ).push(addr_entry(p)));
                                        assert(interfaces@.dom() =~= msgs.dom());
                                        assert forall|k: u32| #[trigger]
                                            interfaces@.contains_key(k) implies interfaces@[k]@
                                            == msgs[k].map_values(|m: AddrMsg| addr_entry(m)) by {
                                            if k != idx {
                                                assert(old_ifaces.contains_key(k));
                                                assert(interfaces@[k] == old_ifaces[k]);
                                            }
                                        }
                                    }
                                },
                            }
                        },
                    }
                },
            }
            i = i + 1;
        }
        assert(all.take(i as int) =~= all);
        Some(Ok(AddrGetResponse { interfaces }))
    }
}

} // verus!
