use crate::error::{Error, ErrorView};
use crate::link::flags::LinkFlags;
use crate::link::get_response::{link_type_of, HwAddr, Link, LinkGetResponse, LinkType};
use crate::mappers::{
    lookup_may_resolve,
    deserialise_error, u32_attr_is, interface_name, lookup_may_name, nested_rtattrs, read_nested_attrs,
    read_string_payload, resolve_ifname, rtattr_to_string, rtattr_to_u32, string_attr_text,
    trim_nuls, trim_trailing_nuls, unexpected_type, unexpected_type_error, utf8_decode,
};
use crate::nl::{
    first_failure, fold_outcome, last_attr, lemma_fold_invariant, lemma_fold_prefix, lemma_fold_step, lemma_first_failure_prefix, lemma_first_failure_step, lemma_last_attr_step, opt_text_is, Failure,
    LinkMsg, Outcome, RawAttr, Reply, AF_UNSPEC, IFLA_ADDRESS, IFLA_BROADCAST, IFLA_IFNAME,
    IFLA_INFO_KIND, IFLA_LINKINFO, IFLA_MASTER, IFLA_MTU, RTM_NEWLINK,
};
use crate::request::{LinkRequestMsg, NlFlags, Request, RtmCommand};
use std::collections::BTreeMap;
use vstd::prelude::*;

verus! {

broadcast use vstd::std_specs::btree::group_btree_axioms, vstd::laws_cmp::group_laws_cmp;

/// A query for links: all of them, or the one with a given index.
pub struct LinkGetRequest {
    if_index: Option<u32>,
}

/// The payload of the first nested attribute of type `ty`, if any.
pub open spec fn first_nested_payload(n: Seq<(u16, Seq<u8>)>, ty: u16) -> Option<Seq<u8>>
    decreases n.len(),
{
    if n.len() == 0 {
        None
    } else if n[0].0 == ty {
        Some(n[0].1)
    } else {
        first_nested_payload(n.drop_first(), ty)
    }
}

/// The `IFLA_INFO_KIND` payload nested in an `IFLA_LINKINFO` payload.
pub open spec fn kind_payload(linkinfo: Seq<u8>) -> Option<Seq<u8>> {
    match nested_rtattrs(linkinfo) {
        None => None,
        Some(n) => first_nested_payload(n, IFLA_INFO_KIND),
    }
}

/// Whether reading the kind of an `IFLA_LINKINFO` payload panics (an empty
/// `IFLA_INFO_KIND` string).
pub open spec fn kind_panics(linkinfo: Seq<u8>) -> bool {
    kind_payload(linkinfo) matches Some(p) && p.len() == 0
}

/// The link kind that an `IFLA_LINKINFO` payload names, without trailing
/// NULs; `None` when the payload does not parse, has no kind or the kind is
/// not UTF-8.
pub open spec fn kind_text(linkinfo: Seq<u8>) -> Option<Seq<char>> {
    match kind_payload(linkinfo) {
        None => None,
        Some(p) => match string_attr_text(p) {
            None => None,
            Some(t) => Some(trim_trailing_nuls(t)),
        },
    }
}

/// Reads the link kind from an `IFLA_LINKINFO` attribute; `None` where the
/// decoder panics (an empty kind string).
pub fn rtattr_to_kind(attr: &RawAttr) -> (r: Option<Option<String>>)
    ensures
        r is None <==> kind_panics(attr.payload@),
        r matches Some(k) ==> opt_text_is(k, kind_text(attr.payload@)),
{
    match read_nested_attrs(attr.payload.as_slice()) {
        None => Some(None),
        Some(nested) => {
            let ghost n = nested_rtattrs(attr.payload@)->0;
            let mut i: usize = 0;
            assert(n.skip(0) =~= n);
            while i < nested.len()
                invariant
                    i <= nested@.len(),
                    nested@.len() == n.len(),
                    forall|j: int| 0 <= j < n.len() ==> #[trigger] nested@[j].ty == n[j].0
                        && nested@[j].payload@ == n[j].1,
                    first_nested_payload(n, IFLA_INFO_KIND) == first_nested_payload(
                        n.skip(i as int),
                        IFLA_INFO_KIND,
                    ),
                    kind_payload(attr.payload@) == first_nested_payload(n, IFLA_INFO_KIND),
                decreases nested@.len() - i,
            {
                assert(n.skip(i as int).drop_first() =~= n.skip(i + 1));
                assert(n.skip(i as int)[0] == n[i as int]);
                if nested[i].ty == IFLA_INFO_KIND {
                    let p = &nested[i].payload;
                    if p.len() == 0 {
                        return None;
                    }
                    return match read_string_payload(p.as_slice()) {
                        None => Some(None),
                        Some(s) => Some(Some(trim_nuls(s.as_str()))),
                    };
                }
                i = i + 1;
            }
            assert(n.skip(i as int).len() == 0);
            Some(None)
        },
    }
}

/// Reads an `IFLA_IFNAME` attribute, without trailing NULs.
pub fn rtattr_to_ifname(attr: &RawAttr) -> (r: Result<String, Error>)
    requires
        attr.payload@.len() >= 1,
    ensures
        string_attr_text(attr.payload@) is Some <==> r is Ok,
        r matches Ok(s) ==> s@ == trim_trailing_nuls(string_attr_text(attr.payload@)->0),
        r matches Err(e) ==> e@ == deserialise_error("string attribute"@),
{
    let name = rtattr_to_string(attr)?;
    Ok(trim_nuls(name.as_str()))
}

/// Reads a hardware address attribute: its payload, byte for byte.
pub fn rtattr_to_hwaddr(attr: &RawAttr) -> (r: HwAddr)
    ensures
        r.0@ == attr.payload@,
{
    let mut bytes: Vec<u8> = Vec::new();
    for i in 0..attr.payload.len()
        invariant
            bytes@ == attr.payload@.take(i as int),
    {
        bytes.push(attr.payload[i]);
        assert(bytes@ =~= attr.payload@.take(i + 1));
    }
    assert(attr.payload@.take(attr.payload@.len() as int) =~= attr.payload@);
    HwAddr(bytes)
}

/// Why the attribute stops the decoding of a link message, if it does.
pub open spec fn link_attr_failure(a: RawAttr) -> Option<Failure> {
    if a.ty == IFLA_IFNAME {
        if a.payload@.len() == 0 {
            Some(Failure::Panic)
        } else if string_attr_text(a.payload@) is None {
            Some(Failure::Error(deserialise_error("string attribute"@)))
        } else {
            None
        }
    } else if a.ty == IFLA_MTU && a.payload@.len() < 4 {
        Some(Failure::Error(deserialise_error("link MTU"@)))
    } else if a.ty == IFLA_MASTER && a.payload@.len() < 4 {
        Some(Failure::Error(deserialise_error("master index"@)))
    } else if a.ty == IFLA_LINKINFO && kind_panics(a.payload@) {
        Some(Failure::Panic)
    } else {
        None
    }
}

/// `link_attr_failure` as a function value.
pub open spec fn link_check() -> spec_fn(RawAttr) -> Option<Failure> {
    |a: RawAttr| link_attr_failure(a)
}

/// The first attribute that stops the decoding of a link message.
pub open spec fn link_msg_failure(m: LinkMsg) -> Option<Failure> {
    first_failure(m.attrs@, link_check())
}

/// Whether an optional hardware address is the payload of the optional
/// attribute.
pub open spec fn hwaddr_attr_is(h: Option<HwAddr>, a: Option<RawAttr>) -> bool {
    match (h, a) {
        (None, None) => true,
        (Some(h), Some(a)) => h.0@ == a.payload@,
        _ => false,
    }
}

/// The interface name an `IFLA_IFNAME` attribute gives.
pub open spec fn ifname_text(a: Option<RawAttr>) -> Option<Seq<char>> {
    match a {
        None => None,
        Some(a) => Some(trim_trailing_nuls(string_attr_text(a.payload@)->0)),
    }
}

/// The link kind an `IFLA_LINKINFO` attribute gives.
pub open spec fn linkinfo_kind(a: Option<RawAttr>) -> Option<Seq<char>> {
    match a {
        None => None,
        Some(a) => kind_text(a.payload@),
    }
}

/// Whether `l` has the fields that message `m` gives (the last attribute of
/// each type counts); the master's name is not among them.
pub open spec fn link_fields(l: Link, m: LinkMsg) -> bool {
    &&& l.if_index == m.index as u32
    &&& l.hw_type == link_type_of(m.hw_type)
    &&& l.flags == LinkFlags::spec_from_bits(m.flags)
    &&& opt_text_is(l.if_name, ifname_text(last_attr(m.attrs@, IFLA_IFNAME)))
    &&& u32_attr_is(l.mtu, last_attr(m.attrs@, IFLA_MTU))
    &&& hwaddr_attr_is(l.address, last_attr(m.attrs@, IFLA_ADDRESS))
    &&& hwaddr_attr_is(l.broadcast, last_attr(m.attrs@, IFLA_BROADCAST))
    &&& u32_attr_is(l.master, last_attr(m.attrs@, IFLA_MASTER))
    &&& opt_text_is(l.kind, linkinfo_kind(last_attr(m.attrs@, IFLA_LINKINFO)))
}

/// Whether `l` is the link that message `m` describes, before the master's
/// name is looked up.
pub open spec fn link_decoded(l: Link, m: LinkMsg) -> bool {
    link_fields(l, m) && l.master_name is None
}

/// Whether `l` is the link that message `m` describes. The master's name
/// comes from the machine; it is only present with a master, and holds no
/// NUL character.
pub open spec fn link_describes(l: Link, m: LinkMsg) -> bool {
    &&& link_fields(l, m)
    &&& match l.master {
        None => l.master_name is None,
        Some(index) => lookup_may_name(index, l.master_name),
    }
    &&& (l.master_name matches Some(n) ==> !n@.contains('\0'))
}

/// The link with the given name for its master.
pub fn with_master_name(l: Link, master_name: Option<String>) -> (r: Link)
    ensures
        r == (Link { master_name, ..l }),
{
    Link { master_name, ..l }
}

/// Decodes one link message, leaving the master's name to be looked up;
/// `None` where the decoder panics.
pub fn link_from_msg(m: &LinkMsg) -> (r: Option<Result<Link, Error>>)
    ensures
        match link_msg_failure(*m) {
            Some(Failure::Panic) => r is None,
            Some(Failure::Error(e)) => r matches Some(Err(x)) && x@ == e,
            None => r matches Some(Ok(l)) && link_decoded(l, *m),
        },
{
    let if_index = m.index as u32;
    let hw_type = LinkType::from(m.hw_type);
    let flags = LinkFlags::from_bits(m.flags);
    let mut if_name: Option<String> = None;
    let mut mtu: Option<u32> = None;
    let mut address: Option<HwAddr> = None;
    let mut broadcast: Option<HwAddr> = None;
    let mut master: Option<u32> = None;
    let mut kind: Option<String> = None;
    let ghost check = link_check();
    let mut i: usize = 0;
    while i < m.attrs.len()
        invariant
            i <= m.attrs@.len(),
            check == link_check(),
            first_failure(m.attrs@.take(i as int), check) is None,
            opt_text_is(if_name, ifname_text(last_attr(m.attrs@.take(i as int), IFLA_IFNAME))),
            u32_attr_is(mtu, last_attr(m.attrs@.take(i as int), IFLA_MTU)),
            hwaddr_attr_is(address, last_attr(m.attrs@.take(i as int), IFLA_ADDRESS)),
            hwaddr_attr_is(broadcast, last_attr(m.attrs@.take(i as int), IFLA_BROADCAST)),
            u32_attr_is(master, last_attr(m.attrs@.take(i as int), IFLA_MASTER)),
            opt_text_is(kind, linkinfo_kind(last_attr(m.attrs@.take(i as int), IFLA_LINKINFO))),
        decreases m.attrs@.len() - i,
    {
        let a = &m.attrs[i];
        proof {
            lemma_first_failure_step(m.attrs@, i as int, check);
            lemma_last_attr_step(m.attrs@, i as int, IFLA_IFNAME);
            lemma_last_attr_step(m.attrs@, i as int, IFLA_MTU);
            lemma_last_attr_step(m.attrs@, i as int, IFLA_ADDRESS);
            lemma_last_attr_step(m.attrs@, i as int, IFLA_BROADCAST);
            lemma_last_attr_step(m.attrs@, i as int, IFLA_MASTER);
            lemma_last_attr_step(m.attrs@, i as int, IFLA_LINKINFO);
            assert(check(m.attrs@[i as int]) == link_attr_failure(m.attrs@[i as int]));
            if check(m.attrs@[i as int]) is Some {
                lemma_first_failure_prefix(m.attrs@, i + 1, check);
            }
        }
        if a.ty == IFLA_IFNAME {
            if a.payload.len() == 0 {
                return None;
            }
            match rtattr_to_ifname(a) {
                Ok(n) => {
                    if_name = Some(n);
                },
                Err(e) => {
                    return Some(Err(e));
                },
            }
        } else if a.ty == IFLA_MTU {
            match rtattr_to_u32(a, "link MTU") {
                Ok(v) => {
                    mtu = Some(v);
                },
                Err(e) => {
                    return Some(Err(e));
                },
            }
        } else if a.ty == IFLA_ADDRESS {
            address = Some(rtattr_to_hwaddr(a));
        } else if a.ty == IFLA_BROADCAST {
            broadcast = Some(rtattr_to_hwaddr(a));
        } else if a.ty == IFLA_MASTER {
            match rtattr_to_u32(a, "master index") {
                Ok(v) => {
                    master = Some(v);
                },
                Err(e) => {
                    return Some(Err(e));
                },
            }
        } else if a.ty == IFLA_LINKINFO {
            match rtattr_to_kind(a) {
                None => {
                    return None;
                },
                Some(k) => {
                    kind = k;
                },
            }
        }
        i = i + 1;
    }
    assert(m.attrs@.take(m.attrs@.len() as int) =~= m.attrs@);
    Some(
        Ok(
            Link {
                if_index,
                if_name,
                hw_type,
                flags,
                mtu,
                address,
                broadcast,
                master,
                master_name: None,
                kind,
            },
        ),
    )
}

/// The effect of one reply of a link dump on the links collected so far (by
/// index, the message that last described each link).
pub open spec fn link_step(
    filter: Option<u32>,
    links: Map<u32, LinkMsg>,
    item: Result<Reply<LinkMsg>, Error>,
) -> Outcome<Map<u32, LinkMsg>> {
    match item {
        Err(e) => Outcome::Failed(e@),
        Ok(rep) => match rep.payload {
            None => Outcome::Done(links),
            Some(p) => if rep.nl_type != RTM_NEWLINK {
                Outcome::Failed(unexpected_type_error(RTM_NEWLINK, rep.nl_type))
            } else if filter is Some && filter->0 != p.index as u32 {
                Outcome::Done(links)
            } else {
                match link_msg_failure(p) {
                    Some(Failure::Panic) => Outcome::Panics,
                    Some(Failure::Error(e)) => Outcome::Failed(e),
                    None => Outcome::Done(links.insert(p.index as u32, p)),
                }
            },
        },
    }
}

/// `link_step` as a function value.
pub open spec fn link_step_fn(filter: Option<u32>) -> spec_fn(
    Map<u32, LinkMsg>,
    Result<Reply<LinkMsg>, Error>,
) -> Outcome<Map<u32, LinkMsg>> {
    |links: Map<u32, LinkMsg>, item: Result<Reply<LinkMsg>, Error>| link_step(filter, links, item)
}

/// The outcome of a stream of replies to a link dump.
pub open spec fn link_replies(
    filter: Option<u32>,
    replies: Seq<Result<Reply<LinkMsg>, Error>>,
) -> Outcome<Map<u32, LinkMsg>> {
    fold_outcome(replies, Map::empty(), link_step_fn(filter))
}

/// Whether the links are those that the messages describe, index by index.
pub open spec fn links_describe(links: Map<u32, Link>, msgs: Map<u32, LinkMsg>) -> bool {
    &&& links.dom() == msgs.dom()
    &&& forall|k: u32| #[trigger] links.contains_key(k) ==> link_describes(links[k], msgs[k])
}

/// A link dump keeps every link that the query asks for, whatever its flags:
/// one more reply carrying such a link files it under its index and leaves
/// every other link as it was.
pub proof fn lemma_link_dump_keeps_wanted_links(
    filter: Option<u32>,
    replies: Seq<Result<Reply<LinkMsg>, Error>>,
    links: Map<u32, LinkMsg>,
    p: LinkMsg,
)
    requires
        link_replies(filter, replies) == Outcome::Done(links),
        filter is None || filter == Some(p.index as u32),
        link_msg_failure(p) is None,
    ensures
        link_replies(filter, replies.push(Ok(Reply { nl_type: RTM_NEWLINK, payload: Some(p) })))
            matches Outcome::Done(after) && after.contains_key(p.index as u32)
            && after[p.index as u32] == p && after.remove(p.index as u32) == links.remove(
            p.index as u32,
        ),
{
    let x: Result<Reply<LinkMsg>, Error> = Ok(Reply { nl_type: RTM_NEWLINK, payload: Some(p) });
    assert(replies.push(x).drop_last() =~= replies);
    assert(link_step_fn(filter)(links, x) == link_step(filter, links, x));
    let after = links.insert(p.index as u32, p);
    assert(after.remove(p.index as u32) =~= links.remove(p.index as u32));
}

/// A query for one link skips the messages about other links.
pub proof fn lemma_link_dump_skips_unwanted_links(
    want: u32,
    replies: Seq<Result<Reply<LinkMsg>, Error>>,
    links: Map<u32, LinkMsg>,
    p: LinkMsg,
)
    requires
        link_replies(Some(want), replies) == Outcome::Done(links),
        p.index as u32 != want,
    ensures
        link_replies(
            Some(want),
            replies.push(Ok(Reply { nl_type: RTM_NEWLINK, payload: Some(p) })),
        ) == Outcome::Done(links),
{
    let x: Result<Reply<LinkMsg>, Error> = Ok(Reply { nl_type: RTM_NEWLINK, payload: Some(p) });
    assert(replies.push(x).drop_last() =~= replies);
    assert(link_step_fn(Some(want))(links, x) == link_step(Some(want), links, x));
}

/// A query for one link yields at most that link: every collected index is
/// the requested one.
pub proof fn lemma_link_filter_only_target(
    want: u32,
    replies: Seq<Result<Reply<LinkMsg>, Error>>,
)
    ensures
        link_replies(Some(want), replies) matches Outcome::Done(msgs) ==> forall|k: u32|
            #[trigger] msgs.contains_key(k) ==> k == want,
{
    let inv = |m: Map<u32, LinkMsg>| forall|k: u32| #[trigger] m.contains_key(k) ==> k == want;
    let step = link_step_fn(Some(want));
    assert forall|m: Map<u32, LinkMsg>, x: Result<Reply<LinkMsg>, Error>|
        inv(m) && (#[trigger] step(m, x)) is Done implies inv(step(m, x)->Done_0) by {
        assert(step(m, x) == link_step(Some(want), m, x));
    }
    lemma_fold_invariant(replies, Map::empty(), step, inv);
}

/// Every link is filed under its own interface index.
pub proof fn lemma_links_keyed_by_index(
    filter: Option<u32>,
    replies: Seq<Result<Reply<LinkMsg>, Error>>,
    links: Map<u32, Link>,
)
    requires
        link_replies(filter, replies) is Done,
        links_describe(links, link_replies(filter, replies)->Done_0),
    ensures
        forall|k: u32| #[trigger] links.contains_key(k) ==> links[k].if_index == k,
{
    let inv = |m: Map<u32, LinkMsg>| forall|k: u32| #[trigger] m.contains_key(k) ==> m[k].index as u32 == k;
    let step = link_step_fn(filter);
    assert forall|m: Map<u32, LinkMsg>, x: Result<Reply<LinkMsg>, Error>|
        inv(m) && (#[trigger] step(m, x)) is Done implies inv(step(m, x)->Done_0) by {
        assert(step(m, x) == link_step(filter, m, x));
    }
    lemma_fold_invariant(replies, Map::empty(), step, inv);
}

impl View for LinkGetRequest {
    /// The index the query is limited to, if any.
    type V = Option<u32>;

    closed spec fn view(&self) -> Option<u32> {
        self.if_index
    }
}

impl LinkGetRequest {
    /// Request all links.
    pub fn all() -> (r: LinkGetRequest)
        ensures
            r@ is None,
    {
        LinkGetRequest { if_index: None }
    }

    /// Request the link with the given index.
    pub fn for_index(if_index: u32) -> (r: LinkGetRequest)
        ensures
            r@ == Some(if_index),
    {
        LinkGetRequest { if_index: Some(if_index) }
    }

    /// Request a single link by name.
    pub fn for_ifname(ifname: &str) -> (r: Result<LinkGetRequest, Error>)
        ensures
            r matches Ok(req) ==> req@ matches Some(i) && i != 0 && lookup_may_resolve(ifname@, Ok(i)),
            r matches Err(e) ==> e@ is InterfaceLookup && e@->ifname == ifname@
                && lookup_may_resolve(ifname@, Err(e@->errno)),
    {
        Ok(LinkGetRequest { if_index: Some(resolve_ifname(ifname)?) })
    }

    /// The dump request to send: `RTM_GETLINK` with `NLM_F_DUMP` and an empty
    /// `AF_UNSPEC` `ifinfomsg` (the kernel dumps every link; the index filter
    /// applies to the replies).
    pub fn request(&self) -> (r: Request<LinkRequestMsg>)
        ensures
            r.command == RtmCommand::Getlink,
            r.flags == NlFlags::spec_dump(),
            r.message.family == AF_UNSPEC,
            r.message.index == 0,
            r.message.flags == 0,
            r.message.change == 0,
            r.message.attrs@.len() == 0,
    {
        Request {
            command: RtmCommand::Getlink,
            flags: NlFlags::dump(),
            message: LinkRequestMsg {
                family: AF_UNSPEC,
                index: 0,
                flags: 0,
                change: 0,
                attrs: Vec::new(),
            },
        }
    }

    /// Collects the links from the replies to the dump, in order: a reply
    /// error or a message of the wrong type ends it with that error; links
    /// other than the requested one are skipped; a later message for an index
    /// replaces an earlier one. `None` where the decoder panics (an empty
    /// name or kind string).
    pub fn collect(&self, replies: Vec<Result<Reply<LinkMsg>, Error>>) -> (r: Option<
        Result<LinkGetResponse, Error>,
    >)
        ensures
            match link_replies(self@, replies@) {
                Outcome::Panics => r is None,
                Outcome::Failed(e) => r matches Some(Err(x)) && x@ == e,
                Outcome::Done(msgs) => r matches Some(Ok(resp)) && links_describe(
                    resp.links@,
                    msgs,
                ),
            },
    {
        let ghost all = replies@;
        assert(all.len() == replies.len());
        let ghost step = link_step_fn(self.if_index);
        let ghost mut msgs: Map<u32, LinkMsg> = Map::empty();
        let mut links: BTreeMap<u32, Link> = BTreeMap::new();
        let mut rest = replies;
        let mut i: usize = 0;
        assert(all.skip(0) =~= all);
        while rest.len() > 0
            invariant
                i <= all.len(),
                all == replies@,
                all.len() <= usize::MAX,
                rest@ == all.skip(i as int),
                step == link_step_fn(self.if_index),
                fold_outcome(all.take(i as int), Map::empty(), step) == Outcome::Done(msgs),
                links_describe(links@, msgs),
            decreases rest@.len(),
        {
            let item = rest.remove(0);
            proof {
                assert(item == all[i as int]);
                assert(rest@ =~= all.skip(i + 1));
                lemma_fold_step(all, i as int, Map::empty(), step);
                assert(step(msgs, all[i as int]) == link_step(self.if_index, msgs, all[i as int]));
            }
            match item {
                Err(e) => {
                    assert(fold_outcome(all.take(i + 1), Map::empty(), step)
                        == Outcome::<Map<u32, LinkMsg>>::Failed(e@));
                    proof {
                        lemma_fold_prefix(all, i + 1, Map::empty(), step);
                    }
                    return Some(Err(e));
                },
                Ok(rep) => {
                    match rep.payload {
                        None => {},
                        Some(p) => {
                            if rep.nl_type != RTM_NEWLINK {
                                assert(fold_outcome(all.take(i + 1), Map::empty(), step)
                                    == Outcome::<Map<u32, LinkMsg>>::Failed(
                                    unexpected_type_error(RTM_NEWLINK, rep.nl_type),
                                ));
                                proof {
                                    lemma_fold_prefix(all, i + 1, Map::empty(), step);
                                }
                                return Some(Err(unexpected_type(RTM_NEWLINK, rep.nl_type)));
                            }
                            let idx = p.index as u32;
                            let wanted = match self.if_index {
                                Some(w) => w == idx,
                                None => true,
                            };
                            if wanted {
                                match link_from_msg(&p) {
                                    None => {
                                        assert(fold_outcome(all.take(i + 1), Map::empty(), step)
                                            == Outcome::<Map<u32, LinkMsg>>::Panics);
                                        proof {
                                            lemma_fold_prefix(all, i + 1, Map::empty(), step);
                                        }
                                        return None;
                                    },
                                    Some(Err(e)) => {
                                        assert(fold_outcome(all.take(i + 1), Map::empty(), step)
                                            == Outcome::<Map<u32, LinkMsg>>::Failed(e@));
                                        proof {
                                            lemma_fold_prefix(all, i + 1, Map::empty(), step);
                                        }
                                        return Some(Err(e));
                                    },
                                    Some(Ok(link)) => {
                                        let master_name = match link.master {
                                            Some(master) => interface_name(master),
                                            None => None,
                                        };
                                        let link = with_master_name(link, master_name);
                                        links.insert(idx, link);
                                        proof {
                                            msgs = msgs.insert(idx, p);
                                        }
                                    },
                                }
                            }
                        },
                    }
                },
            }
            i = i + 1;
        }
        assert(all.take(i as int) =~= all);
        Some(Ok(LinkGetResponse { links }))
    }
}

} // verus!
