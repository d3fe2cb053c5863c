//! The rtnetlink messages the library reads, as plain values, and the
//! kernel constants it uses (`linux/rtnetlink.h`, `linux/if_link.h`,
//! `linux/if_addr.h`, `linux/socket.h`).
use crate::error::ErrorView;
use vstd::prelude::*;

verus! {

/// `RTM_NEWLINK`.
pub const RTM_NEWLINK: u16 = 16;
/// `RTM_NEWADDR`.
pub const RTM_NEWADDR: u16 = 20;
/// `RTM_NEWROUTE`.
pub const RTM_NEWROUTE: u16 = 24;

/// `AF_UNSPEC`.
pub const AF_UNSPEC: u8 = 0;
/// `AF_INET`.
pub const AF_INET: u8 = 2;
/// `AF_BRIDGE`.
pub const AF_BRIDGE: u8 = 7;

/// `RT_SCOPE_UNIVERSE`.
pub const RT_SCOPE_UNIVERSE: u8 = 0;
/// `RT_TABLE_UNSPEC`.
pub const RT_TABLE_UNSPEC: u8 = 0;
/// `RT_TABLE_MAIN`.
pub const RT_TABLE_MAIN: u8 = 254;
/// `RTPROT_UNSPEC`.
pub const RTPROT_UNSPEC: u8 = 0;
/// `RTN_UNSPEC`.
pub const RTN_UNSPEC: u8 = 0;

/// `IFA_ADDRESS`.
pub const IFA_ADDRESS: u16 = 1;
/// `IFA_LOCAL`.
pub const IFA_LOCAL: u16 = 2;
/// `IFA_LABEL`.
pub const IFA_LABEL: u16 = 3;
/// `IFA_BROADCAST`.
pub const IFA_BROADCAST: u16 = 4;

/// `IFLA_ADDRESS`.
pub const IFLA_ADDRESS: u16 = 1;
/// `IFLA_BROADCAST`.
pub const IFLA_BROADCAST: u16 = 2;
/// `IFLA_IFNAME`.
pub const IFLA_IFNAME: u16 = 3;
/// `IFLA_MTU`.
pub const IFLA_MTU: u16 = 4;
/// `IFLA_MASTER`.
pub const IFLA_MASTER: u16 = 10;
/// `IFLA_LINKINFO`.
pub const IFLA_LINKINFO: u16 = 18;
/// `IFLA_AF_SPEC`.
pub const IFLA_AF_SPEC: u16 = 26;

/// `IFLA_INFO_KIND`.
pub const IFLA_INFO_KIND: u16 = 1;
/// `IFLA_INFO_DATA`.
pub const IFLA_INFO_DATA: u16 = 2;

/// `RTA_DST`.
pub const RTA_DST: u16 = 1;
/// `RTA_OIF`.
pub const RTA_OIF: u16 = 4;
/// `RTA_GATEWAY`.
pub const RTA_GATEWAY: u16 = 5;
/// `RTA_PRIORITY`.
pub const RTA_PRIORITY: u16 = 6;
/// `RTA_PREFSRC`.
pub const RTA_PREFSRC: u16 = 7;

/// One route attribute of a received message: its type and raw payload.
#[derive(Debug, PartialEq, Eq)]
pub struct RawAttr {
    pub ty: u16,
    pub payload: Vec<u8>,
}

/// A `struct ifaddrmsg` with its attributes.
#[derive(Debug, PartialEq, Eq)]
pub struct AddrMsg {
    pub family: u8,
    pub prefix_len: u8,
    pub flags: u8,
    pub scope: u8,
    pub index: u32,
    pub attrs: Vec<RawAttr>,
}

/// A received `struct ifinfomsg` with its attributes.
#[derive(Debug, PartialEq, Eq)]
pub struct LinkMsg {
    pub family: u8,
    /// `ifi_type`, the `ARPHRD_*` hardware type.
    pub hw_type: u16,
    pub index: i32,
    pub flags: u32,
    pub change: u32,
    pub attrs: Vec<RawAttr>,
}

/// A received `struct rtmsg` with its attributes.
#[derive(Debug, PartialEq, Eq)]
pub struct RouteMsg {
    pub family: u8,
    pub dst_len: u8,
    pub src_len: u8,
    pub tos: u8,
    pub table: u8,
    pub protocol: u8,
    pub scope: u8,
    pub route_type: u8,
    pub flags: u32,
    pub attrs: Vec<RawAttr>,
}

/// One received netlink message: its type and, when it carries data, its
/// payload. Acknowledgements and other control messages have no payload.
#[derive(Debug, PartialEq, Eq)]
pub struct Reply<T> {
    pub nl_type: u16,
    pub payload: Option<T>,
}

} // verus!

verus! {

/// An IPv4 address, held as its 32-bit value (first octet most significant).
#[derive(Clone, Copy, Debug, PartialEq, Eq, Structural)]
pub struct Ipv4Address(pub u32);

impl Ipv4Address {
    /// The address `a.b.c.d`.
    pub fn new(a: u8, b: u8, c: u8, d: u8) -> (r: Ipv4Address)
        ensures
            r.0 == a as int * 0x1000000 + b as int * 0x10000 + c as int * 0x100 + d as int,
    {
        Ipv4Address(a as u32 * 0x1000000 + b as u32 * 0x10000 + c as u32 * 0x100 + d as u32)
    }

    /// The unspecified address `0.0.0.0`.
    pub fn unspecified() -> (r: Ipv4Address)
        ensures
            r.0 == 0,
    {
        Ipv4Address(0)
    }
}

} // verus!

verus! {

/// Why the decoding of a message stops early: an error, or a panic of the
/// decoder.
pub enum Failure {
    Error(ErrorView),
    Panic,
}

/// The outcome of decoding a stream of replies.
pub enum Outcome<T> {
    /// Every reply was handled; the collected value.
    Done(T),
    /// An error ended the decoding.
    Failed(ErrorView),
    /// The decoder panics on the replies.
    Panics,
}

/// The last attribute of type `ty`, if any.
pub open spec fn last_attr(attrs: Seq<RawAttr>, ty: u16) -> Option<RawAttr>
    decreases attrs.len(),
{
    if attrs.len() == 0 {
        None
    } else if attrs.last().ty == ty {
        Some(attrs.last())
    } else {
        last_attr(attrs.drop_last(), ty)
    }
}

/// The first failure that `check` finds, going through the attributes in
/// order.
pub open spec fn first_failure(
    attrs: Seq<RawAttr>,
    check: spec_fn(RawAttr) -> Option<Failure>,
) -> Option<Failure>
    decreases attrs.len(),
{
    if attrs.len() == 0 {
        None
    } else {
        match first_failure(attrs.drop_last(), check) {
            Some(f) => Some(f),
            None => check(attrs.last()),
        }
    }
}

/// One step of `last_attr` over a growing prefix.
pub proof fn lemma_last_attr_step(attrs: Seq<RawAttr>, i: int, ty: u16)
    requires
        0 <= i < attrs.len(),
    ensures
        last_attr(attrs.take(i + 1), ty) == if attrs[i].ty == ty {
            Some(attrs[i])
        } else {
            last_attr(attrs.take(i), ty)
        },
{
    assert(attrs.take(i + 1).drop_last() =~= attrs.take(i));
}

/// One step of `first_failure` over a growing prefix.
pub proof fn lemma_first_failure_step(
    attrs: Seq<RawAttr>,
    i: int,
    check: spec_fn(RawAttr) -> Option<Failure>,
)
    requires
        0 <= i < attrs.len(),
    ensures
        first_failure(attrs.take(i + 1), check) == match first_failure(attrs.take(i), check) {
            Some(f) => Some(f),
            None => check(attrs[i]),
        },
{
    assert(attrs.take(i + 1).drop_last() =~= attrs.take(i));
}

/// Once a prefix of the attributes fails, the whole sequence fails the same
/// way.
pub proof fn lemma_first_failure_prefix(
    attrs: Seq<RawAttr>,
    i: int,
    check: spec_fn(RawAttr) -> Option<Failure>,
)
    requires
        0 <= i <= attrs.len(),
        first_failure(attrs.take(i), check) is Some,
    ensures
        first_failure(attrs, check) == first_failure(attrs.take(i), check),
    decreases attrs.len(),
{
    if i == attrs.len() {
        assert(attrs.take(i) =~= attrs);
    } else {
        assert(attrs.drop_last().take(i) =~= attrs.take(i));
        lemma_first_failure_prefix(attrs.drop_last(), i, check);
    }
}

/// Runs `step` over the items in order from `init`, stopping at the first
/// outcome that is not `Done`.
pub open spec fn fold_outcome<T, S>(
    items: Seq<T>,
    init: S,
    step: spec_fn(S, T) -> Outcome<S>,
) -> Outcome<S>
    decreases items.len(),
{
    if items.len() == 0 {
        Outcome::Done(init)
    } else {
        match fold_outcome(items.drop_last(), init, step) {
            Outcome::Done(s) => step(s, items.last()),
            Outcome::Failed(e) => Outcome::Failed(e),
            Outcome::Panics => Outcome::Panics,
        }
    }
}

/// One step of `fold_outcome` over a growing prefix.
pub proof fn lemma_fold_step<T, S>(
    items: Seq<T>,
    i: int,
    init: S,
    step: spec_fn(S, T) -> Outcome<S>,
)
    requires
        0 <= i < items.len(),
    ensures
        fold_outcome(items.take(i + 1), init, step) == match fold_outcome(
            items.take(i),
            init,
            step,
        ) {
            Outcome::Done(s) => step(s, items[i]),
            Outcome::Failed(e) => Outcome::Failed(e),
            Outcome::Panics => Outcome::Panics,
        },
{
    assert(items.take(i + 1).drop_last() =~= items.take(i));
}

/// Once a prefix of the items stops the fold, the whole sequence stops it
/// the same way.
pub proof fn lemma_fold_prefix<T, S>(
    items: Seq<T>,
    i: int,
    init: S,
    step: spec_fn(S, T) -> Outcome<S>,
)
    requires
        0 <= i <= items.len(),
        !(fold_outcome(items.take(i), init, step) is Done),
    ensures
        fold_outcome(items, init, step) == fold_outcome(items.take(i), init, step),
    decreases items.len(),
{
    if i == items.len() {
        assert(items.take(i) =~= items);
    } else {
        assert(items.drop_last().take(i) =~= items.take(i));
        lemma_fold_prefix(items.drop_last(), i, init, step);
    }
}

/// A property of the collected value that holds at the start and that every
/// step which goes on keeps holds of the result of a fold that goes through.
pub proof fn lemma_fold_invariant<T, S>(
    items: Seq<T>,
    init: S,
    step: spec_fn(S, T) -> Outcome<S>,
    inv: spec_fn(S) -> bool,
)
    requires
        inv(init),
        forall|s: S, x: T| inv(s) && (#[trigger] step(s, x)) is Done ==> inv(step(s, x)->Done_0),
    ensures
        fold_outcome(items, init, step) is Done ==> inv(fold_outcome(items, init, step)->Done_0),
    decreases items.len(),
{
    if items.len() > 0 {
        lemma_fold_invariant(items.drop_last(), init, step, inv);
    }
}

/// Whether an optional string holds the given text.
pub open spec fn opt_text_is(o: Option<String>, t: Option<Seq<char>>) -> bool {
    match (o, t) {
        (None, None) => true,
        (Some(s), Some(t)) => s@ == t,
        _ => false,
    }
}

} // verus!
