use crate::error::{Error, ErrorView};
use crate::mappers::{lookup_may_resolve, resolve_ifname, unexpected_type, unexpected_type_error};
use crate::nl::{
    fold_outcome, lemma_fold_invariant, lemma_fold_prefix, lemma_fold_step, AddrMsg, Outcome, Reply, AF_INET,
    RTM_NEWADDR, RT_SCOPE_UNIVERSE,
};
use crate::request::{NlFlags, Request, RtmCommand};
use vstd::prelude::*;

verus! {

/// A request to remove every IPv4 address of an interface.
pub struct AddrFlushRequest {
    if_index: u32,
}

impl View for AddrFlushRequest {
    /// The index of the interface to flush.
    type V = u32;

    closed spec fn view(&self) -> u32 {
        self.if_index
    }
}

/// The result of a flush: how many addresses were removed.
#[derive(Debug)]
pub struct AddrFlushResponse {
    pub addresses_flushed: usize,
}

/// The error for a reply about an interface other than the one flushed.
pub open spec fn foreign_index_error() -> ErrorView {
    ErrorView::InvalidDataInResponse { reason: "received ifindex violating filter"@ }
}

/// The effect of one reply of the address dump on the addresses to delete.
pub open spec fn flush_step(
    if_index: u32,
    found: Seq<AddrMsg>,
    item: Result<Reply<AddrMsg>, Error>,
) -> Outcome<Seq<AddrMsg>> {
    match item {
        Err(e) => Outcome::Failed(e@),
        Ok(rep) => match rep.payload {
            None => Outcome::Done(found),
            Some(p) => if rep.nl_type != RTM_NEWADDR {
                Outcome::Failed(unexpected_type_error(RTM_NEWADDR, rep.nl_type))
            } else if p.index == if_index {
                Outcome::Done(found.push(p))
            } else {
                Outcome::Failed(foreign_index_error())
            },
        },
    }
}

/// `flush_step` as a function value.
pub open spec fn flush_step_fn(if_index: u32) -> spec_fn(
    Seq<AddrMsg>,
    Result<Reply<AddrMsg>, Error>,
) -> Outcome<Seq<AddrMsg>> {
    |found: Seq<AddrMsg>, item: Result<Reply<AddrMsg>, Error>| flush_step(if_index, found, item)
}

/// The addresses to delete that a stream of replies to the dump yields.
pub open spec fn flush_replies(
    if_index: u32,
    replies: Seq<Result<Reply<AddrMsg>, Error>>,
) -> Outcome<Seq<AddrMsg>> {
    fold_outcome(replies, Seq::empty(), flush_step_fn(if_index))
}

/// A flush only ever deletes addresses of the interface it targets: every
/// message it plans to delete names that interface.
pub proof fn lemma_flush_only_target(if_index: u32, replies: Seq<Result<Reply<AddrMsg>, Error>>)
    ensures
        flush_replies(if_index, replies) matches Outcome::Done(found) ==> forall|i: int|
            0 <= i < found.len() ==> (#[trigger] found[i]).index == if_index,
{
    let inv = |s: Seq<AddrMsg>| forall|i: int| 0 <= i < s.len() ==> (#[trigger] s[i]).index == if_index;
    let step = flush_step_fn(if_index);
    assert forall|s: Seq<AddrMsg>, x: Result<Reply<AddrMsg>, Error>|
        inv(s) && (#[trigger] step(s, x)) is Done implies inv(step(s, x)->Done_0) by {
        assert(step(s, x) == flush_step(if_index, s, x));
    }
    lemma_fold_invariant(replies, Seq::empty(), step, inv);
}

/// A flush plans to delete every address of its interface, whatever its
/// flags or scope: one more reply carrying such an address adds it after
/// those planned so far; an address of another interface stops the flush.
pub proof fn lemma_flush_plans_every_address(
    if_index: u32,
    replies: Seq<Result<Reply<AddrMsg>, Error>>,
    found: Seq<AddrMsg>,
    p: AddrMsg,
)
    requires
        flush_replies(if_index, replies) == Outcome::Done(found),
    ensures
        flush_replies(
            if_index,
            replies.push(Ok(Reply { nl_type: RTM_NEWADDR, payload: Some(p) })),
        ) == if p.index == if_index {
            Outcome::Done(found.push(p))
        } else {
            Outcome::Failed(foreign_index_error())
        },
{
    let x: Result<Reply<AddrMsg>, Error> = Ok(Reply { nl_type: RTM_NEWADDR, payload: Some(p) });
    assert(replies.push(x).drop_last() =~= replies);
    assert(flush_step_fn(if_index)(found, x) == flush_step(if_index, found, x));
}

impl AddrFlushRequest {
    /// Flush the interface with the given name.
    pub fn for_ifname(ifname: &str) -> (r: Result<AddrFlushRequest, Error>)
        ensures
            r matches Ok(req) ==> req@ != 0 && lookup_may_resolve(ifname@, Ok(req@)),
            r matches Err(e) ==> e@ is InterfaceLookup && e@->ifname == ifname@
                && lookup_may_resolve(ifname@, Err(e@->errno)),
    {
        let if_index = resolve_ifname(ifname)?;
        Ok(AddrFlushRequest { if_index })
    }

    /// Flush the interface with the given index.
    pub fn for_index(if_index: u32) -> (r: AddrFlushRequest)
        ensures
            r@ == if_index,
    {
        AddrFlushRequest { if_index }
    }

    /// The dump request that lists the addresses to delete: `RTM_GETADDR`
    /// with `NLM_F_DUMP` and an `AF_INET` `ifaddrmsg` of universe scope for
    /// the interface.
    pub fn request(&self) -> (r: Request<AddrMsg>)
        ensures
            r.command == RtmCommand::Getaddr,
            r.flags == NlFlags::spec_dump(),
            r.message.family == AF_INET,
            r.message.prefix_len == 0,
            r.message.flags == 0,
            r.message.scope == RT_SCOPE_UNIVERSE,
            r.message.index == self@,
            r.message.attrs@.len() == 0,
    {
        Request {
            command: RtmCommand::Getaddr,
            flags: NlFlags::dump(),
            message: AddrMsg {
                family: AF_INET,
                prefix_len: 0,
                flags: 0,
                scope: RT_SCOPE_UNIVERSE,
                index: self.if_index,
                attrs: Vec::new(),
            },
        }
    }

    /// The address messages to delete, from the replies to the dump in
    /// order: a reply error, a message of the wrong type or an address of
    /// another interface ends it with an error.
    pub fn plan(&self, replies: Vec<Result<Reply<AddrMsg>, Error>>) -> (r: Result<
        Vec<AddrMsg>,
        Error,
    >)
        ensures
            match flush_replies(self@, replies@) {
                Outcome::Done(found) => r matches Ok(v) && v@ == found,
                Outcome::Failed(e) => r matches Err(x) && x@ == e,
                Outcome::Panics => false,
            },
    {
        let ghost all = replies@;
        assert(all.len() == replies.len());
        let ghost step = flush_step_fn(self.if_index);
        let mut rest = replies;
        let mut to_delete: Vec<AddrMsg> = Vec::new();
        let mut i: usize = 0;
        assert(all.skip(0) =~= all);
        while rest.len() > 0
            invariant
                i <= all.len(),
                all == replies@,
                all.len() <= usize::MAX,
                rest@ == all.skip(i as int),
                step == flush_step_fn(self.if_index),
                fold_outcome(all.take(i as int), Seq::empty(), step) == Outcome::Done(to_delete@),
            decreases rest@.len(),
        {
            let item = rest.remove(0);
            proof {
                assert(item == all[i as int]);
                assert(rest@ =~= all.skip(i + 1));
                lemma_fold_step(all, i as int, Seq::empty(), step);
                assert(step(to_delete@, all[i as int]) == flush_step(
                    self.if_index,
                    to_delete@,
                    all[i as int],
                ));
            }
            match item {
                Err(e) => {
                    proof {
                        lemma_fold_prefix(all, i + 1, Seq::empty(), step);
                    }
                    return Err(e);
                },
                Ok(rep) => {
                    match rep.payload {
                        None => {},
                        Some(p) => {
                            if rep.nl_type != RTM_NEWADDR {
                                proof {
                                    lemma_fold_prefix(all, i + 1, Seq::empty(), step);
                                }
                                return Err(unexpected_type(RTM_NEWADDR, rep.nl_type));
                            }
                            if p.index == self.if_index {
                                to_delete.push(p);
                            } else {
                                proof {
                                    lemma_fold_prefix(all, i + 1, Seq::empty(), step);
                                }
                                return Err(
                                    Error::InvalidDataInResponse {
                                        reason: "received ifindex violating filter",
                                    },
                                );
                            }
                        },
                    }
                },
            }
            i = i + 1;
        }
        assert(all.take(i as int) =~= all);
        Ok(to_delete)
    }

    /// The request that deletes one address: `RTM_DELADDR` with
    /// `NLM_F_ACK`, carrying the message as the dump reported it.
    pub fn delete_request(msg: AddrMsg) -> (r: Request<AddrMsg>)
        ensures
            r.command == RtmCommand::Deladdr,
            r.flags == NlFlags::spec_ack(),
            r.message == msg,
    {
        Request { command: RtmCommand::Deladdr, flags: NlFlags::ack(), message: msg }
    }

    /// Starts deleting the planned addresses, first to last: the deletion
    /// of the first one, or, with nothing to delete, a flush of none.
    pub fn deletion(planned: Vec<AddrMsg>) -> (r: AddrFlushAction)
        ensures
            planned@.len() == 0 ==> (r matches AddrFlushAction::Finish(resp)
                && resp.addresses_flushed == 0),
            planned@.len() > 0 ==> (r matches AddrFlushAction::Delete(req, next)
                && req == delete_of(planned@[0])
                && next@ == (AddrFlushDeletionView { pending: planned@.drop_first(), flushed: 0 })),
    {
        let mut planned = planned;
        if planned.len() == 0 {
            AddrFlushAction::Finish(AddrFlushResponse { addresses_flushed: 0 })
        } else {
            let ghost before = planned@;
            let first = planned.remove(0);
            assert(planned@ =~= before.drop_first());
            AddrFlushAction::Delete(
                Self::delete_request(first),
                AddrFlushDeletion { pending: planned, flushed: 0 },
            )
        }
    }
}

/// The request that deletes `msg`, as `delete_request` builds it.
pub open spec fn delete_of(msg: AddrMsg) -> Request<AddrMsg> {
    Request { command: RtmCommand::Deladdr, flags: NlFlags::spec_ack(), message: msg }
}

/// A flush under way: one deletion has been sent and its acknowledgement is
/// awaited; `pending` are the deletions still to send, in order, and
/// `flushed` how many were acknowledged before.
pub struct AddrFlushDeletion {
    pending: Vec<AddrMsg>,
    flushed: usize,
}

/// The value of an [`AddrFlushDeletion`].
pub struct AddrFlushDeletionView {
    pub pending: Seq<AddrMsg>,
    pub flushed: nat,
}

impl View for AddrFlushDeletion {
    type V = AddrFlushDeletionView;

    closed spec fn view(&self) -> AddrFlushDeletionView {
        AddrFlushDeletionView { pending: self.pending@, flushed: self.flushed as nat }
    }
}

/// What to do next in a flush.
pub enum AddrFlushAction {
    /// Send this deletion, then hand its acknowledgement to the state.
    Delete(Request<AddrMsg>, AddrFlushDeletion),
    /// Every planned address was deleted.
    Finish(AddrFlushResponse),
    /// A deletion failed: the flush stops with this error.
    Abort(Error),
}

impl AddrFlushDeletion {
    /// The count of every deletion, sent or still to send, fits a `usize`.
    #[verifier::type_invariant]
    spec fn counts_fit(self) -> bool {
        self.flushed + self.pending@.len() < usize::MAX
    }

    /// Takes the acknowledgement of the deletion in flight: a failure stops
    /// the flush with it; otherwise the deletion counts, and the next one is
    /// sent, or the flush is done.
    pub fn step(self, ack: Result<(), Error>) -> (r: AddrFlushAction)
        ensures
            ack matches Err(e) ==> r matches AddrFlushAction::Abort(x) && x == e,
            ack is Ok && self@.pending.len() == 0 ==> (r matches AddrFlushAction::Finish(resp)
                && resp.addresses_flushed == self@.flushed + 1),
            ack is Ok && self@.pending.len() > 0 ==> (r matches AddrFlushAction::Delete(req, next)
                && req == delete_of(self@.pending[0])
                && next@ == (AddrFlushDeletionView {
                    pending: self@.pending.drop_first(),
                    flushed: self@.flushed + 1,
                })),
    {
        proof {
            use_type_invariant(&self);
        }
        match ack {
            Err(e) => AddrFlushAction::Abort(e),
            Ok(()) => {
                let AddrFlushDeletion { mut pending, flushed } = self;
                let flushed = flushed + 1;
                if pending.len() == 0 {
                    AddrFlushAction::Finish(AddrFlushResponse { addresses_flushed: flushed })
                } else {
                    let ghost before = pending@;
                    let next = pending.remove(0);
                    assert(pending@ =~= before.drop_first());
                    AddrFlushAction::Delete(
                        AddrFlushRequest::delete_request(next),
                        AddrFlushDeletion { pending, flushed },
                    )
                }
            },
        }
    }
}

} // verus!
