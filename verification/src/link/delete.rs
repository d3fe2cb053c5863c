use crate::error::Error;
use crate::link::delete_response::LinkDeleteResponse;
use crate::mappers::{lookup_may_resolve, resolve_ifname};
use crate::nl::AF_UNSPEC;
use crate::request::{LinkRequestMsg, NlFlags, Request, RtmCommand};
use vstd::prelude::*;

verus! {

/// Request to delete a link (e.g. a bridge created with
/// `BridgeCreateRequest`).
pub struct LinkDeleteRequest {
    if_index: u32,
}

impl View for LinkDeleteRequest {
    /// The index of the link to delete.
    type V = u32;

    closed spec fn view(&self) -> u32 {
        self.if_index
    }
}

impl LinkDeleteRequest {
    /// Build a request targeting the interface with the given name.
    pub fn for_ifname(ifname: &str) -> (r: Result<LinkDeleteRequest, Error>)
        ensures
            r matches Ok(req) ==> req@ != 0 && lookup_may_resolve(ifname@, Ok(req@)),
            r matches Err(e) ==> e@ is InterfaceLookup && e@->ifname == ifname@
                && lookup_may_resolve(ifname@, Err(e@->errno)),
    {
        Ok(Self::for_index(resolve_ifname(ifname)?))
    }

    /// Build a request targeting the interface with the given index.
    pub fn for_index(if_index: u32) -> (r: LinkDeleteRequest)
        ensures
            r@ == if_index,
    {
        LinkDeleteRequest { if_index }
    }

    /// The request to send: `RTM_DELLINK` with `NLM_F_ACK` and an
    /// `AF_UNSPEC` `ifinfomsg` naming the link.
    pub fn request(&self) -> (r: Request<LinkRequestMsg>)
        ensures
            r.command == RtmCommand::Dellink,
            r.flags == NlFlags::spec_ack(),
            r.message.family == AF_UNSPEC,
            r.message.index == self@ as i32,
            r.message.flags == 0,
            r.message.change == 0,
            r.message.attrs@.len() == 0,
    {
        Request {
            command: RtmCommand::Dellink,
            flags: NlFlags::ack(),
            message: LinkRequestMsg {
                family: AF_UNSPEC,
                index: self.if_index as i32,
                flags: 0,
                change: 0,
                attrs: Vec::new(),
            },
        }
    }

    /// The response once the kernel acknowledged the request.
    pub fn response(&self) -> (r: LinkDeleteResponse)
        ensures
            r.if_index == self@,
    {
        LinkDeleteResponse { if_index: self.if_index }
    }
}

} // verus!
