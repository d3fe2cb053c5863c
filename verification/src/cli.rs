//! The command line of the `ip`-like tool: its arguments, and what each
//! subcommand asks the kernel for.
use crate::addr::get::AddrGetRequest;
use crate::error::Error;
use crate::mappers::lookup_may_resolve;
use crate::link::get::LinkGetRequest;
use crate::route::get::RouteGetRequest;
use vstd::prelude::*;

verus! {

/// The object a command acts on.
#[derive(Debug)]
pub enum Object {
    Addr(AddrArgs),
    Link(LinkArgs),
    Route(RouteArgs),
}

/// The whole command line.
#[derive(Debug)]
pub struct Args {
    pub obj: Object,
}

/// Arguments of `addr`.
#[derive(Debug)]
pub struct AddrArgs {
    pub sc: Option<AddrSubcommand>,
}

/// Subcommands of `addr`.
#[derive(Debug)]
pub enum AddrSubcommand {
    Show(AddrShowArgs),
}

/// Arguments of `addr show`.
#[derive(Debug)]
pub struct AddrShowArgs {
    pub ifname: Option<String>,
}

impl Default for AddrShowArgs {
    /// No interface named: show all of them.
    fn default() -> (r: AddrShowArgs)
        ensures
            r.ifname is None,
    {
        AddrShowArgs { ifname: None }
    }
}

/// Arguments of `link`.
#[derive(Debug)]
pub struct LinkArgs {
    pub sc: Option<LinkSubcommand>,
}

/// Subcommands of `link`.
#[derive(Debug)]
pub enum LinkSubcommand {
    Show(LinkShowArgs),
}

/// Arguments of `link show`.
#[derive(Debug)]
pub struct LinkShowArgs {
    pub ifname: Option<String>,
}

impl Default for LinkShowArgs {
    /// No interface named: show all of them.
    fn default() -> (r: LinkShowArgs)
        ensures
            r.ifname is None,
    {
        LinkShowArgs { ifname: None }
    }
}

/// Arguments of `route`.
#[derive(Debug)]
pub struct RouteArgs {
    pub sc: Option<RouteSubcommand>,
}

/// Subcommands of `route`.
#[derive(Debug)]
pub enum RouteSubcommand {
    Show,
}

/// What `addr` runs: `addr show` with the given arguments, or with none
/// when no subcommand is given.
pub fn addr_main(args: AddrArgs) -> (r: AddrShowArgs)
    ensures
        match args.sc {
            None => r.ifname is None,
            Some(AddrSubcommand::Show(a)) => r == a,
        },
{
    match args.sc {
        None => AddrShowArgs::default(),
        Some(AddrSubcommand::Show(a)) => a,
    }
}

/// The query that `addr show` sends: all interfaces, or the named one.
pub fn addr_show_request(args: &AddrShowArgs) -> (r: Result<AddrGetRequest, Error>)
    ensures
        args.ifname is None ==> (r matches Ok(req) && req@ is None),
        args.ifname matches Some(n) ==> (r matches Ok(req) ==> req@ matches Some(i) && i != 0
            && lookup_may_resolve(n@, Ok(i))),
        args.ifname matches Some(n) ==> (r matches Err(e) ==> e@ is InterfaceLookup
            && e@->ifname == n@ && lookup_may_resolve(n@, Err(e@->errno))),
{
    match &args.ifname {
        None => Ok(AddrGetRequest::all()),
        Some(n) => AddrGetRequest::for_ifname(n.as_str()),
    }
}

/// What `link` runs: `link show` with the given arguments, or with none
/// when no subcommand is given.
pub fn link_main(args: LinkArgs) -> (r: LinkShowArgs)
    ensures
        match args.sc {
            None => r.ifname is None,
            Some(LinkSubcommand::Show(a)) => r == a,
        },
{
    match args.sc {
        None => LinkShowArgs::default(),
        Some(LinkSubcommand::Show(a)) => a,
    }
}

/// The query that `link show` sends: all links, or the named one.
pub fn link_show_request(args: &LinkShowArgs) -> (r: Result<LinkGetRequest, Error>)
    ensures
        args.ifname is None ==> (r matches Ok(req) && req@ is None),
        args.ifname matches Some(n) ==> (r matches Ok(req) ==> req@ matches Some(i) && i != 0
            && lookup_may_resolve(n@, Ok(i))),
        args.ifname matches Some(n) ==> (r matches Err(e) ==> e@ is InterfaceLookup
            && e@->ifname == n@ && lookup_may_resolve(n@, Err(e@->errno))),
{
    match &args.ifname {
        None => Ok(LinkGetRequest::all()),
        Some(n) => LinkGetRequest::for_ifname(n.as_str()),
    }
}

/// What `route` runs, with or without the `show` subcommand: a query for
/// every route of the main table.
pub fn route_main(args: RouteArgs) -> (r: RouteGetRequest)
    ensures
        r@ is None,
{
    match args.sc {
        None | Some(RouteSubcommand::Show) => RouteGetRequest::new(),
    }
}

} // verus!
