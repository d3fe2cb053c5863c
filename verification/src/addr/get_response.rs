use crate::addr::flags::AddressFlags;
use crate::error::Error;
use crate::nl::Ipv4Address;
use crate::util::{first_key_value, values_by_key, values_in_key_order};
use std::collections::BTreeMap;
use vstd::prelude::*;

verus! {

broadcast use vstd::std_specs::btree::group_btree_axioms;

/// The reply to an address query: the interfaces found, by index.
#[derive(Debug)]
pub struct AddrGetResponse {
    pub interfaces: BTreeMap<u32, AddrGetInterface>,
}

impl AddrGetResponse {
    /// Returns the single interface if the response contains exactly one,
    /// else an `ExpectedExactlyOne` error that gives the number of
    /// interfaces.
    pub fn get_only(&self) -> (r: Result<&AddrGetInterface, Error>)
        ensures
            self.interfaces@.len() == 1 ==> (r matches Ok(i) && exists|k: u32|
                self.interfaces@.contains_key(k) && self.interfaces@[k] == *i),
            self.interfaces@.len() != 1 ==> (r matches Err(Error::ExpectedExactlyOne { what, len })
                && what@ == "interface"@ && len == self.interfaces@.len()),
    {
        let n = self.interfaces.len();
        match first_key_value(&self.interfaces) {
            Some((_, iface)) => {
                if n == 1 {
                    Ok(iface)
                } else {
                    Err(Error::ExpectedExactlyOne { what: "interface", len: n })
                }
            },
            None => Err(Error::ExpectedExactlyOne { what: "interface", len: n }),
        }
    }

    /// The interfaces, in increasing index order.
    pub fn interfaces_iter(&self) -> (r: Vec<&AddrGetInterface>)
        ensures
            values_in_key_order(self.interfaces@, r@.map_values(|i: &AddrGetInterface| *i)),
    {
        values_by_key(&self.interfaces)
    }
}

/// The IPv4 addresses of one interface.
#[derive(Debug)]
pub struct AddrGetInterface {
    pub(crate) addresses: Vec<AddrGetInterfaceAddressV4>,
}

impl View for AddrGetInterface {
    /// The addresses, in the order they were reported.
    type V = Seq<AddrV4View>;

    closed spec fn view(&self) -> Seq<AddrV4View> {
        self.addresses@.map_values(|a: AddrGetInterfaceAddressV4| a@)
    }
}

impl AddrGetInterface {
    /// An interface with no address.
    pub fn new() -> (r: AddrGetInterface)
        ensures
            r@.len() == 0,
    {
        AddrGetInterface { addresses: Vec::new() }
    }

    /// The addresses, in the order they were reported.
    pub fn addresses_v4(&self) -> (r: &[AddrGetInterfaceAddressV4])
        ensures
            r@.map_values(|a: AddrGetInterfaceAddressV4| a@) == self@,
    {
        self.addresses.as_slice()
    }

    /// Adds an address at the end.
    pub(crate) fn push(&mut self, a: AddrGetInterfaceAddressV4)
        ensures
            final(self)@ == old(self)@.push(a@),
    {
        self.addresses.push(a);
        assert(self.addresses@.map_values(|a: AddrGetInterfaceAddressV4| a@) =~= old(
            self,
        ).addresses@.map_values(|a: AddrGetInterfaceAddressV4| a@).push(a@));
    }
}

/// One IPv4 address of an interface.
#[derive(Debug)]
pub struct AddrGetInterfaceAddressV4 {
    // these are named here for what netlink calls them.
    pub(crate) local: Option<Ipv4Address>,
    pub(crate) address: Option<Ipv4Address>,
    pub prefix_len: u8,
    pub flags: AddressFlags,
    pub broadcast: Option<Ipv4Address>,
    pub label: Option<String>,
}

/// The value of an [`AddrGetInterfaceAddressV4`].
pub struct AddrV4View {
    /// The `IFA_LOCAL` address.
    pub local: Option<Ipv4Address>,
    /// The `IFA_ADDRESS` address (the peer, on point-to-point links).
    pub address: Option<Ipv4Address>,
    pub prefix_len: u8,
    pub flags: AddressFlags,
    pub broadcast: Option<Ipv4Address>,
    pub label: Option<Seq<char>>,
}

/// The value of an optional string.
pub open spec fn opt_text(s: Option<String>) -> Option<Seq<char>> {
    match s {
        Some(s) => Some(s@),
        None => None,
    }
}

impl View for AddrGetInterfaceAddressV4 {
    type V = AddrV4View;

    closed spec fn view(&self) -> AddrV4View {
        AddrV4View {
            local: self.local,
            address: self.address,
            prefix_len: self.prefix_len,
            flags: self.flags,
            broadcast: self.broadcast,
            label: opt_text(self.label),
        }
    }
}

impl AddrGetInterfaceAddressV4 {
    /// Builds an address entry.
    pub fn new(
        local: Option<Ipv4Address>,
        address: Option<Ipv4Address>,
        prefix_len: u8,
        flags: AddressFlags,
        broadcast: Option<Ipv4Address>,
        label: Option<String>,
    ) -> (r: AddrGetInterfaceAddressV4)
        ensures
            r@ == (AddrV4View {
                local,
                address,
                prefix_len,
                flags,
                broadcast,
                label: opt_text(label),
            }),
    {
        AddrGetInterfaceAddressV4 { local, address, prefix_len, flags, broadcast, label }
    }

    /// The `IFA_LOCAL` address.
    pub fn local(&self) -> (r: Option<Ipv4Address>)
        ensures
            r == self@.local,
    {
        self.local
    }

    /// The `IFA_ADDRESS` address (the peer, on point-to-point links).
    pub fn address(&self) -> (r: Option<Ipv4Address>)
        ensures
            r == self@.address,
    {
        self.address
    }

    /// The interface's own address: the local address, else the address.
    pub fn ip(&self) -> (r: Option<Ipv4Address>)
        ensures
            r == if self@.local is Some {
                self@.local
            } else {
                self@.address
            },
    {
        if let Some(ip) = self.local {
            Some(ip)
        } else {
            self.address
        }
    }

    /// The peer address of a point-to-point link: the address, when there is
    /// also a local address and the two differ.
    pub fn peer_ip(&self) -> (r: Option<Ipv4Address>)
        ensures
            r == match (self@.local, self@.address) {
                (Some(l), Some(a)) => if l != a {
                    Some(a)
                } else {
                    None
                },
                _ => None,
            },
    {
        match (self.local, self.address) {
            (Some(local), Some(address)) => {
                if local != address {
                    Some(address)
                } else {
                    None
                }
            },
            _ => None,
        }
    }
}

} // verus!
