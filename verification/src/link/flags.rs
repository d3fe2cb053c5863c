use vstd::prelude::*;

verus! {

/// `IFF_UP` (`linux/if.h`).
pub const IFF_UP: u32 = 0x1;
/// `IFF_BROADCAST`.
pub const IFF_BROADCAST: u32 = 0x2;
/// `IFF_LOOPBACK`.
pub const IFF_LOOPBACK: u32 = 0x8;
/// `IFF_POINTOPOINT`.
pub const IFF_POINTOPOINT: u32 = 0x10;
/// `IFF_RUNNING`.
pub const IFF_RUNNING: u32 = 0x40;
/// `IFF_NOARP`.
pub const IFF_NOARP: u32 = 0x80;
/// `IFF_PROMISC`.
pub const IFF_PROMISC: u32 = 0x100;
/// `IFF_ALLMULTI`.
pub const IFF_ALLMULTI: u32 = 0x200;
/// `IFF_MASTER`.
pub const IFF_MASTER: u32 = 0x400;
/// `IFF_SLAVE`.
pub const IFF_SLAVE: u32 = 0x800;
/// `IFF_MULTICAST`.
pub const IFF_MULTICAST: u32 = 0x1000;
/// `IFF_LOWER_UP`.
pub const IFF_LOWER_UP: u32 = 0x10000;
/// `IFF_DORMANT`.
pub const IFF_DORMANT: u32 = 0x20000;

/// Whether every bit of `flag` is set in `bits`.
pub open spec fn has_flag(bits: u32, flag: u32) -> bool {
    bits & flag == flag
}

/// Flags associated with a network link (`IFF_*`).
#[derive(Clone, Copy, Debug, PartialEq, Eq)]
pub struct LinkFlags {
    pub up: bool,
    pub broadcast: bool,
    pub loopback: bool,
    pub pointopoint: bool,
    pub running: bool,
    pub noarp: bool,
    pub promisc: bool,
    pub allmulti: bool,
    pub master: bool,
    pub slave: bool,
    pub multicast: bool,
    pub lower_up: bool,
    pub dormant: bool,
}

impl LinkFlags {
    /// The flags that an `ifi_flags` word encodes.
    pub open spec fn spec_from_bits(bits: u32) -> LinkFlags {
        LinkFlags {
            up: has_flag(bits, IFF_UP),
            broadcast: has_flag(bits, IFF_BROADCAST),
            loopback: has_flag(bits, IFF_LOOPBACK),
            pointopoint: has_flag(bits, IFF_POINTOPOINT),
            running: has_flag(bits, IFF_RUNNING),
            noarp: has_flag(bits, IFF_NOARP),
            promisc: has_flag(bits, IFF_PROMISC),
            allmulti: has_flag(bits, IFF_ALLMULTI),
            master: has_flag(bits, IFF_MASTER),
            slave: has_flag(bits, IFF_SLAVE),
            multicast: has_flag(bits, IFF_MULTICAST),
            lower_up: has_flag(bits, IFF_LOWER_UP),
            dormant: has_flag(bits, IFF_DORMANT),
        }
    }

    /// Decodes the `ifi_flags` word of a link message.
    pub fn from_bits(bits: u32) -> (r: LinkFlags)
        ensures
            r == Self::spec_from_bits(bits),
    {
        LinkFlags {
            up: bits & IFF_UP == IFF_UP,
            broadcast: bits & IFF_BROADCAST == IFF_BROADCAST,
            loopback: bits & IFF_LOOPBACK == IFF_LOOPBACK,
            pointopoint: bits & IFF_POINTOPOINT == IFF_POINTOPOINT,
            running: bits & IFF_RUNNING == IFF_RUNNING,
            noarp: bits & IFF_NOARP == IFF_NOARP,
            promisc: bits & IFF_PROMISC == IFF_PROMISC,
            allmulti: bits & IFF_ALLMULTI == IFF_ALLMULTI,
            master: bits & IFF_MASTER == IFF_MASTER,
            slave: bits & IFF_SLAVE == IFF_SLAVE,
            multicast: bits & IFF_MULTICAST == IFF_MULTICAST,
            lower_up: bits & IFF_LOWER_UP == IFF_LOWER_UP,
            dormant: bits & IFF_DORMANT == IFF_DORMANT,
        }
    }
}

impl Default for LinkFlags {
    /// No flag set.
    fn default() -> (r: LinkFlags)
        ensures
            r == (LinkFlags {
                up: false,
                broadcast: false,
                loopback: false,
                pointopoint: false,
                running: false,
                noarp: false,
                promisc: false,
                allmulti: false,
                master: false,
                slave: false,
                multicast: false,
                lower_up: false,
                dormant: false,
            }),
    {
        LinkFlags {
            up: false,
            broadcast: false,
            loopback: false,
            pointopoint: false,
            running: false,
            noarp: false,
            promisc: false,
            allmulti: false,
            master: false,
            slave: false,
            multicast: false,
            lower_up: false,
            dormant: false,
        }
    }
}

} // verus!
