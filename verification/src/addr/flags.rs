use vstd::prelude::*;

verus! {

/// `IFA_F_SECONDARY` (`linux/if_addr.h`).
pub const IFA_F_SECONDARY: u8 = 0x01;
/// `IFA_F_NODAD`.
pub const IFA_F_NODAD: u8 = 0x02;
/// `IFA_F_OPTIMISTIC`.
pub const IFA_F_OPTIMISTIC: u8 = 0x04;
/// `IFA_F_DADFAILED`.
pub const IFA_F_DADFAILED: u8 = 0x08;
/// `IFA_F_HOMEADDRESS`.
pub const IFA_F_HOMEADDRESS: u8 = 0x10;
/// `IFA_F_DEPRECATED`.
pub const IFA_F_DEPRECATED: u8 = 0x20;
/// `IFA_F_TENTATIVE`.
pub const IFA_F_TENTATIVE: u8 = 0x40;
/// `IFA_F_PERMANENT`.
pub const IFA_F_PERMANENT: u8 = 0x80;

/// Flags associated with an interface address.
#[derive(Clone, Copy, Debug, PartialEq, Eq)]
pub struct AddressFlags {
    pub secondary: bool,
    pub nodad: bool,
    pub optimistic: bool,
    pub dadfailed: bool,
    pub homeaddress: bool,
    pub deprecated: bool,
    pub tentative: bool,
    pub permanent: bool,
}

/// Whether every bit of `flag` is set in `bits`.
pub open spec fn has_flag_u8(bits: u8, flag: u8) -> bool {
    bits & flag == flag
}

impl AddressFlags {
    /// The flags that the `ifa_flags` byte of an address message encodes.
    pub open spec fn spec_from_bits(bits: u8) -> AddressFlags {
        AddressFlags {
            secondary: has_flag_u8(bits, IFA_F_SECONDARY),
            nodad: has_flag_u8(bits, IFA_F_NODAD),
            optimistic: has_flag_u8(bits, IFA_F_OPTIMISTIC),
            dadfailed: has_flag_u8(bits, IFA_F_DADFAILED),
            homeaddress: has_flag_u8(bits, IFA_F_HOMEADDRESS),
            deprecated: has_flag_u8(bits, IFA_F_DEPRECATED),
            tentative: has_flag_u8(bits, IFA_F_TENTATIVE),
            permanent: has_flag_u8(bits, IFA_F_PERMANENT),
        }
    }

    /// Decodes the `ifa_flags` byte of an address message.
    pub fn from_bits(bits: u8) -> (r: AddressFlags)
        ensures
            r == Self::spec_from_bits(bits),
    {
        AddressFlags {
            secondary: bits & IFA_F_SECONDARY == IFA_F_SECONDARY,
            nodad: bits & IFA_F_NODAD == IFA_F_NODAD,
            optimistic: bits & IFA_F_OPTIMISTIC == IFA_F_OPTIMISTIC,
            dadfailed: bits & IFA_F_DADFAILED == IFA_F_DADFAILED,
            homeaddress: bits & IFA_F_HOMEADDRESS == IFA_F_HOMEADDRESS,
            deprecated: bits & IFA_F_DEPRECATED == IFA_F_DEPRECATED,
            tentative: bits & IFA_F_TENTATIVE == IFA_F_TENTATIVE,
            permanent: bits & IFA_F_PERMANENT == IFA_F_PERMANENT,
        }
    }
}

impl Default for AddressFlags {
    /// No flag set.
    fn default() -> (r: AddressFlags)
        ensures
            r == (AddressFlags {
                secondary: false,
                nodad: false,
                optimistic: false,
                dadfailed: false,
                homeaddress: false,
                deprecated: false,
                tentative: false,
                permanent: false,
            }),
    {
        AddressFlags {
            secondary: false,
            nodad: false,
            optimistic: false,
            dadfailed: false,
            homeaddress: false,
            deprecated: false,
            tentative: false,
            permanent: false,
        }
    }
}

} // verus!
