use crate::error::Error;
use crate::link::flags::LinkFlags;
use crate::util::{first_key_value, values_by_key, values_in_key_order};
use std::collections::BTreeMap;
use vstd::prelude::*;
use vstd::string::*;

verus! {

broadcast use vstd::std_specs::btree::group_btree_axioms;

/// The reply to a link query: the links found, by interface index.
#[derive(Debug)]
pub struct LinkGetResponse {
    pub links: BTreeMap<u32, Link>,
}

impl LinkGetResponse {
    /// Returns the single link if the response contains exactly one, else
    /// an `ExpectedExactlyOne` error that gives the number of links.
    pub fn get_only(&self) -> (r: Result<&Link, Error>)
        ensures
            self.links@.len() == 1 ==> (r matches Ok(l) && exists|k: u32|
                self.links@.contains_key(k) && self.links@[k] == *l),
            self.links@.len() != 1 ==> (r matches Err(Error::ExpectedExactlyOne { what, len })
                && what@ == "link"@ && len == self.links@.len()),
    {
        let n = self.links.len();
        match first_key_value(&self.links) {
            Some((_, link)) => {
                if n == 1 {
                    Ok(link)
                } else {
                    Err(Error::ExpectedExactlyOne { what: "link", len: n })
                }
            },
            None => Err(Error::ExpectedExactlyOne { what: "link", len: n }),
        }
    }

    /// The links, in increasing interface-index order.
    pub fn links_iter(&self) -> (r: Vec<&Link>)
        ensures
            values_in_key_order(self.links@, r@.map_values(|l: &Link| *l)),
    {
        values_by_key(&self.links)
    }
}

/// One network link.
#[derive(Debug)]
pub struct Link {
    pub if_index: u32,
    pub if_name: Option<String>,
    /// Hardware type of the link (`ifi_type`, i.e. the `ARPHRD_*` value).
    pub hw_type: LinkType,
    pub flags: LinkFlags,
    pub mtu: Option<u32>,
    /// Hardware (MAC) address of the link.
    pub address: Option<HwAddr>,
    /// Link-layer broadcast address.
    pub broadcast: Option<HwAddr>,
    /// Index of the master interface this link is enslaved to, if any.
    pub master: Option<u32>,
    /// Name of the master interface, if it could be resolved.
    pub master_name: Option<String>,
    /// Link kind (e.g. "bridge", "veth"), from `IFLA_INFO_KIND`.
    pub kind: Option<String>,
}

/// Hardware type of a link, from the `ifi_type` (`ARPHRD_*`) field (`linux/if_arp.h`).
#[derive(Debug, Clone, Copy, PartialEq, Eq)]
pub enum LinkType {
    /// `ARPHRD_NETROM` (0).
    Netrom,
    /// `ARPHRD_ETHER` (1): Ethernet.
    Ether,
    /// `ARPHRD_EETHER` (2): experimental Ethernet.
    Eether,
    /// `ARPHRD_AX25` (3): AX.25 amateur radio.
    Ax25,
    /// `ARPHRD_PRONET` (4).
    Pronet,
    /// `ARPHRD_CHAOS` (5).
    Chaos,
    /// `ARPHRD_IEEE802` (6): Token Ring / 802.2.
    Ieee802,
    /// `ARPHRD_ARCNET` (7).
    Arcnet,
    /// `ARPHRD_APPLETLK` (8): AppleTalk.
    Appletlk,
    /// `ARPHRD_DLCI` (15): Frame Relay DLCI.
    Dlci,
    /// `ARPHRD_ATM` (19).
    Atm,
    /// `ARPHRD_METRICOM` (23).
    Metricom,
    /// `ARPHRD_IEEE1394` (24): FireWire.
    Ieee1394,
    /// `ARPHRD_EUI64` (27).
    Eui64,
    /// `ARPHRD_INFINIBAND` (32).
    Infiniband,
    /// `ARPHRD_SLIP` (256).
    Slip,
    /// `ARPHRD_CSLIP` (257).
    Cslip,
    /// `ARPHRD_SLIP6` (258).
    Slip6,
    /// `ARPHRD_CSLIP6` (259).
    Cslip6,
    /// `ARPHRD_RSRVD` (260).
    Rsrvd,
    /// `ARPHRD_ADAPT` (264).
    Adapt,
    /// `ARPHRD_ROSE` (270).
    Rose,
    /// `ARPHRD_X25` (271): CCITT X.25.
    X25,
    /// `ARPHRD_HWX25` (272).
    Hwx25,
    /// `ARPHRD_CAN` (280): Controller Area Network.
    Can,
    /// `ARPHRD_MCTP` (290).
    Mctp,
    /// `ARPHRD_PPP` (512).
    Ppp,
    /// `ARPHRD_CISCO / ARPHRD_HDLC` (513): Cisco HDLC.
    Cisco,
    /// `ARPHRD_LAPB` (516).
    Lapb,
    /// `ARPHRD_DDCMP` (517).
    Ddcmp,
    /// `ARPHRD_RAWHDLC` (518).
    RawHdlc,
    /// `ARPHRD_RAWIP` (519): raw IP (e.g. WWAN modems).
    RawIp,
    /// `ARPHRD_TUNNEL` (768): IPIP tunnel.
    Tunnel,
    /// `ARPHRD_TUNNEL6` (769): IP6IP6 tunnel.
    Tunnel6,
    /// `ARPHRD_FRAD` (770).
    Frad,
    /// `ARPHRD_SKIP` (771).
    Skip,
    /// `ARPHRD_LOOPBACK` (772).
    Loopback,
    /// `ARPHRD_LOCALTLK` (773).
    Localtlk,
    /// `ARPHRD_FDDI` (774).
    Fddi,
    /// `ARPHRD_BIF` (775).
    Bif,
    /// `ARPHRD_SIT` (776): IPv6-in-IPv4.
    Sit,
    /// `ARPHRD_IPDDP` (777).
    Ipddp,
    /// `ARPHRD_IPGRE` (778): GRE over IPv4.
    Ipgre,
    /// `ARPHRD_PIMREG` (779).
    Pimreg,
    /// `ARPHRD_HIPPI` (780).
    Hippi,
    /// `ARPHRD_ASH` (781).
    Ash,
    /// `ARPHRD_ECONET` (782).
    Econet,
    /// `ARPHRD_IRDA` (783).
    Irda,
    /// `ARPHRD_FCPP` (784): Fibre Channel point-to-point.
    Fcpp,
    /// `ARPHRD_FCAL` (785): Fibre Channel arbitrated loop.
    Fcal,
    /// `ARPHRD_FCPL` (786): Fibre Channel public loop.
    Fcpl,
    /// `ARPHRD_FCFABRIC` (787): Fibre Channel fabric.
    Fcfabric,
    /// `ARPHRD_IEEE802_TR` (800).
    Ieee802Tr,
    /// `ARPHRD_IEEE80211` (801): WiFi.
    Ieee80211,
    /// `ARPHRD_IEEE80211_PRISM` (802).
    Ieee80211Prism,
    /// `ARPHRD_IEEE80211_RADIOTAP` (803).
    Ieee80211Radiotap,
    /// `ARPHRD_IEEE802154` (804).
    Ieee802154,
    /// `ARPHRD_IEEE802154_MONITOR` (805).
    Ieee802154Monitor,
    /// `ARPHRD_PHONET` (820).
    Phonet,
    /// `ARPHRD_PHONET_PIPE` (821).
    PhonetPipe,
    /// `ARPHRD_CAIF` (822).
    Caif,
    /// `ARPHRD_IP6GRE` (823): GRE over IPv6.
    Ip6gre,
    /// `ARPHRD_NETLINK` (824).
    Netlink,
    /// `ARPHRD_6LOWPAN` (825).
    SixLowpan,
    /// `ARPHRD_VSOCKMON` (826).
    Vsockmon,
    /// `ARPHRD_NONE` (0xFFFE): no link-layer header, e.g. tun.
    NoLinkHeader,
    /// `ARPHRD_VOID` (0xFFFF).
    Void,
    /// Any `ARPHRD_*` value not named above, preserved verbatim.
    Other(u16),
}

/// The hardware type that an `ifi_type` value denotes.
pub open spec fn link_type_of(value: u16) -> LinkType {
    match value {
        0 => LinkType::Netrom,
        1 => LinkType::Ether,
        2 => LinkType::Eether,
        3 => LinkType::Ax25,
        4 => LinkType::Pronet,
        5 => LinkType::Chaos,
        6 => LinkType::Ieee802,
        7 => LinkType::Arcnet,
        8 => LinkType::Appletlk,
        15 => LinkType::Dlci,
        19 => LinkType::Atm,
        23 => LinkType::Metricom,
        24 => LinkType::Ieee1394,
        27 => LinkType::Eui64,
        32 => LinkType::Infiniband,
        256 => LinkType::Slip,
        257 => LinkType::Cslip,
        258 => LinkType::Slip6,
        259 => LinkType::Cslip6,
        260 => LinkType::Rsrvd,
        264 => LinkType::Adapt,
        270 => LinkType::Rose,
        271 => LinkType::X25,
        272 => LinkType::Hwx25,
        280 => LinkType::Can,
        290 => LinkType::Mctp,
        512 => LinkType::Ppp,
        513 => LinkType::Cisco,
        516 => LinkType::Lapb,
        517 => LinkType::Ddcmp,
        518 => LinkType::RawHdlc,
        519 => LinkType::RawIp,
        768 => LinkType::Tunnel,
        769 => LinkType::Tunnel6,
        770 => LinkType::Frad,
        771 => LinkType::Skip,
        772 => LinkType::Loopback,
        773 => LinkType::Localtlk,
        774 => LinkType::Fddi,
        775 => LinkType::Bif,
        776 => LinkType::Sit,
        777 => LinkType::Ipddp,
        778 => LinkType::Ipgre,
        779 => LinkType::Pimreg,
        780 => LinkType::Hippi,
        781 => LinkType::Ash,
        782 => LinkType::Econet,
        783 => LinkType::Irda,
        784 => LinkType::Fcpp,
        785 => LinkType::Fcal,
        786 => LinkType::Fcpl,
        787 => LinkType::Fcfabric,
        800 => LinkType::Ieee802Tr,
        801 => LinkType::Ieee80211,
        802 => LinkType::Ieee80211Prism,
        803 => LinkType::Ieee80211Radiotap,
        804 => LinkType::Ieee802154,
        805 => LinkType::Ieee802154Monitor,
        820 => LinkType::Phonet,
        821 => LinkType::PhonetPipe,
        822 => LinkType::Caif,
        823 => LinkType::Ip6gre,
        824 => LinkType::Netlink,
        825 => LinkType::SixLowpan,
        826 => LinkType::Vsockmon,
        65534 => LinkType::NoLinkHeader,
        65535 => LinkType::Void,
        other => LinkType::Other(other),
    }
}

/// The `ifi_type` value that a hardware type stands for.
pub open spec fn link_type_code(t: LinkType) -> u16 {
    match t {
        LinkType::Netrom => 0,
        LinkType::Ether => 1,
        LinkType::Eether => 2,
        LinkType::Ax25 => 3,
        LinkType::Pronet => 4,
        LinkType::Chaos => 5,
        LinkType::Ieee802 => 6,
        LinkType::Arcnet => 7,
        LinkType::Appletlk => 8,
        LinkType::Dlci => 15,
        LinkType::Atm => 19,
        LinkType::Metricom => 23,
        LinkType::Ieee1394 => 24,
        LinkType::Eui64 => 27,
        LinkType::Infiniband => 32,
        LinkType::Slip => 256,
        LinkType::Cslip => 257,
        LinkType::Slip6 => 258,
        LinkType::Cslip6 => 259,
        LinkType::Rsrvd => 260,
        LinkType::Adapt => 264,
        LinkType::Rose => 270,
        LinkType::X25 => 271,
        LinkType::Hwx25 => 272,
        LinkType::Can => 280,
        LinkType::Mctp => 290,
        LinkType::Ppp => 512,
        LinkType::Cisco => 513,
        LinkType::Lapb => 516,
        LinkType::Ddcmp => 517,
        LinkType::RawHdlc => 518,
        LinkType::RawIp => 519,
        LinkType::Tunnel => 768,
        LinkType::Tunnel6 => 769,
        LinkType::Frad => 770,
        LinkType::Skip => 771,
        LinkType::Loopback => 772,
        LinkType::Localtlk => 773,
        LinkType::Fddi => 774,
        LinkType::Bif => 775,
        LinkType::Sit => 776,
        LinkType::Ipddp => 777,
        LinkType::Ipgre => 778,
        LinkType::Pimreg => 779,
        LinkType::Hippi => 780,
        LinkType::Ash => 781,
        LinkType::Econet => 782,
        LinkType::Irda => 783,
        LinkType::Fcpp => 784,
        LinkType::Fcal => 785,
        LinkType::Fcpl => 786,
        LinkType::Fcfabric => 787,
        LinkType::Ieee802Tr => 800,
        LinkType::Ieee80211 => 801,
        LinkType::Ieee80211Prism => 802,
        LinkType::Ieee80211Radiotap => 803,
        LinkType::Ieee802154 => 804,
        LinkType::Ieee802154Monitor => 805,
        LinkType::Phonet => 820,
        LinkType::PhonetPipe => 821,
        LinkType::Caif => 822,
        LinkType::Ip6gre => 823,
        LinkType::Netlink => 824,
        LinkType::SixLowpan => 825,
        LinkType::Vsockmon => 826,
        LinkType::NoLinkHeader => 65534,
        LinkType::Void => 65535,
        LinkType::Other(v) => v,
    }
}

impl From<u16> for LinkType {
    /// Maps an `ifi_type` value to its hardware type.
    fn from(value: u16) -> (r: LinkType)
        ensures
            r == link_type_of(value),
    {
        match value {
            0 => LinkType::Netrom,
            1 => LinkType::Ether,
            2 => LinkType::Eether,
            3 => LinkType::Ax25,
            4 => LinkType::Pronet,
            5 => LinkType::Chaos,
            6 => LinkType::Ieee802,
            7 => LinkType::Arcnet,
            8 => LinkType::Appletlk,
            15 => LinkType::Dlci,
            19 => LinkType::Atm,
            23 => LinkType::Metricom,
            24 => LinkType::Ieee1394,
            27 => LinkType::Eui64,
            32 => LinkType::Infiniband,
            256 => LinkType::Slip,
            257 => LinkType::Cslip,
            258 => LinkType::Slip6,
            259 => LinkType::Cslip6,
            260 => LinkType::Rsrvd,
            264 => LinkType::Adapt,
            270 => LinkType::Rose,
            271 => LinkType::X25,
            272 => LinkType::Hwx25,
            280 => LinkType::Can,
            290 => LinkType::Mctp,
            512 => LinkType::Ppp,
            513 => LinkType::Cisco,
            516 => LinkType::Lapb,
            517 => LinkType::Ddcmp,
            518 => LinkType::RawHdlc,
            519 => LinkType::RawIp,
            768 => LinkType::Tunnel,
            769 => LinkType::Tunnel6,
            770 => LinkType::Frad,
            771 => LinkType::Skip,
            772 => LinkType::Loopback,
            773 => LinkType::Localtlk,
            774 => LinkType::Fddi,
            775 => LinkType::Bif,
            776 => LinkType::Sit,
            777 => LinkType::Ipddp,
            778 => LinkType::Ipgre,
            779 => LinkType::Pimreg,
            780 => LinkType::Hippi,
            781 => LinkType::Ash,
            782 => LinkType::Econet,
            783 => LinkType::Irda,
            784 => LinkType::Fcpp,
            785 => LinkType::Fcal,
            786 => LinkType::Fcpl,
            787 => LinkType::Fcfabric,
            800 => LinkType::Ieee802Tr,
            801 => LinkType::Ieee80211,
            802 => LinkType::Ieee80211Prism,
            803 => LinkType::Ieee80211Radiotap,
            804 => LinkType::Ieee802154,
            805 => LinkType::Ieee802154Monitor,
            820 => LinkType::Phonet,
            821 => LinkType::PhonetPipe,
            822 => LinkType::Caif,
            823 => LinkType::Ip6gre,
            824 => LinkType::Netlink,
            825 => LinkType::SixLowpan,
            826 => LinkType::Vsockmon,
            65534 => LinkType::NoLinkHeader,
            65535 => LinkType::Void,
            other => LinkType::Other(other),
        }
    }
}
impl vstd::std_specs::convert::FromSpecImpl<u16> for LinkType {
    open spec fn obeys_from_spec() -> bool {
        true
    }

    open spec fn from_spec(v: u16) -> LinkType {
        link_type_of(v)
    }
}

/// Every `ifi_type` value is recovered from its hardware type: no two values
/// map to the same `LinkType`, and `Other` carries exactly the values that
/// have no name.
pub proof fn lemma_link_type_round_trip(value: u16)
    ensures
        link_type_code(link_type_of(value)) == value,
        link_type_of(value) is Other <==> link_type_of(value) == LinkType::Other(value),
{
}

/// Two `ifi_type` values map to the same hardware type only when they are equal.
pub proof fn lemma_link_type_injective(a: u16, b: u16)
    ensures
        link_type_of(a) == link_type_of(b) ==> a == b,
{
    lemma_link_type_round_trip(a);
    lemma_link_type_round_trip(b);
}

/// A link-layer (hardware) address, rendered as colon-separated hex.
#[derive(PartialEq, Eq, Debug)]
pub struct HwAddr(pub Vec<u8>);

/// The lowercase hexadecimal digit for `d` (below 16).
pub open spec fn hex_digit(d: u8) -> char {
    if d < 10 {
        (48 + d) as char
    } else {
        (87 + d) as char
    }
}

/// The two lowercase hex digits of a byte.
pub open spec fn hex_byte(b: u8) -> Seq<char> {
    seq![hex_digit(b / 16), hex_digit(b % 16)]
}

/// Bytes as two-digit lowercase hex, separated by colons.
pub open spec fn hex_colon_text(b: Seq<u8>) -> Seq<char>
    decreases b.len(),
{
    if b.len() == 0 {
        Seq::empty()
    } else if b.len() == 1 {
        hex_byte(b[0])
    } else {
        hex_colon_text(b.drop_last()) + seq![':'] + hex_byte(b.last())
    }
}

fn hex_digit_str(d: u8) -> (r: &'static str)
    requires
        d < 16,
    ensures
        r@ == seq![hex_digit(d)],
{
    proof {
        reveal_strlit("0");
        reveal_strlit("1");
        reveal_strlit("2");
        reveal_strlit("3");
        reveal_strlit("4");
        reveal_strlit("5");
        reveal_strlit("6");
        reveal_strlit("7");
        reveal_strlit("8");
        reveal_strlit("9");
        reveal_strlit("a");
        reveal_strlit("b");
        reveal_strlit("c");
        reveal_strlit("d");
        reveal_strlit("e");
        reveal_strlit("f");
    }
    match d {
        0 => "0",
        1 => "1",
        2 => "2",
        3 => "3",
        4 => "4",
        5 => "5",
        6 => "6",
        7 => "7",
        8 => "8",
        9 => "9",
        10 => "a",
        11 => "b",
        12 => "c",
        13 => "d",
        14 => "e",
        _ => "f",
    }
}

impl HwAddr {
    /// The address as colon-separated two-digit lowercase hex (`aa:bb:cc`).
    pub fn to_string(&self) -> (r: String)
        ensures
            r@ == hex_colon_text(self.0@),
    {
        let mut out = String::new();
        let mut i: usize = 0;
        while i < self.0.len()
            invariant
                i <= self.0@.len(),
                out@ == hex_colon_text(self.0@.take(i as int)),
            decreases self.0@.len() - i,
        {
            let b = self.0[i];
            let ghost prev = out@;
            if i > 0 {
                proof {
                    reveal_strlit(":");
                }
                out.append(":");
            }
            out.append(hex_digit_str(b / 16));
            out.append(hex_digit_str(b % 16));
            let ghost next = self.0@.take(i + 1);
            assert(next.drop_last() =~= self.0@.take(i as int));
            assert(next.last() == b);
            if i == 0 {
                assert(out@ =~= hex_byte(next[0]));
            } else {
                assert(out@ =~= prev + seq![':'] + hex_byte(next.last()));
            }
            i = i + 1;
        }
        assert(self.0@.take(i as int) =~= self.0@);
        out
    }
}

} // verus!
