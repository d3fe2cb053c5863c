//! Decoding of attribute payloads, and the interface-name lookups.
//!
//! Payload decoding goes through `neli`; interface lookups go through `nix`.
use crate::error::{Error, ErrorView};
use crate::nl::{Ipv4Address, RawAttr};
use vstd::string::*;
use neli::{FromBytes, FromBytesWithInput};
use vstd::prelude::*;

verus! {

/// The text that `bytes` encode as UTF-8, or `None` when they are not valid
/// UTF-8.
pub uninterp spec fn utf8_decode(bytes: Seq<u8>) -> Option<Seq<char>>;

/// The attributes that `bytes` hold when read as a buffer of nested route
/// attributes (type and payload of each, in order), or `None` when they do
/// not parse as one.
pub uninterp spec fn nested_rtattrs(bytes: Seq<u8>) -> Option<Seq<(u16, Seq<u8>)>>;

/// The name under which `neli` prints the rtnetlink message type `nl_type`
/// (its `Debug` form of `Rtm`).
pub uninterp spec fn rtm_debug_name(nl_type: u16) -> Seq<char>;

/// Whether every byte is an ASCII byte.
pub open spec fn is_ascii_bytes(b: Seq<u8>) -> bool {
    forall|i: int| 0 <= i < b.len() ==> b[i] < 128
}

/// The characters that ASCII bytes stand for.
pub open spec fn ascii_chars(b: Seq<u8>) -> Seq<char> {
    b.map_values(|x: u8| x as char)
}

/// The first four bytes of `b` read as a big-endian (network order) integer.
pub open spec fn be_u32(b: Seq<u8>) -> u32
    recommends
        b.len() >= 4,
{
    (b[0] as int * 0x1000000 + b[1] as int * 0x10000 + b[2] as int * 0x100 + b[3] as int) as u32
}

/// The first four bytes of `b` read as a little-endian integer.
pub open spec fn le_u32(b: Seq<u8>) -> u32
    recommends
        b.len() >= 4,
{
    (b[3] as int * 0x1000000 + b[2] as int * 0x10000 + b[1] as int * 0x100 + b[0] as int) as u32
}

/// Reads a 32-bit integer payload with `neli`'s `FromBytes` for `u32`, which
/// reads the first four bytes in host byte order and fails when there are
/// fewer than four.
///
/// Claimed: it succeeds exactly when the payload has at least four bytes,
/// and the value is the big- or little-endian reading of the first four
/// bytes (which of the two depends on the machine, and is not stated).
#[verifier::external_body]
fn read_u32_payload(payload: &[u8]) -> (r: Option<u32>)
    ensures
        r is Some <==> payload@.len() >= 4,
        r matches Some(v) ==> v == be_u32(payload@) || v == le_u32(payload@),
{
    <u32 as FromBytes>::from_bytes(&mut std::io::Cursor::new(payload)).ok()
}

/// The first four bytes of `b` read in network byte order.
fn network_u32(b: &[u8]) -> (r: u32)
    requires
        b@.len() >= 4,
    ensures
        r == be_u32(b@),
{
    let hi: u32 = b[0] as u32 * 0x1000000;
    let r: u32 = hi + b[1] as u32 * 0x10000 + b[2] as u32 * 0x100 + b[3] as u32;
    r
}

/// Reads a string payload with `neli`'s `FromBytesWithInput` for `String`,
/// which decodes all bytes but the last (the terminating NUL) as UTF-8.
///
/// Claimed: the result is `utf8_decode` of the payload without its last
/// byte; ASCII bytes decode to the characters they stand for. An empty
/// payload makes the outside function panic, hence the `requires`.
#[verifier::external_body]
pub(crate) fn read_string_payload(payload: &[u8]) -> (r: Option<String>)
    requires
        payload@.len() >= 1,
    ensures
        r is Some <==> utf8_decode(payload@.drop_last()) is Some,
        r matches Some(s) ==> s@ == utf8_decode(payload@.drop_last())->0,
        r is None ==> !is_ascii_bytes(payload@.drop_last()),
        r matches Some(s) ==> (is_ascii_bytes(payload@.drop_last()) ==> s@ == ascii_chars(payload@.drop_last())),
{
    <String as FromBytesWithInput>::from_bytes_with_input(
        &mut std::io::Cursor::new(payload),
        payload.len(),
    ).ok()
}

/// Reads the attributes nested in a payload with `neli`'s `RtBuffer` parser
/// (the parser behind `Rtattr::get_attr_handle`), typing each attribute by its
/// raw number.
///
/// Claimed: the result is `nested_rtattrs` of the payload, attribute by
/// attribute.
#[verifier::external_body]
pub(crate) fn read_nested_attrs(payload: &[u8]) -> (r: Option<Vec<RawAttr>>)
    ensures
        r is Some <==> nested_rtattrs(payload@) is Some,
        r matches Some(v) ==> {
            let n = nested_rtattrs(payload@)->0;
            &&& v@.len() == n.len()
            &&& forall|i: int| 0 <= i < n.len() ==> #[trigger] v@[i].ty == n[i].0
                && v@[i].payload@ == n[i].1
        },
{
    let parsed = neli::types::RtBuffer::<u16, neli::types::Buffer>::from_bytes_with_input(
        &mut std::io::Cursor::new(payload),
        payload.len(),
    );
    match parsed {
        Ok(buf) => Some(buf.into_iter().map(|a| RawAttr {
            ty: *a.rta_type(),
            payload: a.rta_payload().as_ref().to_vec(),
        }).collect()),
        Err(_) => None,
    }
}

/// Prints an rtnetlink message type as `neli`'s `Debug` for `Rtm` does.
///
/// Claimed: the text is `rtm_debug_name` of the type.
#[verifier::external_body]
pub(crate) fn rtm_name(nl_type: u16) -> (r: String)
    ensures
        r@ == rtm_debug_name(nl_type),
{
    format!("{:?}", neli::consts::rtnl::Rtm::from(nl_type))
}

/// The error for a reply of type `actual` where `expected` was due.
pub open spec fn unexpected_type_error(expected: u16, actual: u16) -> ErrorView {
    ErrorView::UnexpectedNlType {
        expected: rtm_debug_name(expected),
        actual: rtm_debug_name(actual),
    }
}

/// The error for a reply of type `actual` where `expected` was due.
pub fn unexpected_type(expected: u16, actual: u16) -> (r: Error)
    ensures
        r@ == unexpected_type_error(expected, actual),
{
    Error::UnexpectedNlType { expected: rtm_name(expected), actual: rtm_name(actual) }
}

/// Looks an interface up by name with `nix::net::if_::if_nametoindex`,
/// giving the `errno` value on failure.
///
/// Claimed: a found index is never 0 (the C call reports failure with 0).
/// Which names resolve depends on the machine and is not stated.
#[verifier::external_body]
fn if_nametoindex(name: &str) -> (r: Result<u32, i32>)
    ensures
        r matches Ok(i) ==> i != 0,
{
    nix::net::if_::if_nametoindex(name).map_err(|e| e as i32)
}

/// Looks an interface name up by index with `nix::net::if_::if_indextoname`,
/// giving `None` when there is no such interface or its name is not UTF-8.
///
/// Claimed: a found name holds no NUL character (it is read up to the first
/// NUL). Which indices resolve depends on the machine and is not stated.
#[verifier::external_body]
pub(crate) fn if_indextoname(index: u32) -> (r: Option<String>)
    ensures
        r matches Some(s) ==> !s@.contains('\0'),
{
    nix::net::if_::if_indextoname(index).ok().and_then(|n| n.into_string().ok())
}

/// Whether `name` is a result that the interface-name lookup may give for
/// the interface index `index`.
pub closed spec fn lookup_may_name(index: u32, name: Option<String>) -> bool {
    call_ensures(if_indextoname, (index,), name)
}

/// The name of the interface with the given index, as the interface-name
/// lookup gives it.
pub fn interface_name(index: u32) -> (r: Option<String>)
    ensures
        lookup_may_name(index, r),
        r matches Some(s) ==> !s@.contains('\0'),
{
    let lookup = if_indextoname;
    lookup(index)
}

/// The `Result` of an interface lookup, given what the lookup returned: the
/// index, or the `errno` value that becomes an `InterfaceLookup` error.
pub fn lookup_result(ifname: &str, found: Result<u32, i32>) -> (r: Result<u32, Error>)
    ensures
        found matches Ok(i) ==> r == Ok::<u32, Error>(i),
        found matches Err(errno) ==> r matches Err(Error::InterfaceLookup { ifname: n, errno: e })
            && n@ == ifname@ && e == errno,
{
    match found {
        Ok(i) => Ok(i),
        Err(errno) => Err(Error::InterfaceLookup { ifname: ifname.to_owned(), errno }),
    }
}

/// Whether `found` (an index, or an `errno` value) is a result that the
/// interface-index lookup may give for the name `name`.
pub closed spec fn lookup_may_resolve(name: Seq<char>, found: Result<u32, i32>) -> bool {
    exists|s: &str| s@ == name && #[trigger] call_ensures(if_nametoindex, (s,), found)
}

/// Resolves an interface name to its index: the index the interface-index
/// lookup gives for the name, or the `errno` value it gives as an
/// `InterfaceLookup` error for the name.
pub fn resolve_ifname(ifname: &str) -> (r: Result<u32, Error>)
    ensures
        r matches Ok(i) ==> i != 0 && lookup_may_resolve(ifname@, Ok(i)),
        r matches Err(e) ==> e matches Error::InterfaceLookup { ifname: n, errno }
            && n@ == ifname@ && lookup_may_resolve(ifname@, Err(errno)),
{
    let lookup = if_nametoindex;
    let found = lookup(ifname);
    assert(lookup_may_resolve(ifname@, found));
    lookup_result(ifname, found)
}

/// The error for a payload that does not decode as `what`.
pub open spec fn deserialise_error(what: Seq<char>) -> ErrorView {
    ErrorView::Deserialise { what }
}

/// Reads an IPv4 address attribute (four bytes in network order).
pub fn rtattr_to_ipv4(attr: &RawAttr) -> (r: Result<Ipv4Address, Error>)
    ensures
        attr.payload@.len() >= 4 ==> r == Ok::<Ipv4Address, Error>(
            Ipv4Address(be_u32(attr.payload@)),
        ),
        attr.payload@.len() < 4 ==> (r matches Err(e) && e@ == deserialise_error("IPv4 address"@)),
{
    match read_u32_payload(attr.payload.as_slice()) {
        Some(_) => Ok(Ipv4Address(network_u32(attr.payload.as_slice()))),
        None => Err(Error::Deserialise { what: "IPv4 address" }),
    }
}

/// Reads a 32-bit integer attribute in host byte order, reporting a payload
/// shorter than four bytes as a failure to decode `what`.
pub fn rtattr_to_u32(attr: &RawAttr, what: &'static str) -> (r: Result<u32, Error>)
    ensures
        attr.payload@.len() >= 4 <==> r is Ok,
        r matches Ok(v) ==> v == be_u32(attr.payload@) || v == le_u32(attr.payload@),
        attr.payload@.len() < 4 ==> (r matches Err(e) && e@ == deserialise_error(what@)),
{
    match read_u32_payload(attr.payload.as_slice()) {
        Some(v) => Ok(v),
        None => Err(Error::Deserialise { what }),
    }
}

/// The address an optional IPv4 attribute gives.
pub open spec fn ipv4_attr(a: Option<RawAttr>) -> Option<Ipv4Address> {
    match a {
        None => None,
        Some(a) => Some(Ipv4Address(be_u32(a.payload@))),
    }
}

/// Whether an optional 32-bit value is read from the optional attribute (in
/// either byte order; the machine's decides).
pub open spec fn u32_attr_is(v: Option<u32>, a: Option<RawAttr>) -> bool {
    match (v, a) {
        (None, None) => true,
        (Some(v), Some(a)) => v == be_u32(a.payload@) || v == le_u32(a.payload@),
        _ => false,
    }
}

/// The text of a string attribute: its payload without the terminating
/// byte, decoded as UTF-8.
pub open spec fn string_attr_text(payload: Seq<u8>) -> Option<Seq<char>> {
    utf8_decode(payload.drop_last())
}

/// Reads a NUL-terminated string attribute.
pub fn rtattr_to_string(attr: &RawAttr) -> (r: Result<String, Error>)
    requires
        attr.payload@.len() >= 1,
    ensures
        string_attr_text(attr.payload@) is Some <==> r is Ok,
        r matches Ok(s) ==> s@ == string_attr_text(attr.payload@)->0,
        string_attr_text(attr.payload@) is None ==> (r matches Err(e) && e@ == deserialise_error(
            "string attribute"@,
        )),
        is_ascii_bytes(attr.payload@.drop_last()) ==> (r matches Ok(s) && s@ == ascii_chars(
            attr.payload@.drop_last(),
        )),
{
    match read_string_payload(attr.payload.as_slice()) {
        Some(s) => Ok(s),
        None => Err(Error::Deserialise { what: "string attribute" }),
    }
}

/// `s` without its trailing NUL characters.
pub open spec fn trim_trailing_nuls(s: Seq<char>) -> Seq<char>
    decreases s.len(),
{
    if s.len() > 0 && s.last() == '\0' {
        trim_trailing_nuls(s.drop_last())
    } else {
        s
    }
}

/// Removes the trailing NUL characters of a string.
pub fn trim_nuls(s: &str) -> (r: String)
    ensures
        r@ == trim_trailing_nuls(s@),
{
    let n = s.unicode_len();
    let mut end = n;
    assert(s@.take(n as int) =~= s@);
    while end > 0 && s.get_char(end - 1) == '\0'
        invariant
            end <= n,
            n == s@.len(),
            trim_trailing_nuls(s@.take(end as int)) == trim_trailing_nuls(s@),
        decreases end,
    {
        assert(s@.take(end as int).drop_last() =~= s@.take(end - 1));
        end = end - 1;
    }
    assert(s@.subrange(0, end as int) =~= s@.take(end as int));
    String::from_str(s.substring_char(0, end))
}

} // verus!
