use vstd::prelude::*;

verus! {

/// Errors reported by the library.
///
/// Errors that originate in the socket layer carry the text of the underlying
/// error, so that the type stays a plain value.
#[derive(Debug, PartialEq, Eq)]
pub enum Error {
    /// An I/O error.
    Io(String),
    /// A netlink socket error.
    NetlinkSocket(String),
    /// An address message could not be built.
    IfaddrMsgBuilder(String),
    /// A route message could not be built.
    RtMsgBuilder(String),
    /// The netlink router reported an error.
    NlRouter(String),
    /// A request could not be sent.
    Send(String),
    /// A reply could not be received.
    Receive(String),
    /// A reply carried a message type other than the one expected.
    UnexpectedNlType { expected: String, actual: String },
    /// An attribute payload could not be decoded.
    Deserialise { what: &'static str },
    /// An interface name could not be resolved to an index.
    InterfaceLookup { ifname: String, errno: i32 },
    /// A response held a number of items other than exactly one.
    ExpectedExactlyOne { what: &'static str, len: usize },
    /// A reply held data that violates the request.
    InvalidDataInResponse { reason: &'static str },
    /// The operation is not available on this platform.
    NotImplemented,
}

/// The value of an [`Error`], with its texts as character sequences.
pub enum ErrorView {
    Io(Seq<char>),
    NetlinkSocket(Seq<char>),
    IfaddrMsgBuilder(Seq<char>),
    RtMsgBuilder(Seq<char>),
    NlRouter(Seq<char>),
    Send(Seq<char>),
    Receive(Seq<char>),
    UnexpectedNlType { expected: Seq<char>, actual: Seq<char> },
    Deserialise { what: Seq<char> },
    InterfaceLookup { ifname: Seq<char>, errno: i32 },
    ExpectedExactlyOne { what: Seq<char>, len: usize },
    InvalidDataInResponse { reason: Seq<char> },
    NotImplemented,
}

impl View for Error {
    type V = ErrorView;

    open spec fn view(&self) -> ErrorView {
        match self {
            Error::Io(s) => ErrorView::Io(s@),
            Error::NetlinkSocket(s) => ErrorView::NetlinkSocket(s@),
            Error::IfaddrMsgBuilder(s) => ErrorView::IfaddrMsgBuilder(s@),
            Error::RtMsgBuilder(s) => ErrorView::RtMsgBuilder(s@),
            Error::NlRouter(s) => ErrorView::NlRouter(s@),
            Error::Send(s) => ErrorView::Send(s@),
            Error::Receive(s) => ErrorView::Receive(s@),
            Error::UnexpectedNlType { expected, actual } => ErrorView::UnexpectedNlType {
                expected: expected@,
                actual: actual@,
            },
            Error::Deserialise { what } => ErrorView::Deserialise { what: what@ },
            Error::InterfaceLookup { ifname, errno } => ErrorView::InterfaceLookup {
                ifname: ifname@,
                errno: *errno,
            },
            Error::ExpectedExactlyOne { what, len } => ErrorView::ExpectedExactlyOne {
                what: what@,
                len: *len,
            },
            Error::InvalidDataInResponse { reason } => ErrorView::InvalidDataInResponse {
                reason: reason@,
            },
            Error::NotImplemented => ErrorView::NotImplemented,
        }
    }
}

} // verus!
