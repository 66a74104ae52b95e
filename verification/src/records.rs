//! The value side of the store: registered outcomes, and the response
//! descriptor that resolution produces for the serialization boundary.

use vstd::prelude::*;

verus! {

/// Fixed time-to-live, in seconds, of every answer record served by the mock.
pub const RECORD_TTL: u32 = 60;

/// An IP address as plain values: four octets for IPv4, eight 16-bit segments
/// for IPv6.  An IPv4 address is rendered as an A record, an IPv6 address as
/// an AAAA record.
#[derive(Clone, Copy, PartialEq, Eq, Structural, Debug)]
pub enum IpAddress {
    V4(u8, u8, u8, u8),
    V6(u16, u16, u16, u16, u16, u16, u16, u16),
}

/// A DNS response code.
#[derive(Clone, Copy, PartialEq, Eq, Structural, Debug)]
pub enum StatusCode {
    /// Success.
    NoError,
    /// Format error.
    FormError,
    /// Server failure.
    ServFail,
    /// Name error: the queried name does not exist.
    NXDomain,
    /// Not implemented.
    NotImp,
    /// Refused.
    Refused,
}

/// A registered outcome: either an ordered list of addresses to answer with,
/// or a bare status code with no answer records.
///
/// "Registered with an empty address list" and "not registered" are distinct:
/// the former answers successfully with zero records, the latter falls back
/// to the server's fallback policy.
#[derive(Debug)]
pub enum Response {
    Addresses(Vec<IpAddress>),
    Code(StatusCode),
}

/// The mathematical value of a [`Response`].
pub enum ResponseView {
    Addresses(Seq<IpAddress>),
    Code(StatusCode),
}

impl View for Response {
    type V = ResponseView;

    open spec fn view(&self) -> ResponseView {
        match self {
            Response::Addresses(addrs) => ResponseView::Addresses(addrs@),
            Response::Code(code) => ResponseView::Code(*code),
        }
    }
}

/// One answer record of a reply: the owner is the queried name, the record
/// type follows the variant of the address.
#[derive(Clone, Copy, PartialEq, Eq, Structural, Debug)]
pub struct Answer {
    pub address: IpAddress,
    pub ttl: u32,
}

/// A response descriptor, ready for the outside serialization boundary:
/// header bits, response code, and the answer section.
#[derive(Debug)]
pub struct Reply {
    pub authoritative: bool,
    pub code: StatusCode,
    pub answers: Vec<Answer>,
}

/// The mathematical value of a [`Reply`].
pub struct ReplyView {
    pub authoritative: bool,
    pub code: StatusCode,
    pub answers: Seq<Answer>,
}

impl View for Reply {
    type V = ReplyView;

    open spec fn view(&self) -> ReplyView {
        ReplyView { authoritative: self.authoritative, code: self.code, answers: self.answers@ }
    }
}

} // verus!
