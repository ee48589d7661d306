//! The incoming message model: status code, header mapping, body bytes.

use vstd::prelude::*;
use crate::headers::HeaderMap;

verus! {

/// The value of a parsed response.
pub ghost struct ResponseV {
    pub status: u16,
    pub body: Seq<u8>,
    pub headers: Seq<(Seq<char>, Seq<char>)>,
}

/// A parsed response: created only by the response parser, immutable,
/// owned by the caller of send.
pub struct Response {
    pub status: u16,
    pub body: Vec<u8>,
    pub headers: HeaderMap,
}

impl View for Response {
    type V = ResponseV;

    open spec fn view(&self) -> ResponseV {
        ResponseV { status: self.status, body: self.body@, headers: self.headers@ }
    }
}

} // verus!
