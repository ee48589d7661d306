//! The closed enumerations of the message model: request methods and HTTP
//! version preferences, with their token mappings.

use vstd::prelude::*;

verus! {

/// A request method.  `Uninitialized` is the not-yet-set sentinel; a request
/// must never reach the wire with it, so `build` rejects it.
#[derive(Clone, Copy, Debug, PartialEq, Eq, Structural)]
pub enum Method {
    GET,
    POST,
    PUT,
    DELETE,
    Uninitialized,
}

/// The client's declared intent about the HTTP major version.  The wire
/// layer always emits HTTP/1.1 syntax regardless of the preference.
#[derive(Clone, Copy, Debug, PartialEq, Eq, Structural)]
pub enum HttpVersion {
    Http1Only,
    Http2Only,
    All,
    Uninitialized,
}

/// The method a token maps to: the four recognized tokens name their
/// variants, anything else maps to the sentinel.
pub open spec fn spec_method_from(s: Seq<char>) -> Method {
    if s == "Get"@ {
        Method::GET
    } else if s == "Post"@ {
        Method::POST
    } else if s == "Put"@ {
        Method::PUT
    } else if s == "Delete"@ {
        Method::DELETE
    } else {
        Method::Uninitialized
    }
}

/// The token each method puts on the start line.
pub open spec fn spec_method_token(m: Method) -> Seq<char> {
    match m {
        Method::GET => "GET"@,
        Method::POST => "POST"@,
        Method::PUT => "PUT"@,
        Method::DELETE => "DELETE"@,
        Method::Uninitialized => "Uninitialized"@,
    }
}

/// The version a token maps to: "http1", "http2" and "all" name their
/// variants, anything else maps to the sentinel.
pub open spec fn spec_version_from(s: Seq<char>) -> HttpVersion {
    if s == "http1"@ {
        HttpVersion::Http1Only
    } else if s == "http2"@ {
        HttpVersion::Http2Only
    } else if s == "all"@ {
        HttpVersion::All
    } else {
        HttpVersion::Uninitialized
    }
}

impl Method {
    /// Maps a case-sensitive method token to a method.
    pub fn from(s: &str) -> (r: Method)
        ensures
            r == spec_method_from(s@),
    {
        if crate::text::str_eq(s, "Get") {
            Method::GET
        } else if crate::text::str_eq(s, "Post") {
            Method::POST
        } else if crate::text::str_eq(s, "Put") {
            Method::PUT
        } else if crate::text::str_eq(s, "Delete") {
            Method::DELETE
        } else {
            Method::Uninitialized
        }
    }

    /// The start-line token of this method.
    pub fn as_str(&self) -> (r: &'static str)
        ensures
            r@ == spec_method_token(*self),
    {
        match self {
            Method::GET => "GET",
            Method::POST => "POST",
            Method::PUT => "PUT",
            Method::DELETE => "DELETE",
            Method::Uninitialized => "Uninitialized",
        }
    }
}

impl HttpVersion {
    /// Maps a version token to a version preference.
    pub fn from(s: &str) -> (r: HttpVersion)
        ensures
            r == spec_version_from(s@),
    {
        if crate::text::str_eq(s, "http1") {
            HttpVersion::Http1Only
        } else if crate::text::str_eq(s, "http2") {
            HttpVersion::Http2Only
        } else if crate::text::str_eq(s, "all") {
            HttpVersion::All
        } else {
            HttpVersion::Uninitialized
        }
    }
}

} // verus!
