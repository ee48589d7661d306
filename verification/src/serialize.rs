//! The wire serializer: turns a request into HTTP/1.1 start-line + header +
//! blank-line + body framing, character for character.

use vstd::prelude::*;
use vstd::utf8::encode_utf8;
use crate::error::{ErrorKind, RequestError, TransportError};
use crate::headers::first_match;
use crate::method::{spec_method_token, Method};
use crate::request::{Request, RequestV};
use crate::text::dec_of;
use crate::url_parts::UrlPartsV;

verus! {

/// The request target: the path, then `?` and the query if there is one.
pub open spec fn spec_target(u: UrlPartsV) -> Seq<char> {
    u.path + match u.query {
        Some(q) => "?"@ + q,
        None => Seq::<char>::empty(),
    }
}

/// Whether the Host header carries the port: only when the URL names one
/// that is not the default for its scheme (80 for http).
pub open spec fn spec_include_port(u: UrlPartsV) -> bool {
    match u.port {
        Some(p) => !(u.scheme == "http"@ && p == 80),
        None => false,
    }
}

/// The value of the derived Host header.
pub open spec fn spec_host_value(u: UrlPartsV) -> Seq<char> {
    match u.host {
        Some(h) => h + if spec_include_port(u) {
            ":"@ + dec_of(u.port.unwrap() as nat)
        } else {
            Seq::<char>::empty()
        },
        None => Seq::<char>::empty(),
    }
}

/// The user headers, one `name: value` line each, in insertion order.
pub open spec fn spec_header_lines(hs: Seq<(Seq<char>, Seq<char>)>) -> Seq<char>
    decreases hs.len(),
{
    if hs.len() == 0 {
        Seq::<char>::empty()
    } else {
        spec_header_lines(hs.drop_last()) + hs.last().0 + ": "@ + hs.last().1 + "\r\n"@
    }
}

/// The derived Host line.  An explicit user Host header wins: when one is
/// present, no line is derived from the URL.
pub open spec fn spec_host_block(r: RequestV) -> Seq<char> {
    if first_match(r.headers, "Host"@) is Some {
        Seq::<char>::empty()
    } else {
        "Host: "@ + spec_host_value(r.url) + "\r\n"@
    }
}

/// The Content-Length line: present exactly when a body is, counting the
/// body's bytes in its UTF-8 encoding.
pub open spec fn spec_content_length_block(body: Option<Seq<char>>) -> Seq<char> {
    match body {
        Some(b) => "Content-Length: "@ + dec_of(encode_utf8(b).len()) + "\r\n"@,
        None => Seq::<char>::empty(),
    }
}

/// The start line: method token, request target, fixed version.  The wire
/// layer always emits HTTP/1.1 syntax, whatever the version preference.
pub open spec fn spec_start_line(r: RequestV) -> Seq<char> {
    spec_method_token(r.method) + " "@ + spec_target(r.url) + " HTTP/1.1\r\n"@
}

/// The complete serialized request.
pub open spec fn spec_serialize(r: RequestV) -> Seq<char> {
    spec_start_line(r) + spec_host_block(r) + spec_header_lines(r.headers)
        + spec_content_length_block(r.body) + "\r\n"@ + match r.body {
        Some(b) => b,
        None => Seq::<char>::empty(),
    }
}

/// A request is ready for the wire when its method is set and its URL has a
/// resolvable host.
pub open spec fn spec_wire_ready(r: RequestV) -> bool {
    r.method != Method::Uninitialized && r.url.host is Some
}

impl Request {
    /// Serializes the request for the wire, or reports why it cannot go out:
    /// the method sentinel is a construction-time failure, a URL without a
    /// host cannot be connected to.
    pub fn wire_message(&self) -> (r: Result<String, ErrorKind>)
        ensures
            spec_wire_ready(self@) ==> (r matches Ok(s) && s@ == spec_serialize(self@)),
            self@.method == Method::Uninitialized ==> r == Err::<String, ErrorKind>(
                ErrorKind::Request(RequestError::InvalidMethod),
            ),
            self@.method != Method::Uninitialized && self@.url.host is None ==> r == Err::<
                String,
                ErrorKind,
            >(ErrorKind::Transport(TransportError::HostUnresolved)),
    {
        if self.method == Method::Uninitialized {
            return Err(ErrorKind::Request(RequestError::InvalidMethod));
        }
        let host = match &self.url.host {
            None => {
                return Err(ErrorKind::Transport(TransportError::HostUnresolved));
            },
            Some(h) => h,
        };
        let mut out = String::new();
        out.append(self.method.as_str());
        out.append(" ");
        out.append(self.url.path.as_str());
        match &self.url.query {
            Some(q) => {
                out.append("?");
                out.append(q.as_str());
            },
            None => {},
        }
        out.append(" HTTP/1.1\r\n");
        proof {
            assert(out@ =~= spec_start_line(self@));
        }
        if !self.headers.contains_name("Host") {
            out.append("Host: ");
            out.append(host.as_str());
            match self.url.port {
                Some(p) => {
                    if !(crate::text::str_eq(self.url.scheme.as_str(), "http") && p == 80) {
                        out.append(":");
                        let digits = crate::text::u64_to_dec(p as u64);
                        out.append(digits.as_str());
                    }
                },
                None => {},
            }
            out.append("\r\n");
        }
        proof {
            assert(out@ =~= spec_start_line(self@) + spec_host_block(self@));
        }
        let ghost head = out@;
        let n = self.headers.len();
        let mut i: usize = 0;
        while i < n
            invariant
                0 <= i <= n,
                n == self@.headers.len(),
                out@ == head + spec_header_lines(self@.headers.take(i as int)),
            decreases n - i,
        {
            let entry = self.headers.entry_at(i);
            out.append(entry.0.as_str());
            out.append(": ");
            out.append(entry.1.as_str());
            out.append("\r\n");
            proof {
                assert(self@.headers.take(i as int + 1).drop_last() =~= self@.headers.take(
                    i as int,
                ));
                assert(out@ =~= head + spec_header_lines(self@.headers.take(i as int + 1)));
            }
            i = i + 1;
        }
        proof {
            assert(self@.headers.take(n as int) =~= self@.headers);
            assert(out@ =~= spec_start_line(self@) + spec_host_block(self@) + spec_header_lines(
                self@.headers,
            ));
        }
        let ghost mid = out@;
        match &self.body {
            Some(b) => {
                out.append("Content-Length: ");
                let blen = b.as_str().as_bytes().len();
                let digits = crate::text::u64_to_dec(blen as u64);
                out.append(digits.as_str());
                out.append("\r\n");
            },
            None => {},
        }
        proof {
            assert(out@ =~= mid + spec_content_length_block(self@.body));
        }
        out.append("\r\n");
        match &self.body {
            Some(b) => {
                out.append(b.as_str());
            },
            None => {},
        }
        proof {
            assert(out@ =~= spec_serialize(self@));
        }
        Ok(out)
    }
}

} // verus!
