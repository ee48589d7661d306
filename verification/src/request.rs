//! The outgoing message model and its builder: stepwise, fallible
//! construction where the first failure wins and later steps are skipped.

use vstd::prelude::*;
use crate::error::{ClientError, ErrorKind, RequestError};
use crate::headers::{spec_merge, HeaderMap};
use crate::method::{spec_method_from, spec_version_from, HttpVersion, Method};
use crate::url_parts::{opt_str_view, url_parts_of, UrlParts, UrlPartsV};

verus! {

/// The request timeout floor and the default, in milliseconds: requested
/// timeouts of ten seconds or less are rejected, and thirty seconds is used
/// where no timeout is given.
pub const TIMEOUT_FLOOR_MS: u64 = 10_000;

pub const DEFAULT_TIMEOUT_MS: u64 = 30_000;

/// The value of an outgoing request.
pub ghost struct RequestV {
    pub method: Method,
    pub url: UrlPartsV,
    pub headers: Seq<(Seq<char>, Seq<char>)>,
    pub body: Option<Seq<char>>,
    pub timeout_ms: u64,
    pub version: HttpVersion,
}

/// An outgoing request: immutable once built, reusable across sends.
pub struct Request {
    pub(crate) method: Method,
    pub(crate) url: UrlParts,
    pub(crate) headers: HeaderMap,
    pub(crate) body: Option<String>,
    pub(crate) timeout_ms: u64,
    pub(crate) version: HttpVersion,
}

impl View for Request {
    type V = RequestV;

    open(crate) spec fn view(&self) -> RequestV {
        RequestV {
            method: self.method,
            url: self.url@,
            headers: self.headers@,
            body: opt_str_view(self.body),
            timeout_ms: self.timeout_ms,
            version: self.version,
        }
    }
}

impl Request {
    /// Whether the request's header entries are well formed.
    pub closed spec fn wf(&self) -> bool {
        self.headers.wf()
    }

    /// A request with nothing set: sentinel method, empty URL, no headers,
    /// no body, the default timeout, and every version acceptable.
    pub fn new() -> (r: Request)
        ensures
            r@.method == Method::Uninitialized,
            r@.url.host is None,
            r@.headers.len() == 0,
            r@.body is None,
            r@.timeout_ms == DEFAULT_TIMEOUT_MS,
            r@.version == HttpVersion::All,
            r.wf(),
    {
        Request {
            method: Method::Uninitialized,
            url: UrlParts::empty(),
            headers: HeaderMap::new(),
            body: None,
            timeout_ms: DEFAULT_TIMEOUT_MS,
            version: HttpVersion::All,
        }
    }

    /// Assembles a request from its parts.
    pub fn from(
        method: Method,
        url: UrlParts,
        headers: HeaderMap,
        body: Option<String>,
        timeout_ms: u64,
        version: HttpVersion,
    ) -> (r: Request)
        ensures
            r@.method == method,
            r@.url == url@,
            r@.headers == headers@,
            r@.body == opt_str_view(body),
            r@.timeout_ms == timeout_ms,
            r@.version == version,
    {
        Request { method, url, headers, body, timeout_ms, version }
    }

    /// A fresh builder.
    pub fn builder() -> (r: RequestBuilder)
        ensures
            r@ == RequestBuilder::spec_init(),
    {
        RequestBuilder::new()
    }

    pub fn get_header(&self) -> (r: &HeaderMap)
        ensures
            r@ == self@.headers,
    {
        &self.headers
    }

    pub fn get_body(&self) -> (r: &Option<String>)
        ensures
            opt_str_view(*r) == self@.body,
    {
        &self.body
    }

    pub fn get_timeout(&self) -> (r: u64)
        ensures
            r == self@.timeout_ms,
    {
        self.timeout_ms
    }

    pub fn get_version(&self) -> (r: HttpVersion)
        ensures
            r == self@.version,
    {
        self.version
    }

    pub fn get_url(&self) -> (r: &UrlParts)
        ensures
            r@ == self@.url,
    {
        &self.url
    }

    pub fn get_method(&self) -> (r: Method)
        ensures
            r == self@.method,
    {
        self.method
    }
}

/// The state of a builder: the parts collected so far, and the first
/// failure, if any step has failed.
pub ghost struct BuilderV {
    pub method: Method,
    pub url: Option<UrlPartsV>,
    pub headers: Seq<(Seq<char>, Seq<char>)>,
    pub body: Option<Seq<char>>,
    pub timeout_ms: u64,
    pub version: HttpVersion,
    pub error: Option<ErrorKind>,
}

/// Builds a request step by step.  Each fallible step records the first
/// failure; once one is recorded, later steps change nothing, and `build`
/// surfaces it.
pub struct RequestBuilder {
    method: Method,
    url: Option<UrlParts>,
    headers: HeaderMap,
    body: Option<String>,
    timeout_ms: u64,
    version: HttpVersion,
    error: Option<ErrorKind>,
}

impl View for RequestBuilder {
    type V = BuilderV;

    closed spec fn view(&self) -> BuilderV {
        BuilderV {
            method: self.method,
            url: match self.url {
                Some(u) => Some(u@),
                None => None,
            },
            headers: self.headers@,
            body: opt_str_view(self.body),
            timeout_ms: self.timeout_ms,
            version: self.version,
            error: self.error,
        }
    }
}

/// What the URL step does: record the parse result, or the first failure.
pub open spec fn spec_url_step(b: BuilderV, parsed: Option<UrlPartsV>) -> BuilderV {
    if b.error is Some {
        b
    } else {
        match parsed {
            Some(u) => BuilderV { url: Some(u), ..b },
            None => BuilderV {
                error: Some(ErrorKind::Request(RequestError::MalformedUrl)),
                ..b
            },
        }
    }
}

/// What the method step does: store the mapped token, sentinel included;
/// the sentinel is rejected at build time, not here.
pub open spec fn spec_method_step(b: BuilderV, token: Seq<char>) -> BuilderV {
    if b.error is Some {
        b
    } else {
        BuilderV { method: spec_method_from(token), ..b }
    }
}

/// What the version step does.
pub open spec fn spec_version_step(b: BuilderV, token: Seq<char>) -> BuilderV {
    if b.error is Some {
        b
    } else {
        BuilderV { version: spec_version_from(token), ..b }
    }
}

/// What the body step does.
pub open spec fn spec_body_step(b: BuilderV, body: Seq<char>) -> BuilderV {
    if b.error is Some {
        b
    } else {
        BuilderV { body: Some(body), ..b }
    }
}

/// What the headers step does: merge the entries, later writes for a
/// matching name overwriting earlier ones.
pub open spec fn spec_headers_step(b: BuilderV, adds: Seq<(Seq<char>, Seq<char>)>) -> BuilderV {
    if b.error is Some {
        b
    } else {
        BuilderV { headers: spec_merge(b.headers, adds), ..b }
    }
}

/// What the timeout step does: reject anything at or below the floor.
pub open spec fn spec_timeout_step(b: BuilderV, ms: u64) -> BuilderV {
    if b.error is Some {
        b
    } else if ms <= TIMEOUT_FLOOR_MS {
        BuilderV {
            error: Some(ErrorKind::Request(RequestError::InvalidTimeout)),
            ..b
        }
    } else {
        BuilderV { timeout_ms: ms, ..b }
    }
}

/// What `build` returns: the first recorded failure, then a missing or
/// unparsed URL, then the method sentinel, then the version sentinel;
/// otherwise the assembled request.
pub open spec fn spec_build(b: BuilderV) -> Result<RequestV, ErrorKind> {
    if b.error is Some {
        Err(b.error.unwrap())
    } else if b.url is None {
        Err(ErrorKind::Request(RequestError::MalformedUrl))
    } else if b.method == Method::Uninitialized {
        Err(ErrorKind::Request(RequestError::InvalidMethod))
    } else if b.version == HttpVersion::Uninitialized {
        Err(ErrorKind::Client(ClientError::InvalidHttpVersion))
    } else {
        Ok(RequestV {
            method: b.method,
            url: b.url.unwrap(),
            headers: b.headers,
            body: b.body,
            timeout_ms: b.timeout_ms,
            version: b.version,
        })
    }
}

impl RequestBuilder {
    /// The starting state of a builder.
    pub open spec fn spec_init() -> BuilderV {
        BuilderV {
            method: Method::Uninitialized,
            url: None,
            headers: Seq::empty(),
            body: None,
            timeout_ms: DEFAULT_TIMEOUT_MS,
            version: HttpVersion::All,
            error: None,
        }
    }

    /// Whether the collected header entries are well formed.
    pub closed spec fn wf(&self) -> bool {
        self.headers.wf()
    }

    pub fn new() -> (r: RequestBuilder)
        ensures
            r@ == RequestBuilder::spec_init(),
            r.wf(),
    {
        let r = RequestBuilder {
            method: Method::Uninitialized,
            url: None,
            headers: HeaderMap::new(),
            body: None,
            timeout_ms: DEFAULT_TIMEOUT_MS,
            version: HttpVersion::All,
            error: None,
        };
        proof {
            assert(r@.headers =~= Seq::<(Seq<char>, Seq<char>)>::empty());
        }
        r
    }

    /// Parses `url` as an absolute URL; an unparseable text records
    /// `MalformedUrl`.
    pub fn url(&mut self, url: &str)
        ensures
            final(self)@ == spec_url_step(old(self)@, url_parts_of(url@)),
            old(self).wf() ==> final(self).wf(),
    {
        if self.error.is_some() {
            return;
        }
        match crate::url_parts::parse_url(url) {
            Some(u) => {
                self.url = Some(u);
            },
            None => {
                self.error = Some(ErrorKind::Request(RequestError::MalformedUrl));
            },
        }
    }

    /// Maps a case-sensitive method token; an unrecognized token maps to the
    /// sentinel, which `build` rejects.
    pub fn method(&mut self, token: &str)
        ensures
            final(self)@ == spec_method_step(old(self)@, token@),
            old(self).wf() ==> final(self).wf(),
    {
        if self.error.is_some() {
            return;
        }
        self.method = Method::from(token);
    }

    /// Maps a version token; an unrecognized token maps to the sentinel,
    /// which `build` rejects.
    pub fn version(&mut self, token: &str)
        ensures
            final(self)@ == spec_version_step(old(self)@, token@),
            old(self).wf() ==> final(self).wf(),
    {
        if self.error.is_some() {
            return;
        }
        self.version = HttpVersion::from(token);
    }

    /// Stores the body.  Content-Length is the wire serializer's concern,
    /// not recorded here.
    pub fn body(&mut self, body: &str)
        ensures
            final(self)@ == spec_body_step(old(self)@, body@),
            old(self).wf() ==> final(self).wf(),
    {
        if self.error.is_some() {
            return;
        }
        self.body = Some(String::from_str(body));
    }

    /// Merges entries into the collected headers; later values for a
    /// matching name overwrite earlier ones.
    pub fn headers(&mut self, headers: &HeaderMap)
        ensures
            final(self)@ == spec_headers_step(old(self)@, headers@),
            old(self).wf() ==> final(self).wf(),
    {
        if self.error.is_some() {
            return;
        }
        self.headers.merge(headers);
    }

    /// Sets the timeout in milliseconds; ten seconds or less records
    /// `InvalidTimeout`.
    pub fn timeout(&mut self, timeout_ms: u64)
        ensures
            final(self)@ == spec_timeout_step(old(self)@, timeout_ms),
            old(self).wf() ==> final(self).wf(),
    {
        if self.error.is_some() {
            return;
        }
        if timeout_ms <= TIMEOUT_FLOOR_MS {
            self.error = Some(ErrorKind::Request(RequestError::InvalidTimeout));
        } else {
            self.timeout_ms = timeout_ms;
        }
    }

    /// Returns the assembled request, or the first validation failure.
    pub fn build(&self) -> (r: Result<Request, ErrorKind>)
        ensures
            r matches Ok(req) ==> spec_build(self@) == Ok::<RequestV, ErrorKind>(req@),
            r matches Err(e) ==> spec_build(self@) == Err::<RequestV, ErrorKind>(e),
            self.wf() ==> match r {
                Ok(req) => req.wf(),
                Err(_) => true,
            },
    {
        if let Some(e) = self.error {
            return Err(e);
        }
        match &self.url {
            None => Err(ErrorKind::Request(RequestError::MalformedUrl)),
            Some(u) => {
                if self.method == Method::Uninitialized {
                    return Err(ErrorKind::Request(RequestError::InvalidMethod));
                }
                if self.version == HttpVersion::Uninitialized {
                    return Err(ErrorKind::Client(ClientError::InvalidHttpVersion));
                }
                let body = match &self.body {
                    Some(b) => Some(b.clone()),
                    None => None,
                };
                Ok(Request {
                    method: self.method,
                    url: u.duplicate(),
                    headers: self.headers.duplicate(),
                    body,
                    timeout_ms: self.timeout_ms,
                    version: self.version,
                })
            },
        }
    }
}

} // verus!
