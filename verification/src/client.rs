//! The client and its configuration: process-wide defaults (timeout, user
//! agent, redirect policy, version preference) consumed at request
//! construction time, never during serialize, transport or parse.

use vstd::prelude::*;
use crate::error::{ClientError, ErrorKind, RequestError};
use crate::headers::HeaderMap;
use crate::method::{spec_version_from, HttpVersion};
use crate::request::{
    spec_body_step, spec_build, spec_headers_step, spec_method_step, spec_timeout_step,
    spec_url_step, Request, RequestBuilder, RequestV, DEFAULT_TIMEOUT_MS, TIMEOUT_FLOOR_MS,
};
use crate::url_parts::{opt_str_view, url_parts_of};

verus! {

/// The value of a configuration.
pub ghost struct ConfigV {
    pub timeout_ms: Option<u64>,
    pub user_agent: Option<Seq<char>>,
    pub follow_redirects: bool,
    pub max_redirects: u32,
    pub http_version_pref: HttpVersion,
}

/// A client configuration: immutable once a client is built around it.
pub struct Config {
    pub timeout_ms: Option<u64>,
    pub user_agent: Option<String>,
    pub follow_redirects: bool,
    pub max_redirects: u32,
    pub http_version_pref: HttpVersion,
}

impl View for Config {
    type V = ConfigV;

    open spec fn view(&self) -> ConfigV {
        ConfigV {
            timeout_ms: self.timeout_ms,
            user_agent: opt_str_view(self.user_agent),
            follow_redirects: self.follow_redirects,
            max_redirects: self.max_redirects,
            http_version_pref: self.http_version_pref,
        }
    }
}

/// The default configuration: a thirty-second timeout, redirects followed up
/// to ten times, every HTTP version acceptable, and a fixed user agent.
pub open spec fn spec_default_config() -> ConfigV {
    ConfigV {
        timeout_ms: Some(DEFAULT_TIMEOUT_MS),
        user_agent: Some("rust-http-client/0.1.0"@),
        follow_redirects: true,
        max_redirects: 10,
        http_version_pref: HttpVersion::All,
    }
}

impl Default for Config {
    fn default() -> (r: Config)
        ensures
            r@ == spec_default_config(),
    {
        Config {
            timeout_ms: Some(DEFAULT_TIMEOUT_MS),
            user_agent: Some(String::from_str("rust-http-client/0.1.0")),
            follow_redirects: true,
            max_redirects: 10,
            http_version_pref: HttpVersion::All,
        }
    }
}

/// The timeout a request gets: the caller's, else the configuration's, else
/// the thirty-second default.
pub open spec fn spec_effective_timeout(cfg: ConfigV, timeout_ms: Option<u64>) -> u64 {
    match timeout_ms {
        Some(t) => t,
        None => match cfg.timeout_ms {
            Some(t) => t,
            None => DEFAULT_TIMEOUT_MS,
        },
    }
}

/// What a convenience request amounts to: the builder steps applied in
/// order, with the configuration supplying the timeout default.
pub open spec fn spec_client_request(
    cfg: ConfigV,
    method: Seq<char>,
    url: Seq<char>,
    headers: Seq<(Seq<char>, Seq<char>)>,
    body: Option<Seq<char>>,
    timeout_ms: Option<u64>,
    version: Seq<char>,
) -> Result<RequestV, ErrorKind> {
    let b1 = spec_url_step(RequestBuilder::spec_init(), url_parts_of(url));
    let b2 = spec_method_step(b1, method);
    let b3 = spec_headers_step(b2, headers);
    let b4 = match body {
        Some(bd) => spec_body_step(b3, bd),
        None => b3,
    };
    let b5 = spec_timeout_step(b4, spec_effective_timeout(cfg, timeout_ms));
    let b6 = crate::request::spec_version_step(b5, version);
    spec_build(b6)
}

/// A client: a shareable, read-only snapshot of a configuration.  Every
/// method takes the client by shared reference; nothing mutates the
/// configuration after construction.
pub struct Client {
    config: Config,
}

impl View for Client {
    type V = ConfigV;

    closed spec fn view(&self) -> ConfigV {
        self.config@
    }
}

impl Client {
    /// A client with the default configuration.
    pub fn new() -> (r: Client)
        ensures
            r@ == spec_default_config(),
    {
        Client { config: Config::default() }
    }

    /// A client wrapping a snapshot of the given configuration.
    pub fn from(config: Config) -> (r: Client)
        ensures
            r@ == config@,
    {
        Client { config }
    }

    /// A fresh configuration builder.
    pub fn builder() -> (r: ClientBuilder)
        ensures
            r@ == spec_default_config(),
    {
        ClientBuilder::new()
    }

    /// A fresh request builder.
    pub fn request_builder() -> (r: RequestBuilder)
        ensures
            r@ == RequestBuilder::spec_init(),
    {
        Request::builder()
    }

    /// The configuration this client was built with.  Every read returns the
    /// same snapshot: the configuration is never mutated after construction.
    pub fn config(&self) -> (r: &Config)
        ensures
            r@ == self@,
    {
        &self.config
    }

    /// Constructs a request through the builder, the configuration supplying
    /// the timeout where the caller gives none.
    pub fn request(
        &self,
        method: &str,
        url: &str,
        headers: &HeaderMap,
        body: Option<&str>,
        timeout_ms: Option<u64>,
        version: &str,
    ) -> (r: Result<Request, ErrorKind>)
        ensures
            r matches Ok(req) ==> spec_client_request(
                self@,
                method@,
                url@,
                headers@,
                match body {
                    Some(b) => Some(b@),
                    None => None,
                },
                timeout_ms,
                version@,
            ) == Ok::<RequestV, ErrorKind>(req@) && req.wf(),
            r matches Err(e) ==> spec_client_request(
                self@,
                method@,
                url@,
                headers@,
                match body {
                    Some(b) => Some(b@),
                    None => None,
                },
                timeout_ms,
                version@,
            ) == Err::<RequestV, ErrorKind>(e),
    {
        let mut b = RequestBuilder::new();
        b.url(url);
        b.method(method);
        b.headers(headers);
        match body {
            Some(bd) => b.body(bd),
            None => {},
        }
        let eff = match timeout_ms {
            Some(t) => t,
            None => match self.config.timeout_ms {
                Some(t) => t,
                None => DEFAULT_TIMEOUT_MS,
            },
        };
        b.timeout(eff);
        b.version(version);
        b.build()
    }

    /// A GET request for `url` with the given headers.
    pub fn get(
        &self,
        url: &str,
        headers: &HeaderMap,
        timeout_ms: Option<u64>,
        version: &str,
    ) -> (r: Result<Request, ErrorKind>)
        ensures
            r matches Ok(req) ==> spec_client_request(
                self@,
                "Get"@,
                url@,
                headers@,
                None,
                timeout_ms,
                version@,
            ) == Ok::<RequestV, ErrorKind>(req@) && req.wf(),
            r matches Err(e) ==> spec_client_request(
                self@,
                "Get"@,
                url@,
                headers@,
                None,
                timeout_ms,
                version@,
            ) == Err::<RequestV, ErrorKind>(e),
    {
        self.request("Get", url, headers, None, timeout_ms, version)
    }

    /// A POST request for `url` with the given headers and optional body.
    pub fn post(
        &self,
        url: &str,
        headers: &HeaderMap,
        body: Option<&str>,
        timeout_ms: Option<u64>,
        version: &str,
    ) -> (r: Result<Request, ErrorKind>)
        ensures
            r matches Ok(req) ==> spec_client_request(
                self@,
                "Post"@,
                url@,
                headers@,
                match body {
                    Some(b) => Some(b@),
                    None => None,
                },
                timeout_ms,
                version@,
            ) == Ok::<RequestV, ErrorKind>(req@) && req.wf(),
            r matches Err(e) ==> spec_client_request(
                self@,
                "Post"@,
                url@,
                headers@,
                match body {
                    Some(b) => Some(b@),
                    None => None,
                },
                timeout_ms,
                version@,
            ) == Err::<RequestV, ErrorKind>(e),
    {
        self.request("Post", url, headers, body, timeout_ms, version)
    }

    /// A PUT request for `url` with the given headers and optional body.
    pub fn put(
        &self,
        url: &str,
        headers: &HeaderMap,
        body: Option<&str>,
        timeout_ms: Option<u64>,
        version: &str,
    ) -> (r: Result<Request, ErrorKind>)
        ensures
            r matches Ok(req) ==> spec_client_request(
                self@,
                "Put"@,
                url@,
                headers@,
                match body {
                    Some(b) => Some(b@),
                    None => None,
                },
                timeout_ms,
                version@,
            ) == Ok::<RequestV, ErrorKind>(req@) && req.wf(),
            r matches Err(e) ==> spec_client_request(
                self@,
                "Put"@,
                url@,
                headers@,
                match body {
                    Some(b) => Some(b@),
                    None => None,
                },
                timeout_ms,
                version@,
            ) == Err::<RequestV, ErrorKind>(e),
    {
        self.request("Put", url, headers, body, timeout_ms, version)
    }

    /// A DELETE request for `url` with the given headers.
    pub fn delete(
        &self,
        url: &str,
        headers: &HeaderMap,
        timeout_ms: Option<u64>,
        version: &str,
    ) -> (r: Result<Request, ErrorKind>)
        ensures
            r matches Ok(req) ==> spec_client_request(
                self@,
                "Delete"@,
                url@,
                headers@,
                None,
                timeout_ms,
                version@,
            ) == Ok::<RequestV, ErrorKind>(req@) && req.wf(),
            r matches Err(e) ==> spec_client_request(
                self@,
                "Delete"@,
                url@,
                headers@,
                None,
                timeout_ms,
                version@,
            ) == Err::<RequestV, ErrorKind>(e),
    {
        self.request("Delete", url, headers, None, timeout_ms, version)
    }
}

/// Builds a configuration; fallible steps validate their input and leave the
/// configuration unchanged on failure.
pub struct ClientBuilder {
    config: Config,
}

impl View for ClientBuilder {
    type V = ConfigV;

    closed spec fn view(&self) -> ConfigV {
        self.config@
    }
}

impl ClientBuilder {
    pub fn new() -> (r: ClientBuilder)
        ensures
            r@ == spec_default_config(),
    {
        ClientBuilder { config: Config::default() }
    }

    /// Sets the default timeout in milliseconds; ten seconds or less is
    /// rejected with `InvalidTimeout` and changes nothing.
    pub fn timeout(&mut self, timeout_ms: u64) -> (r: Result<(), ErrorKind>)
        ensures
            timeout_ms <= TIMEOUT_FLOOR_MS ==> r == Err::<(), ErrorKind>(
                ErrorKind::Request(RequestError::InvalidTimeout),
            ) && final(self)@ == old(self)@,
            timeout_ms > TIMEOUT_FLOOR_MS ==> r == Ok::<(), ErrorKind>(()) && final(self)@
                == (ConfigV { timeout_ms: Some(timeout_ms), ..old(self)@ }),
    {
        if timeout_ms <= TIMEOUT_FLOOR_MS {
            return Err(ErrorKind::Request(RequestError::InvalidTimeout));
        }
        self.config.timeout_ms = Some(timeout_ms);
        Ok(())
    }

    /// Sets the version preference; a token that maps to no known version is
    /// rejected with `InvalidHttpVersion` and changes nothing.
    pub fn http_version_pref(&mut self, version: &str) -> (r: Result<(), ErrorKind>)
        ensures
            spec_version_from(version@) == HttpVersion::Uninitialized ==> r == Err::<
                (),
                ErrorKind,
            >(ErrorKind::Client(ClientError::InvalidHttpVersion)) && final(self)@ == old(self)@,
            spec_version_from(version@) != HttpVersion::Uninitialized ==> r == Ok::<
                (),
                ErrorKind,
            >(()) && final(self)@ == (ConfigV {
                http_version_pref: spec_version_from(version@),
                ..old(self)@
            }),
    {
        let v = crate::method::HttpVersion::from(version);
        if v == HttpVersion::Uninitialized {
            return Err(ErrorKind::Client(ClientError::InvalidHttpVersion));
        }
        self.config.http_version_pref = v;
        Ok(())
    }

    /// Sets whether redirects are followed.
    pub fn follow_redirects(&mut self, follow: bool)
        ensures
            final(self)@ == (ConfigV { follow_redirects: follow, ..old(self)@ }),
    {
        self.config.follow_redirects = follow;
    }

    /// Sets the redirect ceiling.
    pub fn max_redirects(&mut self, max: u32)
        ensures
            final(self)@ == (ConfigV { max_redirects: max, ..old(self)@ }),
    {
        self.config.max_redirects = max;
    }

    /// Sets the user agent.
    pub fn user_agent(&mut self, user_agent: String)
        ensures
            final(self)@ == (ConfigV { user_agent: Some(user_agent@), ..old(self)@ }),
    {
        self.config.user_agent = Some(user_agent);
    }

    /// A client wrapping a snapshot of the configuration built so far.
    pub fn build(&self) -> (r: Client)
        ensures
            r@ == self@,
    {
        Client {
            config: Config {
                timeout_ms: self.config.timeout_ms,
                user_agent: match &self.config.user_agent {
                    Some(ua) => Some(ua.clone()),
                    None => None,
                },
                follow_redirects: self.config.follow_redirects,
                max_redirects: self.config.max_redirects,
                http_version_pref: self.config.http_version_pref,
            },
        }
    }
}

} // verus!
