//! The URL model: the components the protocol engine reads, as plain values.
//! Parsing text into these components is delegated to the `url` crate
//! through one trusted wrapper; everything downstream works on this type.

use vstd::prelude::*;

verus! {

/// The components of a parsed absolute URL, as the engine sees them.
pub ghost struct UrlPartsV {
    pub scheme: Seq<char>,
    pub host: Option<Seq<char>>,
    pub port: Option<u16>,
    pub path: Seq<char>,
    pub query: Option<Seq<char>>,
}

/// A parsed absolute URL.  `host` is absent for URLs that cannot have one
/// (such as `data:`); `port` is absent when the URL does not carry an
/// explicit, non-default port.
pub struct UrlParts {
    pub scheme: String,
    pub host: Option<String>,
    pub port: Option<u16>,
    pub path: String,
    pub query: Option<String>,
}

/// The view of an optional string.
pub open spec fn opt_str_view(o: Option<String>) -> Option<Seq<char>> {
    match o {
        Some(s) => Some(s@),
        None => None,
    }
}

impl View for UrlParts {
    type V = UrlPartsV;

    open spec fn view(&self) -> UrlPartsV {
        UrlPartsV {
            scheme: self.scheme@,
            host: opt_str_view(self.host),
            port: self.port,
            path: self.path@,
            query: opt_str_view(self.query),
        }
    }
}

/// What `url::Url::parse` makes of a given text: `None` when the text is not
/// an absolute URL, otherwise the components its accessors expose.  The
/// result is a function of the text alone.
pub uninterp spec fn url_parts_of(s: Seq<char>) -> Option<UrlPartsV>;

/// Relies on `url::Url::parse` and the accessors `scheme`, `host_str`,
/// `port`, `path` and `query`: parsing either fails or yields the URL's
/// components as plain text and numbers, deterministically in the input.
#[verifier::external_body]
pub(crate) fn parse_url(s: &str) -> (r: Option<UrlParts>)
    ensures
        r matches Some(u) ==> url_parts_of(s@) == Some(u@),
        r is None ==> url_parts_of(s@) is None,
{
    match url::Url::parse(s) {
        Ok(u) => Some(UrlParts {
            scheme: u.scheme().to_string(),
            host: u.host_str().map(|h| h.to_string()),
            port: u.port(),
            path: u.path().to_string(),
            query: u.query().map(|q| q.to_string()),
        }),
        Err(_) => None,
    }
}

impl UrlParts {
    /// A component-for-component copy.
    pub fn duplicate(&self) -> (r: UrlParts)
        ensures
            r@ == self@,
    {
        UrlParts {
            scheme: self.scheme.clone(),
            host: match &self.host {
                Some(h) => Some(h.clone()),
                None => None,
            },
            port: self.port,
            path: self.path.clone(),
            query: match &self.query {
                Some(q) => Some(q.clone()),
                None => None,
            },
        }
    }

    /// A URL with every component empty, the state of a request whose URL
    /// was never set.
    pub fn empty() -> (r: UrlParts)
        ensures
            r@.scheme.len() == 0,
            r@.host is None,
            r@.port is None,
            r@.path.len() == 0,
            r@.query is None,
    {
        proof {
            reveal_strlit("");
        }
        UrlParts {
            scheme: String::new(),
            host: None,
            port: None,
            path: String::new(),
            query: None,
        }
    }
}

} // verus!
