//! A structured model of the router URLs the daemon talks to. Holding the
//! scheme, host, path and query as separate plain values lets the origin
//! derivation and the timestamp query parameter be ordinary verified string
//! arithmetic.

use vstd::prelude::*;
use vstd::string::StringExecFns;

verus! {

/// The URL scheme of a router endpoint.
#[derive(Clone, Copy, PartialEq, Eq, Structural)]
pub enum UrlScheme {
    Http,
    Https,
}

/// The textual form of a scheme.
pub open spec fn spec_scheme_str(s: UrlScheme) -> Seq<char> {
    match s {
        UrlScheme::Http => "http"@,
        UrlScheme::Https => "https"@,
    }
}

/// One absolute URL, split into the parts the daemon's logic reads.
/// `host` carries the authority (host, and `:port` when one is given),
/// `path` the absolute path, and `query` the query string without its
/// leading `?`.
pub struct UrlParts {
    pub scheme: UrlScheme,
    pub host: String,
    pub path: String,
    pub query: Option<String>,
}

impl UrlParts {
    /// A URL is well formed when its host is non-empty and its path is
    /// either empty or absolute.
    pub open spec fn well_formed(self) -> bool {
        &&& self.host@.len() > 0
        &&& self.path@.len() == 0 || self.path@[0] == '/'
    }

    /// The origin of the URL: scheme and authority, with path, query and
    /// fragment stripped.
    pub open spec fn spec_origin(self) -> Seq<char> {
        spec_scheme_str(self.scheme) + "://"@ + self.host@
    }

    /// The full textual form of the URL.
    pub open spec fn spec_full(self) -> Seq<char> {
        self.spec_origin() + self.path@ + match self.query {
            Some(q) => "?"@ + q@,
            None => Seq::<char>::empty(),
        }
    }

    /// Builds a URL from its parts.
    pub fn new(scheme: UrlScheme, host: String, path: String, query: Option<String>) -> (r: Self)
        requires
            host@.len() > 0,
            path@.len() == 0 || path@[0] == '/',
        ensures
            r.scheme == scheme,
            r.host == host,
            r.path == path,
            r.query == query,
            r.well_formed(),
    {
        UrlParts { scheme, host, path, query }
    }

    /// The origin as a string, for the `Origin` request header.
    pub fn origin(&self) -> (r: String)
        ensures
            r@ == self.spec_origin(),
    {
        let mut s = scheme_str(self.scheme).to_owned();
        s.append("://");
        s.append(self.host.as_str());
        s
    }

    /// The full URL as a string.
    pub fn full(&self) -> (r: String)
        ensures
            r@ == self.spec_full(),
    {
        let mut s = self.origin();
        s.append(self.path.as_str());
        match &self.query {
            Some(q) => {
                s.append("?");
                s.append(q.as_str());
            },
            None => {},
        }
        s
    }
}

/// Executable mirror of `spec_scheme_str`.
pub fn scheme_str(s: UrlScheme) -> (r: &'static str)
    ensures
        r@ == spec_scheme_str(s),
{
    match s {
        UrlScheme::Http => "http",
        UrlScheme::Https => "https",
    }
}

} // verus!
