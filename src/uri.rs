use vstd::prelude::*;
use vstd::string::StringSliceAdditionalSpecFns;

use crate::errors::Error;
use crate::text::same_text;

verus! {

#[verifier::external_type_specification]
#[verifier::external_body]
pub struct ExInvalidUri(http::uri::InvalidUri);

/// A URI held as the components that the proxy logic reads.
///
/// `path_and_query` is present exactly when `http` would keep a path in the
/// URI's parts; `host` and `port` are read from the authority.
#[derive(Debug)]
pub struct Uri {
    pub scheme: Option<String>,
    pub authority: Option<String>,
    pub host: Option<String>,
    pub port: Option<u16>,
    pub path_and_query: Option<String>,
}

/// The mathematical value of a [`Uri`].
pub struct UriView {
    pub scheme: Option<Seq<char>>,
    pub authority: Option<Seq<char>>,
    pub host: Option<Seq<char>>,
    pub port: Option<u16>,
    pub path_and_query: Option<Seq<char>>,
}

pub open spec fn opt_text(o: Option<String>) -> Option<Seq<char>> {
    match o {
        Some(s) => Some(s@),
        None => None,
    }
}

impl View for Uri {
    type V = UriView;

    open spec fn view(&self) -> UriView {
        UriView {
            scheme: opt_text(self.scheme),
            authority: opt_text(self.authority),
            host: opt_text(self.host),
            port: self.port,
            path_and_query: opt_text(self.path_and_query),
        }
    }
}

/// What `http` makes of a URI written as these bytes, read through its
/// accessors; `None` where it refuses them.
pub uninterp spec fn parsed_uri(b: Seq<u8>) -> Option<UriView>;

/// Relies on `http::Uri::try_from(&[u8])` to parse the bytes, and on
/// `Uri::scheme_str`, `Uri::authority`, `Uri::host`, `Uri::port_u16` and the
/// `path_and_query` of `http::uri::Parts::from` to read the result.
#[verifier::external_body]
fn parse_uri_bytes(b: &[u8]) -> (r: Result<Uri, http::uri::InvalidUri>)
    ensures
        match r {
            Ok(u) => parsed_uri(b@) == Some(u@),
            Err(_) => parsed_uri(b@) is None,
        },
{
    let u = http::Uri::try_from(b)?;
    let parts = http::uri::Parts::from(u.clone());
    Ok(Uri {
        scheme: u.scheme_str().map(String::from),
        authority: u.authority().map(http::uri::Authority::as_str).map(String::from),
        host: u.host().map(String::from),
        port: u.port_u16(),
        path_and_query: parts.path_and_query.as_ref().map(http::uri::PathAndQuery::as_str).map(String::from),
    })
}

impl Uri {
    /// Parses a URI from its bytes (a `Location` header value, say).
    pub fn parse_bytes(b: &[u8]) -> (r: Option<Uri>)
        ensures
            match r {
                Some(u) => parsed_uri(b@) == Some(u@),
                None => parsed_uri(b@) is None,
            },
    {
        match parse_uri_bytes(b) {
            Ok(u) => Some(u),
            Err(_) => None,
        }
    }
}


/// The text of a path-and-query as `http` writes it: an empty path is `/`.
pub open spec fn path_and_query_text(pq: Option<Seq<char>>) -> Seq<char> {
    match pq {
        None => Seq::empty(),
        Some(p) => if p.len() == 0 || p[0] == '?' {
            seq!['/'] + p
        } else {
            p
        },
    }
}

/// The text of a URI: `scheme://authority/path?query`, each part only where present.
pub open spec fn uri_text(u: UriView) -> Seq<char> {
    let scheme = match u.scheme {
        Some(s) => s + seq![':', '/', '/'],
        None => Seq::empty(),
    };
    let authority = match u.authority {
        Some(a) => a,
        None => Seq::empty(),
    };
    scheme + authority + path_and_query_text(u.path_and_query)
}

/// A scheme that runs over TLS.
pub open spec fn is_secure_scheme(scheme: Option<Seq<char>>) -> bool {
    scheme == Some(seq!['h', 't', 't', 'p', 's']) || scheme == Some(seq!['w', 's', 's'])
}

/// The port a URI reaches: the explicit one, else 443 on a secure scheme and 80 otherwise.
pub open spec fn effective_port(u: UriView) -> u16 {
    match u.port {
        Some(p) => p,
        None => if is_secure_scheme(u.scheme) {
            443
        } else {
            80
        },
    }
}

/// Two URIs reach the same origin host: equal host names and equal ports.
pub open spec fn same_host(a: UriView, b: UriView) -> bool {
    a.host == b.host && effective_port(a) == effective_port(b)
}

/// The port that must be written out beside the host: none where it is the
/// scheme's default.
pub open spec fn non_default_port(u: UriView) -> Option<u16> {
    match u.port {
        Some(p) => if (p == 443 && is_secure_scheme(u.scheme)) || (p == 80 && !is_secure_scheme(
            u.scheme,
        )) {
            None
        } else {
            Some(p)
        },
        None => None,
    }
}

/// The parts of a redirect target: `loc`, with the scheme and the authority
/// of `cur` where `loc` has none.
pub open spec fn resolved_parts(cur: UriView, loc: UriView) -> UriView {
    let scheme = if loc.scheme is Some {
        loc.scheme
    } else {
        cur.scheme
    };
    if loc.authority is Some {
        UriView { scheme, ..loc }
    } else {
        UriView {
            scheme,
            authority: cur.authority,
            host: cur.host,
            port: cur.port,
            path_and_query: loc.path_and_query,
        }
    }
}

/// Whether parts assemble into a URI: a scheme needs an authority and a
/// path; an authority with a path needs a scheme.
pub open spec fn parts_assemble(u: UriView) -> bool {
    if u.scheme is Some {
        u.authority is Some && u.path_and_query is Some
    } else {
        !(u.authority is Some && u.path_and_query is Some)
    }
}

/// Where a redirect from `cur` to the `Location` bytes `location` leads;
/// `None` where the target is invalid.
pub open spec fn redirect_target(cur: UriView, location: Seq<u8>) -> Option<UriView> {
    match parsed_uri(location) {
        None => None,
        Some(loc) => if parts_assemble(resolved_parts(cur, loc)) {
            Some(resolved_parts(cur, loc))
        } else {
            None
        },
    }
}

fn clone_text(o: &Option<String>) -> (r: Option<String>)
    ensures
        opt_text(r) == opt_text(*o),
{
    match o {
        Some(s) => Some(s.clone()),
        None => None,
    }
}

impl Uri {
    /// Parses a URI from its text.
    pub fn parse(s: &str) -> (r: Option<Uri>)
        ensures
            match r {
                Some(u) => parsed_uri(s.spec_bytes()) == Some(u@),
                None => parsed_uri(s.spec_bytes()) is None,
            },
    {
        Uri::parse_bytes(s.as_bytes())
    }

    /// The URI written out as text, as `http` displays it.
    pub fn as_string(&self) -> (r: String)
        ensures
            r@ == uri_text(self@),
    {
        let mut out = String::new();
        proof {
            reveal_strlit("://");
            reveal_strlit("/");
        }
        match &self.scheme {
            Some(s) => {
                out.append(s.as_str());
                out.append("://");
            },
            None => {},
        }
        match &self.authority {
            Some(a) => {
                out.append(a.as_str());
            },
            None => {},
        }
        match &self.path_and_query {
            Some(p) => {
                let ps = p.as_str();
                if ps.unicode_len() == 0 || ps.get_char(0) == '?' {
                    out.append("/");
                }
                out.append(ps);
            },
            None => {},
        }
        assert(out@ =~= uri_text(self@));
        out
    }

    /// Whether the scheme is `https` or `wss`.
    pub fn is_schema_secure(&self) -> (r: bool)
        ensures
            r == is_secure_scheme(self@.scheme),
    {
        proof {
            reveal_strlit("https");
            reveal_strlit("wss");
        }
        match &self.scheme {
            Some(s) => {
                let r = same_text(s.as_str(), "https") || same_text(s.as_str(), "wss");
                assert("https"@ =~= seq!['h', 't', 't', 'p', 's']);
                assert("wss"@ =~= seq!['w', 's', 's']);
                r
            },
            None => false,
        }
    }

    /// The port to write beside the host: the explicit port unless it is 443
    /// on a secure scheme or 80 on another.
    pub fn get_non_default_port(&self) -> (r: Option<u16>)
        ensures
            r == non_default_port(self@),
    {
        let secure = self.is_schema_secure();
        match self.port {
            Some(p) => if (p == 443 && secure) || (p == 80 && !secure) {
                None
            } else {
                Some(p)
            },
            None => None,
        }
    }

    /// The port this URI reaches, the scheme's default where none is written.
    pub fn port_or_default(&self) -> (r: u16)
        ensures
            r == effective_port(self@),
    {
        match self.port {
            Some(p) => p,
            None => if self.is_schema_secure() {
                443
            } else {
                80
            },
        }
    }

    /// Whether `other` names the same host and reaches the same port.
    pub fn is_same_host(&self, other: &Uri) -> (r: bool)
        ensures
            r == same_host(self@, other@),
    {
        let hosts_equal = match (&self.host, &other.host) {
            (Some(a), Some(b)) => same_text(a.as_str(), b.as_str()),
            (None, None) => true,
            _ => false,
        };
        hosts_equal && self.port_or_default() == other.port_or_default()
    }

    /// Resolves a parsed `Location` against this URI: the scheme and the
    /// authority of `self` fill in what `location` lacks.
    pub fn resolve(&self, location: &Uri) -> (r: Result<Uri, Error>)
        ensures
            parts_assemble(resolved_parts(self@, location@)) ==> (r matches Ok(u) && u@
                == resolved_parts(self@, location@)),
            !parts_assemble(resolved_parts(self@, location@)) ==> r == Err::<Uri, Error>(
                Error::InvalidRedirectTarget,
            ),
    {
        let scheme = if location.scheme.is_some() {
            clone_text(&location.scheme)
        } else {
            clone_text(&self.scheme)
        };
        let next = if location.authority.is_some() {
            Uri {
                scheme,
                authority: clone_text(&location.authority),
                host: clone_text(&location.host),
                port: location.port,
                path_and_query: clone_text(&location.path_and_query),
            }
        } else {
            Uri {
                scheme,
                authority: clone_text(&self.authority),
                host: clone_text(&self.host),
                port: self.port,
                path_and_query: clone_text(&location.path_and_query),
            }
        };
        let assembles = if next.scheme.is_some() {
            next.authority.is_some() && next.path_and_query.is_some()
        } else {
            !(next.authority.is_some() && next.path_and_query.is_some())
        };
        if assembles {
            Ok(next)
        } else {
            Err(Error::InvalidRedirectTarget)
        }
    }

    /// The absolute target of a redirect from this URI to the `Location`
    /// value `location`.
    pub fn compute_redirect(&self, location: &[u8]) -> (r: Result<Uri, Error>)
        ensures
            match redirect_target(self@, location@) {
                Some(t) => r matches Ok(u) && u@ == t,
                None => r == Err::<Uri, Error>(Error::InvalidRedirectTarget),
            },
    {
        match Uri::parse_bytes(location) {
            Some(loc) => self.resolve(&loc),
            None => Err(Error::InvalidRedirectTarget),
        }
    }
}


/// Resolving a `Location` that has a path against an absolute URI gives an
/// absolute URI: the scheme and the authority are the current URI's where
/// the `Location` omits them and the `Location`'s where it writes them, and
/// the path and query are always the `Location`'s.
pub proof fn lemma_redirect_keeps_origin(cur: UriView, location: Seq<u8>)
    requires
        cur.scheme is Some,
        cur.authority is Some,
        parsed_uri(location) matches Some(loc) && loc.path_and_query is Some,
    ensures
        ({
            let loc = parsed_uri(location)->Some_0;
            let t = redirect_target(cur, location)->Some_0;
            &&& redirect_target(cur, location) is Some
            &&& t.scheme is Some && t.authority is Some
            &&& t.scheme == if loc.scheme is Some {
                loc.scheme
            } else {
                cur.scheme
            }
            &&& t.authority == if loc.authority is Some {
                loc.authority
            } else {
                cur.authority
            }
            &&& loc.authority is None ==> t.host == cur.host && t.port == cur.port
            &&& t.path_and_query == loc.path_and_query
        }),
{
}

/// `same_host` does not depend on the order of its arguments.
pub proof fn lemma_same_host_symmetric(a: UriView, b: UriView)
    ensures
        same_host(a, b) == same_host(b, a),
{
}

/// An elided port is the scheme's default: on one host and one scheme, no
/// port and the default port are the same origin, while `http` and `https`
/// without ports are different origins.
pub proof fn lemma_default_ports(a: UriView, b: UriView)
    requires
        a.host == b.host,
        a.port is None,
    ensures
        a.scheme == b.scheme && a.scheme == Some(seq!['h', 't', 't', 'p']) && b.port == Some(
            80u16,
        ) ==> same_host(a, b),
        a.scheme == b.scheme && a.scheme == Some(seq!['h', 't', 't', 'p', 's']) && b.port == Some(
            443u16,
        ) ==> same_host(a, b),
        a.scheme == Some(seq!['h', 't', 't', 'p']) && b.scheme == Some(
            seq!['h', 't', 't', 'p', 's'],
        ) && b.port is None ==> !same_host(a, b),
{
    assert(seq!['h', 't', 't', 'p'].len() != seq!['h', 't', 't', 'p', 's'].len());
    assert(seq!['h', 't', 't', 'p'][0] != seq!['w', 's', 's'][0]);
}

} // verus!
