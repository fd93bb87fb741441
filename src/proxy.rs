use vstd::prelude::*;
use vstd::string::StringSliceAdditionalSpecFns;
use vstd::utf8::encode_utf8;

use crate::errors::ErrorStatus;
use crate::headers::{
    first_header, has_header, has_room, header_entries, insert_header, is_header_value,
    lemma_names_valid,
};
use crate::uri::{non_default_port, parsed_uri, Uri, UriView};

verus! {

/// The character of a decimal digit.
pub open spec fn digit_char(d: nat) -> char {
    if d == 0 {
        '0'
    } else if d == 1 {
        '1'
    } else if d == 2 {
        '2'
    } else if d == 3 {
        '3'
    } else if d == 4 {
        '4'
    } else if d == 5 {
        '5'
    } else if d == 6 {
        '6'
    } else if d == 7 {
        '7'
    } else if d == 8 {
        '8'
    } else {
        '9'
    }
}

/// A number in decimal, without leading zeros.
pub open spec fn decimal(n: nat) -> Seq<char>
    decreases n,
{
    if n < 10 {
        seq![digit_char(n)]
    } else {
        decimal(n / 10).push(digit_char(n % 10))
    }
}

fn digit_text(d: u16) -> (r: &'static str)
    requires
        d < 10,
    ensures
        r@ == seq![digit_char(d as nat)],
{
    proof {
        reveal_strlit("0");
        reveal_strlit("1");
        reveal_strlit("2");
        reveal_strlit("3");
        reveal_strlit("4");
        reveal_strlit("5");
        reveal_strlit("6");
        reveal_strlit("7");
        reveal_strlit("8");
        reveal_strlit("9");
    }
    if d == 0 {
        "0"
    } else if d == 1 {
        "1"
    } else if d == 2 {
        "2"
    } else if d == 3 {
        "3"
    } else if d == 4 {
        "4"
    } else if d == 5 {
        "5"
    } else if d == 6 {
        "6"
    } else if d == 7 {
        "7"
    } else if d == 8 {
        "8"
    } else {
        "9"
    }
}

fn push_decimal(out: &mut String, n: u16)
    ensures
        final(out)@ == old(out)@ + decimal(n as nat),
    decreases n,
{
    if n >= 10 {
        push_decimal(out, n / 10);
    }
    out.append(digit_text(n % 10));
    assert(final(out)@ =~= old(out)@ + decimal(n as nat));
}

/// The upstream URI of a request: the upstream base followed by the
/// request's path and query (`/` where it has none).
pub open spec fn upstream_text(base: Seq<char>, inbound: UriView) -> Seq<char> {
    base + match inbound.path_and_query {
        Some(p) => p,
        None => seq!['/'],
    }
}

/// The `Host` value for a URI: its host, and its port after a colon where
/// that port is not the scheme's default.
pub open spec fn host_text(u: UriView) -> Seq<char> {
    match non_default_port(u) {
        Some(p) => u.host->Some_0 + seq![':'] + decimal(p as nat),
        None => u.host->Some_0,
    }
}

/// The request names no origin: no `Host` header and no authority.
pub open spec fn lacks_origin(uri: UriView, headers: Map<Seq<char>, Seq<Seq<u8>>>) -> bool {
    !has_header(headers, "host"@) && uri.authority is None
}

/// The headers sent upstream: `X-Forwarded-For` set to the client's
/// address and `Host` to the upstream authority.
pub open spec fn forwarded_headers(
    headers: Map<Seq<char>, Seq<Seq<u8>>>,
    remote_addr: Seq<char>,
    upstream: UriView,
) -> Map<Seq<char>, Seq<Seq<u8>>> {
    headers.insert("x-forwarded-for"@, seq![encode_utf8(remote_addr)]).insert(
        "host"@,
        seq![encode_utf8(host_text(upstream))],
    )
}

/// The request names an origin, the upstream text is a URI with a host, the
/// `X-Forwarded-For` and `Host` values are valid header values, and the map
/// has room for both names: nothing stands in the way of forwarding.
pub open spec fn forwardable(
    uri: UriView,
    headers: Map<Seq<char>, Seq<Seq<u8>>>,
    remote_addr: Seq<char>,
    upstream_base: Seq<char>,
) -> bool {
    &&& !lacks_origin(uri, headers)
    &&& is_header_value(encode_utf8(remote_addr))
    &&& headers.dom().finite() && headers.dom().len() < 6552
    &&& match parsed_uri(encode_utf8(upstream_text(upstream_base, uri))) {
        Some(u) => u.host is Some && is_header_value(encode_utf8(host_text(u))),
        None => false,
    }
}

/// Builds the `Host` value for an upstream URI that has a host.
pub fn host_value(u: &Uri) -> (r: String)
    requires
        u@.host is Some,
    ensures
        r@ == host_text(u@),
{
    let mut out = String::new();
    match &u.host {
        Some(h) => out.append(h.as_str()),
        None => {},
    }
    match u.get_non_default_port() {
        Some(p) => {
            proof {
                reveal_strlit(":");
            }
            out.append(":");
            push_decimal(&mut out, p);
        },
        None => {},
    }
    assert(out@ =~= host_text(u@));
    out
}

/// Points a request at the upstream: composes the upstream URI from
/// `upstream_base` and the request's path and query, and sets `Host` to its
/// authority. `None` where the composed text is no URI with a host, or
/// `Host` cannot be set: where the `Host` value holds a byte that no header
/// value may hold, or the map is at its size limit.
pub fn proxy(uri: &Uri, headers: &mut http::HeaderMap, upstream_base: &str) -> (r: Option<Uri>)
    ensures
        match parsed_uri(encode_utf8(upstream_text(upstream_base@, uri@))) {
            Some(u) if u.host is Some => match r {
                Some(v) => v@ == u && header_entries(*final(headers)) == header_entries(
                    *old(headers),
                ).insert("host"@, seq![encode_utf8(host_text(u))]),
                None => header_entries(*final(headers)) == header_entries(*old(headers)),
            },
            _ => r is None && header_entries(*final(headers)) == header_entries(*old(headers)),
        },
        parsed_uri(encode_utf8(upstream_text(upstream_base@, uri@))) matches Some(u) && u.host is Some
            && is_header_value(encode_utf8(host_text(u))) && has_room(header_entries(*old(headers)))
            ==> r is Some,
{
    proof {
        lemma_names_valid();
        reveal_strlit("/");
    }
    let mut text = upstream_base.to_owned();
    match &uri.path_and_query {
        Some(p) => text.append(p.as_str()),
        None => text.append("/"),
    }
    assert(text@ =~= upstream_text(upstream_base@, uri@));
    let upstream = match Uri::parse(text.as_str()) {
        Some(u) => u,
        None => return None,
    };
    if upstream.host.is_none() {
        return None;
    }
    let host = host_value(&upstream);
    if insert_header(headers, "host", host.as_str().as_bytes()) {
        Some(upstream)
    } else {
        None
    }
}

/// Prepares a client request for the upstream. A request that names no
/// origin is answered with 400 and nothing else happens; otherwise
/// `X-Forwarded-For` is set to `remote_addr` and the request is pointed at
/// the upstream (see [`proxy`]), and the answer is 502 where that fails.
/// That happens only where the composed upstream text is no URI with a host,
/// where the client address or the `Host` value holds a byte that no header
/// value may hold, or where the header map is at its size limit.
pub fn handle(uri: &Uri, headers: &mut http::HeaderMap, remote_addr: &str, upstream_base: &str) -> (r:
    Result<Uri, ErrorStatus>)
    ensures
        lacks_origin(uri@, header_entries(*old(headers))) ==> r == Err::<Uri, ErrorStatus>(
            ErrorStatus::BadRequest,
        ) && header_entries(*final(headers)) == header_entries(*old(headers)),
        !lacks_origin(uri@, header_entries(*old(headers))) ==> match r {
            Ok(u) => parsed_uri(encode_utf8(upstream_text(upstream_base@, uri@))) == Some(u@)
                && u@.host is Some && header_entries(*final(headers)) == forwarded_headers(
                header_entries(*old(headers)),
                remote_addr@,
                u@,
            ),
            Err(e) => e == ErrorStatus::BadGateway,
        },
        !lacks_origin(uri@, header_entries(*old(headers))) && (parsed_uri(
            encode_utf8(upstream_text(upstream_base@, uri@)),
        ) matches Some(u) ==> u.host is None) ==> r == Err::<Uri, ErrorStatus>(
            ErrorStatus::BadGateway,
        ),
        forwardable(uri@, header_entries(*old(headers)), remote_addr@, upstream_base@) ==> r is Ok,
{
    proof {
        lemma_names_valid();
    }
    if first_header(headers, "host").is_none() && uri.authority.is_none() {
        return Err(ErrorStatus::BadRequest);
    }
    if !insert_header(headers, "x-forwarded-for", remote_addr.as_bytes()) {
        return Err(ErrorStatus::BadGateway);
    }
    assert(header_entries(*headers).dom() == header_entries(*old(headers)).dom().insert(
        "x-forwarded-for"@,
    ));
    match proxy(uri, headers, upstream_base) {
        Some(u) => Ok(u),
        None => Err(ErrorStatus::BadGateway),
    }
}

} // verus!
