use vstd::prelude::*;

use crate::uri::{same_host, Uri};

verus! {

#[verifier::external_type_specification]
#[verifier::external_body]
pub struct ExHeaderValue(http::HeaderValue);

#[verifier::external_type_specification]
#[verifier::external_body]
#[verifier::reject_recursive_types(T)]
pub struct ExHeaderMap<T>(http::HeaderMap<T>);

/// What a header map holds: for each (lower-case) header name, the bytes of
/// its values in order.
pub uninterp spec fn header_entries(h: http::HeaderMap) -> Map<Seq<char>, Seq<Seq<u8>>>;

/// A character of a lower-case header name.
pub open spec fn is_name_char(c: char) -> bool {
    ('a' <= c && c <= 'z') || ('0' <= c && c <= '9') || c == '-'
}

/// A lower-case header name: letters, digits and dashes.
pub open spec fn is_header_name(s: Seq<char>) -> bool {
    0 < s.len() < 256 && forall|i: int| 0 <= i < s.len() ==> is_name_char(#[trigger] s[i])
}

/// A byte that a header value may hold: tab, or 32 and above but 127.
pub open spec fn is_value_byte(b: u8) -> bool {
    (b >= 32 && b != 127) || b == 9
}

/// Bytes that make a header value.
pub open spec fn is_header_value(v: Seq<u8>) -> bool {
    forall|i: int| 0 <= i < v.len() ==> is_value_byte(#[trigger] v[i])
}

/// The map has at least one value under the name.
pub open spec fn has_header(m: Map<Seq<char>, Seq<Seq<u8>>>, name: Seq<char>) -> bool {
    m.contains_key(name) && m[name].len() > 0
}

/// The map holds fewer than 6553 names: `HeaderMap` takes one more name
/// without reaching its size limit.
pub open spec fn has_room(m: Map<Seq<char>, Seq<Seq<u8>>>) -> bool {
    m.dom().finite() && m.dom().len() < 6553
}

/// Relies on `HeaderMap::remove`: every value under the name goes.
#[verifier::external_body]
pub(crate) fn remove_header(h: &mut http::HeaderMap, name: &str)
    requires
        is_header_name(name@),
    ensures
        header_entries(*final(h)) == header_entries(*old(h)).remove(name@),
{
    h.remove(name);
}

/// Relies on `HeaderValue::from_bytes`, which takes tab and the bytes of 32
/// and above but 127, and on `HeaderMap::try_insert`, which puts the value in
/// place of all under the name, or reports the map full and leaves it as it
/// was; below 6554 names its table can always grow, so it is never full
/// there.
#[verifier::external_body]
pub(crate) fn insert_header(h: &mut http::HeaderMap, name: &'static str, value: &[u8]) -> (ok: bool)
    requires
        is_header_name(name@),
    ensures
        ok ==> header_entries(*final(h)) == header_entries(*old(h)).insert(name@, seq![value@]),
        !ok ==> header_entries(*final(h)) == header_entries(*old(h)),
        !is_header_value(value@) ==> !ok,
        is_header_value(value@) && has_room(header_entries(*old(h))) ==> ok,
{
    match http::HeaderValue::from_bytes(value) {
        Ok(v) => h.try_insert(name, v).is_ok(),
        Err(_) => false,
    }
}

/// Relies on `HeaderMap::get`: the first value under the name.
#[verifier::external_body]
pub(crate) fn first_header(h: &http::HeaderMap, name: &str) -> (r: Option<Vec<u8>>)
    requires
        is_header_name(name@),
    ensures
        match r {
            Some(v) => has_header(header_entries(*h), name@) && v@ == header_entries(*h)[name@][0],
            None => !has_header(header_entries(*h), name@),
        },
{
    h.get(name).map(http::HeaderValue::as_bytes).map(<[u8]>::to_vec)
}

/// The headers that carry credentials scoped to one origin.
pub open spec fn sensitive_headers() -> Set<Seq<char>> {
    set!["authorization"@, "cookie"@, "cookie2"@, "www-authenticate"@]
}

/// The headers after a redirect from `previous` to `next`: the sensitive
/// ones go where the host or the port changes.
pub open spec fn sanitized(
    m: Map<Seq<char>, Seq<Seq<u8>>>,
    next: crate::uri::UriView,
    previous: crate::uri::UriView,
) -> Map<Seq<char>, Seq<Seq<u8>>> {
    if same_host(next, previous) {
        m
    } else {
        m.remove_keys(sensitive_headers())
    }
}

pub(crate) proof fn lemma_names_valid()
    ensures
        is_header_name("authorization"@),
        is_header_name("cookie"@),
        is_header_name("cookie2"@),
        is_header_name("www-authenticate"@),
        is_header_name("host"@),
        is_header_name("x-forwarded-for"@),
        is_header_name("location"@),
{
    reveal_strlit("authorization");
    reveal_strlit("cookie");
    reveal_strlit("cookie2");
    reveal_strlit("www-authenticate");
    reveal_strlit("host");
    reveal_strlit("x-forwarded-for");
    reveal_strlit("location");
}

/// Drops the credential headers where a redirect leaves the origin host.
pub fn remove_sensitive_headers(headers: &mut http::HeaderMap, next: &Uri, previous: &Uri)
    ensures
        header_entries(*final(headers)) == sanitized(header_entries(*old(headers)), next@, previous@),
{
    proof {
        lemma_names_valid();
    }
    if !next.is_same_host(previous) {
        remove_header(headers, "authorization");
        remove_header(headers, "cookie");
        remove_header(headers, "cookie2");
        remove_header(headers, "www-authenticate");
        assert(header_entries(*headers) =~= header_entries(*old(headers)).remove_keys(
            sensitive_headers(),
        ));
    }
}

} // verus!
