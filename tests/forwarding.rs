use http::header::{HeaderMap, HeaderValue};
use tls_proxy::errors::{Error, ErrorStatus};
use tls_proxy::follow_redirects::{body_fits, Decision, HopAction, State, MAX_BODY_BYTES, MAX_REDIRECTS};
use tls_proxy::headers::remove_sensitive_headers;
use tls_proxy::uri::Uri;

fn uri(s: &str) -> Uri {
    Uri::parse(s).unwrap()
}

fn credentials() -> HeaderMap {
    let mut h = HeaderMap::new();
    h.insert("authorization", HeaderValue::from_static("Bearer t"));
    h.insert("cookie", HeaderValue::from_static("a=b"));
    h.insert("cookie2", HeaderValue::from_static("c=d"));
    h.insert("www-authenticate", HeaderValue::from_static("Basic"));
    h.insert("accept", HeaderValue::from_static("*/*"));
    h
}

fn state(u: &str, headers: HeaderMap, max: usize) -> State {
    State::new(
        http::Method::GET,
        uri(u),
        http::Version::HTTP_11,
        headers,
        bytes::Bytes::from_static(b"body"),
        max,
    )
}

fn location(l: &str) -> HeaderMap {
    let mut h = HeaderMap::new();
    h.insert("location", HeaderValue::from_str(l).unwrap());
    h
}

#[test]
fn sensitive_headers_kept_on_same_host() {
    let mut h = credentials();
    remove_sensitive_headers(&mut h, &uri("http://a.com:80/next"), &uri("http://a.com/prev"));
    assert_eq!(h.len(), 5);
    assert!(h.contains_key("authorization"));
    assert!(h.contains_key("www-authenticate"));
}

#[test]
fn sensitive_headers_dropped_on_other_host() {
    let mut h = credentials();
    remove_sensitive_headers(&mut h, &uri("http://b.com/next"), &uri("http://a.com/prev"));
    assert_eq!(h.len(), 1);
    assert!(!h.contains_key("authorization"));
    assert!(!h.contains_key("cookie"));
    assert!(!h.contains_key("cookie2"));
    assert!(!h.contains_key("www-authenticate"));
    assert!(h.contains_key("accept"));
}

#[test]
fn sensitive_headers_dropped_on_other_port() {
    let mut h = credentials();
    remove_sensitive_headers(&mut h, &uri("https://a.com/next"), &uri("http://a.com/prev"));
    assert_eq!(h.len(), 1);
}

#[test]
fn same_host_redirect_keeps_credentials() {
    let mut s = state("http://a.com/start", credentials(), MAX_REDIRECTS);
    assert_eq!(s.on_response(302, &location("/moved")), HopAction::Send);
    assert_eq!(s.uri.as_string(), "http://a.com/moved");
    assert_eq!(s.headers.len(), 5);
    assert_eq!(s.remaining_redirects, MAX_REDIRECTS - 1);
}

#[test]
fn cross_host_redirect_drops_credentials() {
    let mut s = state("http://a.com/start", credentials(), MAX_REDIRECTS);
    assert_eq!(s.on_response(301, &location("http://b.com/moved")), HopAction::Send);
    assert_eq!(s.uri.as_string(), "http://b.com/moved");
    assert!(!s.headers.contains_key("authorization"));
    assert!(!s.headers.contains_key("cookie"));
    assert!(s.headers.contains_key("accept"));
}

#[test]
fn hop_cap_stops_a_long_chain() {
    // A chain of more redirects than the cap: each response points one step on.
    let mut s = state("http://a.com/0", HeaderMap::new(), MAX_REDIRECTS);
    let mut sent: usize = 1;
    let mut delivered: Option<usize> = None;
    for i in 1..=20usize {
        let target = format!("/{}", i);
        match s.on_response(307, &location(&target)) {
            HopAction::Send => sent += 1,
            HopAction::Deliver => {
                delivered = Some(i);
                break;
            }
            HopAction::Fail(_) => panic!("no transport failure here"),
        }
    }
    assert_eq!(sent, MAX_REDIRECTS);
    assert_eq!(delivered, Some(MAX_REDIRECTS));
    assert_eq!(s.uri.as_string(), "http://a.com/9");
    assert_eq!(s.remaining_redirects, 0);
}

#[test]
fn every_redirect_status_is_followed() {
    for status in [301u16, 302, 303, 307, 308] {
        let mut s = state("http://a.com/", HeaderMap::new(), 3);
        assert_eq!(s.handle_response(status, &location("/n")).unwrap(), Decision::Continue);
        assert_eq!(s.remaining_redirects, 2);
    }
}

#[test]
fn other_statuses_end_the_request() {
    for status in [200u16, 204, 304, 404, 500] {
        let mut s = state("http://a.com/", HeaderMap::new(), 3);
        assert_eq!(s.handle_response(status, &location("/n")).unwrap(), Decision::Return);
        assert_eq!(s.remaining_redirects, 3);
        assert_eq!(s.uri.as_string(), "http://a.com/");
    }
}

#[test]
fn redirect_without_location_is_delivered() {
    let mut s = state("http://a.com/", HeaderMap::new(), 3);
    assert_eq!(s.on_response(302, &HeaderMap::new()), HopAction::Deliver);
    assert_eq!(s.remaining_redirects, 2);
    assert_eq!(s.uri.as_string(), "http://a.com/");
}

#[test]
fn invalid_location_is_delivered() {
    let mut s = state("http://a.com/", HeaderMap::new(), 3);
    let h = location("http://exa mple.org/");
    assert_eq!(s.handle_response(302, &h).unwrap_err(), Error::InvalidRedirectTarget);
    let mut s = state("http://a.com/", HeaderMap::new(), 3);
    assert_eq!(s.on_response(302, &h), HopAction::Deliver);
    assert_eq!(s.uri.as_string(), "http://a.com/");
}

#[test]
fn last_hop_is_not_followed() {
    let mut s = state("http://a.com/", HeaderMap::new(), 1);
    assert_eq!(s.on_response(302, &location("/n")), HopAction::Deliver);
    assert_eq!(s.remaining_redirects, 0);
    let mut s = state("http://a.com/", HeaderMap::new(), 0);
    assert_eq!(s.follow_redirect(&location("/n")).unwrap(), Decision::Return);
    assert_eq!(s.remaining_redirects, 0);
}

#[test]
fn transport_failure_is_bad_gateway() {
    let s = state("http://a.com/", HeaderMap::new(), 3);
    assert_eq!(s.on_transport_failure(), HopAction::Fail(ErrorStatus::BadGateway));
    assert_eq!(ErrorStatus::BadGateway.code(), 502);
    assert_eq!(ErrorStatus::BadGateway.body_text(), "502: BAD_GATEWAY");
    assert_eq!(ErrorStatus::BadRequest.code(), 400);
    assert_eq!(ErrorStatus::BadRequest.body_text(), "400: BAD_REQUEST");
}

#[test]
fn state_carries_request_through() {
    let mut s = state("http://a.com/", HeaderMap::new(), 3);
    assert_eq!(s.on_response(303, &location("https://b.com/x")), HopAction::Send);
    assert_eq!(s.method, http::Method::GET);
    assert_eq!(s.version, http::Version::HTTP_11);
    assert_eq!(&s.body[..], b"body");
}

#[test]
fn body_cap() {
    assert!(body_fits(0, 0));
    assert!(body_fits(MAX_BODY_BYTES - 10, 10));
    assert!(!body_fits(MAX_BODY_BYTES - 10, 11));
    assert!(!body_fits(usize::MAX, 1));
    assert!(!body_fits(1, usize::MAX));
    assert_eq!(MAX_BODY_BYTES, 1048576);
}
