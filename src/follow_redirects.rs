use vstd::prelude::*;

use crate::errors::{Error, ErrorStatus};
use crate::headers::{
    first_header, has_header, header_entries, lemma_names_valid, remove_sensitive_headers,
    sanitized, sensitive_headers,
};
use crate::uri::{redirect_target, same_host, Uri, UriView};

verus! {

#[verifier::external_type_specification]
#[verifier::external_body]
pub struct ExMethod(http::Method);

#[verifier::external_type_specification]
#[verifier::external_body]
pub struct ExVersion(http::Version);

#[verifier::external_type_specification]
#[verifier::external_body]
pub struct ExBytes(bytes::Bytes);

/// The number of requests one client request may cost upstream.
pub const MAX_REDIRECTS: usize = 10;

/// The largest request body, in bytes, that the forwarder buffers to send
/// again on each hop.
pub const MAX_BODY_BYTES: usize = 1048576;

/// Whether a body of `buffered` bytes, with a further `chunk` bytes, stays
/// within [`MAX_BODY_BYTES`].
pub fn body_fits(buffered: usize, chunk: usize) -> (r: bool)
    ensures
        r == (buffered + chunk <= MAX_BODY_BYTES),
{
    buffered <= MAX_BODY_BYTES && chunk <= MAX_BODY_BYTES - buffered
}

/// A status that asks the client to fetch another URI: 301, 302, 303, 307 or 308.
pub open spec fn is_redirect_status(status: u16) -> bool {
    status == 301 || status == 302 || status == 303 || status == 307 || status == 308
}

/// Whether the forwarder sends another request after a response.
#[derive(Debug, Clone, Copy, PartialEq, Eq, Structural)]
pub enum Decision {
    Continue,
    Return,
}

/// What the forwarder does next.
#[derive(Debug, Clone, Copy, PartialEq, Eq, Structural)]
pub enum HopAction {
    /// Send the request as the state now describes it.
    Send,
    /// Hand the last response to the client.
    Deliver,
    /// Answer the client with this status instead.
    Fail(ErrorStatus),
}

/// The state of one client request while the forwarder follows redirects.
pub struct State {
    pub method: http::Method,
    pub uri: Uri,
    pub version: http::Version,
    pub headers: http::HeaderMap,
    pub body: bytes::Bytes,
    pub remaining_redirects: usize,
}

/// The part of a [`State`] that redirects change.
pub struct StateView {
    pub uri: UriView,
    pub headers: Map<Seq<char>, Seq<Seq<u8>>>,
    pub remaining: nat,
}

impl View for State {
    type V = StateView;

    open spec fn view(&self) -> StateView {
        StateView {
            uri: self.uri@,
            headers: header_entries(self.headers),
            remaining: self.remaining_redirects as nat,
        }
    }
}

/// The state after a response, and whether another request follows it.
pub open spec fn after_response(
    s: StateView,
    status: u16,
    response: Map<Seq<char>, Seq<Seq<u8>>>,
) -> (StateView, Decision) {
    if !is_redirect_status(status) {
        (s, Decision::Return)
    } else if s.remaining <= 1 {
        (StateView { remaining: 0, ..s }, Decision::Return)
    } else if !has_header(response, "location"@) {
        (StateView { remaining: (s.remaining - 1) as nat, ..s }, Decision::Return)
    } else {
        match redirect_target(s.uri, response["location"@][0]) {
            None => (StateView { remaining: (s.remaining - 1) as nat, ..s }, Decision::Return),
            Some(t) => (
                StateView {
                    uri: t,
                    headers: sanitized(s.headers, t, s.uri),
                    remaining: (s.remaining - 1) as nat,
                },
                Decision::Continue,
            ),
        }
    }
}

/// The response is a redirect that would be followed, but its `Location`
/// does not resolve to a valid target.
pub open spec fn invalid_redirect(
    s: StateView,
    status: u16,
    response: Map<Seq<char>, Seq<Seq<u8>>>,
) -> bool {
    &&& is_redirect_status(status)
    &&& s.remaining > 1
    &&& has_header(response, "location"@)
    &&& redirect_target(s.uri, response["location"@][0]) is None
}

impl State {
    /// The state of a request that may be redirected `max_redirects` times
    /// less one.
    pub fn new(
        method: http::Method,
        uri: Uri,
        version: http::Version,
        headers: http::HeaderMap,
        body: bytes::Bytes,
        max_redirects: usize,
    ) -> (r: State)
        ensures
            r.method == method,
            r.uri == uri,
            r.version == version,
            r.headers == headers,
            r.body == body,
            r.remaining_redirects == max_redirects,
    {
        State { method, uri, version, headers, body, remaining_redirects: max_redirects }
    }

    /// Takes one redirect: spends one hop and, where hops are left and the
    /// response names a valid `Location`, moves the request there.
    pub fn follow_redirect(&mut self, response: &http::HeaderMap) -> (r: Result<Decision, Error>)
        ensures
            final(self).method == old(self).method,
            final(self).version == old(self).version,
            final(self).body == old(self).body,
            final(self).remaining_redirects == if old(self).remaining_redirects == 0 {
                0
            } else {
                (old(self).remaining_redirects - 1) as usize
            },
            old(self).remaining_redirects <= 1 ==> r == Ok::<Decision, Error>(Decision::Return)
                && final(self)@.uri == old(self)@.uri && final(self)@.headers == old(self)@.headers,
            old(self).remaining_redirects > 1 && !has_header(header_entries(*response), "location"@)
                ==> r == Ok::<Decision, Error>(Decision::Return) && final(self)@.uri == old(self)@.uri
                && final(self)@.headers == old(self)@.headers,
            old(self).remaining_redirects > 1 && has_header(header_entries(*response), "location"@)
                ==> match redirect_target(old(self)@.uri, header_entries(*response)["location"@][0]) {
                None => r == Err::<Decision, Error>(Error::InvalidRedirectTarget) && final(self)@.uri
                    == old(self)@.uri && final(self)@.headers == old(self)@.headers,
                Some(t) => r == Ok::<Decision, Error>(Decision::Continue) && final(self)@.uri == t
                    && final(self)@.headers == sanitized(old(self)@.headers, t, old(self)@.uri),
            },
    {
        if self.remaining_redirects == 0 {
            return Ok(Decision::Return);
        }
        self.remaining_redirects = self.remaining_redirects - 1;
        if self.remaining_redirects == 0 {
            return Ok(Decision::Return);
        }
        proof {
            lemma_names_valid();
        }
        match first_header(response, "location") {
            Some(location) => {
                let next = self.uri.compute_redirect(location.as_slice())?;
                remove_sensitive_headers(&mut self.headers, &next, &self.uri);
                self.uri = next;
                Ok(Decision::Continue)
            },
            None => Ok(Decision::Return),
        }
    }

    /// Decides on a response: a redirect status is followed, any other ends
    /// the request.
    pub fn handle_response(&mut self, status: u16, response: &http::HeaderMap) -> (r: Result<
        Decision,
        Error,
    >)
        ensures
            final(self).method == old(self).method,
            final(self).version == old(self).version,
            final(self).body == old(self).body,
            final(self)@ == after_response(old(self)@, status, header_entries(*response)).0,
            (r == Ok::<Decision, Error>(Decision::Continue)) == (after_response(
                old(self)@,
                status,
                header_entries(*response),
            ).1 == Decision::Continue),
            r is Err <==> invalid_redirect(old(self)@, status, header_entries(*response)),
            r is Err ==> r == Err::<Decision, Error>(Error::InvalidRedirectTarget),
    {
        if status == 301 || status == 302 || status == 303 || status == 307 || status == 308 {
            self.follow_redirect(response)
        } else {
            Ok(Decision::Return)
        }
    }

    /// The next step after the upstream answered with `status` and the
    /// headers `response`.
    pub fn on_response(&mut self, status: u16, response: &http::HeaderMap) -> (a: HopAction)
        ensures
            final(self).method == old(self).method,
            final(self).version == old(self).version,
            final(self).body == old(self).body,
            final(self)@ == after_response(old(self)@, status, header_entries(*response)).0,
            a == if after_response(old(self)@, status, header_entries(*response)).1
                == Decision::Continue {
                HopAction::Send
            } else {
                HopAction::Deliver
            },
    {
        match self.handle_response(status, response) {
            Ok(Decision::Continue) => HopAction::Send,
            _ => HopAction::Deliver,
        }
    }

    /// The next step after the upstream could not be reached or the request
    /// failed on its way: the client gets a 502 and nothing is retried.
    pub fn on_transport_failure(&self) -> (a: HopAction)
        ensures
            a == HopAction::Fail(ErrorStatus::BadGateway),
    {
        HopAction::Fail(ErrorStatus::BadGateway)
    }
}


/// Responses from upstream, each a status and the response's headers.
pub type Responses = Seq<(u16, Map<Seq<char>, Seq<Seq<u8>>>)>;

/// Which of `responses` (counted from zero) the forwarder hands to the
/// client when the upstream answers with them in turn; `None` where it would
/// still ask for more.
pub open spec fn delivered_at(s: StateView, responses: Responses) -> Option<nat>
    decreases responses.len(),
{
    if responses.len() == 0 {
        None
    } else {
        let (next, d) = after_response(s, responses[0].0, responses[0].1);
        if d == Decision::Continue {
            match delivered_at(next, responses.drop_first()) {
                Some(i) => Some(i + 1),
                None => None,
            }
        } else {
            Some(0)
        }
    }
}

/// Every response is a redirect whose `Location` resolves against the URI
/// that the forwarder holds at that point.
pub open spec fn followable_chain(s: StateView, responses: Responses) -> bool
    decreases responses.len(),
{
    responses.len() == 0 || {
        let (status, headers) = responses[0];
        &&& is_redirect_status(status)
        &&& has_header(headers, "location"@)
        &&& redirect_target(s.uri, headers["location"@][0]) is Some
        &&& followable_chain(after_response(s, status, headers).0, responses.drop_first())
    }
}

/// Whatever the upstream answers, the forwarder delivers one of the first
/// `remaining` responses (the first, where no hop is left): it never sends
/// more requests than the cap allows.
pub proof fn lemma_hops_bounded(s: StateView, responses: Responses)
    requires
        responses.len() >= s.remaining,
        responses.len() >= 1,
    ensures
        delivered_at(s, responses) matches Some(i) && (i < s.remaining || i == 0),
    decreases responses.len(),
{
    let (next, d) = after_response(s, responses[0].0, responses[0].1);
    if d == Decision::Continue {
        lemma_hops_bounded(next, responses.drop_first());
    }
}

/// Along a chain of followable redirects at least as long as the hop cap,
/// the forwarder stops at the cap and delivers that redirect response: the
/// final response of a longer chain is never fetched.
pub proof fn lemma_chain_stops_at_cap(s: StateView, responses: Responses)
    requires
        s.remaining >= 1,
        responses.len() >= s.remaining,
        followable_chain(s, responses),
    ensures
        delivered_at(s, responses) == Some((s.remaining - 1) as nat),
    decreases responses.len(),
{
    let (next, d) = after_response(s, responses[0].0, responses[0].1);
    if s.remaining > 1 {
        lemma_chain_stops_at_cap(next, responses.drop_first());
    }
}

/// After a followed redirect the credential headers are still there where
/// the host and the port stay, and gone where either changes; every other
/// header is kept either way.
pub proof fn lemma_sensitive_headers_on_redirect(
    s: StateView,
    status: u16,
    response: Map<Seq<char>, Seq<Seq<u8>>>,
    name: Seq<char>,
)
    requires
        after_response(s, status, response).1 == Decision::Continue,
    ensures
        ({
            let next = after_response(s, status, response).0;
            &&& same_host(next.uri, s.uri) ==> next.headers == s.headers
            &&& !same_host(next.uri, s.uri) && sensitive_headers().contains(name)
                ==> !next.headers.contains_key(name)
            &&& !sensitive_headers().contains(name) ==> (next.headers.contains_key(name)
                <==> s.headers.contains_key(name))
            &&& !sensitive_headers().contains(name) && s.headers.contains_key(name)
                ==> next.headers[name] == s.headers[name]
        }),
{
}

} // verus!
