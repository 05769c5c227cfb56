//! The host's `fetch`: what it decides about a component's request before and
//! after the network call.
use vstd::prelude::*;
use crate::bindings::http_fetch::HttpError;
use crate::text::str_equal;

verus! {

/// How the host fetches for a component.
#[derive(Debug, Clone, Copy, PartialEq, Eq, Structural)]
pub struct FetchOptions {
    /// The time limit for connecting, reading and writing, in seconds.
    pub timeout: u32,
    /// Whether to decompress the body.
    pub decompress: bool,
}

impl Default for FetchOptions {
    fn default() -> (r: Self)
        ensures
            r.timeout == 30,
            !r.decompress,
    {
        FetchOptions { timeout: 30, decompress: false }
    }
}

/// The connection a fetch uses.
#[derive(Debug, Clone, Copy, PartialEq, Eq, Structural)]
pub enum Connector {
    /// TLS, with the platform's root certificates.
    Https,
    /// Plain TCP.
    Http,
}

/// The scheme of `uri` as the HTTP library parses it: `None` when it does not
/// parse, `Some(None)` when it has no scheme.
pub uninterp spec fn uri_scheme_of(uri: Seq<char>) -> Option<Option<Seq<char>>>;

/// An optional string as a character sequence.
pub open spec fn opt_string_view(o: Option<String>) -> Option<Seq<char>> {
    match o {
        Some(s) => Some(s@),
        None => None,
    }
}

/// Parses `uri` (`hyper::Uri` from a string) and gives its scheme; `None` when
/// the text is not a URI. The result is named, not stated.
#[verifier::external_body]
fn parse_uri_scheme(uri: &str) -> (r: Option<Option<String>>)
    ensures
        match r {
            Some(s) => uri_scheme_of(uri@) == Some(opt_string_view(s)),
            None => uri_scheme_of(uri@) is None,
        },
{
    match uri.parse::<hyper::Uri>() {
        Ok(u) => Some(u.scheme_str().map(|s| s.to_string())),
        Err(_) => None,
    }
}

/// The connection for a URI's scheme: a URI without a scheme is an invalid
/// request, `https` goes over TLS, every other scheme over plain TCP.
pub open spec fn spec_connector_for(scheme: Option<Seq<char>>) -> Result<Connector, HttpError> {
    match scheme {
        None => Err(HttpError::InvalidRequest),
        Some(s) => if s == "https"@ {
            Ok(Connector::Https)
        } else {
            Ok(Connector::Http)
        },
    }
}

/// The connection for a URI's scheme.
pub fn connector_for(scheme: Option<&str>) -> (r: Result<Connector, HttpError>)
    ensures
        r == spec_connector_for(
            match scheme {
                Some(s) => Some(s@),
                None => None,
            },
        ),
{
    match scheme {
        None => Err(HttpError::InvalidRequest),
        Some(s) => if str_equal(s, "https") {
            Ok(Connector::Https)
        } else {
            Ok(Connector::Http)
        },
    }
}

/// The host's fetch state for one request of a component.
#[derive(Debug)]
pub struct FetchImpl {
    /// The request the component is handling.
    pub req_id: u64,
    /// How many fetches the component made.
    pub counter: u16,
}

impl FetchImpl {
    /// The fetch state of a request, before any fetch.
    pub fn new(req_id: u64) -> (r: FetchImpl)
        ensures
            r.req_id == req_id,
            r.counter == 0,
    {
        FetchImpl { req_id, counter: 0 }
    }

    /// Counts a fetch to `uri` and picks its connection; `None` when `uri` is
    /// not a URI.
    pub fn route(&mut self, uri: &str) -> (r: Option<Result<Connector, HttpError>>)
        requires
            old(self).counter < u16::MAX,
        ensures
            final(self).counter == old(self).counter + 1,
            final(self).req_id == old(self).req_id,
            r is None <==> uri_scheme_of(uri@) is None,
            r is Some ==> r->Some_0 == spec_connector_for(uri_scheme_of(uri@)->Some_0),
    {
        self.counter = self.counter + 1;
        match parse_uri_scheme(uri) {
            None => None,
            Some(scheme) => {
                let c = match &scheme {
                    Some(s) => connector_for(Some(s.as_str())),
                    None => connector_for(None),
                };
                Some(c)
            },
        }
    }
}

/// The body a fetch sends: the request's body, or nothing.
pub fn request_body(body: Option<Vec<u8>>) -> (r: Vec<u8>)
    ensures
        body is None ==> r@.len() == 0,
        body is Some ==> r@ == body->Some_0@,
{
    match body {
        Some(b) => b,
        None => Vec::new(),
    }
}

/// A fetch's response as the host hands it to the component.
#[derive(Debug)]
pub struct FetchResponse {
    /// The HTTP status.
    pub status: u16,
    /// The headers, in the order the server sent them.
    pub headers: Vec<(String, String)>,
    /// The body.
    pub body: Option<Vec<u8>>,
}

/// What the network call of a fetch came to.
#[derive(Debug)]
pub enum Transport {
    /// The client could not send the request or get an answer.
    Failed,
    /// The server answered.
    Answered {
        /// The HTTP status.
        status: u16,
        /// The headers, in order.
        headers: Vec<(String, String)>,
        /// The whole body.
        body: Vec<u8>,
    },
}

/// The result of a fetch once the network call is done: a failed call is an
/// invalid request; an answer becomes the response, with its status, its
/// headers in order and its body.
pub fn fetch_outcome(t: Transport) -> (r: Result<FetchResponse, HttpError>)
    ensures
        t is Failed ==> r matches Err(HttpError::InvalidRequest),
        t matches Transport::Answered { status, headers, body } ==> {
            &&& r is Ok
            &&& r->Ok_0.status == status
            &&& r->Ok_0.headers@ == headers@
            &&& r->Ok_0.body is Some
            &&& r->Ok_0.body->Some_0@ == body@
        },
{
    match t {
        Transport::Failed => Err(HttpError::InvalidRequest),
        Transport::Answered { status, headers, body } => Ok(
            FetchResponse { status, headers, body: Some(body) },
        ),
    }
}

} // verus!
