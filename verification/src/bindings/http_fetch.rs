//! The `http-fetch` interface: what a component passes to the host to fetch a
//! URL, and how the host's answer is laid out in memory.
use vstd::prelude::*;
use crate::bindings::abi::{read_response_at, spec_read_response_at, ResponseArea};

verus! {

/// What a fetch does when the server redirects.
#[derive(Debug, Clone, Copy, PartialEq, Eq, Structural)]
pub enum RedirectPolicy {
    /// Follow the redirect.
    Follow,
    /// Fail.
    Error,
    /// Return the redirect response.
    Manual,
}

impl RedirectPolicy {
    /// The policy's code in the flat arguments: 0, 1 and 2.
    pub open spec fn spec_code(&self) -> u32 {
        match self {
            RedirectPolicy::Follow => 0,
            RedirectPolicy::Error => 1,
            RedirectPolicy::Manual => 2,
        }
    }

    /// The policy's code in the flat arguments.
    pub fn code(&self) -> (r: u32)
        ensures
            r == self.spec_code(),
    {
        match self {
            RedirectPolicy::Follow => 0,
            RedirectPolicy::Error => 1,
            RedirectPolicy::Manual => 2,
        }
    }
}

/// Why a fetch failed.
#[derive(Debug, Clone, Copy, PartialEq, Eq, Structural)]
pub enum HttpError {
    /// The network failed.
    NetworkError,
    /// The request took too long.
    Timeout,
    /// The URL is not valid.
    InvalidUrl,
    /// The destination may not be reached.
    DestinationNotAllowed,
    /// Too many requests were made.
    TooManyRequests,
    /// The request is not valid.
    InvalidRequest,
}

impl HttpError {
    /// The error's name.
    pub fn name(&self) -> (r: &'static str)
        ensures
            r@ == (match self {
                HttpError::NetworkError => "network-error"@,
                HttpError::Timeout => "timeout"@,
                HttpError::InvalidUrl => "invalid-url"@,
                HttpError::DestinationNotAllowed => "destination-not-allowed"@,
                HttpError::TooManyRequests => "too-many-requests"@,
                HttpError::InvalidRequest => "invalid-request"@,
            }),
    {
        match self {
            HttpError::NetworkError => "network-error",
            HttpError::Timeout => "timeout",
            HttpError::InvalidUrl => "invalid-url",
            HttpError::DestinationNotAllowed => "destination-not-allowed",
            HttpError::TooManyRequests => "too-many-requests",
            HttpError::InvalidRequest => "invalid-request",
        }
    }

    /// The error's message: the interface gives none, so it is empty.
    pub fn message(&self) -> (r: &'static str)
        ensures
            r@ == ""@,
    {
        match self {
            HttpError::NetworkError => "",
            HttpError::Timeout => "",
            HttpError::InvalidUrl => "",
            HttpError::DestinationNotAllowed => "",
            HttpError::TooManyRequests => "",
            HttpError::InvalidRequest => "",
        }
    }

    /// The error's code: its position in the interface, from 0.
    pub open spec fn spec_code(&self) -> u8 {
        match self {
            HttpError::NetworkError => 0,
            HttpError::Timeout => 1,
            HttpError::InvalidUrl => 2,
            HttpError::DestinationNotAllowed => 3,
            HttpError::TooManyRequests => 4,
            HttpError::InvalidRequest => 5,
        }
    }

    /// The error's code.
    pub fn code(&self) -> (r: u8)
        ensures
            r == self.spec_code(),
    {
        match self {
            HttpError::NetworkError => 0,
            HttpError::Timeout => 1,
            HttpError::InvalidUrl => 2,
            HttpError::DestinationNotAllowed => 3,
            HttpError::TooManyRequests => 4,
            HttpError::InvalidRequest => 5,
        }
    }

    /// The error with code `c`, if there is one.
    pub open spec fn spec_from_code(c: u8) -> Option<HttpError> {
        if c == 0 {
            Some(HttpError::NetworkError)
        } else if c == 1 {
            Some(HttpError::Timeout)
        } else if c == 2 {
            Some(HttpError::InvalidUrl)
        } else if c == 3 {
            Some(HttpError::DestinationNotAllowed)
        } else if c == 4 {
            Some(HttpError::TooManyRequests)
        } else if c == 5 {
            Some(HttpError::InvalidRequest)
        } else {
            None
        }
    }

    /// The error with code `c`, if there is one.
    pub fn from_code(c: u8) -> (r: Option<HttpError>)
        ensures
            r == HttpError::spec_from_code(c),
    {
        if c == 0 {
            Some(HttpError::NetworkError)
        } else if c == 1 {
            Some(HttpError::Timeout)
        } else if c == 2 {
            Some(HttpError::InvalidUrl)
        } else if c == 3 {
            Some(HttpError::DestinationNotAllowed)
        } else if c == 4 {
            Some(HttpError::TooManyRequests)
        } else if c == 5 {
            Some(HttpError::InvalidRequest)
        } else {
            None
        }
    }
}

/// Each error is found again from its code, and exactly the codes below 6 name an error.
pub proof fn lemma_http_error_codes(e: HttpError, c: u8)
    ensures
        HttpError::spec_from_code(e.spec_code()) == Some(e),
        HttpError::spec_from_code(c) is Some <==> c < 6,
{
}

/// How a fetch is made.
#[derive(Debug, Clone, Copy, PartialEq, Eq, Structural)]
pub struct FetchOptions {
    /// The time limit, in seconds.
    pub timeout: u32,
    /// Whether to decompress the body.
    pub decompress: bool,
    /// What to do on a redirect.
    pub redirect: RedirectPolicy,
}

impl FetchOptions {
    /// The options as three flat arguments: the time limit, 1 or 0 for
    /// decompression, and the redirect policy's code.
    pub fn flatten(&self) -> (r: (u32, u32, u32))
        ensures
            r == (self.timeout, if self.decompress { 1u32 } else { 0u32 }, self.redirect.spec_code()),
    {
        (self.timeout, if self.decompress { 1 } else { 0 }, self.redirect.code())
    }
}

/// The size of a fetch's return area.
pub const FETCH_AREA_SIZE: usize = 28;

/// The outcome of a fetch as the host stores it: tag 0 and the response from
/// byte 4 on, or tag 1 and the error's code at byte 4.
pub open spec fn spec_read_fetch_result(b: Seq<u8>) -> Result<ResponseArea, HttpError> {
    if b[0] == 0 {
        Ok(spec_read_response_at(b, 4))
    } else {
        Err(HttpError::spec_from_code(b[4])->Some_0)
    }
}

/// The return area holds an outcome that the interface defines: tag 0 with a
/// body tag of 0 or 1, or tag 1 with an error code below 6. The bindings stop
/// on any other.
pub open spec fn valid_fetch_area(b: Seq<u8>) -> bool {
    &&& b[0] <= 1
    &&& b[0] == 0 ==> b[16] <= 1
    &&& b[0] == 1 ==> b[4] < 6
}

/// The outcome of a fetch, read from its return area.
pub fn read_fetch_result(area: &[u8]) -> (r: Result<ResponseArea, HttpError>)
    requires
        area@.len() >= 28,
        valid_fetch_area(area@),
    ensures
        r == spec_read_fetch_result(area@),
        r is Err ==> HttpError::spec_from_code(area@[4]) == Some(r->Err_0),
{
    if area[0] == 0 {
        Ok(read_response_at(area, 4))
    } else {
        match HttpError::from_code(area[4]) {
            Some(e) => Err(e),
            None => vstd::pervasive::unreached(),
        }
    }
}

} // verus!
