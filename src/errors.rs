use vstd::prelude::*;

verus! {

/// Failures of the library's own logic.
#[derive(Debug, PartialEq, Eq, Structural)]
pub enum Error {
    /// A `Location` value that is no URI, or whose parts do not assemble
    /// into one once resolved against the current request URI.
    InvalidRedirectTarget,
}

/// The statuses that the proxy answers with itself.
#[derive(Debug, Clone, Copy, PartialEq, Eq, Structural)]
pub enum ErrorStatus {
    /// The request names no origin: neither a `Host` header nor an authority.
    BadRequest,
    /// The upstream could not be reached or refused the request.
    BadGateway,
}

impl ErrorStatus {
    pub open spec fn spec_code(self) -> u16 {
        match self {
            ErrorStatus::BadRequest => 400,
            ErrorStatus::BadGateway => 502,
        }
    }

    /// The numeric HTTP status.
    pub fn code(&self) -> (r: u16)
        ensures
            r == self.spec_code(),
    {
        match self {
            ErrorStatus::BadRequest => 400,
            ErrorStatus::BadGateway => 502,
        }
    }

    pub open spec fn spec_body_text(self) -> Seq<char> {
        match self {
            ErrorStatus::BadRequest => "400: BAD_REQUEST"@,
            ErrorStatus::BadGateway => "502: BAD_GATEWAY"@,
        }
    }

    /// The short text sent as the body of such a response.
    pub fn body_text(&self) -> (r: String)
        ensures
            r@ == self.spec_body_text(),
    {
        match self {
            ErrorStatus::BadRequest => "400: BAD_REQUEST".to_owned(),
            ErrorStatus::BadGateway => "502: BAD_GATEWAY".to_owned(),
        }
    }
}

} // verus!
