//! Error taxonomy and the generic response envelope.
//!
//! Every API operation answers with a [`Response`]: either a success payload
//! or one of a closed set of [`Error`] kinds, each with a permanent numeric
//! code, a name, a human message and a transport status class.

use vstd::prelude::*;

verus! {

/// Placeholder payload for responses that carry no data.
#[derive(Clone, Copy, PartialEq, Eq, Structural, Debug)]
pub struct EmptyErrorData;

/// Closed catalog of domain error kinds.
///
/// Codes are permanent and never reused; decoding an unknown code is a
/// version-skew failure, surfaced as `None` by [`Error::from_code`].
#[derive(Clone, Copy, PartialEq, Eq, Structural, Debug)]
pub enum Error {
    InvalidInput,
    NotFound,
    Conflict,
    AuthorizationRequired,
    InvalidToken,
    Forbidden,
    NoAccess,
    Obsolete,
}

impl Error {
    /// Permanent machine-readable code of this kind.
    pub open spec fn spec_code(self) -> u32 {
        match self {
            Error::InvalidInput => 20_001,
            Error::NotFound => 40_001,
            Error::Conflict => 40_002,
            Error::AuthorizationRequired => 60_001,
            Error::InvalidToken => 60_002,
            Error::Forbidden => 60_003,
            Error::NoAccess => 60_004,
            Error::Obsolete => 70_001,
        }
    }

    pub fn code(self) -> (r: u32)
        ensures
            r == self.spec_code(),
    {
        match self {
            Error::InvalidInput => 20_001,
            Error::NotFound => 40_001,
            Error::Conflict => 40_002,
            Error::AuthorizationRequired => 60_001,
            Error::InvalidToken => 60_002,
            Error::Forbidden => 60_003,
            Error::NoAccess => 60_004,
            Error::Obsolete => 70_001,
        }
    }

    pub open spec fn spec_name(self) -> Seq<char> {
        match self {
            Error::InvalidInput => "InvalidInput"@,
            Error::NotFound => "NotFound"@,
            Error::Conflict => "Conflict"@,
            Error::AuthorizationRequired => "AuthorizationRequired"@,
            Error::InvalidToken => "InvalidToken"@,
            Error::Forbidden => "Forbidden"@,
            Error::NoAccess => "NoAccess"@,
            Error::Obsolete => "Obsolete"@,
        }
    }

    pub fn error_name(self) -> (r: &'static str)
        ensures
            r@ == self.spec_name(),
    {
        match self {
            Error::InvalidInput => "InvalidInput",
            Error::NotFound => "NotFound",
            Error::Conflict => "Conflict",
            Error::AuthorizationRequired => "AuthorizationRequired",
            Error::InvalidToken => "InvalidToken",
            Error::Forbidden => "Forbidden",
            Error::NoAccess => "NoAccess",
            Error::Obsolete => "Obsolete",
        }
    }

    pub open spec fn spec_message(self) -> Seq<char> {
        match self {
            Error::InvalidInput => "Invalid data in params (query/body)"@,
            Error::NotFound => "Object not found"@,
            Error::Conflict => "New object conflicts with existing"@,
            Error::AuthorizationRequired => "Endpoint requires authorization"@,
            Error::InvalidToken => "Invalid or expired authorization token"@,
            Error::Forbidden => "Not enough rights to access resource"@,
            Error::NoAccess => "Not enough scopes to access resource"@,
            Error::Obsolete => "Outdated API version"@,
        }
    }

    pub fn message(self) -> (r: &'static str)
        ensures
            r@ == self.spec_message(),
    {
        match self {
            Error::InvalidInput => "Invalid data in params (query/body)",
            Error::NotFound => "Object not found",
            Error::Conflict => "New object conflicts with existing",
            Error::AuthorizationRequired => "Endpoint requires authorization",
            Error::InvalidToken => "Invalid or expired authorization token",
            Error::Forbidden => "Not enough rights to access resource",
            Error::NoAccess => "Not enough scopes to access resource",
            Error::Obsolete => "Outdated API version",
        }
    }

    pub open spec fn spec_from_code(v: u64) -> Option<Error> {
        if v == 20_001 {
            Some(Error::InvalidInput)
        } else if v == 40_001 {
            Some(Error::NotFound)
        } else if v == 40_002 {
            Some(Error::Conflict)
        } else if v == 60_001 {
            Some(Error::AuthorizationRequired)
        } else if v == 60_002 {
            Some(Error::InvalidToken)
        } else if v == 60_003 {
            Some(Error::Forbidden)
        } else if v == 60_004 {
            Some(Error::NoAccess)
        } else if v == 70_001 {
            Some(Error::Obsolete)
        } else {
            None
        }
    }

    /// Decode a wire-received code back to its kind; `None` on a code this
    /// catalog does not know.
    pub fn from_code(v: u64) -> (r: Option<Error>)
        ensures
            r == Error::spec_from_code(v),
    {
        if v == 20_001 {
            Some(Error::InvalidInput)
        } else if v == 40_001 {
            Some(Error::NotFound)
        } else if v == 40_002 {
            Some(Error::Conflict)
        } else if v == 60_001 {
            Some(Error::AuthorizationRequired)
        } else if v == 60_002 {
            Some(Error::InvalidToken)
        } else if v == 60_003 {
            Some(Error::Forbidden)
        } else if v == 60_004 {
            Some(Error::NoAccess)
        } else if v == 70_001 {
            Some(Error::Obsolete)
        } else {
            None
        }
    }

    /// Transport status class, as an HTTP status code.
    pub open spec fn spec_http_code(self) -> u16 {
        match self {
            Error::InvalidInput => 400,
            Error::NotFound => 404,
            Error::Conflict => 409,
            Error::AuthorizationRequired => 401,
            Error::InvalidToken => 401,
            Error::Forbidden => 403,
            Error::NoAccess => 403,
            Error::Obsolete => 404,
        }
    }

    pub fn http_code(self) -> (r: u16)
        ensures
            r == self.spec_http_code(),
    {
        match self {
            Error::InvalidInput => 400,
            Error::NotFound => 404,
            Error::Conflict => 409,
            Error::AuthorizationRequired => 401,
            Error::InvalidToken => 401,
            Error::Forbidden => 403,
            Error::NoAccess => 403,
            Error::Obsolete => 404,
        }
    }
}

/// Every code decodes back to the kind it came from.
pub proof fn lemma_code_round_trip(e: Error)
    ensures
        Error::spec_from_code(e.spec_code() as u64) == Some(e),
{
}

/// Distinct kinds never share a code.
pub proof fn lemma_codes_distinct(a: Error, b: Error)
    requires
        a.spec_code() == b.spec_code(),
    ensures
        a == b,
{
}

/// Uniform wrapper around every endpoint's output: a success payload, or an
/// error kind with an optional free-text detail.
pub enum Response<T = EmptyErrorData, E = EmptyErrorData> {
    Success(T),
    Error { error: Error, message: Option<E> },
}

/// Envelope of endpoints whose success carries no payload.
pub type EmptyResponse = Response<EmptyErrorData, EmptyErrorData>;

impl<T, E> Response<T, E> {
    /// Construct error with empty description.
    pub fn error(error: Error) -> (r: Self)
        ensures
            r == (Response::<T, E>::Error { error, message: None::<E> }),
    {
        Response::Error { error, message: None }
    }

    /// Construct error with a detail value.
    pub fn error_description(error: Error, message: E) -> (r: Self)
        ensures
            r == (Response::<T, E>::Error { error, message: Some(message) }),
    {
        Response::Error { error, message: Some(message) }
    }
}

} // verus!
