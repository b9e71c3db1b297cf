//! Wire form of the response envelope.
//!
//! A [`crate::api::Response`] crosses the process boundary as a flat record
//! with a boolean `ok` discriminator; the error detail travels as its string
//! form. Encoding and decoding here are exact inverses; turning the record
//! into bytes is the transport's concern.

use vstd::prelude::*;
use crate::api::{Error, Response};

verus! {

/// Flat wire record of one envelope. On success only `ok` and `result` are
/// set; on error, the code, name and message of the kind, and the optional
/// stringified detail.
pub struct WireEnvelope<T> {
    pub ok: bool,
    pub result: Option<T>,
    pub error_code: Option<u32>,
    pub error_name: Option<String>,
    pub error_description: Option<String>,
    pub error_message: Option<String>,
}

/// What it means for `w` to be the wire form of `r`.
pub open spec fn spec_wire_of<T>(r: Response<T, String>, w: WireEnvelope<T>) -> bool {
    match r {
        Response::Success(t) => {
            &&& w.ok
            &&& w.result == Some(t)
            &&& w.error_code is None
            &&& w.error_name is None
            &&& w.error_description is None
            &&& w.error_message is None
        },
        Response::Error { error, message } => {
            &&& !w.ok
            &&& w.result is None
            &&& w.error_code == Some(error.spec_code())
            &&& w.error_name matches Some(n) && n@ == error.spec_name()
            &&& w.error_description matches Some(d) && d@ == error.spec_message()
            &&& w.error_message == message
        },
    }
}

/// Encode an envelope into its wire form.
pub fn to_wire<T>(r: Response<T, String>) -> (w: WireEnvelope<T>)
    ensures
        spec_wire_of(r, w),
{
    match r {
        Response::Success(t) => WireEnvelope {
            ok: true,
            result: Some(t),
            error_code: None,
            error_name: None,
            error_description: None,
            error_message: None,
        },
        Response::Error { error, message } => WireEnvelope {
            ok: false,
            result: None,
            error_code: Some(error.code()),
            error_name: Some(String::from_str(error.error_name())),
            error_description: Some(String::from_str(error.message())),
            error_message: message,
        },
    }
}

/// Meaning of a wire record: the envelope it decodes to, or `None` when the
/// record is malformed or carries a code outside the catalog (version skew).
pub open spec fn spec_from_wire<T>(w: WireEnvelope<T>) -> Option<Response<T, String>> {
    if w.ok {
        match w.result {
            Some(t) => Some(Response::Success(t)),
            None => None,
        }
    } else {
        match w.error_code {
            Some(c) => match Error::spec_from_code(c as u64) {
                Some(e) => Some(Response::Error { error: e, message: w.error_message }),
                None => None,
            },
            None => None,
        }
    }
}

/// Decode a wire record back into an envelope.
pub fn from_wire<T>(w: WireEnvelope<T>) -> (r: Option<Response<T, String>>)
    ensures
        r == spec_from_wire(w),
{
    let WireEnvelope { ok, result, error_code, error_message, .. } = w;
    if ok {
        match result {
            Some(t) => Some(Response::Success(t)),
            None => None,
        }
    } else {
        match error_code {
            Some(c) => match Error::from_code(c as u64) {
                Some(e) => Some(Response::Error { error: e, message: error_message }),
                None => None,
            },
            None => None,
        }
    }
}

/// Round trip: decoding the wire form of any envelope yields that envelope
/// back — payload for payload on the success path, code for code and detail
/// string verbatim on the error path.
pub proof fn lemma_wire_round_trip<T>(r: Response<T, String>, w: WireEnvelope<T>)
    requires
        spec_wire_of(r, w),
    ensures
        spec_from_wire(w) == Some(r),
{
    match r {
        Response::Success(t) => {
        },
        Response::Error { error, message } => {
            crate::api::lemma_code_round_trip(error);
        },
    }
}

/// Transport status of an envelope: success is OK, an error answers with its
/// kind's status class.
pub fn status_of<T, E>(r: &Response<T, E>) -> (s: u16)
    ensures
        s == (match *r {
            Response::Success(_) => 200u16,
            Response::Error { error, .. } => error.spec_http_code(),
        }),
{
    match r {
        Response::Success(_) => 200,
        Response::Error { error, .. } => error.http_code(),
    }
}

} // verus!
