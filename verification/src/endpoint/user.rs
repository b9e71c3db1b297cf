//! User endpoints: the authenticated caller's own record.

use vstd::prelude::*;
use crate::endpoint::{Endpoint, HTTPMethod};
use crate::user::User;

verus! {

pub const PREFIX: &'static str = "/user";

/// The caller's record together with the absolute expiry of the session
/// token the request carried.
pub struct SelfUser {
    pub user: User,
    pub expires_at: i64,
}

pub struct GetSelf;

impl Endpoint for GetSelf {
    type Query = ();

    type Body = ();

    type Response = SelfUser;

    open spec fn spec_method() -> HTTPMethod {
        HTTPMethod::Get
    }

    open spec fn spec_partial_path() -> Seq<char> {
        "/@self"@
    }

    open spec fn spec_path(&self) -> Seq<char> {
        "/user"@ + "/@self"@
    }

    fn method() -> (r: HTTPMethod) {
        HTTPMethod::Get
    }

    fn partial_path() -> (r: &'static str) {
        "/@self"
    }

    fn build_path(&self) -> (r: String) {
        let s = String::from_str(PREFIX);
        s.concat(Self::partial_path())
    }
}

} // verus!
