//! Authentication endpoints: token issuance and invite claiming.

use vstd::prelude::*;
use crate::endpoint::{Endpoint, HTTPMethod};
use crate::user::UserTokenTy;

verus! {

pub const PREFIX: &'static str = "/auth";

pub struct IssueUserTokenQuery {
    pub telegram_id: i64,
}

/// A freshly issued token as the caller sees it; `expires_in` is the
/// absolute expiry, issuance time plus the type's lifetime.
pub struct IssueUserTokenResponse {
    pub issued_at: i64,
    pub expires_in: i64,
    pub user_id: i64,
    pub token: String,
    pub ty: UserTokenTy,
}

pub struct ClaimInviteBody {
    pub invite: String,
    pub username: String,
    pub telegram_id: i64,
}

pub struct TelegramIssueToken;

impl Endpoint for TelegramIssueToken {
    type Query = IssueUserTokenQuery;

    type Body = ();

    type Response = IssueUserTokenResponse;

    open spec fn spec_method() -> HTTPMethod {
        HTTPMethod::Put
    }

    open spec fn spec_partial_path() -> Seq<char> {
        "/telegram"@
    }

    open spec fn spec_path(&self) -> Seq<char> {
        "/auth"@ + "/telegram"@
    }

    fn method() -> (r: HTTPMethod) {
        HTTPMethod::Put
    }

    fn partial_path() -> (r: &'static str) {
        "/telegram"
    }

    fn build_path(&self) -> (r: String) {
        let s = String::from_str(PREFIX);
        s.concat(Self::partial_path())
    }
}

pub struct TelegramActivateToken;

impl Endpoint for TelegramActivateToken {
    type Query = ();

    type Body = ();

    type Response = IssueUserTokenResponse;

    open spec fn spec_method() -> HTTPMethod {
        HTTPMethod::Post
    }

    open spec fn spec_partial_path() -> Seq<char> {
        "/telegram"@
    }

    open spec fn spec_path(&self) -> Seq<char> {
        "/auth"@ + "/telegram"@
    }

    fn method() -> (r: HTTPMethod) {
        HTTPMethod::Post
    }

    fn partial_path() -> (r: &'static str) {
        "/telegram"
    }

    fn build_path(&self) -> (r: String) {
        let s = String::from_str(PREFIX);
        s.concat(Self::partial_path())
    }
}

pub struct ClaimInviteUser;

impl Endpoint for ClaimInviteUser {
    type Query = ();

    type Body = ClaimInviteBody;

    type Response = IssueUserTokenResponse;

    open spec fn spec_method() -> HTTPMethod {
        HTTPMethod::Post
    }

    open spec fn spec_partial_path() -> Seq<char> {
        "/invite"@
    }

    open spec fn spec_path(&self) -> Seq<char> {
        "/auth"@ + "/invite"@
    }

    fn method() -> (r: HTTPMethod) {
        HTTPMethod::Post
    }

    fn partial_path() -> (r: &'static str) {
        "/invite"
    }

    fn build_path(&self) -> (r: String) {
        let s = String::from_str(PREFIX);
        s.concat(Self::partial_path())
    }
}

pub struct ClaimInviteTelegram;

impl Endpoint for ClaimInviteTelegram {
    type Query = ();

    type Body = ClaimInviteBody;

    type Response = IssueUserTokenResponse;

    open spec fn spec_method() -> HTTPMethod {
        HTTPMethod::Post
    }

    open spec fn spec_partial_path() -> Seq<char> {
        "/telegram/invite"@
    }

    open spec fn spec_path(&self) -> Seq<char> {
        "/auth"@ + "/telegram/invite"@
    }

    fn method() -> (r: HTTPMethod) {
        HTTPMethod::Post
    }

    fn partial_path() -> (r: &'static str) {
        "/telegram/invite"
    }

    fn build_path(&self) -> (r: String) {
        let s = String::from_str(PREFIX);
        s.concat(Self::partial_path())
    }
}

} // verus!
