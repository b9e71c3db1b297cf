//! Endpoint handlers: the business logic of every API operation, verified
//! against the store model. Each handler takes the plain values its endpoint
//! declares and answers an envelope.

use vstd::prelude::*;
use crate::api::{EmptyErrorData, EmptyResponse, Error, Response};
use crate::endpoint::auth::{
    ClaimInviteBody, ClaimInviteTelegram, ClaimInviteUser, IssueUserTokenResponse,
    TelegramActivateToken, TelegramIssueToken,
};
use crate::endpoint::projects::{
    CreateProject, CreateProjectBody, ListProjects, ProjectInfo, ProjectListQuery,
};
use crate::endpoint::user::{GetSelf, SelfUser};
use crate::endpoint::Endpoint;
use crate::extract::{AuthorizedUser, MicroserviceAuthorization};
use crate::project::ProjectTy;
use crate::store::{
    Store, UserInvite, spec_unclaimed_invite_idx, spec_invite_id_idx, spec_username_idx,
    spec_user_tg_idx, spec_token_id_idx, spec_projects_of, spec_window,
    spec_projects_after_delete, lemma_unclaimed_invite_idx_from, lemma_invite_id_idx_from,
    MAX_ISSUED_AT,
};
use crate::sys;
use crate::user::{
    check_username, generate_token, is_token_char, spec_username_ok, User, UserToken,
    UserTokenScope, UserTokenTy, TOKEN_LENGTH,
};

verus! {

/// Which answer the invite-claim step gives on a store: reject bad input,
/// then an unknown or consumed invite, then a taken username; otherwise the
/// fresh user id.
pub open spec fn spec_claim_invite_outcome(
    s: Store,
    invite: Seq<char>,
    username: Seq<char>,
    telegram_id: i64,
) -> Result<i64, Error> {
    if !spec_username_ok(username) || telegram_id < 0 {
        Err(Error::InvalidInput)
    } else if spec_unclaimed_invite_idx(s.invites@, invite) is None {
        Err(Error::NotFound)
    } else if spec_username_idx(s.users@, username) is Some {
        Err(Error::Conflict)
    } else {
        Ok(s.next_user_id)
    }
}

/// How a successful claim changes the store: the new user row is appended
/// with the invite's target type, and the first unclaimed invite carrying
/// the secret is marked consumed by the new user.
pub open spec fn spec_claim_effect(
    pre: Store,
    post: Store,
    invite: Seq<char>,
    username: String,
    telegram_id: i64,
    uid: i64,
) -> bool {
    &&& uid == pre.next_user_id
    &&& post.next_user_id == pre.next_user_id + 1
    &&& match spec_unclaimed_invite_idx(pre.invites@, invite) {
        Some(k) => {
            &&& post.invites@ == pre.invites@.update(
                k,
                (UserInvite {
                    id: pre.invites@[k].id,
                    user_ty: pre.invites@[k].user_ty,
                    reason: pre.invites@[k].reason,
                    invite: pre.invites@[k].invite,
                    issued_at: pre.invites@[k].issued_at,
                    claimed_user_id: Some(uid),
                }),
            )
            &&& post.users@ == pre.users@.push(
                (User { id: uid, ty: pre.invites@[k].user_ty, username, telegram_id }),
            )
        },
        None => false,
    }
}

/// Claim an invite: validate the username policy and the external id, find
/// the invite unclaimed, create the user (conflicting on a taken username),
/// and mark the invite consumed.
///
/// The three storage steps are separate statements, as in the wire protocol
/// they model; two concurrent claims of one invite are serialized only by
/// the store borrow here — over a remote store the check-then-insert
/// sequence would race.
pub fn claim_invite(invite: String, username: String, telegram_id: i64, store: &mut Store) -> (r:
    Result<i64, Error>)
    requires
        old(store).inv(),
        old(store).next_user_id < i64::MAX,
    ensures
        final(store).inv(),
        final(store).tokens == old(store).tokens,
        final(store).projects == old(store).projects,
        final(store).next_token_id == old(store).next_token_id,
        final(store).next_invite_id == old(store).next_invite_id,
        final(store).next_project_id == old(store).next_project_id,
        r == spec_claim_invite_outcome(*old(store), invite@, username@, telegram_id),
        r matches Err(_) ==> *final(store) == *old(store),
        r matches Ok(uid) ==> spec_claim_effect(
            *old(store),
            *final(store),
            invite@,
            username,
            telegram_id,
            uid,
        ),
{
    if !check_username(username.as_str()) || telegram_id < 0 {
        return Err(Error::InvalidInput);
    }
    let (invite_id, user_ty) = match store.find_unclaimed_invite(invite.as_str()) {
        Some(p) => p,
        None => {
            return Err(Error::NotFound);
        },
    };
    let ghost k = spec_unclaimed_invite_idx(store.invites@, invite@).unwrap();
    proof {
        lemma_unclaimed_invite_idx_from(store.invites@, invite@, 0);
    }
    let user_id = match store.insert_user(user_ty, username, telegram_id) {
        Some(v) => v,
        None => {
            return Err(Error::Conflict);
        },
    };
    proof {
        lemma_invite_id_idx_from(store.invites@, invite_id, 0);
        match spec_invite_id_idx(store.invites@, invite_id) {
            Some(m) => {
                assert(store.invites@[m].id == store.invites@[k].id);
                assert(m == k);
            },
            None => {
                assert(false);
            },
        }
    }
    store.mark_invite_claimed(invite_id, user_id);
    Ok(user_id)
}

/// Issue a fresh token for `user_id`: a new random secret, stamped with the
/// current time, stored, and returned with its absolute expiry.
///
/// The issuance timestamp is clamped so that expiry arithmetic stays within
/// the type; the clamp is unreachable for any realistic clock.
pub fn issue_token(user_id: i64, ty: UserTokenTy, store: &mut Store) -> (r: IssueUserTokenResponse)
    requires
        old(store).inv(),
        old(store).next_token_id < i64::MAX,
    ensures
        final(store).inv(),
        final(store).users == old(store).users,
        final(store).invites == old(store).invites,
        final(store).projects == old(store).projects,
        final(store).next_user_id == old(store).next_user_id,
        final(store).next_invite_id == old(store).next_invite_id,
        final(store).next_project_id == old(store).next_project_id,
        final(store).next_token_id == old(store).next_token_id + 1,
        r.user_id == user_id,
        r.ty == ty,
        0 <= r.issued_at <= MAX_ISSUED_AT,
        r.expires_in == r.issued_at + ty.spec_lifetime(),
        r.token@.len() == TOKEN_LENGTH,
        forall|i: int| 0 <= i < r.token@.len() ==> is_token_char(#[trigger] r.token@[i]),
        final(store).tokens@ == old(store).tokens@.push(
            (UserToken {
                id: old(store).next_token_id,
                ty,
                user_id,
                scope: UserTokenScope(0),
                issued_at: r.issued_at,
                token: r.token,
            }),
        ),
{
    let token = generate_token();
    let now = sys::now_millis();
    let issued_at = if now > MAX_ISSUED_AT {
        MAX_ISSUED_AT
    } else {
        now
    };
    let expires_in = issued_at + ty.lifetime();
    let stored = token.clone();
    store.insert_token(user_id, stored, issued_at, ty);
    IssueUserTokenResponse { issued_at, expires_in, user_id, token, ty }
}

/// Claim an invite and open a long-lived session for the new user.
pub fn claim_invite_user(body: ClaimInviteBody, store: &mut Store) -> (r: Response<
    <ClaimInviteUser as Endpoint>::Response,
>)
    requires
        old(store).inv(),
        old(store).next_user_id < i64::MAX,
        old(store).next_token_id < i64::MAX,
    ensures
        final(store).inv(),
        match spec_claim_invite_outcome(*old(store), body.invite@, body.username@, body.telegram_id) {
            Err(e) => r == (Response::<IssueUserTokenResponse>::Error {
                error: e,
                message: None::<EmptyErrorData>,
            }) && *final(store) == *old(store),
            Ok(uid) => {
                &&& spec_claim_effect(
                    *old(store),
                    *final(store),
                    body.invite@,
                    body.username,
                    body.telegram_id,
                    uid,
                )
                &&& r matches Response::Success(t) && t.user_id == uid && t.ty
                    == UserTokenTy::UserLimited && t.expires_in == t.issued_at
                    + UserTokenTy::UserLimited.spec_lifetime() && final(store).tokens@ == old(
                    store,
                ).tokens@.push(
                    (UserToken {
                        id: old(store).next_token_id,
                        ty: UserTokenTy::UserLimited,
                        user_id: uid,
                        scope: UserTokenScope(0),
                        issued_at: t.issued_at,
                        token: t.token,
                    }),
                )
                &&& final(store).next_token_id == old(store).next_token_id + 1
            },
        },
{
    let ClaimInviteBody { invite, username, telegram_id } = body;
    let user_id = match claim_invite(invite, username, telegram_id, store) {
        Ok(v) => v,
        Err(e) => {
            return Response::error(e);
        },
    };
    Response::Success(issue_token(user_id, UserTokenTy::UserLimited, store))
}

/// Claim an invite on behalf of the bridge microservice and open a
/// short-lived bridge session for the new user.
pub fn claim_invite_telegram(
    ms: MicroserviceAuthorization,
    body: ClaimInviteBody,
    store: &mut Store,
) -> (r: Response<<ClaimInviteTelegram as Endpoint>::Response>)
    requires
        old(store).inv(),
        old(store).next_user_id < i64::MAX,
        old(store).next_token_id < i64::MAX,
    ensures
        final(store).inv(),
        match spec_claim_invite_outcome(*old(store), body.invite@, body.username@, body.telegram_id) {
            Err(e) => r == (Response::<IssueUserTokenResponse>::Error {
                error: e,
                message: None::<EmptyErrorData>,
            }) && *final(store) == *old(store),
            Ok(uid) => {
                &&& spec_claim_effect(
                    *old(store),
                    *final(store),
                    body.invite@,
                    body.username,
                    body.telegram_id,
                    uid,
                )
                &&& r matches Response::Success(t) && t.user_id == uid && t.ty
                    == UserTokenTy::TelegramAuthorization && t.expires_in == t.issued_at
                    + UserTokenTy::TelegramAuthorization.spec_lifetime() && final(store).tokens@
                    == old(store).tokens@.push(
                    (UserToken {
                        id: old(store).next_token_id,
                        ty: UserTokenTy::TelegramAuthorization,
                        user_id: uid,
                        scope: UserTokenScope(0),
                        issued_at: t.issued_at,
                        token: t.token,
                    }),
                )
                &&& final(store).next_token_id == old(store).next_token_id + 1
            },
        },
{
    if !(matches!(ms, MicroserviceAuthorization::Telegram)) {
        return Response::error(Error::AuthorizationRequired);
    }
    let ClaimInviteBody { invite, username, telegram_id } = body;
    let user_id = match claim_invite(invite, username, telegram_id, store) {
        Ok(v) => v,
        Err(e) => {
            return Response::error(e);
        },
    };
    Response::Success(issue_token(user_id, UserTokenTy::TelegramAuthorization, store))
}

/// Exchange a short-lived bridge session for a long-lived one: only a
/// TelegramAuthorization token may be exchanged — presenting any other kind
/// is a usage error (`AuthorizationRequired`, not `InvalidToken`) and
/// leaves the presented token in place. On success the consumed token is
/// deleted and a fresh UserLimited token is issued for the same user.
pub fn telegram_activate_token(auth: AuthorizedUser, store: &mut Store) -> (r: Response<
    <TelegramActivateToken as Endpoint>::Response,
>)
    requires
        old(store).inv(),
        old(store).next_token_id < i64::MAX,
    ensures
        final(store).inv(),
        final(store).users == old(store).users,
        final(store).invites == old(store).invites,
        final(store).projects == old(store).projects,
        final(store).next_user_id == old(store).next_user_id,
        final(store).next_invite_id == old(store).next_invite_id,
        final(store).next_project_id == old(store).next_project_id,
        if auth.token.ty != UserTokenTy::TelegramAuthorization {
            r == (Response::<IssueUserTokenResponse>::Error {
                error: Error::AuthorizationRequired,
                message: None::<EmptyErrorData>,
            }) && *final(store) == *old(store)
        } else {
            &&& r matches Response::Success(t) && t.user_id == auth.user.id && t.ty
                == UserTokenTy::UserLimited && t.expires_in == t.issued_at
                + UserTokenTy::UserLimited.spec_lifetime() && final(store).tokens@ == (
            match spec_token_id_idx(old(store).tokens@, auth.token.id) {
                Some(k) => old(store).tokens@.remove(k),
                None => old(store).tokens@,
            }).push(
                (UserToken {
                    id: old(store).next_token_id,
                    ty: UserTokenTy::UserLimited,
                    user_id: auth.user.id,
                    scope: UserTokenScope(0),
                    issued_at: t.issued_at,
                    token: t.token,
                }),
            )
            &&& final(store).next_token_id == old(store).next_token_id + 1
        },
{
    if !(matches!(auth.token.ty, UserTokenTy::TelegramAuthorization)) {
        return Response::error(Error::AuthorizationRequired);
    }
    store.delete_token(auth.token.id);
    Response::Success(issue_token(auth.user.id, UserTokenTy::UserLimited, store))
}

/// Issue a short-lived bridge session for the user linked to the given
/// external id; unknown ids answer `NotFound`.
pub fn telegram_issue_token(
    ms: MicroserviceAuthorization,
    telegram_id: i64,
    store: &mut Store,
) -> (r: Response<<TelegramIssueToken as Endpoint>::Response>)
    requires
        old(store).inv(),
        old(store).next_token_id < i64::MAX,
    ensures
        final(store).inv(),
        final(store).users == old(store).users,
        final(store).invites == old(store).invites,
        final(store).projects == old(store).projects,
        final(store).next_user_id == old(store).next_user_id,
        final(store).next_invite_id == old(store).next_invite_id,
        final(store).next_project_id == old(store).next_project_id,
        match spec_user_tg_idx(old(store).users@, telegram_id) {
            None => r == (Response::<IssueUserTokenResponse>::Error {
                error: Error::NotFound,
                message: None::<EmptyErrorData>,
            }) && *final(store) == *old(store),
            Some(k) => {
                &&& r matches Response::Success(t) && t.user_id == old(store).users@[k].id && t.ty
                    == UserTokenTy::TelegramAuthorization && t.expires_in == t.issued_at
                    + UserTokenTy::TelegramAuthorization.spec_lifetime() && final(store).tokens@
                    == old(store).tokens@.push(
                    (UserToken {
                        id: old(store).next_token_id,
                        ty: UserTokenTy::TelegramAuthorization,
                        user_id: old(store).users@[k].id,
                        scope: UserTokenScope(0),
                        issued_at: t.issued_at,
                        token: t.token,
                    }),
                )
                &&& final(store).next_token_id == old(store).next_token_id + 1
            },
        },
{
    if !(matches!(ms, MicroserviceAuthorization::Telegram)) {
        return Response::error(Error::AuthorizationRequired);
    }
    let user_id = match store.find_user_by_telegram_id(telegram_id) {
        Some(v) => v,
        None => {
            return Response::error(Error::NotFound);
        },
    };
    Response::Success(issue_token(user_id, UserTokenTy::TelegramAuthorization, store))
}

/// The authenticated caller's own record, with the absolute expiry of the
/// session token the request carried.
pub fn get_self(auth: AuthorizedUser) -> (r: Response<<GetSelf as Endpoint>::Response>)
    requires
        auth.wf(),
    ensures
        r matches Response::Success(s) && s.user == auth.user && s.expires_at
            == auth.token.issued_at + auth.token.ty.spec_lifetime(),
{
    let expires_at = auth.token.issued_at + auth.token.ty.lifetime();
    Response::Success(SelfUser { user: auth.user, expires_at })
}

/// The limit actually applied to a listing: 0 defaults to 50, 1 to 50 pass
/// through, anything larger is rejected.
pub open spec fn spec_list_limit(limit: u32) -> Option<u32> {
    if limit == 0 {
        Some(50)
    } else if limit <= 50 {
        Some(limit)
    } else {
        None
    }
}

/// Which rows a listing answers: at most `l` rows of the caller's own
/// projects, starting `l * skip` rows in — the page the limit and skip
/// parameters name.
pub open spec fn spec_list_outcome(s: Store, author_id: i64, limit: u32, skip: u32) -> Result<
    Seq<ProjectInfo>,
    Error,
> {
    match spec_list_limit(limit) {
        None => Err(Error::InvalidInput),
        Some(l) => Ok(
            spec_window(
                spec_projects_of(s.projects@, author_id),
                (l as int) * (skip as int),
                l as int,
            ),
        ),
    }
}

/// List the caller's own projects.
///
/// A storage layer that can fail a fetch would have its failure answered
/// with an empty list rather than an error — a deliberate policy of this
/// endpoint; the in-memory store cannot fail a read, so that case has no
/// reachable branch here.
pub fn list_projects(user: &User, query: ProjectListQuery, store: &Store) -> (r: Response<
    <ListProjects as Endpoint>::Response,
>)
    ensures
        match spec_list_outcome(*store, user.id, query.limit, query.skip) {
            Err(e) => r == (Response::<Vec<ProjectInfo>>::Error {
                error: e,
                message: None::<EmptyErrorData>,
            }),
            Ok(w) => r matches Response::Success(v) && v@ == w,
        },
{
    let limit: u32 = if query.limit == 0 {
        50
    } else if query.limit <= 50 {
        query.limit
    } else {
        return Response::error(Error::InvalidInput);
    };
    proof {
        assert((limit as int) * (query.skip as int) <= 50 * 0xffff_ffff) by (nonlinear_arith)
            requires
                limit <= 50 && query.skip <= 0xffff_ffff,
        ;
    }
    let start: u64 = (limit as u64) * (query.skip as u64);
    let list = store.list_projects_window(user.id, start, limit as u64);
    Response::Success(list)
}

/// Create a project owned by the caller; the title must be 2 to 40
/// characters long.
///
/// A storage layer whose insert can fail would have that failure answered
/// with `Conflict`; the in-memory store's project insert cannot fail, so
/// that case has no reachable branch here.
pub fn create_project(user: &User, body: CreateProjectBody, store: &mut Store) -> (r: Response<
    <CreateProject as Endpoint>::Response,
    &'static str,
>)
    requires
        old(store).inv(),
        old(store).next_project_id < i64::MAX,
    ensures
        final(store).inv(),
        final(store).users == old(store).users,
        final(store).tokens == old(store).tokens,
        final(store).invites == old(store).invites,
        final(store).next_user_id == old(store).next_user_id,
        final(store).next_token_id == old(store).next_token_id,
        final(store).next_invite_id == old(store).next_invite_id,
        if 2 <= body.title@.len() <= 40 {
            &&& r matches Response::Success(p) && p.id == old(store).next_project_id && p.ty
                == ProjectTy::Legacy && p.title == body.title && p.description == body.description
                && p.author_id == user.id
            &&& final(store).projects@ == old(store).projects@.push(
                (ProjectInfo {
                    id: old(store).next_project_id,
                    ty: ProjectTy::Legacy,
                    title: body.title,
                    description: body.description,
                    author_id: user.id,
                }),
            )
            &&& final(store).next_project_id == old(store).next_project_id + 1
        } else {
            &&& r matches Response::Error { error, message } && error == Error::InvalidInput && (
            message matches Some(m) && m@ == "lenght of `title` should be in range 2..=40"@)
            &&& *final(store) == *old(store)
        },
{
    let len = body.title.as_str().unicode_len();
    if !(2 <= len && len <= 40) {
        return Response::error_description(
            Error::InvalidInput,
            "lenght of `title` should be in range 2..=40",
        );
    }
    let CreateProjectBody { title, description } = body;
    let stored_title = title.clone();
    let stored_description = match &description {
        Some(d) => Some(d.clone()),
        None => None,
    };
    let id = store.insert_project(ProjectTy::Legacy, stored_title, stored_description, user.id);
    Response::Success(
        ProjectInfo { id, ty: ProjectTy::Legacy, title, description, author_id: user.id },
    )
}

/// Delete the caller's project with the given id. The predicate is
/// `id = ? and author_id = ?` in one statement, never a separate existence
/// check: deleting someone else's project and deleting a nonexistent one
/// are indistinguishable, both answering `Forbidden`.
pub fn delete_project(user: &User, id: i64, store: &mut Store) -> (r: EmptyResponse)
    requires
        old(store).inv(),
    ensures
        final(store).inv(),
        final(store).users == old(store).users,
        final(store).tokens == old(store).tokens,
        final(store).invites == old(store).invites,
        final(store).next_user_id == old(store).next_user_id,
        final(store).next_token_id == old(store).next_token_id,
        final(store).next_invite_id == old(store).next_invite_id,
        final(store).next_project_id == old(store).next_project_id,
        final(store).projects@ == spec_projects_after_delete(old(store).projects@, id, user.id),
        r == (if final(store).projects@.len() == old(store).projects@.len() {
            Response::<EmptyErrorData>::Error {
                error: Error::Forbidden,
                message: None::<EmptyErrorData>,
            }
        } else {
            Response::<EmptyErrorData>::Success(EmptyErrorData)
        }),
{
    let affected = store.delete_project_rows(id, user.id);
    if affected == 0 {
        Response::error(Error::Forbidden)
    } else {
        Response::Success(EmptyErrorData)
    }
}

} // verus!
