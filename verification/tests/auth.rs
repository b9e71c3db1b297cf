use dp_web::api::{Error, Response};
use dp_web::config::{Config, TelegramConfig};
use dp_web::endpoint::auth::ClaimInviteBody;
use dp_web::extract::{AuthorizedUser, MicroserviceAuthorization};
use dp_web::handlers::{
    claim_invite, claim_invite_telegram, claim_invite_user, telegram_activate_token,
    telegram_issue_token,
};
use dp_web::store::Store;
use dp_web::user::{UserTokenTy, UserTy};

fn store_with_invite(secret: &str) -> Store {
    let mut store = Store::new();
    store.insert_invite(UserTy::Normal, "friend".to_string(), secret.to_string(), 5);
    store
}

fn body(invite: &str, username: &str, telegram_id: i64) -> ClaimInviteBody {
    ClaimInviteBody {
        invite: invite.to_string(),
        username: username.to_string(),
        telegram_id,
    }
}

#[test]
fn claim_once_succeeds_then_not_found() {
    let mut store = store_with_invite("INV");
    let first = claim_invite_user(body("INV", "alice", 10), &mut store);
    let token = match first {
        Response::Success(t) => t,
        Response::Error { error, .. } => panic!("first claim failed: {}", error.error_name()),
    };
    // the token belongs to the user the claim created
    assert_eq!(token.user_id, store.users[0].id);
    assert_eq!(store.users.len(), 1);
    assert_eq!(store.users[0].username, "alice");
    assert_eq!(store.invites[0].claimed_user_id, Some(token.user_id));

    // a second claim of the same invite fails NotFound, same or other body
    match claim_invite_user(body("INV", "alice", 10), &mut store) {
        Response::Error { error, .. } => assert_eq!(error, Error::NotFound),
        Response::Success(_) => panic!("consumed invite must not be claimable"),
    }
    match claim_invite_user(body("INV", "bob", 11), &mut store) {
        Response::Error { error, .. } => assert_eq!(error, Error::NotFound),
        Response::Success(_) => panic!("consumed invite must not be claimable"),
    }
    assert_eq!(store.users.len(), 1);
}

#[test]
fn claim_validates_input() {
    let mut store = store_with_invite("INV");
    match claim_invite_user(body("INV", "", 10), &mut store) {
        Response::Error { error, .. } => assert_eq!(error, Error::InvalidInput),
        Response::Success(_) => panic!("empty username must be rejected"),
    }
    match claim_invite_user(body("INV", "alice", -1), &mut store) {
        Response::Error { error, .. } => assert_eq!(error, Error::InvalidInput),
        Response::Success(_) => panic!("negative external id must be rejected"),
    }
    match claim_invite_user(body("OTHER", "alice", 10), &mut store) {
        Response::Error { error, .. } => assert_eq!(error, Error::NotFound),
        Response::Success(_) => panic!("unknown invite must be rejected"),
    }
}

#[test]
fn claim_conflicts_on_taken_username() {
    let mut store = store_with_invite("ONE");
    store.insert_invite(UserTy::Normal, "friend".to_string(), "TWO".to_string(), 5);
    match claim_invite_user(body("ONE", "alice", 10), &mut store) {
        Response::Success(_) => {}
        Response::Error { .. } => panic!("first claim must succeed"),
    }
    match claim_invite_user(body("TWO", "alice", 11), &mut store) {
        Response::Error { error, .. } => assert_eq!(error, Error::Conflict),
        Response::Success(_) => panic!("duplicate username must conflict"),
    }
    // the second invite is still unclaimed and usable
    match claim_invite_user(body("TWO", "bob", 11), &mut store) {
        Response::Success(_) => {}
        Response::Error { .. } => panic!("untouched invite must stay claimable"),
    }
}

#[test]
fn claim_invite_step_reports_new_user_id() {
    let mut store = store_with_invite("INV");
    let uid = claim_invite("INV".to_string(), "carol".to_string(), 3, &mut store)
        .expect("claim must succeed");
    assert_eq!(store.users[0].id, uid);
    assert_eq!(store.users[0].ty, UserTy::Normal);
    assert_eq!(store.users[0].telegram_id, 3);
}

#[test]
fn missing_header_requires_authorization() {
    let mut store = Store::new();
    match AuthorizedUser::from_header(None, 1_000, &mut store) {
        Err(e) => assert_eq!(e, Error::AuthorizationRequired),
        Ok(_) => panic!("missing header must fail"),
    }
}

#[test]
fn malformed_headers_require_authorization() {
    let mut store = Store::new();
    for header in [
        "Basic 1:secret",     // wrong scheme
        "Bearer 1secret",     // no colon
        "Bearer abc:secret",  // non-numeric id
        "Bearer :secret",     // empty id
        "Bearer",             // no credentials at all
        "",
    ] {
        match AuthorizedUser::from_header(Some(header), 1_000, &mut store) {
            Err(e) => assert_eq!(e, Error::AuthorizationRequired, "header {:?}", header),
            Ok(_) => panic!("malformed header {:?} must fail", header),
        }
    }
}

#[test]
fn unknown_credentials_are_invalid_token() {
    let mut store = store_with_invite("INV");
    let issued = match claim_invite_user(body("INV", "alice", 10), &mut store) {
        Response::Success(t) => t,
        Response::Error { .. } => panic!("claim must succeed"),
    };
    // well-formed header, but no such pair
    let header = format!("Bearer {}:wrongsecret", issued.user_id);
    match AuthorizedUser::from_header(Some(&header), 1_000, &mut store) {
        Err(e) => assert_eq!(e, Error::InvalidToken),
        Ok(_) => panic!("unknown pair must fail"),
    }
    let header = format!("Bearer 999:{}", issued.token);
    match AuthorizedUser::from_header(Some(&header), 1_000, &mut store) {
        Err(e) => assert_eq!(e, Error::InvalidToken),
        Ok(_) => panic!("wrong owner must fail"),
    }
}

#[test]
fn valid_credentials_authorize() {
    let mut store = store_with_invite("INV");
    let issued = match claim_invite_user(body("INV", "alice", 10), &mut store) {
        Response::Success(t) => t,
        Response::Error { .. } => panic!("claim must succeed"),
    };
    let header = format!("Bearer {}:{}", issued.user_id, issued.token);
    let auth = AuthorizedUser::from_header(Some(&header), issued.issued_at, &mut store)
        .expect("fresh token must authorize");
    assert_eq!(auth.user.id, issued.user_id);
    assert_eq!(auth.user.username, "alice");
    assert_eq!(auth.token.ty, UserTokenTy::UserLimited);
    assert_eq!(auth.token.user_id, issued.user_id);
}

#[test]
fn expired_bridge_token_is_rejected_and_deleted() {
    let mut store = store_with_invite("INV");
    let uid = claim_invite("INV".to_string(), "alice".to_string(), 10, &mut store)
        .expect("claim must succeed");
    // a bridge token issued at time 0 lives 20 minutes
    store.insert_token(uid, "oldsecret".to_string(), 0, UserTokenTy::TelegramAuthorization);
    assert_eq!(store.tokens.len(), 1);
    let header = format!("Bearer {}:oldsecret", uid);

    // at 20 minutes sharp it is still valid
    let auth = AuthorizedUser::from_header(Some(&header), 1_200_000, &mut store)
        .expect("token at its exact expiry instant is still accepted");
    assert_eq!(auth.token.ty, UserTokenTy::TelegramAuthorization);
    assert_eq!(store.tokens.len(), 1);

    // one millisecond later it is rejected and revoked
    match AuthorizedUser::from_header(Some(&header), 1_200_001, &mut store) {
        Err(e) => assert_eq!(e, Error::InvalidToken),
        Ok(_) => panic!("expired token must be rejected"),
    }
    assert!(store.tokens.iter().all(|t| t.token != "oldsecret"));
    assert_eq!(store.tokens.len(), 0);
}

#[test]
fn activate_session_consumes_bridge_token() {
    let mut store = store_with_invite("INV");
    let uid = claim_invite("INV".to_string(), "alice".to_string(), 10, &mut store)
        .expect("claim must succeed");
    store.insert_token(uid, "bridgesecret".to_string(), 0, UserTokenTy::TelegramAuthorization);
    let header = format!("Bearer {}:bridgesecret", uid);
    let auth = AuthorizedUser::from_header(Some(&header), 1_000, &mut store)
        .expect("bridge token must authorize");
    let old_token_id = auth.token.id;

    let issued = match telegram_activate_token(auth, &mut store) {
        Response::Success(t) => t,
        Response::Error { .. } => panic!("activation must succeed"),
    };
    assert_eq!(issued.user_id, uid);
    assert_eq!(issued.ty, UserTokenTy::UserLimited);
    assert_eq!(issued.expires_in, issued.issued_at + 999999999);
    // the consumed bridge token is gone, the new session is stored
    assert!(store.tokens.iter().all(|t| t.id != old_token_id));
    assert_eq!(store.tokens.len(), 1);
    assert_eq!(store.tokens[0].ty, UserTokenTy::UserLimited);
}

#[test]
fn activate_session_rejects_wrong_token_kind() {
    let mut store = store_with_invite("INV");
    let issued = match claim_invite_user(body("INV", "alice", 10), &mut store) {
        Response::Success(t) => t,
        Response::Error { .. } => panic!("claim must succeed"),
    };
    let header = format!("Bearer {}:{}", issued.user_id, issued.token);
    let auth = AuthorizedUser::from_header(Some(&header), issued.issued_at, &mut store)
        .expect("session token must authorize");
    assert_eq!(auth.token.ty, UserTokenTy::UserLimited);

    let count_before = store.tokens.len();
    match telegram_activate_token(auth, &mut store) {
        Response::Error { error, .. } => assert_eq!(error, Error::AuthorizationRequired),
        Response::Success(_) => panic!("a general session must not be exchangeable"),
    }
    // the presented token was not deleted
    assert_eq!(store.tokens.len(), count_before);
    assert!(store.tokens.iter().any(|t| t.token == issued.token));
}

fn bridge_config(key: &str) -> Config {
    Config {
        telegram: Some(TelegramConfig { shared_key: key.to_string() }),
        papers_path: "papers".to_string(),
    }
}

#[test]
fn microservice_header_is_checked_exactly() {
    let config = bridge_config("s3cret");
    assert_eq!(
        MicroserviceAuthorization::from_header(Some("Internal-TelegramMicroservice s3cret"), &config),
        Ok(MicroserviceAuthorization::Telegram)
    );
    for header in [
        "Internal-TelegramMicroservice wrong",
        "Internal-TelegramMicroservice ",
        "Other-Service s3cret",
        "Internal-TelegramMicroservices3cret",
        "",
    ] {
        assert_eq!(
            MicroserviceAuthorization::from_header(Some(header), &config),
            Err(Error::AuthorizationRequired),
            "header {:?}",
            header
        );
    }
    assert_eq!(
        MicroserviceAuthorization::from_header(None, &config),
        Err(Error::AuthorizationRequired)
    );
    let unconfigured = Config { telegram: None, papers_path: "papers".to_string() };
    assert_eq!(
        MicroserviceAuthorization::from_header(
            Some("Internal-TelegramMicroservice s3cret"),
            &unconfigured
        ),
        Err(Error::AuthorizationRequired)
    );
}

#[test]
fn bridge_claim_issues_bridge_token() {
    let mut store = store_with_invite("INV");
    let issued = match claim_invite_telegram(
        MicroserviceAuthorization::Telegram,
        body("INV", "alice", 10),
        &mut store,
    ) {
        Response::Success(t) => t,
        Response::Error { .. } => panic!("bridge claim must succeed"),
    };
    assert_eq!(issued.ty, UserTokenTy::TelegramAuthorization);
    assert_eq!(issued.expires_in, issued.issued_at + 1_200_000);
}

#[test]
fn issue_by_external_id() {
    let mut store = store_with_invite("INV");
    let uid = claim_invite("INV".to_string(), "alice".to_string(), 77, &mut store)
        .expect("claim must succeed");
    match telegram_issue_token(MicroserviceAuthorization::Telegram, 77, &mut store) {
        Response::Success(t) => {
            assert_eq!(t.user_id, uid);
            assert_eq!(t.ty, UserTokenTy::TelegramAuthorization);
        }
        Response::Error { .. } => panic!("known external id must succeed"),
    }
    match telegram_issue_token(MicroserviceAuthorization::Telegram, 78, &mut store) {
        Response::Error { error, .. } => assert_eq!(error, Error::NotFound),
        Response::Success(_) => panic!("unknown external id must fail"),
    }
}
