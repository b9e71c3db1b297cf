use dp_web::api::{EmptyErrorData, Error, Response};
use dp_web::endpoint::auth::IssueUserTokenResponse;
use dp_web::endpoint::projects::ProjectInfo;
use dp_web::endpoint::user::SelfUser;
use dp_web::project::ProjectTy;
use dp_web::user::{User, UserTokenTy, UserTy};
use dp_web::wire::{from_wire, status_of, to_wire};

#[test]
fn round_trip_token_response() {
    let payload = IssueUserTokenResponse {
        issued_at: 1_000,
        expires_in: 1_201_000,
        user_id: 7,
        token: "abcDEF123".to_string(),
        ty: UserTokenTy::TelegramAuthorization,
    };
    let r: Response<IssueUserTokenResponse, String> = Response::Success(payload);
    let back = from_wire(to_wire(r)).expect("wire form must decode");
    match back {
        Response::Success(t) => {
            assert_eq!(t.issued_at, 1_000);
            assert_eq!(t.expires_in, 1_201_000);
            assert_eq!(t.user_id, 7);
            assert_eq!(t.token, "abcDEF123");
            assert_eq!(t.ty, UserTokenTy::TelegramAuthorization);
        }
        Response::Error { .. } => panic!("success must decode to success"),
    }
}

#[test]
fn round_trip_self_user() {
    let payload = SelfUser {
        user: User { id: 3, ty: UserTy::Normal, username: "ann.b".to_string(), telegram_id: 44 },
        expires_at: 999,
    };
    let r: Response<SelfUser, String> = Response::Success(payload);
    let back = from_wire(to_wire(r)).expect("wire form must decode");
    match back {
        Response::Success(s) => {
            assert_eq!(s.user.id, 3);
            assert_eq!(s.user.ty, UserTy::Normal);
            assert_eq!(s.user.username, "ann.b");
            assert_eq!(s.user.telegram_id, 44);
            assert_eq!(s.expires_at, 999);
        }
        Response::Error { .. } => panic!("success must decode to success"),
    }
}

#[test]
fn round_trip_project_list() {
    let payload = vec![
        ProjectInfo {
            id: 1,
            ty: ProjectTy::Legacy,
            title: "one".to_string(),
            description: None,
            author_id: 5,
        },
        ProjectInfo {
            id: 2,
            ty: ProjectTy::Legacy,
            title: "two".to_string(),
            description: Some("text".to_string()),
            author_id: 5,
        },
    ];
    let r: Response<Vec<ProjectInfo>, String> = Response::Success(payload);
    let back = from_wire(to_wire(r)).expect("wire form must decode");
    match back {
        Response::Success(list) => {
            assert_eq!(list.len(), 2);
            assert_eq!(list[0].id, 1);
            assert_eq!(list[0].description, None);
            assert_eq!(list[1].title, "two");
            assert_eq!(list[1].description.as_deref(), Some("text"));
        }
        Response::Error { .. } => panic!("success must decode to success"),
    }
}

#[test]
fn round_trip_empty_payload() {
    let r: Response<EmptyErrorData, String> = Response::Success(EmptyErrorData);
    match from_wire(to_wire(r)).expect("wire form must decode") {
        Response::Success(EmptyErrorData) => {}
        Response::Error { .. } => panic!("success must decode to success"),
    }
}

#[test]
fn round_trip_error_with_detail() {
    let r: Response<EmptyErrorData, String> =
        Response::error_description(Error::InvalidInput, "lenght of `title` should be in range 2..=40".to_string());
    let w = to_wire(r);
    assert!(!w.ok);
    assert_eq!(w.error_code, Some(20_001));
    assert_eq!(w.error_name.as_deref(), Some("InvalidInput"));
    assert_eq!(w.error_description.as_deref(), Some("Invalid data in params (query/body)"));
    match from_wire(w).expect("wire form must decode") {
        Response::Error { error, message } => {
            assert_eq!(error, Error::InvalidInput);
            assert_eq!(message.as_deref(), Some("lenght of `title` should be in range 2..=40"));
        }
        Response::Success(_) => panic!("error must decode to error"),
    }
}

#[test]
fn round_trip_error_without_detail() {
    let r: Response<EmptyErrorData, String> = Response::error(Error::Forbidden);
    match from_wire(to_wire(r)).expect("wire form must decode") {
        Response::Error { error, message } => {
            assert_eq!(error, Error::Forbidden);
            assert!(message.is_none());
        }
        Response::Success(_) => panic!("error must decode to error"),
    }
}

#[test]
fn unknown_wire_code_fails_decode() {
    let r: Response<EmptyErrorData, String> = Response::error(Error::NotFound);
    let mut w = to_wire(r);
    w.error_code = Some(12_345);
    assert!(from_wire(w).is_none());
}

#[test]
fn status_of_envelopes() {
    let ok: Response<EmptyErrorData, String> = Response::Success(EmptyErrorData);
    assert_eq!(status_of(&ok), 200);
    let err: Response<EmptyErrorData, String> = Response::error(Error::Conflict);
    assert_eq!(status_of(&err), 409);
}
