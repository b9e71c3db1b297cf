use dp_web::api::{EmptyErrorData, Error, Response};

#[test]
fn error_codes_are_stable() {
    assert_eq!(Error::InvalidInput.code(), 20_001);
    assert_eq!(Error::NotFound.code(), 40_001);
    assert_eq!(Error::Conflict.code(), 40_002);
    assert_eq!(Error::AuthorizationRequired.code(), 60_001);
    assert_eq!(Error::InvalidToken.code(), 60_002);
    assert_eq!(Error::Forbidden.code(), 60_003);
    assert_eq!(Error::NoAccess.code(), 60_004);
    assert_eq!(Error::Obsolete.code(), 70_001);
}

#[test]
fn error_names_match_variants() {
    assert_eq!(Error::InvalidInput.error_name(), "InvalidInput");
    assert_eq!(Error::NotFound.error_name(), "NotFound");
    assert_eq!(Error::Conflict.error_name(), "Conflict");
    assert_eq!(Error::AuthorizationRequired.error_name(), "AuthorizationRequired");
    assert_eq!(Error::InvalidToken.error_name(), "InvalidToken");
    assert_eq!(Error::Forbidden.error_name(), "Forbidden");
    assert_eq!(Error::NoAccess.error_name(), "NoAccess");
    assert_eq!(Error::Obsolete.error_name(), "Obsolete");
}

#[test]
fn error_messages_match_catalog() {
    assert_eq!(Error::InvalidInput.message(), "Invalid data in params (query/body)");
    assert_eq!(Error::NotFound.message(), "Object not found");
    assert_eq!(Error::Conflict.message(), "New object conflicts with existing");
    assert_eq!(Error::AuthorizationRequired.message(), "Endpoint requires authorization");
    assert_eq!(Error::InvalidToken.message(), "Invalid or expired authorization token");
    assert_eq!(Error::Forbidden.message(), "Not enough rights to access resource");
    assert_eq!(Error::NoAccess.message(), "Not enough scopes to access resource");
    assert_eq!(Error::Obsolete.message(), "Outdated API version");
}

#[test]
fn error_status_classes() {
    assert_eq!(Error::InvalidInput.http_code(), 400);
    assert_eq!(Error::NotFound.http_code(), 404);
    assert_eq!(Error::Conflict.http_code(), 409);
    assert_eq!(Error::AuthorizationRequired.http_code(), 401);
    assert_eq!(Error::InvalidToken.http_code(), 401);
    assert_eq!(Error::Forbidden.http_code(), 403);
    assert_eq!(Error::NoAccess.http_code(), 403);
    assert_eq!(Error::Obsolete.http_code(), 404);
}

#[test]
fn every_code_decodes_back() {
    let all = [
        Error::InvalidInput,
        Error::NotFound,
        Error::Conflict,
        Error::AuthorizationRequired,
        Error::InvalidToken,
        Error::Forbidden,
        Error::NoAccess,
        Error::Obsolete,
    ];
    for e in all {
        assert_eq!(Error::from_code(e.code() as u64), Some(e));
    }
}

#[test]
fn unknown_code_is_rejected() {
    assert_eq!(Error::from_code(0), None);
    assert_eq!(Error::from_code(20_002), None);
    assert_eq!(Error::from_code(99_999), None);
}

#[test]
fn error_constructors_shape() {
    let r: Response<EmptyErrorData, EmptyErrorData> = Response::error(Error::NotFound);
    match r {
        Response::Error { error, message } => {
            assert_eq!(error, Error::NotFound);
            assert!(message.is_none());
        }
        Response::Success(_) => panic!("expected error envelope"),
    }
    let r: Response<EmptyErrorData, &'static str> =
        Response::error_description(Error::InvalidInput, "why");
    match r {
        Response::Error { error, message } => {
            assert_eq!(error, Error::InvalidInput);
            assert_eq!(message, Some("why"));
        }
        Response::Success(_) => panic!("expected error envelope"),
    }
}
