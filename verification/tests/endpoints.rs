use dp_web::endpoint::auth::{
    ClaimInviteTelegram, ClaimInviteUser, TelegramActivateToken, TelegramIssueToken,
};
use dp_web::endpoint::projects::{CreateProject, DeleteProject, ListProjects, ProjectPath};
use dp_web::endpoint::user::GetSelf;
use dp_web::endpoint::{Endpoint, HTTPMethod};
use dp_web::project::ProjectTy;
use dp_web::user::{UserTokenScope, UserTokenTy, UserTy};

#[test]
fn auth_endpoints_describe_themselves() {
    assert_eq!(TelegramIssueToken::method(), HTTPMethod::Put);
    assert_eq!(TelegramIssueToken::partial_path(), "/telegram");
    assert_eq!(TelegramIssueToken.build_path(), "/auth/telegram");

    assert_eq!(TelegramActivateToken::method(), HTTPMethod::Post);
    assert_eq!(TelegramActivateToken.build_path(), "/auth/telegram");

    assert_eq!(ClaimInviteUser::method(), HTTPMethod::Post);
    assert_eq!(ClaimInviteUser::partial_path(), "/invite");
    assert_eq!(ClaimInviteUser.build_path(), "/auth/invite");

    assert_eq!(ClaimInviteTelegram::method(), HTTPMethod::Post);
    assert_eq!(ClaimInviteTelegram.build_path(), "/auth/telegram/invite");
}

#[test]
fn project_endpoints_describe_themselves() {
    assert_eq!(ListProjects::method(), HTTPMethod::Get);
    assert_eq!(ListProjects::partial_path(), "/");
    assert_eq!(ListProjects.build_path(), "/projects");

    assert_eq!(CreateProject::method(), HTTPMethod::Put);
    assert_eq!(CreateProject.build_path(), "/projects");

    assert_eq!(DeleteProject::method(), HTTPMethod::Delete);
    assert_eq!(DeleteProject::partial_path(), "/:id");
    assert_eq!(DeleteProject(ProjectPath { id: 14 }).build_path(), "/projects/14");
    assert_eq!(DeleteProject(ProjectPath { id: -3 }).build_path(), "/projects/-3");
}

#[test]
fn self_endpoint_describes_itself() {
    assert_eq!(GetSelf::method(), HTTPMethod::Get);
    assert_eq!(GetSelf::partial_path(), "/@self");
    assert_eq!(GetSelf.build_path(), "/user/@self");
}

#[test]
fn token_lifetimes() {
    assert_eq!(UserTokenTy::UserLimited.lifetime(), 999999999);
    assert_eq!(UserTokenTy::TelegramAuthorization.lifetime(), 20 * 60 * 1000);
}

#[test]
fn type_tags_encode_and_decode() {
    assert_eq!(UserTy::Unregistered.value(), 0);
    assert_eq!(UserTy::Unverified.value(), 1);
    assert_eq!(UserTy::Normal.value(), 2);
    assert_eq!(UserTy::try_from_bits(2), Some(UserTy::Normal));
    assert_eq!(UserTy::try_from_bits(3), None);
    assert_eq!(UserTy::from_bits(1), UserTy::Unverified);
    assert_eq!(UserTy::all_values(), vec![UserTy::Unregistered, UserTy::Unverified, UserTy::Normal]);
    assert_eq!(UserTy::Normal.as_str(), "Normal");

    assert_eq!(UserTokenTy::UserLimited.value(), 0);
    assert_eq!(UserTokenTy::TelegramAuthorization.value(), 1);
    assert_eq!(UserTokenTy::try_from_bits(1), Some(UserTokenTy::TelegramAuthorization));
    assert_eq!(UserTokenTy::try_from_bits(-1), None);
    assert_eq!(UserTokenTy::from_bits(0), UserTokenTy::UserLimited);

    assert_eq!(ProjectTy::Legacy.value(), 0);
    assert_eq!(ProjectTy::try_from_bits(0), Some(ProjectTy::Legacy));
    assert_eq!(ProjectTy::try_from_bits(1), None);
    assert_eq!(ProjectTy::Legacy.as_str(), "Legacy");
}

#[test]
fn scope_bits_round_trip() {
    let s = UserTokenScope::from_bits_retain(-1);
    assert_eq!(s.bits(), -1);
    assert_eq!(UserTokenScope::from_bits_retain(0).bits(), 0);
}
