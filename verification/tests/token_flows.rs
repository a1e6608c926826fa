use quests_tracker::errors::{CoreError, TokenError};
use quests_tracker::principal::PrincipalKind;
use quests_tracker::token::{TokenService, TokenUsage};
use quests_tracker::usecase::CoreService;

fn tokens() -> TokenService {
    TokenService::new(
        "ca-secret".to_string(),
        "cr-secret".to_string(),
        "aa-secret".to_string(),
        "ar-secret".to_string(),
        900,
        604800,
    )
}

#[test]
fn cross_kind_access_token_wrong_audience() {
    let svc = tokens();
    let adventurer_token = svc.issue_access(5, PrincipalKind::Adventurer, 1000);
    let commander_token = svc.issue_access(5, PrincipalKind::Commander, 1000);
    assert_eq!(
        svc.validate(&adventurer_token, PrincipalKind::Commander, 1001),
        Err(TokenError::WrongAudience)
    );
    assert_eq!(
        svc.validate(&commander_token, PrincipalKind::Adventurer, 1001),
        Err(TokenError::WrongAudience)
    );
    assert!(svc.validate(&adventurer_token, PrincipalKind::Adventurer, 1001).is_ok());
}

#[test]
fn access_token_expires_at_ttl() {
    let svc = tokens();
    let t = svc.issue_access(1, PrincipalKind::Commander, 1000);
    assert!(svc.validate(&t, PrincipalKind::Commander, 1899).is_ok());
    assert_eq!(
        svc.validate(&t, PrincipalKind::Commander, 1900),
        Err(TokenError::Expired)
    );
}

#[test]
fn tampered_claims_are_malformed() {
    let svc = tokens();
    let mut t = svc.issue_access(1, PrincipalKind::Commander, 1000);
    t.claims.principal_id = 2;
    assert_eq!(
        svc.validate(&t, PrincipalKind::Commander, 1001),
        Err(TokenError::Malformed)
    );
}

#[test]
fn refresh_token_rejected_as_access_token() {
    let svc = tokens();
    let t = svc.issue_refresh(1, PrincipalKind::Commander, 1000);
    assert_eq!(
        svc.validate(&t, PrincipalKind::Commander, 1001),
        Err(TokenError::WrongAudience)
    );
}

#[test]
fn access_token_rejected_by_refresh() {
    let svc = tokens();
    let t = svc.issue_access(1, PrincipalKind::Commander, 1000);
    assert!(svc.refresh(&t, 1001).is_err());
}

#[test]
fn expired_refresh_session_unauthorized() {
    let svc = CoreService::new(tokens());
    let refresh = svc.tokens.issue_refresh(1, PrincipalKind::Commander, 1000);
    let expiry = refresh.claims.expires_at;
    assert_eq!(
        svc.refresh_session(&refresh, expiry).unwrap_err(),
        CoreError::Unauthorized
    );
}

#[test]
fn refresh_session_rotates_valid_pair() {
    let svc = CoreService::new(tokens());
    let refresh = svc.tokens.issue_refresh(9, PrincipalKind::Adventurer, 1000);
    let (new_access, new_refresh) = svc.refresh_session(&refresh, 2000).unwrap();

    let claims = svc.tokens.validate(&new_access, PrincipalKind::Adventurer, 2001).unwrap();
    assert_eq!(claims.principal_id, 9);
    assert_eq!(claims.kind, PrincipalKind::Adventurer);
    assert_eq!(claims.issued_at, 2000);

    assert_eq!(new_refresh.usage, TokenUsage::Refresh);
    let (_again_access, _again_refresh) = svc.refresh_session(&new_refresh, 3000).unwrap();
}
