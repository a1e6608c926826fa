use quests_tracker::errors::CoreError;
use quests_tracker::principal::PrincipalKind;
use quests_tracker::token::{TokenService, TokenUsage};
use quests_tracker::usecase::CoreService;

fn service() -> CoreService {
    CoreService::new(TokenService::new(
        "commander-access-secret".to_string(),
        "commander-refresh-secret".to_string(),
        "adventurer-access-secret".to_string(),
        "adventurer-refresh-secret".to_string(),
        900,
        604800,
    ))
}

#[test]
fn register_then_login_round_trip() {
    let mut svc = service();
    let id = svc
        .register(
            PrincipalKind::Commander,
            &"alice".to_string(),
            &"pw1".to_string(),
            7,
            100,
        )
        .unwrap();
    assert_eq!(id, 1);

    let (access, refresh) = svc
        .login(PrincipalKind::Commander, &"alice".to_string(), &"pw1".to_string(), 110)
        .unwrap();
    let claims = svc.tokens.validate(&access, PrincipalKind::Commander, 120).unwrap();
    assert_eq!(claims.principal_id, 1);
    assert_eq!(claims.kind, PrincipalKind::Commander);
    assert_eq!(claims.issued_at, 110);
    assert_eq!(claims.expires_at, 110 + 900);
    assert_eq!(refresh.usage, TokenUsage::Refresh);
    assert_eq!(refresh.claims.expires_at, 110 + 604800);
}

#[test]
fn duplicate_username_conflicts() {
    let mut svc = service();
    svc.register(
        PrincipalKind::Commander,
        &"alice".to_string(),
        &"pw1".to_string(),
        7,
        100,
    )
    .unwrap();
    let second = svc.register(
        PrincipalKind::Commander,
        &"alice".to_string(),
        &"completely-different".to_string(),
        8,
        101,
    );
    assert_eq!(second, Err(CoreError::Conflict));
}

#[test]
fn login_unknown_username_unauthorized() {
    let svc = service();
    let r = svc.login(PrincipalKind::Commander, &"nobody".to_string(), &"pw".to_string(), 100);
    assert_eq!(r.unwrap_err(), CoreError::Unauthorized);
}

#[test]
fn login_wrong_password_same_error_as_unknown() {
    let mut svc = service();
    svc.register(
        PrincipalKind::Commander,
        &"alice".to_string(),
        &"pw1".to_string(),
        7,
        100,
    )
    .unwrap();
    let wrong_password = svc
        .login(PrincipalKind::Commander, &"alice".to_string(), &"pw2".to_string(), 110)
        .unwrap_err();
    let unknown_user = svc
        .login(PrincipalKind::Commander, &"bob".to_string(), &"pw1".to_string(), 110)
        .unwrap_err();
    assert_eq!(wrong_password, CoreError::Unauthorized);
    assert_eq!(unknown_user, CoreError::Unauthorized);
    assert_eq!(wrong_password, unknown_user);
}

#[test]
fn username_domains_are_separate_per_kind() {
    let mut svc = service();
    let commander = svc
        .register(
            PrincipalKind::Commander,
            &"alice".to_string(),
            &"pw1".to_string(),
            7,
            100,
        )
        .unwrap();
    let adventurer = svc
        .register(
            PrincipalKind::Adventurer,
            &"alice".to_string(),
            &"pw2".to_string(),
            9,
            101,
        )
        .unwrap();
    assert_eq!(commander, 1);
    assert_eq!(adventurer, 1);
}

#[test]
fn exhausted_id_space_is_store_unavailable() {
    let mut svc = service();
    svc.store.next_commander_id = i32::MAX;
    let r = svc.register(
        PrincipalKind::Commander,
        &"alice".to_string(),
        &"pw1".to_string(),
        7,
        100,
    );
    assert_eq!(r, Err(CoreError::StoreUnavailable));
}

#[test]
fn adventurer_login_uses_adventurer_table() {
    let mut svc = service();
    svc.register(
        PrincipalKind::Adventurer,
        &"lara".to_string(),
        &"pw".to_string(),
        3,
        50,
    )
    .unwrap();
    let r = svc.login(PrincipalKind::Commander, &"lara".to_string(), &"pw".to_string(), 60);
    assert_eq!(r.unwrap_err(), CoreError::Unauthorized);
    let (access, _refresh) = svc
        .login(PrincipalKind::Adventurer, &"lara".to_string(), &"pw".to_string(), 60)
        .unwrap();
    let claims = svc.tokens.validate(&access, PrincipalKind::Adventurer, 61).unwrap();
    assert_eq!(claims.kind, PrincipalKind::Adventurer);
}
