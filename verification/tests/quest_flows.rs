use quests_tracker::errors::CoreError;
use quests_tracker::principal::PrincipalKind;
use quests_tracker::quest::{AddQuestModel, EditQuestModel, QuestStatus};
use quests_tracker::token::{Token, TokenService};
use quests_tracker::usecase::CoreService;

fn service() -> CoreService {
    CoreService::new(TokenService::new(
        "commander-access-secret".to_string(),
        "commander-refresh-secret".to_string(),
        "adventurer-access-secret".to_string(),
        "adventurer-refresh-secret".to_string(),
        900,
        604800,
    ))
}

fn commander(svc: &mut CoreService, name: &str, now: u64) -> (i32, Token) {
    let id = svc
        .register(PrincipalKind::Commander, &name.to_string(), &"pw".to_string(), 7, now)
        .unwrap();
    let (access, _refresh) = svc
        .login(PrincipalKind::Commander, &name.to_string(), &"pw".to_string(), now)
        .unwrap();
    (id, access)
}

fn no_change() -> EditQuestModel {
    EditQuestModel { name: None, description: None, status: None }
}

#[test]
fn create_quest_always_starts_open() {
    let mut svc = service();
    let (id, access) = commander(&mut svc, "alice", 100);
    let quest_id = svc
        .create_quest(
            &access,
            AddQuestModel {
                name: "Clear the mine".to_string(),
                description: None,
                status: QuestStatus::Completed,
            },
            101,
        )
        .unwrap();
    let quest = svc.view_quest(quest_id).unwrap();
    assert_eq!(quest.status, QuestStatus::Open);
    assert_eq!(quest.guild_commander_id, id);
    assert_eq!(quest.created_at, 101);
    assert_eq!(quest.updated_at, 101);
}

#[test]
fn create_quest_rejects_bad_token() {
    let mut svc = service();
    let (_id, access) = commander(&mut svc, "alice", 100);
    let mut forged = access;
    forged.claims.principal_id = 42;
    let r = svc.create_quest(
        &forged,
        AddQuestModel { name: "x".to_string(), description: None, status: QuestStatus::Open },
        101,
    );
    assert_eq!(r.unwrap_err(), CoreError::Unauthorized);
}

#[test]
fn create_quest_owner_must_exist() {
    let mut svc = service();
    // A token for a principal the store never saw: the reference check fails.
    let stray = svc.tokens.issue_access(99, PrincipalKind::Commander, 100);
    let r = svc.create_quest(
        &stray,
        AddQuestModel { name: "x".to_string(), description: None, status: QuestStatus::Open },
        101,
    );
    assert_eq!(r.unwrap_err(), CoreError::ForeignKeyViolation);
}

#[test]
fn edit_by_non_owner_forbidden() {
    let mut svc = service();
    let (_alice_id, alice) = commander(&mut svc, "alice", 100);
    let (_bob_id, bob) = commander(&mut svc, "bob", 100);
    let quest_id = svc
        .create_quest(
            &alice,
            AddQuestModel { name: "Slay dragon".to_string(), description: None, status: QuestStatus::Open },
            101,
        )
        .unwrap();
    let mut patch = no_change();
    patch.name = Some("Mine!".to_string());
    assert_eq!(svc.edit_quest(&bob, quest_id, &patch, 102).unwrap_err(), CoreError::Forbidden);

    let untouched = svc.view_quest(quest_id).unwrap();
    assert_eq!(untouched.name, "Slay dragon");
    assert_eq!(untouched.updated_at, 101);
}

#[test]
fn edit_by_owner_updates_only_supplied_fields() {
    let mut svc = service();
    let (_id, alice) = commander(&mut svc, "alice", 100);
    let quest_id = svc
        .create_quest(
            &alice,
            AddQuestModel {
                name: "Slay dragon".to_string(),
                description: Some("the red one".to_string()),
                status: QuestStatus::Open,
            },
            101,
        )
        .unwrap();
    let mut patch = no_change();
    patch.name = Some("Slay the elder dragon".to_string());
    svc.edit_quest(&alice, quest_id, &patch, 150).unwrap();

    let quest = svc.view_quest(quest_id).unwrap();
    assert_eq!(quest.name, "Slay the elder dragon");
    assert_eq!(quest.description, Some("the red one".to_string()));
    assert_eq!(quest.status, QuestStatus::Open);
    assert_eq!(quest.created_at, 101);
    assert_eq!(quest.updated_at, 150);
}

#[test]
fn edit_nonexistent_quest_not_found() {
    let mut svc = service();
    let (_id, alice) = commander(&mut svc, "alice", 100);
    assert_eq!(
        svc.edit_quest(&alice, 5, &no_change(), 102).unwrap_err(),
        CoreError::NotFound
    );
}

#[test]
fn forward_transitions_allowed() {
    let mut svc = service();
    let (_id, alice) = commander(&mut svc, "alice", 100);
    let quest_id = svc
        .create_quest(
            &alice,
            AddQuestModel { name: "q".to_string(), description: None, status: QuestStatus::Open },
            101,
        )
        .unwrap();
    let mut to_in_progress = no_change();
    to_in_progress.status = Some(QuestStatus::InProgress);
    svc.edit_quest(&alice, quest_id, &to_in_progress, 102).unwrap();
    let mut to_completed = no_change();
    to_completed.status = Some(QuestStatus::Completed);
    svc.edit_quest(&alice, quest_id, &to_completed, 103).unwrap();
    assert_eq!(svc.view_quest(quest_id).unwrap().status, QuestStatus::Completed);
}

#[test]
fn backward_transition_rejected() {
    let mut svc = service();
    let (_id, alice) = commander(&mut svc, "alice", 100);
    let quest_id = svc
        .create_quest(
            &alice,
            AddQuestModel { name: "q".to_string(), description: None, status: QuestStatus::Open },
            101,
        )
        .unwrap();
    let mut to_in_progress = no_change();
    to_in_progress.status = Some(QuestStatus::InProgress);
    svc.edit_quest(&alice, quest_id, &to_in_progress, 102).unwrap();
    let mut back_to_open = no_change();
    back_to_open.status = Some(QuestStatus::Open);
    assert_eq!(
        svc.edit_quest(&alice, quest_id, &back_to_open, 103).unwrap_err(),
        CoreError::InvalidTransition
    );
}

#[test]
fn terminal_statuses_reject_status_edits() {
    let mut svc = service();
    let (_id, alice) = commander(&mut svc, "alice", 100);
    for terminal in [QuestStatus::Completed, QuestStatus::Cancelled] {
        let quest_id = svc
            .create_quest(
                &alice,
                AddQuestModel { name: "q".to_string(), description: None, status: QuestStatus::Open },
                101,
            )
            .unwrap();
        let mut seal_it = no_change();
        seal_it.status = Some(terminal);
        svc.edit_quest(&alice, quest_id, &seal_it, 102).unwrap();
        for target in
            [QuestStatus::Open, QuestStatus::InProgress, QuestStatus::Completed, QuestStatus::Cancelled]
        {
            let mut attempt = no_change();
            attempt.status = Some(target);
            assert_eq!(
                svc.edit_quest(&alice, quest_id, &attempt, 103).unwrap_err(),
                CoreError::InvalidTransition
            );
        }
    }
}

#[test]
fn cancel_reachable_from_any_non_terminal_state() {
    let mut svc = service();
    let (_id, alice) = commander(&mut svc, "alice", 100);
    for earlier in [QuestStatus::Open, QuestStatus::InProgress] {
        let quest_id = svc
            .create_quest(
                &alice,
                AddQuestModel { name: "q".to_string(), description: None, status: QuestStatus::Open },
                101,
            )
            .unwrap();
        if earlier != QuestStatus::Open {
            let mut advance = no_change();
            advance.status = Some(earlier);
            svc.edit_quest(&alice, quest_id, &advance, 102).unwrap();
        }
        let mut cancel = no_change();
        cancel.status = Some(QuestStatus::Cancelled);
        svc.edit_quest(&alice, quest_id, &cancel, 103).unwrap();
        assert_eq!(svc.view_quest(quest_id).unwrap().status, QuestStatus::Cancelled);
    }
}

#[test]
fn list_quests_returns_only_own_quests_in_order() {
    let mut svc = service();
    let (alice_id, alice) = commander(&mut svc, "alice", 100);
    let (bob_id, bob) = commander(&mut svc, "bob", 100);
    let q1 = svc
        .create_quest(
            &alice,
            AddQuestModel { name: "first".to_string(), description: None, status: QuestStatus::Open },
            101,
        )
        .unwrap();
    let _q2 = svc
        .create_quest(
            &bob,
            AddQuestModel { name: "other".to_string(), description: None, status: QuestStatus::Open },
            102,
        )
        .unwrap();
    let q3 = svc
        .create_quest(
            &alice,
            AddQuestModel { name: "second".to_string(), description: None, status: QuestStatus::Open },
            103,
        )
        .unwrap();

    let mine = svc.list_quests(alice_id);
    assert_eq!(mine.len(), 2);
    assert_eq!(mine[0].id, q1);
    assert_eq!(mine[0].name, "first");
    assert_eq!(mine[1].id, q3);
    assert_eq!(mine[1].name, "second");

    let his = svc.list_quests(bob_id);
    assert_eq!(his.len(), 1);
    assert_eq!(his[0].name, "other");

    assert_eq!(svc.view_quest(99).unwrap_err(), CoreError::NotFound);
}

#[test]
fn scenario_register_create_complete_then_reopen_fails() {
    let mut svc = service();
    let id = svc
        .register(PrincipalKind::Commander, &"alice".to_string(), &"pw1".to_string(), 7, 100)
        .unwrap();
    assert_eq!(id, 1);
    let (token, _refresh) = svc
        .login(PrincipalKind::Commander, &"alice".to_string(), &"pw1".to_string(), 110)
        .unwrap();
    let quest_id = svc
        .create_quest(
            &token,
            AddQuestModel { name: "Slay dragon".to_string(), description: None, status: QuestStatus::Open },
            111,
        )
        .unwrap();
    assert_eq!(quest_id, 1);
    assert_eq!(svc.view_quest(1).unwrap().status, QuestStatus::Open);

    let mut complete = no_change();
    complete.status = Some(QuestStatus::Completed);
    svc.edit_quest(&token, 1, &complete, 112).unwrap();

    let mut reopen = no_change();
    reopen.status = Some(QuestStatus::Open);
    assert_eq!(
        svc.edit_quest(&token, 1, &reopen, 113).unwrap_err(),
        CoreError::InvalidTransition
    );
}
