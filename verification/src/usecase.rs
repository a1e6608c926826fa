use vstd::prelude::*;

use crate::credential::{hash_password, verify_password};
use crate::errors::CoreError;
use crate::principal::{id_present, taken, PrincipalKind};
use crate::quest::{
    opt_str_view, quest_id_present, transition_allowed, AddQuestModel, check_transition,
    EditQuestModel, QuestRecord, QuestStatus,
};
use crate::store::{next_of, other_kind, table_of, Store};
use crate::token::{
    issued, validate_spec, Claims, Token, TokenService, TokenUsage,
};
use crate::errors::TokenError;

verus! {

/// The use-case layer: it owns the store and the token service and is the
/// only path through which the surrounding program mutates them. Every
/// mutating operation takes the acting principal from a validated access
/// token, never from caller-supplied fields.
pub struct CoreService {
    /// Persistent state behind the repositories.
    pub store: Store,
    /// Issues and validates tokens; immutable after construction.
    pub tokens: TokenService,
}

/// Some row of `kind`'s table carries username `u` and a password hash
/// derived from plaintext `p`: the condition under which login succeeds.
pub open spec fn credentials_match(s: Store, kind: PrincipalKind, u: Seq<char>, p: Seq<char>) -> bool {
    exists|i: int|
        {
            &&& 0 <= i < table_of(s, kind).len()
            &&& #[trigger] table_of(s, kind)[i].username@ == u
            &&& table_of(s, kind)[i].password_hash.source() == p
        }
}

/// Outcome of `register`: on success the kind's table grew by exactly one
/// row carrying the new id, the username and a hash of the password, and
/// the result is `Conflict` precisely when the username was taken.
/// Everything outside the kind's table is untouched.
pub open spec fn register_post(
    pre: CoreService,
    post: CoreService,
    kind: PrincipalKind,
    u: Seq<char>,
    p: Seq<char>,
    salt: u64,
    now: u64,
    r: Result<i32, CoreError>,
) -> bool {
    &&& post.tokens == pre.tokens
    &&& post.store.quests@ == pre.store.quests@
    &&& post.store.next_quest_id == pre.store.next_quest_id
    &&& table_of(post.store, other_kind(kind)) == table_of(pre.store, other_kind(kind))
    &&& next_of(post.store, other_kind(kind)) == next_of(pre.store, other_kind(kind))
    &&& match r {
        Ok(id) => {
            &&& !taken(table_of(pre.store, kind), u)
            &&& next_of(pre.store, kind) < i32::MAX
            &&& id == next_of(pre.store, kind)
            &&& next_of(post.store, kind) == id + 1
            &&& table_of(post.store, kind) == table_of(pre.store, kind).push(
                table_of(post.store, kind).last(),
            )
            &&& {
                let rec = table_of(post.store, kind).last();
                &&& rec.id == id
                &&& rec.username@ == u
                &&& rec.password_hash.source() == p
                &&& rec.password_hash.salt_value() == salt
                &&& rec.created_at == now
                &&& rec.updated_at == now
            }
        },
        Err(CoreError::Conflict) => {
            &&& taken(table_of(pre.store, kind), u)
            &&& post == pre
        },
        Err(CoreError::StoreUnavailable) => {
            &&& !taken(table_of(pre.store, kind), u)
            &&& next_of(pre.store, kind) == i32::MAX
            &&& post == pre
        },
        Err(_) => false,
    }
}

/// Outcome of `login`: a token pair for the matched row's id on success,
/// and `Unauthorized` — the one indistinguishable error — precisely when
/// no row of the kind's table matches both username and password.
pub open spec fn login_post(
    s: CoreService,
    kind: PrincipalKind,
    u: Seq<char>,
    p: Seq<char>,
    now: u64,
    r: Result<(Token, Token), CoreError>,
) -> bool {
    match r {
        Ok(pair) => {
            &&& credentials_match(s.store, kind, u, p)
            &&& exists|i: int|
                {
                    &&& 0 <= i < table_of(s.store, kind).len()
                    &&& #[trigger] table_of(s.store, kind)[i].username@ == u
                    &&& table_of(s.store, kind)[i].password_hash.source() == p
                    &&& issued(
                        s.tokens,
                        pair.0,
                        table_of(s.store, kind)[i].id,
                        kind,
                        TokenUsage::Access,
                        now,
                    )
                    &&& issued(
                        s.tokens,
                        pair.1,
                        table_of(s.store, kind)[i].id,
                        kind,
                        TokenUsage::Refresh,
                        now,
                    )
                }
        },
        Err(e) => {
            &&& e == CoreError::Unauthorized
            &&& !credentials_match(s.store, kind, u, p)
        },
    }
}

/// Outcome of `refresh_session`: rotation on a refresh token that
/// validates for its own kind, `Unauthorized` on every token failure.
pub open spec fn refresh_post(
    svc: TokenService,
    t: Token,
    now: u64,
    r: Result<(Token, Token), CoreError>,
) -> bool {
    match r {
        Ok(pair) => {
            &&& validate_spec(svc, t, t.claims.kind, TokenUsage::Refresh, now) == Ok::<
                Claims,
                TokenError,
            >(t.claims)
            &&& issued(svc, pair.0, t.claims.principal_id, t.claims.kind, TokenUsage::Access, now)
            &&& issued(svc, pair.1, t.claims.principal_id, t.claims.kind, TokenUsage::Refresh, now)
        },
        Err(e) => {
            &&& e == CoreError::Unauthorized
            &&& validate_spec(svc, t, t.claims.kind, TokenUsage::Refresh, now) is Err
        },
    }
}

/// Outcome of `create_quest`: with a valid commander access token and an
/// existing owner row, exactly one quest row is appended, owned by the
/// token's principal and `Open` no matter what status the caller supplied.
pub open spec fn create_quest_post(
    pre: CoreService,
    post: CoreService,
    t: Token,
    model: AddQuestModel,
    now: u64,
    r: Result<i32, CoreError>,
) -> bool {
    &&& post.tokens == pre.tokens
    &&& post.store.commanders == pre.store.commanders
    &&& post.store.adventurers == pre.store.adventurers
    &&& post.store.next_commander_id == pre.store.next_commander_id
    &&& post.store.next_adventurer_id == pre.store.next_adventurer_id
    &&& match r {
        Ok(id) => {
            &&& validate_spec(pre.tokens, t, PrincipalKind::Commander, TokenUsage::Access, now)
                == Ok::<Claims, TokenError>(t.claims)
            &&& id_present(pre.store.commanders@, t.claims.principal_id)
            &&& pre.store.next_quest_id < i32::MAX
            &&& id == pre.store.next_quest_id
            &&& post.store.next_quest_id == id + 1
            &&& post.store.quests@ == pre.store.quests@.push(post.store.quests@.last())
            &&& {
                let q = post.store.quests@.last();
                &&& q.id == id
                &&& q.name@ == model.name@
                &&& opt_str_view(q.description) == opt_str_view(model.description)
                &&& q.status == QuestStatus::Open
                &&& q.guild_commander_id == t.claims.principal_id
                &&& q.created_at == now
                &&& q.updated_at == now
            }
        },
        Err(CoreError::Unauthorized) => {
            &&& post == pre
            &&& validate_spec(pre.tokens, t, PrincipalKind::Commander, TokenUsage::Access, now) is Err
        },
        Err(CoreError::ForeignKeyViolation) => {
            &&& post == pre
            &&& validate_spec(pre.tokens, t, PrincipalKind::Commander, TokenUsage::Access, now)
                == Ok::<Claims, TokenError>(t.claims)
            &&& !id_present(pre.store.commanders@, t.claims.principal_id)
        },
        Err(CoreError::StoreUnavailable) => {
            &&& post == pre
            &&& validate_spec(pre.tokens, t, PrincipalKind::Commander, TokenUsage::Access, now)
                == Ok::<Claims, TokenError>(t.claims)
            &&& id_present(pre.store.commanders@, t.claims.principal_id)
            &&& pre.store.next_quest_id == i32::MAX
        },
        Err(_) => false,
    }
}

/// Outcome of `edit_quest`, with the checks in order: token validity
/// (`Unauthorized`), row existence (`NotFound`), ownership (`Forbidden`),
/// status transition legality (`InvalidTransition`); then the patch is
/// applied, touching only the supplied fields and `updated_at`.
pub open spec fn edit_quest_post(
    pre: CoreService,
    post: CoreService,
    t: Token,
    quest_id: i32,
    patch: EditQuestModel,
    now: u64,
    r: Result<(), CoreError>,
) -> bool {
    &&& post.tokens == pre.tokens
    &&& post.store.commanders == pre.store.commanders
    &&& post.store.adventurers == pre.store.adventurers
    &&& post.store.next_commander_id == pre.store.next_commander_id
    &&& post.store.next_adventurer_id == pre.store.next_adventurer_id
    &&& post.store.next_quest_id == pre.store.next_quest_id
    &&& match r {
        Ok(()) => {
            &&& validate_spec(pre.tokens, t, PrincipalKind::Commander, TokenUsage::Access, now)
                == Ok::<Claims, TokenError>(t.claims)
            &&& post.store.quests@.len() == pre.store.quests@.len()
            &&& exists|i: int|
                {
                    &&& 0 <= i < pre.store.quests@.len()
                    &&& #[trigger] pre.store.quests@[i].id == quest_id
                    &&& pre.store.quests@[i].guild_commander_id == t.claims.principal_id
                    &&& (patch.status matches Some(st) ==> transition_allowed(
                        pre.store.quests@[i].status,
                        st,
                    ))
                    &&& crate::quest::patched(pre.store.quests@[i], post.store.quests@[i], patch, now)
                    &&& forall|j: int|
                        0 <= j < pre.store.quests@.len() && j != i
                            ==> post.store.quests@[j] == #[trigger] pre.store.quests@[j]
                }
        },
        Err(CoreError::Unauthorized) => {
            &&& post == pre
            &&& validate_spec(pre.tokens, t, PrincipalKind::Commander, TokenUsage::Access, now) is Err
        },
        Err(CoreError::NotFound) => {
            &&& post == pre
            &&& validate_spec(pre.tokens, t, PrincipalKind::Commander, TokenUsage::Access, now)
                == Ok::<Claims, TokenError>(t.claims)
            &&& !quest_id_present(pre.store.quests@, quest_id)
        },
        Err(CoreError::Forbidden) => {
            &&& post == pre
            &&& validate_spec(pre.tokens, t, PrincipalKind::Commander, TokenUsage::Access, now)
                == Ok::<Claims, TokenError>(t.claims)
            &&& exists|i: int|
                {
                    &&& 0 <= i < pre.store.quests@.len()
                    &&& #[trigger] pre.store.quests@[i].id == quest_id
                    &&& pre.store.quests@[i].guild_commander_id != t.claims.principal_id
                }
        },
        Err(CoreError::InvalidTransition) => {
            &&& post == pre
            &&& validate_spec(pre.tokens, t, PrincipalKind::Commander, TokenUsage::Access, now)
                == Ok::<Claims, TokenError>(t.claims)
            &&& exists|i: int|
                {
                    &&& 0 <= i < pre.store.quests@.len()
                    &&& #[trigger] pre.store.quests@[i].id == quest_id
                    &&& pre.store.quests@[i].guild_commander_id == t.claims.principal_id
                    &&& patch.status matches Some(st) && !transition_allowed(
                        pre.store.quests@[i].status,
                        st,
                    )
                }
        },
        Err(_) => false,
    }
}

impl CoreService {
    /// Both halves are well formed.
    pub open spec fn wf(self) -> bool {
        &&& self.store.wf()
        &&& self.tokens.wf()
    }

    /// A fresh, empty service around the given token configuration.
    pub fn new(tokens: TokenService) -> (s: CoreService)
        requires
            tokens.wf(),
        ensures
            s.wf(),
            s.tokens == tokens,
            s.store.commanders@.len() == 0,
            s.store.adventurers@.len() == 0,
            s.store.quests@.len() == 0,
            s.store.next_commander_id == 1,
            s.store.next_adventurer_id == 1,
            s.store.next_quest_id == 1,
    {
        CoreService { store: Store::new(), tokens }
    }

    /// Registers a new principal: hashes the password under the supplied
    /// salt and persists the row. Fails with `Conflict` exactly when the
    /// username is already registered for this kind; duplicate registration
    /// is never silently absorbed.
    pub fn register(
        &mut self,
        kind: PrincipalKind,
        username: &String,
        password: &String,
        salt: u64,
        now: u64,
    ) -> (r: Result<i32, CoreError>)
        requires
            old(self).wf(),
        ensures
            final(self).wf(),
            register_post(*old(self), *final(self), kind, username@, password@, salt, now, r),
    {
        let hash = hash_password(password, salt);
        self.store.register_principal(kind, username, hash, now)
    }

    /// Logs a principal in: looks the username up and verifies the
    /// password. Both a missing username and a wrong password yield the
    /// same `Unauthorized`, so the error reveals nothing about which
    /// usernames exist. On success a fresh access and refresh pair for the
    /// matched principal is issued at `now`.
    pub fn login(
        &self,
        kind: PrincipalKind,
        username: &String,
        password: &String,
        now: u64,
    ) -> (r: Result<(Token, Token), CoreError>)
        requires
            self.wf(),
        ensures
            login_post(*self, kind, username@, password@, now, r),
    {
        let rec = match self.store.find_by_username(kind, username) {
            Ok(rec) => rec,
            Err(_) => {
                proof {
                    assert(!credentials_match(self.store, kind, username@, password@));
                }
                return Err(CoreError::Unauthorized);
            },
        };
        if verify_password(password, &rec.password_hash) {
            let access = self.tokens.issue_access(rec.id, kind, now);
            let refresh = self.tokens.issue_refresh(rec.id, kind, now);
            Ok((access, refresh))
        } else {
            proof {
                let i = choose|i: int|
                    0 <= i < table_of(self.store, kind).len() && #[trigger] table_of(
                        self.store,
                        kind,
                    )[i] == *rec;
                assert forall|j: int|
                    0 <= j < table_of(self.store, kind).len() && #[trigger] table_of(
                        self.store,
                        kind,
                    )[j].username@ == username@ implies table_of(self.store, kind)[
                    j].password_hash.source() != password@ by {
                    if j != i {
                        assert(table_of(self.store, kind)[i].username@ == table_of(
                            self.store,
                            kind,
                        )[j].username@);
                    }
                }
            }
            Err(CoreError::Unauthorized)
        }
    }

    /// Exchanges a refresh token for a fresh access and refresh pair.
    /// Every token failure — bad seal, wrong usage, expired — surfaces as
    /// the same `Unauthorized`.
    pub fn refresh_session(&self, t: &Token, now: u64) -> (r: Result<(Token, Token), CoreError>)
        ensures
            refresh_post(self.tokens, *t, now, r),
    {
        match self.tokens.refresh(t, now) {
            Ok(pair) => Ok(pair),
            Err(_) => Err(CoreError::Unauthorized),
        }
    }

    /// Creates a quest on behalf of the commander named by a validated
    /// access token; the owner is taken from the token's claims, never from
    /// the model, and the new quest always starts `Open`, whatever status
    /// the model carries.
    pub fn create_quest(&mut self, token: &Token, model: AddQuestModel, now: u64) -> (r: Result<
        i32,
        CoreError,
    >)
        requires
            old(self).wf(),
        ensures
            final(self).wf(),
            create_quest_post(*old(self), *final(self), *token, model, now, r),
    {
        let claims = match self.tokens.validate(token, PrincipalKind::Commander, now) {
            Ok(c) => c,
            Err(_) => {
                return Err(CoreError::Unauthorized);
            },
        };
        self.store.create_quest(model, claims.principal_id, QuestStatus::Open, now)
    }

    /// Edits a quest on behalf of the commander named by a validated access
    /// token. Only the owner may edit (`Forbidden` otherwise), a terminal
    /// status admits no further status change (`InvalidTransition`), and
    /// only the supplied fields change, with `updated_at` refreshed.
    pub fn edit_quest(
        &mut self,
        token: &Token,
        quest_id: i32,
        patch: &EditQuestModel,
        now: u64,
    ) -> (r: Result<(), CoreError>)
        requires
            old(self).wf(),
        ensures
            final(self).wf(),
            edit_quest_post(*old(self), *final(self), *token, quest_id, *patch, now, r),
    {
        let claims = match self.tokens.validate(token, PrincipalKind::Commander, now) {
            Ok(c) => c,
            Err(_) => {
                return Err(CoreError::Unauthorized);
            },
        };
        let (owner, current_status) = match self.store.get_quest(quest_id) {
            Ok(q) => (q.guild_commander_id, q.status),
            Err(_) => {
                return Err(CoreError::NotFound);
            },
        };
        if owner != claims.principal_id {
            return Err(CoreError::Forbidden);
        }
        match patch.status {
            Some(st) => {
                if !check_transition(current_status, st) {
                    return Err(CoreError::InvalidTransition);
                }
            },
            None => {},
        }
        self.store.update_quest(quest_id, patch, now)
    }

    /// All quests owned by one commander, in stored order; read-only and
    /// open to any caller.
    pub fn list_quests(&self, commander_id: i32) -> (r: Vec<QuestRecord>)
        ensures
            r@ == crate::quest::owned_quests(self.store.quests@, commander_id),
    {
        self.store.list_quests_by_commander(commander_id)
    }

    /// One quest by identifier; read-only and open to any caller. Fails
    /// with `NotFound` exactly when the quest does not exist.
    pub fn view_quest(&self, quest_id: i32) -> (r: Result<&QuestRecord, CoreError>)
        ensures
            match r {
                Ok(q) => {
                    &&& exists|i: int|
                        0 <= i < self.store.quests@.len() && #[trigger] self.store.quests@[i] == *q
                    &&& q.id == quest_id
                },
                Err(e) => {
                    &&& e == CoreError::NotFound
                    &&& !quest_id_present(self.store.quests@, quest_id)
                },
            },
    {
        self.store.get_quest(quest_id)
    }
}

} // verus!
