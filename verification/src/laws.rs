use vstd::prelude::*;

use crate::errors::{CoreError, TokenError};
use crate::principal::{taken, PrincipalKind};
use crate::quest::{is_terminal, patched, transition_allowed, EditQuestModel, QuestStatus};
use crate::store::table_of;
use crate::token::{
    issued, sat_add_spec, sealed, validate_spec, Claims, Token, TokenService, TokenUsage,
};
use crate::usecase::{
    credentials_match, edit_quest_post, login_post, refresh_post, register_post, CoreService,
};

verus! {

/// A quest whose status is terminal (`Completed` or `Cancelled`) admits no
/// status change at all: every requested target status is refused.
pub proof fn lemma_terminal_status_is_final(from: QuestStatus, to: QuestStatus)
    requires
        is_terminal(from),
    ensures
        !transition_allowed(from, to),
{
}

/// A well-formed service grants every fresh token a strictly positive
/// lifetime: a token issued before the last representable instant is not
/// yet expired at its own issuance time.
pub proof fn lemma_issue_lifetime(svc: TokenService, usage: TokenUsage, now: u64)
    requires
        svc.wf(),
        now < u64::MAX,
    ensures
        now < sat_add_spec(now, svc.ttl_for(usage)),
{
}

/// A token issued for a principal validates, for the kind and usage it was
/// issued with, at any instant before its expiry — and the claims handed
/// back name exactly that principal and kind.
pub proof fn lemma_issued_token_validates(
    svc: TokenService,
    t: Token,
    id: i32,
    kind: PrincipalKind,
    usage: TokenUsage,
    now: u64,
    later: u64,
)
    requires
        issued(svc, t, id, kind, usage, now),
        later < sat_add_spec(now, svc.ttl_for(usage)),
    ensures
        validate_spec(svc, t, kind, usage, later) == Ok::<Claims, TokenError>(
            Claims {
                principal_id: id,
                kind,
                issued_at: now,
                expires_at: sat_add_spec(now, svc.ttl_for(usage)),
            },
        ),
{
}

/// A sealed access token of one kind is refused by validation for any
/// other kind with `WrongAudience` — an adventurer token never passes
/// commander validation, nor the other way around — regardless of expiry.
pub proof fn lemma_cross_kind_token_rejected(
    svc: TokenService,
    t: Token,
    expected: PrincipalKind,
    now: u64,
)
    requires
        sealed(svc, t),
        t.usage == TokenUsage::Access,
        t.claims.kind != expected,
    ensures
        validate_spec(svc, t, expected, TokenUsage::Access, now) == Err::<Claims, TokenError>(
            TokenError::WrongAudience,
        ),
{
}

/// After a successful registration, the very credentials that were
/// registered match — and any row carrying that username carries the new
/// principal's identifier, so a following login speaks for the registered
/// principal.
pub proof fn lemma_register_then_login(
    pre: CoreService,
    mid: CoreService,
    kind: PrincipalKind,
    u: Seq<char>,
    p: Seq<char>,
    salt: u64,
    now: u64,
    id: i32,
)
    requires
        pre.wf(),
        mid.wf(),
        register_post(pre, mid, kind, u, p, salt, now, Ok(id)),
    ensures
        credentials_match(mid.store, kind, u, p),
        forall|i: int|
            0 <= i < table_of(mid.store, kind).len() && #[trigger] table_of(mid.store, kind)[
            i].username@ == u ==> table_of(mid.store, kind)[i].id == id,
{
    let t = table_of(mid.store, kind);
    let w = t.len() - 1;
    assert(t[w].username@ == u && t[w].password_hash.source() == p);
    assert forall|i: int|
        0 <= i < t.len() && #[trigger] t[i].username@ == u implies t[i].id == id by {
        if i != w {
            assert(t[i].username@ != t[w].username@);
        }
    }
}

/// Registering the same username twice fails: whatever the passwords, the
/// second call returns `Conflict` and leaves the state untouched.
pub proof fn lemma_duplicate_register_conflicts(
    pre: CoreService,
    mid: CoreService,
    post: CoreService,
    kind: PrincipalKind,
    u: Seq<char>,
    p1: Seq<char>,
    p2: Seq<char>,
    salt1: u64,
    salt2: u64,
    now1: u64,
    now2: u64,
    id: i32,
    r2: Result<i32, CoreError>,
)
    requires
        register_post(pre, mid, kind, u, p1, salt1, now1, Ok(id)),
        register_post(mid, post, kind, u, p2, salt2, now2, r2),
    ensures
        r2 == Err::<i32, CoreError>(CoreError::Conflict),
        post == mid,
{
    let t = table_of(mid.store, kind);
    assert(t[t.len() - 1].username@ == u);
    assert(taken(t, u));
}

/// Login is enumeration-resistant: an unknown username and a wrong
/// password for a known username produce the very same result,
/// `Unauthorized`, distinguishable neither by kind nor by content.
pub proof fn lemma_login_rejects_unknown_and_wrong_alike(
    s: CoreService,
    kind: PrincipalKind,
    u_missing: Seq<char>,
    p_missing: Seq<char>,
    u_known: Seq<char>,
    p_wrong: Seq<char>,
    now: u64,
    r_missing: Result<(Token, Token), CoreError>,
    r_wrong: Result<(Token, Token), CoreError>,
)
    requires
        !taken(table_of(s.store, kind), u_missing),
        forall|i: int|
            0 <= i < table_of(s.store, kind).len() && #[trigger] table_of(s.store, kind)[
            i].username@ == u_known ==> table_of(s.store, kind)[i].password_hash.source()
                != p_wrong,
        login_post(s, kind, u_missing, p_missing, now, r_missing),
        login_post(s, kind, u_known, p_wrong, now, r_wrong),
    ensures
        r_missing == Err::<(Token, Token), CoreError>(CoreError::Unauthorized),
        r_wrong == Err::<(Token, Token), CoreError>(CoreError::Unauthorized),
        r_missing == r_wrong,
{
    assert(!credentials_match(s.store, kind, u_missing, p_missing));
    assert(!credentials_match(s.store, kind, u_known, p_wrong));
}

/// Only the owner may edit: if the quest exists but belongs to another
/// commander, the edit fails with `Forbidden` and changes nothing,
/// whatever the patch.
pub proof fn lemma_edit_requires_ownership(
    pre: CoreService,
    post: CoreService,
    t: Token,
    quest_id: i32,
    patch: EditQuestModel,
    now: u64,
    r: Result<(), CoreError>,
    i: int,
)
    requires
        pre.wf(),
        edit_quest_post(pre, post, t, quest_id, patch, now, r),
        validate_spec(pre.tokens, t, PrincipalKind::Commander, TokenUsage::Access, now) == Ok::<
            Claims,
            TokenError,
        >(t.claims),
        0 <= i < pre.store.quests@.len(),
        pre.store.quests@[i].id == quest_id,
        pre.store.quests@[i].guild_commander_id != t.claims.principal_id,
    ensures
        r == Err::<(), CoreError>(CoreError::Forbidden),
        post == pre,
{
    lemma_quest_id_determines_index(pre, quest_id, i);
}

/// An edit by the owner with a legal (or absent) status change succeeds,
/// and the change is exactly the patch: supplied fields replaced,
/// identifier, owner and `created_at` kept, `updated_at` refreshed, and
/// every other quest row untouched.
pub proof fn lemma_edit_by_owner_succeeds(
    pre: CoreService,
    post: CoreService,
    t: Token,
    quest_id: i32,
    patch: EditQuestModel,
    now: u64,
    r: Result<(), CoreError>,
    i: int,
)
    requires
        pre.wf(),
        edit_quest_post(pre, post, t, quest_id, patch, now, r),
        validate_spec(pre.tokens, t, PrincipalKind::Commander, TokenUsage::Access, now) == Ok::<
            Claims,
            TokenError,
        >(t.claims),
        0 <= i < pre.store.quests@.len(),
        pre.store.quests@[i].id == quest_id,
        pre.store.quests@[i].guild_commander_id == t.claims.principal_id,
        patch.status matches Some(st) ==> transition_allowed(pre.store.quests@[i].status, st),
    ensures
        r is Ok,
        patched(pre.store.quests@[i], post.store.quests@[i], patch, now),
        now > pre.store.quests@[i].updated_at ==> post.store.quests@[i].updated_at > pre.store.quests@[i].updated_at,
        post.store.quests@[i].created_at == pre.store.quests@[i].created_at,
        forall|j: int|
            0 <= j < pre.store.quests@.len() && j != i ==> post.store.quests@[j]
                == #[trigger] pre.store.quests@[j],
{
    lemma_quest_id_determines_index(pre, quest_id, i);
}

/// A status edit on a quest already `Completed` or `Cancelled` fails with
/// `InvalidTransition` and changes nothing.
pub proof fn lemma_edit_terminal_quest_rejected(
    pre: CoreService,
    post: CoreService,
    t: Token,
    quest_id: i32,
    patch: EditQuestModel,
    now: u64,
    r: Result<(), CoreError>,
    i: int,
)
    requires
        pre.wf(),
        edit_quest_post(pre, post, t, quest_id, patch, now, r),
        validate_spec(pre.tokens, t, PrincipalKind::Commander, TokenUsage::Access, now) == Ok::<
            Claims,
            TokenError,
        >(t.claims),
        0 <= i < pre.store.quests@.len(),
        pre.store.quests@[i].id == quest_id,
        pre.store.quests@[i].guild_commander_id == t.claims.principal_id,
        is_terminal(pre.store.quests@[i].status),
        patch.status is Some,
    ensures
        r == Err::<(), CoreError>(CoreError::InvalidTransition),
        post == pre,
{
    lemma_quest_id_determines_index(pre, quest_id, i);
    lemma_terminal_status_is_final(pre.store.quests@[i].status, patch.status->Some_0);
}

/// In a well-formed store a quest identifier names at most one row.
proof fn lemma_quest_id_determines_index(s: CoreService, quest_id: i32, i: int)
    requires
        s.wf(),
        0 <= i < s.store.quests@.len(),
        s.store.quests@[i].id == quest_id,
    ensures
        forall|j: int|
            0 <= j < s.store.quests@.len() && #[trigger] s.store.quests@[j].id == quest_id ==> j
                == i,
{
    assert forall|j: int|
        0 <= j < s.store.quests@.len() && #[trigger] s.store.quests@[j].id == quest_id implies j
        == i by {
        if j < i {
            assert(s.store.quests@[j].id < s.store.quests@[i].id);
        } else if i < j {
            assert(s.store.quests@[i].id < s.store.quests@[j].id);
        }
    }
}

/// A refresh attempt with an expired refresh token fails with
/// `Unauthorized`.
pub proof fn lemma_expired_refresh_rejected(
    svc: TokenService,
    t: Token,
    now: u64,
    r: Result<(Token, Token), CoreError>,
)
    requires
        refresh_post(svc, t, now, r),
        sealed(svc, t),
        t.usage == TokenUsage::Refresh,
        now >= t.claims.expires_at,
    ensures
        r == Err::<(Token, Token), CoreError>(CoreError::Unauthorized),
{
    assert(validate_spec(svc, t, t.claims.kind, TokenUsage::Refresh, now) == Err::<
        Claims,
        TokenError,
    >(TokenError::Expired));
}

/// A successful refresh hands back a pair that is independently valid at
/// the rotation instant: the access token passes access validation and the
/// new refresh token passes refresh validation, both for the original
/// principal and kind.
pub proof fn lemma_refresh_rotation_valid(
    svc: TokenService,
    t: Token,
    now: u64,
    pair: (Token, Token),
)
    requires
        svc.wf(),
        now < u64::MAX,
        refresh_post(svc, t, now, Ok(pair)),
    ensures
        validate_spec(svc, pair.0, t.claims.kind, TokenUsage::Access, now) matches Ok(c)
            && c.principal_id == t.claims.principal_id && c.kind == t.claims.kind,
        validate_spec(svc, pair.1, t.claims.kind, TokenUsage::Refresh, now) matches Ok(c)
            && c.principal_id == t.claims.principal_id && c.kind == t.claims.kind,
{
    lemma_issue_lifetime(svc, TokenUsage::Access, now);
    lemma_issue_lifetime(svc, TokenUsage::Refresh, now);
    lemma_issued_token_validates(
        svc,
        pair.0,
        t.claims.principal_id,
        t.claims.kind,
        TokenUsage::Access,
        now,
        now,
    );
    lemma_issued_token_validates(
        svc,
        pair.1,
        t.claims.principal_id,
        t.claims.kind,
        TokenUsage::Refresh,
        now,
        now,
    );
}

/// The full round trip: registering fresh credentials and then logging in
/// with the same ones yields an access token whose validation returns the
/// registered principal's identifier and kind.
pub proof fn lemma_register_login_validate(
    pre: CoreService,
    mid: CoreService,
    kind: PrincipalKind,
    u: Seq<char>,
    p: Seq<char>,
    salt: u64,
    now1: u64,
    id: i32,
    now2: u64,
    pair: (Token, Token),
)
    requires
        pre.wf(),
        mid.wf(),
        now2 < u64::MAX,
        register_post(pre, mid, kind, u, p, salt, now1, Ok(id)),
        login_post(mid, kind, u, p, now2, Ok(pair)),
    ensures
        validate_spec(mid.tokens, pair.0, kind, TokenUsage::Access, now2) matches Ok(c)
            && c.principal_id == id && c.kind == kind,
{
    lemma_register_then_login(pre, mid, kind, u, p, salt, now1, id);
    let i = choose|i: int|
        {
            &&& 0 <= i < table_of(mid.store, kind).len()
            &&& #[trigger] table_of(mid.store, kind)[i].username@ == u
            &&& table_of(mid.store, kind)[i].password_hash.source() == p
            &&& issued(
                mid.tokens,
                pair.0,
                table_of(mid.store, kind)[i].id,
                kind,
                TokenUsage::Access,
                now2,
            )
            &&& issued(
                mid.tokens,
                pair.1,
                table_of(mid.store, kind)[i].id,
                kind,
                TokenUsage::Refresh,
                now2,
            )
        };
    assert(table_of(mid.store, kind)[i].id == id);
    lemma_issue_lifetime(mid.tokens, TokenUsage::Access, now2);
    lemma_issued_token_validates(
        mid.tokens,
        pair.0,
        id,
        kind,
        TokenUsage::Access,
        now2,
        now2,
    );
}

} // verus!
