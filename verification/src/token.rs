use vstd::prelude::*;

use crate::errors::TokenError;
use crate::principal::PrincipalKind;

verus! {

/// What a token is for. Access tokens authorize requests for a short while;
/// refresh tokens, sealed with a different secret, only mint new pairs.
#[derive(Clone, Copy, Debug, PartialEq, Eq, Structural)]
pub enum TokenUsage {
    /// Authorizes requests; short lifetime.
    Access,
    /// Mints fresh token pairs; longer lifetime.
    Refresh,
}

/// The verified payload of a token: who it speaks for and when it lives.
#[derive(Clone, Copy, Debug, PartialEq, Eq, Structural)]
pub struct Claims {
    /// Identifier of the principal the token speaks for.
    pub principal_id: i32,
    /// Kind of that principal; a token never crosses kinds.
    pub kind: PrincipalKind,
    /// Seconds-since-epoch time of issuance.
    pub issued_at: u64,
    /// Seconds-since-epoch time past which the token is dead.
    pub expires_at: u64,
}

/// The integrity mark on a token, standing in for a signature: it records
/// the secret it was made with and the exact payload it covers. Validation
/// recomputes the expected mark and compares; a token whose claims were
/// altered after issuance no longer matches its seal. A deployment would
/// replace this with a keyed MAC over an encoding of the same fields.
#[derive(Debug)]
pub struct Seal {
    /// The signing secret the seal was made with.
    pub key: String,
    /// The claims the seal covers.
    pub bound: Claims,
    /// The usage the seal covers.
    pub bound_usage: TokenUsage,
}

/// A signed token: claims, usage, and the seal covering both.
#[derive(Debug)]
pub struct Token {
    /// The payload the token asserts.
    pub claims: Claims,
    /// What the token is for.
    pub usage: TokenUsage,
    /// Integrity mark over `claims` and `usage`.
    pub seal: Seal,
}

/// Issues and validates tokens. Holds the four process-wide signing secrets
/// (one per kind and usage, pairwise distinct) and the two lifetimes, all
/// fixed at construction.
pub struct TokenService {
    commander_access_secret: String,
    commander_refresh_secret: String,
    adventurer_access_secret: String,
    adventurer_refresh_secret: String,
    access_ttl: u64,
    refresh_ttl: u64,
}

/// `a + b` clamped to the largest representable instant.
pub open spec fn sat_add_spec(a: u64, b: u64) -> u64 {
    if a + b > u64::MAX {
        u64::MAX
    } else {
        (a + b) as u64
    }
}

/// Executable form of [`sat_add_spec`].
fn sat_add(a: u64, b: u64) -> (r: u64)
    ensures
        r == sat_add_spec(a, b),
{
    if a > u64::MAX - b {
        u64::MAX
    } else {
        a + b
    }
}

impl TokenService {
    /// The signing secret for one kind and usage.
    pub closed spec fn secret_for(self, kind: PrincipalKind, usage: TokenUsage) -> Seq<char> {
        match (kind, usage) {
            (PrincipalKind::Commander, TokenUsage::Access) => self.commander_access_secret@,
            (PrincipalKind::Commander, TokenUsage::Refresh) => self.commander_refresh_secret@,
            (PrincipalKind::Adventurer, TokenUsage::Access) => self.adventurer_access_secret@,
            (PrincipalKind::Adventurer, TokenUsage::Refresh) => self.adventurer_refresh_secret@,
        }
    }

    /// The lifetime granted to tokens of one usage.
    pub closed spec fn ttl_for(self, usage: TokenUsage) -> u64 {
        match usage {
            TokenUsage::Access => self.access_ttl,
            TokenUsage::Refresh => self.refresh_ttl,
        }
    }

    /// The four signing secrets are pairwise distinct, so no token sealed
    /// for one kind or usage can pass for another.
    pub open spec fn secrets_distinct(self) -> bool {
        forall|k1: PrincipalKind, u1: TokenUsage, k2: PrincipalKind, u2: TokenUsage|
            (k1, u1) != (k2, u2) ==> #[trigger] self.secret_for(k1, u1) != #[trigger] self.secret_for(
                k2,
                u2,
            )
    }

    /// Well-formed service: distinct secrets and positive lifetimes.
    pub open spec fn wf(self) -> bool {
        &&& self.secrets_distinct()
        &&& self.ttl_for(TokenUsage::Access) >= 1
        &&& self.ttl_for(TokenUsage::Refresh) >= 1
    }

    /// Builds a service from the four signing secrets and the two lifetimes
    /// (in seconds). The secrets come from configuration; they must be
    /// pairwise distinct, and the lifetimes positive.
    pub fn new(
        commander_access_secret: String,
        commander_refresh_secret: String,
        adventurer_access_secret: String,
        adventurer_refresh_secret: String,
        access_ttl: u64,
        refresh_ttl: u64,
    ) -> (svc: TokenService)
        requires
            commander_access_secret@ != commander_refresh_secret@,
            commander_access_secret@ != adventurer_access_secret@,
            commander_access_secret@ != adventurer_refresh_secret@,
            commander_refresh_secret@ != adventurer_access_secret@,
            commander_refresh_secret@ != adventurer_refresh_secret@,
            adventurer_access_secret@ != adventurer_refresh_secret@,
            access_ttl >= 1,
            refresh_ttl >= 1,
        ensures
            svc.wf(),
            svc.secret_for(PrincipalKind::Commander, TokenUsage::Access) == commander_access_secret@,
            svc.secret_for(PrincipalKind::Commander, TokenUsage::Refresh) == commander_refresh_secret@,
            svc.secret_for(PrincipalKind::Adventurer, TokenUsage::Access) == adventurer_access_secret@,
            svc.secret_for(PrincipalKind::Adventurer, TokenUsage::Refresh) == adventurer_refresh_secret@,
            svc.ttl_for(TokenUsage::Access) == access_ttl,
            svc.ttl_for(TokenUsage::Refresh) == refresh_ttl,
    {
        TokenService {
            commander_access_secret,
            commander_refresh_secret,
            adventurer_access_secret,
            adventurer_refresh_secret,
            access_ttl,
            refresh_ttl,
        }
    }

    /// Borrow of the stored secret for one kind and usage.
    fn secret_ref(&self, kind: PrincipalKind, usage: TokenUsage) -> (s: &String)
        ensures
            s@ == self.secret_for(kind, usage),
    {
        match (kind, usage) {
            (PrincipalKind::Commander, TokenUsage::Access) => &self.commander_access_secret,
            (PrincipalKind::Commander, TokenUsage::Refresh) => &self.commander_refresh_secret,
            (PrincipalKind::Adventurer, TokenUsage::Access) => &self.adventurer_access_secret,
            (PrincipalKind::Adventurer, TokenUsage::Refresh) => &self.adventurer_refresh_secret,
        }
    }
}

/// The token's seal verifies under `svc`: it was made with the secret for
/// the token's own kind and usage and covers exactly the claims and usage
/// the token presents.
pub open spec fn sealed(svc: TokenService, t: Token) -> bool {
    &&& t.seal.key@ == svc.secret_for(t.claims.kind, t.usage)
    &&& t.seal.bound == t.claims
    &&& t.seal.bound_usage == t.usage
}

/// `t` is exactly the token `svc` issues for `id` and `kind` with usage
/// `usage` at time `now`: claims filled in, lifetime granted, seal applied.
pub open spec fn issued(svc: TokenService, t: Token, id: i32, kind: PrincipalKind, usage: TokenUsage, now: u64) -> bool {
    &&& t.claims == (Claims {
        principal_id: id,
        kind,
        issued_at: now,
        expires_at: sat_add_spec(now, svc.ttl_for(usage)),
    })
    &&& t.usage == usage
    &&& sealed(svc, t)
}

/// Outcome of validating `t` for an expected kind and usage at time `now`:
/// a token whose seal does not verify is `Malformed`; a sealed token of the
/// wrong kind or usage is `WrongAudience`; a sealed, rightly addressed token
/// past its lifetime is `Expired`; otherwise its claims are returned.
pub open spec fn validate_spec(
    svc: TokenService,
    t: Token,
    expected_kind: PrincipalKind,
    expected_usage: TokenUsage,
    now: u64,
) -> Result<Claims, TokenError> {
    if !sealed(svc, t) {
        Err(TokenError::Malformed)
    } else if t.claims.kind != expected_kind || t.usage != expected_usage {
        Err(TokenError::WrongAudience)
    } else if now >= t.claims.expires_at {
        Err(TokenError::Expired)
    } else {
        Ok(t.claims)
    }
}

impl TokenService {
    /// Issues an access token for one principal at time `now`.
    pub fn issue_access(&self, principal_id: i32, kind: PrincipalKind, now: u64) -> (t: Token)
        ensures
            issued(*self, t, principal_id, kind, TokenUsage::Access, now),
    {
        self.issue(principal_id, kind, TokenUsage::Access, now)
    }

    /// Issues a refresh token for one principal at time `now`.
    pub fn issue_refresh(&self, principal_id: i32, kind: PrincipalKind, now: u64) -> (t: Token)
        ensures
            issued(*self, t, principal_id, kind, TokenUsage::Refresh, now),
    {
        self.issue(principal_id, kind, TokenUsage::Refresh, now)
    }

    fn issue(&self, principal_id: i32, kind: PrincipalKind, usage: TokenUsage, now: u64) -> (t: Token)
        ensures
            issued(*self, t, principal_id, kind, usage, now),
    {
        let ttl = match usage {
            TokenUsage::Access => self.access_ttl,
            TokenUsage::Refresh => self.refresh_ttl,
        };
        let claims = Claims { principal_id, kind, issued_at: now, expires_at: sat_add(now, ttl) };
        Token {
            claims,
            usage,
            seal: Seal { key: self.secret_ref(kind, usage).clone(), bound: claims, bound_usage: usage },
        }
    }

    /// Validates `t` as an access token of kind `expected_kind` at time `now`.
    pub fn validate(&self, t: &Token, expected_kind: PrincipalKind, now: u64) -> (r: Result<
        Claims,
        TokenError,
    >)
        ensures
            r == validate_spec(*self, *t, expected_kind, TokenUsage::Access, now),
    {
        self.validate_for(t, expected_kind, TokenUsage::Access, now)
    }

    /// Validates `t` for an expected kind and usage at time `now`. The seal
    /// is checked against the secret for the token's own kind and usage, so
    /// nothing of an unverified token is trusted.
    pub fn validate_for(
        &self,
        t: &Token,
        expected_kind: PrincipalKind,
        expected_usage: TokenUsage,
        now: u64,
    ) -> (r: Result<Claims, TokenError>)
        ensures
            r == validate_spec(*self, *t, expected_kind, expected_usage, now),
    {
        let key = self.secret_ref(t.claims.kind, t.usage);
        let seal_ok = t.seal.key == *key && t.seal.bound == t.claims && t.seal.bound_usage
            == t.usage;
        if !seal_ok {
            Err(TokenError::Malformed)
        } else if !(t.claims.kind == expected_kind) || !(t.usage == expected_usage) {
            Err(TokenError::WrongAudience)
        } else if now >= t.claims.expires_at {
            Err(TokenError::Expired)
        } else {
            Ok(t.claims)
        }
    }

    /// Validates a refresh token and, on success, rotates it: a fresh
    /// access and refresh pair for the same principal is issued at `now`.
    /// The old refresh token is not tracked afterwards; it stays formally
    /// valid until its own lifetime ends, a known limitation of stateless
    /// rotation.
    pub fn refresh(&self, t: &Token, now: u64) -> (r: Result<(Token, Token), TokenError>)
        ensures
            match r {
                Ok(pair) => {
                    &&& validate_spec(*self, *t, t.claims.kind, TokenUsage::Refresh, now)
                        == Ok::<Claims, TokenError>(t.claims)
                    &&& issued(*self, pair.0, t.claims.principal_id, t.claims.kind, TokenUsage::Access, now)
                    &&& issued(*self, pair.1, t.claims.principal_id, t.claims.kind, TokenUsage::Refresh, now)
                },
                Err(e) => validate_spec(*self, *t, t.claims.kind, TokenUsage::Refresh, now)
                    == Err::<Claims, TokenError>(e),
            },
    {
        match self.validate_for(t, t.claims.kind, TokenUsage::Refresh, now) {
            Ok(claims) => Ok(
                (
                    self.issue_access(claims.principal_id, claims.kind, now),
                    self.issue_refresh(claims.principal_id, claims.kind, now),
                ),
            ),
            Err(e) => Err(e),
        }
    }
}

} // verus!
