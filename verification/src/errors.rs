use vstd::prelude::*;

verus! {

/// Business and infrastructure failures surfaced by the core.
///
/// Business errors (`Conflict` through `ForeignKeyViolation`) are returned as
/// typed results and are meant to map one-to-one onto user-visible responses;
/// `StoreUnavailable` stands for an infrastructure fault (here: the identifier
/// space of a table is exhausted) and carries no internal detail.
#[derive(Clone, Copy, Debug, PartialEq, Eq, Structural)]
pub enum CoreError {
    /// A uniqueness constraint was violated (username already registered).
    Conflict,
    /// The addressed row does not exist.
    NotFound,
    /// Bad credentials, or an invalid or expired token.
    Unauthorized,
    /// The principal is valid but does not own the addressed quest.
    Forbidden,
    /// The requested quest status change is not allowed from the current state.
    InvalidTransition,
    /// A referenced row (the owning commander) does not exist.
    ForeignKeyViolation,
    /// The connection pool timed out; raised by the surrounding program
    /// when it cannot reach the store at all, never by the core itself.
    PoolExhausted,
    /// The store cannot accept further rows.
    StoreUnavailable,
}

/// Failures of token validation, ordered by how far validation got:
/// the seal is checked first, then the audience, then the lifetime.
#[derive(Clone, Copy, Debug, PartialEq, Eq, Structural)]
pub enum TokenError {
    /// The token's seal does not verify against the expected signing secret.
    Malformed,
    /// The token is sealed for a different principal kind or usage.
    WrongAudience,
    /// The token's lifetime has passed.
    Expired,
}

} // verus!
