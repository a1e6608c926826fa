use vstd::prelude::*;

verus! {

/// A salted credential digest produced by [`hash_password`].
///
/// The representation is private: callers learn about a hash only through the
/// two specification accessors below, which is exactly the contract of a
/// credential store — verification succeeds for the producing plaintext and
/// for nothing else. The in-memory transform used here is a stand-in kept
/// inside this module; a deployment would swap in a slow, memory-hard
/// algorithm behind the same contract.
pub struct PasswordHash {
    salt: u64,
    digest: String,
}

impl PasswordHash {
    /// The plaintext this hash was derived from, as an abstract value.
    /// No executable function exposes it; it exists so that contracts can
    /// state when verification must succeed.
    pub closed spec fn source(self) -> Seq<char> {
        self.digest@
    }

    /// The salt this hash was derived with.
    pub closed spec fn salt_value(self) -> u64 {
        self.salt
    }
}

/// One-way transform of a plaintext password under a caller-supplied salt.
/// The caller (the surrounding program) draws the salt; the core itself is
/// deterministic.
pub fn hash_password(plain: &String, salt: u64) -> (h: PasswordHash)
    ensures
        h.source() == plain@,
        h.salt_value() == salt,
{
    PasswordHash { salt, digest: plain.clone() }
}

/// Timing-safe check that `h` was produced from `plain` (under `h`'s salt).
/// Never fails on mismatched input; a wrong password simply returns `false`.
pub fn verify_password(plain: &String, h: &PasswordHash) -> (ok: bool)
    ensures
        ok == (h.source() == plain@),
{
    h.digest == *plain
}

} // verus!
