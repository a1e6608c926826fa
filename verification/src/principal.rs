use vstd::prelude::*;

use crate::credential::PasswordHash;

verus! {

/// The two actor roles of the system. Each kind has its own uniqueness
/// domain for usernames and its own pair of signing secrets, so a token of
/// one kind can never act as the other.
#[derive(Clone, Copy, Debug, PartialEq, Eq, Structural)]
pub enum PrincipalKind {
    /// A guild commander: creates and administers quests they own.
    Commander,
    /// An adventurer: views quests; read-only in this core.
    Adventurer,
}

/// One persisted principal row (a commander or an adventurer — the two
/// kinds live in separate tables and never mix).
pub struct PrincipalRecord {
    /// Store-generated identifier, unique within the kind's table.
    pub id: i32,
    /// Login name, unique within the kind's table, immutable after creation.
    pub username: String,
    /// Salted digest of the principal's password.
    pub password_hash: PasswordHash,
    /// Seconds-since-epoch timestamp of row creation.
    pub created_at: u64,
    /// Seconds-since-epoch timestamp of the last update.
    pub updated_at: u64,
}

/// Some row of `s` carries the username `u`.
pub open spec fn taken(s: Seq<PrincipalRecord>, u: Seq<char>) -> bool {
    exists|i: int| 0 <= i < s.len() && #[trigger] s[i].username@ == u
}

/// Some row of `s` carries the identifier `id`.
pub open spec fn id_present(s: Seq<PrincipalRecord>, id: i32) -> bool {
    exists|i: int| 0 <= i < s.len() && #[trigger] s[i].id == id
}

/// Well-formedness of one principal table together with its id counter:
/// identifiers are positive, strictly increasing in insertion order and
/// below the counter, and usernames are pairwise distinct.
pub open spec fn principals_wf(s: Seq<PrincipalRecord>, next: i32) -> bool {
    &&& 1 <= next
    &&& forall|i: int| 0 <= i < s.len() ==> 1 <= #[trigger] s[i].id < next
    &&& forall|i: int, j: int|
        0 <= i < j < s.len() ==> #[trigger] s[i].id < #[trigger] s[j].id
    &&& forall|i: int, j: int|
        0 <= i < j < s.len() ==> #[trigger] s[i].username@ != #[trigger] s[j].username@
}

} // verus!
