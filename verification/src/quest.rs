use vstd::prelude::*;

verus! {

/// Lifecycle state of a quest. The set is closed; transitions move forward
/// through the order `Open`, `InProgress`, `Completed`, with `Cancelled`
/// reachable from any non-terminal state. `Completed` and `Cancelled` are
/// terminal: no further status edits are accepted.
#[derive(Clone, Copy, Debug, PartialEq, Eq, Structural)]
pub enum QuestStatus {
    /// Freshly created, nobody working on it yet.
    Open,
    /// An adventurer has taken it up.
    InProgress,
    /// Finished successfully; terminal.
    Completed,
    /// Abandoned; terminal.
    Cancelled,
}

/// Position of a status in the forward order of the lifecycle.
pub open spec fn status_rank(s: QuestStatus) -> int {
    match s {
        QuestStatus::Open => 0,
        QuestStatus::InProgress => 1,
        QuestStatus::Completed => 2,
        QuestStatus::Cancelled => 3,
    }
}

/// A terminal status accepts no further status edits.
pub open spec fn is_terminal(s: QuestStatus) -> bool {
    s == QuestStatus::Completed || s == QuestStatus::Cancelled
}

/// A status edit from `from` to `to` is allowed when `from` is not terminal
/// and the move is monotonic in the forward order (`Cancelled`, ranked last,
/// is thereby reachable from every non-terminal state).
pub open spec fn transition_allowed(from: QuestStatus, to: QuestStatus) -> bool {
    !is_terminal(from) && status_rank(from) <= status_rank(to)
}

/// Executable form of [`status_rank`].
pub fn rank_of(s: QuestStatus) -> (r: u8)
    ensures
        r == status_rank(s),
{
    match s {
        QuestStatus::Open => 0,
        QuestStatus::InProgress => 1,
        QuestStatus::Completed => 2,
        QuestStatus::Cancelled => 3,
    }
}

/// Executable form of [`transition_allowed`].
pub fn check_transition(from: QuestStatus, to: QuestStatus) -> (ok: bool)
    ensures
        ok == transition_allowed(from, to),
{
    let not_terminal = !(from == QuestStatus::Completed || from == QuestStatus::Cancelled);
    not_terminal && rank_of(from) <= rank_of(to)
}

/// One persisted quest row.
#[derive(Debug)]
pub struct QuestRecord {
    /// Store-generated identifier, unique among quests.
    pub id: i32,
    /// Display name of the quest.
    pub name: String,
    /// Optional longer description.
    pub description: Option<String>,
    /// Current lifecycle state.
    pub status: QuestStatus,
    /// Identifier of the owning commander; immutable, must exist at creation.
    pub guild_commander_id: i32,
    /// Seconds-since-epoch timestamp of row creation.
    pub created_at: u64,
    /// Seconds-since-epoch timestamp of the last update.
    pub updated_at: u64,
}

impl QuestRecord {
    /// A value-equal copy of the row, for handing rows out of the store.
    pub fn duplicated(&self) -> (r: QuestRecord)
        ensures
            r == *self,
    {
        let description = match &self.description {
            Some(d) => Some(d.clone()),
            None => None,
        };
        let r = QuestRecord {
            id: self.id,
            name: self.name.clone(),
            description,
            status: self.status,
            guild_commander_id: self.guild_commander_id,
            created_at: self.created_at,
            updated_at: self.updated_at,
        };
        r
    }
}

/// Caller-supplied fields for creating a quest. A status is accepted here
/// because a transport may send one, but the create use case ignores it:
/// a new quest always starts `Open`.
pub struct AddQuestModel {
    /// Display name of the new quest.
    pub name: String,
    /// Optional longer description.
    pub description: Option<String>,
    /// Requested initial status; ignored by the create use case.
    pub status: QuestStatus,
}

/// A partial update: only fields carrying `Some` change; the owner and
/// `created_at` never change through an edit.
pub struct EditQuestModel {
    /// Replacement name, if supplied.
    pub name: Option<String>,
    /// Replacement description, if supplied.
    pub description: Option<String>,
    /// Requested status change, if supplied.
    pub status: Option<QuestStatus>,
}

/// View of an optional string as an optional character sequence, for
/// comparing descriptions in contracts.
pub open spec fn opt_str_view(o: Option<String>) -> Option<Seq<char>> {
    match o {
        Some(s) => Some(s@),
        None => None,
    }
}

/// How a quest row looks after `patch` was applied at time `now`: supplied
/// fields are replaced, everything else (in particular the identifier, the
/// owner and `created_at`) is kept, and `updated_at` is refreshed.
pub open spec fn patched(pre: QuestRecord, post: QuestRecord, patch: EditQuestModel, now: u64) -> bool {
    &&& post.id == pre.id
    &&& post.guild_commander_id == pre.guild_commander_id
    &&& post.created_at == pre.created_at
    &&& post.updated_at == now
    &&& post.name@ == (match patch.name {
        Some(n) => n@,
        None => pre.name@,
    })
    &&& opt_str_view(post.description) == (match patch.description {
        Some(d) => Some(d@),
        None => opt_str_view(pre.description),
    })
    &&& post.status == (match patch.status {
        Some(st) => st,
        None => pre.status,
    })
}

/// Some row of `s` carries the quest identifier `id`.
pub open spec fn quest_id_present(s: Seq<QuestRecord>, id: i32) -> bool {
    exists|i: int| 0 <= i < s.len() && #[trigger] s[i].id == id
}

/// Well-formedness of the quest table together with its id counter:
/// identifiers are positive, strictly increasing in insertion order and
/// below the counter.
pub open spec fn quests_wf(s: Seq<QuestRecord>, next: i32) -> bool {
    &&& 1 <= next
    &&& forall|i: int| 0 <= i < s.len() ==> 1 <= #[trigger] s[i].id < next
    &&& forall|i: int, j: int|
        0 <= i < j < s.len() ==> #[trigger] s[i].id < #[trigger] s[j].id
}

/// The subsequence of `s` owned by commander `id`, in stored order.
pub open spec fn owned_quests(s: Seq<QuestRecord>, id: i32) -> Seq<QuestRecord>
    decreases s.len(),
{
    if s.len() == 0 {
        Seq::empty()
    } else if s.last().guild_commander_id == id {
        owned_quests(s.drop_last(), id).push(s.last())
    } else {
        owned_quests(s.drop_last(), id)
    }
}

} // verus!
