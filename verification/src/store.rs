use vstd::prelude::*;

use crate::credential::PasswordHash;
use crate::errors::CoreError;
use crate::principal::{id_present, principals_wf, taken, PrincipalKind, PrincipalRecord};
use crate::quest::{
    opt_str_view, owned_quests, patched, quest_id_present, quests_wf, AddQuestModel,
    EditQuestModel, QuestRecord, QuestStatus,
};

verus! {

/// The relational state the repositories mediate: one table per aggregate
/// plus the store-side id counters. All access goes through the methods
/// below, each a single logical mutation, mirroring single-statement
/// transactions at a store boundary.
pub struct Store {
    /// Guild commander rows.
    pub commanders: Vec<PrincipalRecord>,
    /// Adventurer rows.
    pub adventurers: Vec<PrincipalRecord>,
    /// Quest rows.
    pub quests: Vec<QuestRecord>,
    /// Next identifier the commander table will hand out.
    pub next_commander_id: i32,
    /// Next identifier the adventurer table will hand out.
    pub next_adventurer_id: i32,
    /// Next identifier the quest table will hand out.
    pub next_quest_id: i32,
}

/// The principal table of one kind.
pub open spec fn table_of(s: Store, kind: PrincipalKind) -> Seq<PrincipalRecord> {
    match kind {
        PrincipalKind::Commander => s.commanders@,
        PrincipalKind::Adventurer => s.adventurers@,
    }
}

/// The id counter of one kind's principal table.
pub open spec fn next_of(s: Store, kind: PrincipalKind) -> i32 {
    match kind {
        PrincipalKind::Commander => s.next_commander_id,
        PrincipalKind::Adventurer => s.next_adventurer_id,
    }
}

/// The opposite principal kind; registration for one kind leaves the other
/// kind's table untouched.
pub open spec fn other_kind(kind: PrincipalKind) -> PrincipalKind {
    match kind {
        PrincipalKind::Commander => PrincipalKind::Adventurer,
        PrincipalKind::Adventurer => PrincipalKind::Commander,
    }
}

/// Index of the first row carrying `username`, if any.
fn table_find_index(table: &Vec<PrincipalRecord>, username: &String) -> (r: Option<usize>)
    ensures
        match r {
            Some(i) => i < table@.len() && table@[i as int].username@ == username@,
            None => !taken(table@, username@),
        },
{
    let mut i: usize = 0;
    while i < table.len()
        invariant
            i <= table@.len(),
            forall|j: int| 0 <= j < i ==> #[trigger] table@[j].username@ != username@,
        decreases table@.len() - i,
    {
        if table[i].username == *username {
            return Some(i);
        }
        i = i + 1;
    }
    None
}

/// Appends a new principal row to one table, enforcing username uniqueness
/// and handing out the table's next identifier.
fn table_register(
    table: &mut Vec<PrincipalRecord>,
    next: &mut i32,
    username: &String,
    password_hash: PasswordHash,
    now: u64,
) -> (r: Result<i32, CoreError>)
    requires
        principals_wf(old(table)@, *old(next)),
    ensures
        principals_wf(final(table)@, *final(next)),
        match r {
            Ok(id) => {
                &&& !taken(old(table)@, username@)
                &&& *old(next) < i32::MAX
                &&& id == *old(next)
                &&& *final(next) == id + 1
                &&& final(table)@ == old(table)@.push(final(table)@.last())
                &&& {
                    let rec = final(table)@.last();
                    &&& rec.id == id
                    &&& rec.username@ == username@
                    &&& rec.password_hash == password_hash
                    &&& rec.created_at == now
                    &&& rec.updated_at == now
                }
            },
            Err(CoreError::Conflict) => {
                &&& taken(old(table)@, username@)
                &&& *final(table) == *old(table)
                &&& *final(next) == *old(next)
            },
            Err(CoreError::StoreUnavailable) => {
                &&& !taken(old(table)@, username@)
                &&& *old(next) == i32::MAX
                &&& *final(table) == *old(table)
                &&& *final(next) == *old(next)
            },
            Err(_) => false,
        },
{
    if table_find_index(table, username).is_some() {
        return Err(CoreError::Conflict);
    }
    if *next == i32::MAX {
        return Err(CoreError::StoreUnavailable);
    }
    let id = *next;
    *next = id + 1;
    let rec = PrincipalRecord {
        id,
        username: username.clone(),
        password_hash,
        created_at: now,
        updated_at: now,
    };
    table.push(rec);
    Ok(id)
}

impl Store {
    /// Store invariant: each table is well formed on its own, and every
    /// quest's owner exists in the commander table (referential integrity).
    pub open spec fn wf(self) -> bool {
        &&& principals_wf(self.commanders@, self.next_commander_id)
        &&& principals_wf(self.adventurers@, self.next_adventurer_id)
        &&& quests_wf(self.quests@, self.next_quest_id)
        &&& forall|i: int|
            0 <= i < self.quests@.len() ==> id_present(
                self.commanders@,
                #[trigger] self.quests@[i].guild_commander_id,
            )
    }

    /// Registers a new principal of `kind` at time `now`. Fails with
    /// `Conflict` exactly when the username is already taken within the
    /// kind's table, and with `StoreUnavailable` exactly when that table's
    /// identifier space is exhausted; otherwise the row is appended with the
    /// next identifier and both timestamps set to `now`.
    pub fn register_principal(
        &mut self,
        kind: PrincipalKind,
        username: &String,
        password_hash: PasswordHash,
        now: u64,
    ) -> (r: Result<i32, CoreError>)
        requires
            old(self).wf(),
        ensures
            final(self).wf(),
            final(self).quests@ == old(self).quests@,
            final(self).next_quest_id == old(self).next_quest_id,
            table_of(*final(self), other_kind(kind)) == table_of(*old(self), other_kind(kind)),
            next_of(*final(self), other_kind(kind)) == next_of(*old(self), other_kind(kind)),
            match r {
                Ok(id) => {
                    &&& !taken(table_of(*old(self), kind), username@)
                    &&& next_of(*old(self), kind) < i32::MAX
                    &&& id == next_of(*old(self), kind)
                    &&& next_of(*final(self), kind) == id + 1
                    &&& table_of(*final(self), kind) == table_of(*old(self), kind).push(
                        table_of(*final(self), kind).last(),
                    )
                    &&& {
                        let rec = table_of(*final(self), kind).last();
                        &&& rec.id == id
                        &&& rec.username@ == username@
                        &&& rec.password_hash == password_hash
                        &&& rec.created_at == now
                        &&& rec.updated_at == now
                    }
                },
                Err(CoreError::Conflict) => {
                    &&& taken(table_of(*old(self), kind), username@)
                    &&& *final(self) == *old(self)
                },
                Err(CoreError::StoreUnavailable) => {
                    &&& !taken(table_of(*old(self), kind), username@)
                    &&& next_of(*old(self), kind) == i32::MAX
                    &&& *final(self) == *old(self)
                },
                Err(_) => false,
            },
    {
        let r = match kind {
            PrincipalKind::Commander => table_register(
                &mut self.commanders,
                &mut self.next_commander_id,
                username,
                password_hash,
                now,
            ),
            PrincipalKind::Adventurer => table_register(
                &mut self.adventurers,
                &mut self.next_adventurer_id,
                username,
                password_hash,
                now,
            ),
        };
        proof {
            assert forall|i: int| 0 <= i < self.quests@.len() implies id_present(
                self.commanders@,
                #[trigger] self.quests@[i].guild_commander_id,
            ) by {
                assert(id_present(old(self).commanders@, self.quests@[i].guild_commander_id));
                let w = choose|j: int|
                    0 <= j < old(self).commanders@.len() && #[trigger] old(
                        self,
                    ).commanders@[j].id == self.quests@[i].guild_commander_id;
                assert(self.commanders@[w].id == self.quests@[i].guild_commander_id);
            }
        }
        r
    }

    /// Looks a principal of `kind` up by username. Fails with `NotFound`
    /// exactly when no row of that table carries the username.
    pub fn find_by_username(&self, kind: PrincipalKind, username: &String) -> (r: Result<
        &PrincipalRecord,
        CoreError,
    >)
        ensures
            match r {
                Ok(rec) => {
                    &&& exists|i: int|
                        0 <= i < table_of(*self, kind).len() && #[trigger] table_of(*self, kind)[i]
                            == *rec
                    &&& rec.username@ == username@
                },
                Err(e) => e == CoreError::NotFound && !taken(table_of(*self, kind), username@),
            },
    {
        let table = match kind {
            PrincipalKind::Commander => &self.commanders,
            PrincipalKind::Adventurer => &self.adventurers,
        };
        match table_find_index(table, username) {
            Some(i) => {
                proof {
                    assert(0 <= i < table_of(*self, kind).len() && table_of(*self, kind)[
                    i as int] == table@[i as int]);
                }
                Ok(&table[i])
            },
            None => Err(CoreError::NotFound),
        }
    }

    /// Whether a commander row with identifier `id` exists.
    pub fn commander_exists(&self, id: i32) -> (b: bool)
        ensures
            b == id_present(self.commanders@, id),
    {
        let mut i: usize = 0;
        while i < self.commanders.len()
            invariant
                i <= self.commanders@.len(),
                forall|j: int| 0 <= j < i ==> #[trigger] self.commanders@[j].id != id,
            decreases self.commanders@.len() - i,
        {
            if self.commanders[i].id == id {
                return true;
            }
            i = i + 1;
        }
        false
    }

    /// Index of the quest row with identifier `id`, if any.
    fn quest_index(&self, id: i32) -> (r: Option<usize>)
        ensures
            match r {
                Some(i) => i < self.quests@.len() && self.quests@[i as int].id == id,
                None => !quest_id_present(self.quests@, id),
            },
    {
        let mut i: usize = 0;
        while i < self.quests.len()
            invariant
                i <= self.quests@.len(),
                forall|j: int| 0 <= j < i ==> #[trigger] self.quests@[j].id != id,
            decreases self.quests@.len() - i,
        {
            if self.quests[i].id == id {
                return Some(i);
            }
            i = i + 1;
        }
        None
    }

    /// Creates a quest row owned by `guild_commander_id` with the given
    /// initial status at time `now`. Fails with `ForeignKeyViolation`
    /// exactly when the owner does not exist, and with `StoreUnavailable`
    /// exactly when the quest identifier space is exhausted.
    pub fn create_quest(
        &mut self,
        model: AddQuestModel,
        guild_commander_id: i32,
        status: QuestStatus,
        now: u64,
    ) -> (r: Result<i32, CoreError>)
        requires
            old(self).wf(),
        ensures
            final(self).wf(),
            final(self).commanders == old(self).commanders,
            final(self).adventurers == old(self).adventurers,
            final(self).next_commander_id == old(self).next_commander_id,
            final(self).next_adventurer_id == old(self).next_adventurer_id,
            match r {
                Ok(id) => {
                    &&& id_present(old(self).commanders@, guild_commander_id)
                    &&& old(self).next_quest_id < i32::MAX
                    &&& id == old(self).next_quest_id
                    &&& final(self).next_quest_id == id + 1
                    &&& final(self).quests@ == old(self).quests@.push(final(self).quests@.last())
                    &&& {
                        let q = final(self).quests@.last();
                        &&& q.id == id
                        &&& q.name@ == model.name@
                        &&& opt_str_view(q.description) == opt_str_view(model.description)
                        &&& q.status == status
                        &&& q.guild_commander_id == guild_commander_id
                        &&& q.created_at == now
                        &&& q.updated_at == now
                    }
                },
                Err(CoreError::ForeignKeyViolation) => {
                    &&& !id_present(old(self).commanders@, guild_commander_id)
                    &&& *final(self) == *old(self)
                },
                Err(CoreError::StoreUnavailable) => {
                    &&& id_present(old(self).commanders@, guild_commander_id)
                    &&& old(self).next_quest_id == i32::MAX
                    &&& *final(self) == *old(self)
                },
                Err(_) => false,
            },
    {
        if !self.commander_exists(guild_commander_id) {
            return Err(CoreError::ForeignKeyViolation);
        }
        if self.next_quest_id == i32::MAX {
            return Err(CoreError::StoreUnavailable);
        }
        let id = self.next_quest_id;
        self.next_quest_id = id + 1;
        let q = QuestRecord {
            id,
            name: model.name,
            description: model.description,
            status,
            guild_commander_id,
            created_at: now,
            updated_at: now,
        };
        self.quests.push(q);
        Ok(id)
    }

    /// Looks a quest up by identifier. Fails with `NotFound` exactly when
    /// no quest row carries the identifier.
    pub fn get_quest(&self, id: i32) -> (r: Result<&QuestRecord, CoreError>)
        ensures
            match r {
                Ok(q) => {
                    &&& exists|i: int|
                        0 <= i < self.quests@.len() && #[trigger] self.quests@[i] == *q
                    &&& q.id == id
                },
                Err(e) => e == CoreError::NotFound && !quest_id_present(self.quests@, id),
            },
    {
        match self.quest_index(id) {
            Some(i) => {
                proof {
                    assert(0 <= i < self.quests@.len() && self.quests@[i as int]
                        == self.quests@[i as int]);
                }
                Ok(&self.quests[i])
            },
            None => Err(CoreError::NotFound),
        }
    }

    /// Applies a partial update to the quest row with identifier `id` at
    /// time `now`: supplied fields are replaced, the identifier, owner and
    /// `created_at` are kept, `updated_at` is refreshed. Fails with
    /// `NotFound` exactly when no row carries the identifier. No
    /// authorization happens here; who may edit is the use-case layer's
    /// concern.
    pub fn update_quest(&mut self, id: i32, patch: &EditQuestModel, now: u64) -> (r: Result<
        (),
        CoreError,
    >)
        requires
            old(self).wf(),
        ensures
            final(self).wf(),
            final(self).commanders == old(self).commanders,
            final(self).adventurers == old(self).adventurers,
            final(self).next_commander_id == old(self).next_commander_id,
            final(self).next_adventurer_id == old(self).next_adventurer_id,
            final(self).next_quest_id == old(self).next_quest_id,
            match r {
                Ok(()) => {
                    &&& final(self).quests@.len() == old(self).quests@.len()
                    &&& exists|i: int|
                        {
                            &&& 0 <= i < old(self).quests@.len()
                            &&& #[trigger] old(self).quests@[i].id == id
                            &&& patched(old(self).quests@[i], final(self).quests@[i], *patch, now)
                            &&& forall|j: int|
                                0 <= j < old(self).quests@.len() && j != i
                                    ==> final(self).quests@[j] == #[trigger] old(self).quests@[j]
                        }
                },
                Err(e) => {
                    &&& e == CoreError::NotFound
                    &&& !quest_id_present(old(self).quests@, id)
                    &&& *final(self) == *old(self)
                },
            },
    {
        let i = match self.quest_index(id) {
            Some(i) => i,
            None => {
                return Err(CoreError::NotFound);
            },
        };
        let prev = self.quests.remove(i);
        let name = match &patch.name {
            Some(n) => n.clone(),
            None => prev.name,
        };
        let description = match &patch.description {
            Some(d) => Some(d.clone()),
            None => prev.description,
        };
        let status = match patch.status {
            Some(st) => st,
            None => prev.status,
        };
        let next = QuestRecord {
            id: prev.id,
            name,
            description,
            status,
            guild_commander_id: prev.guild_commander_id,
            created_at: prev.created_at,
            updated_at: now,
        };
        self.quests.insert(i, next);
        proof {
            assert(self.quests@ =~= old(self).quests@.update(i as int, self.quests@[i as int]));
        }
        Ok(())
    }

    /// All quests owned by commander `id`, in stored order.
    pub fn list_quests_by_commander(&self, id: i32) -> (r: Vec<QuestRecord>)
        ensures
            r@ == owned_quests(self.quests@, id),
    {
        let mut out: Vec<QuestRecord> = Vec::new();
        let mut i: usize = 0;
        while i < self.quests.len()
            invariant
                i <= self.quests@.len(),
                out@ == owned_quests(self.quests@.take(i as int), id),
            decreases self.quests@.len() - i,
        {
            proof {
                assert(self.quests@.take(i + 1 as int).drop_last() =~= self.quests@.take(i as int));
                assert(self.quests@.take(i + 1 as int).last() == self.quests@[i as int]);
            }
            if self.quests[i].guild_commander_id == id {
                out.push(self.quests[i].duplicated());
            }
            i = i + 1;
        }
        proof {
            assert(self.quests@.take(self.quests@.len() as int) =~= self.quests@);
        }
        out
    }

    /// An empty store; identifiers start at 1.
    pub fn new() -> (s: Store)
        ensures
            s.wf(),
            s.commanders@ == Seq::<PrincipalRecord>::empty(),
            s.adventurers@ == Seq::<PrincipalRecord>::empty(),
            s.quests@ == Seq::<QuestRecord>::empty(),
            s.next_commander_id == 1,
            s.next_adventurer_id == 1,
            s.next_quest_id == 1,
    {
        Store {
            commanders: Vec::new(),
            adventurers: Vec::new(),
            quests: Vec::new(),
            next_commander_id: 1,
            next_adventurer_id: 1,
            next_quest_id: 1,
        }
    }
}

} // verus!
