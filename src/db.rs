//! The store itself: its tables, its migration ledger and its well-formedness.
use vstd::prelude::*;

use crate::chronographs::{chronograph_ids_ascending, Chronograph};
use crate::settings::UserSettings;
use crate::workspaces::{workspace_ids_ascending, Workspace};

verus! {

/// The embedded store: three tables and the ledger of applied migrations.
pub struct Database {
    /// Versions of the migrations applied so far, in the order applied.
    pub ledger: Vec<u32>,
    /// Workspace rows, in ascending `id` order.
    pub workspaces: Vec<Workspace>,
    /// Chronograph rows, in ascending `id` order.
    pub chronographs: Vec<Chronograph>,
    /// The singleton settings row, present once the schema is current.
    pub settings: Option<UserSettings>,
}

/// The version of the newest migration. Version 1 creates the workspaces table,
/// 2 the chronographs table, 3 the settings table with its seeded row.
pub const LATEST_SCHEMA_VERSION: u32 = 3;

/// The version of the migration that seeds the settings row.
pub const SETTINGS_SCHEMA_VERSION: u32 = 3;

/// Migrations are applied in order, so the ledger reads 1, 2, ... up to some version.
pub open spec fn ledger_in_order(l: Seq<u32>) -> bool {
    &&& l.len() <= LATEST_SCHEMA_VERSION
    &&& forall|i: int| 0 <= i < l.len() ==> l[i] == i + 1
}

/// The ledger of a store whose schema is current.
pub open spec fn complete_ledger() -> Seq<u32> {
    seq![1u32, 2u32, 3u32]
}

/// `s` is the settings row the migration seeds at time `now`.
pub open spec fn is_seeded_settings(s: UserSettings, now: String) -> bool {
    &&& s.id == 0
    &&& s.theme@ == "system"@
    &&& !s.show_app_in_system_tray
    &&& s.notify_on_timer_complete
    &&& s.created_at == now
    &&& s.modified_at == now
}

/// `after` is `before` with every pending migration applied at time `now`: the
/// ledger complete, the rows kept, the settings row seeded if it was pending.
pub open spec fn migrated(before: Database, after: Database, now: String) -> bool {
    &&& after.ledger@ == complete_ledger()
    &&& after.workspaces@ == before.workspaces@
    &&& after.chronographs@ == before.chronographs@
    &&& if before.ledger@.len() >= SETTINGS_SCHEMA_VERSION {
        after.settings == before.settings
    } else {
        after.settings matches Some(s) && is_seeded_settings(s, now)
    }
}

/// Two stores hold the same ledger, rows and settings.
pub open spec fn same_state(a: Database, b: Database) -> bool {
    &&& a.ledger@ == b.ledger@
    &&& a.workspaces@ == b.workspaces@
    &&& a.chronographs@ == b.chronographs@
    &&& a.settings == b.settings
}

impl Database {
    /// The invariant every operation keeps.
    pub open spec fn wf(&self) -> bool {
        &&& workspace_ids_ascending(self.workspaces@)
        &&& chronograph_ids_ascending(self.chronographs@)
        &&& ledger_in_order(self.ledger@)
        &&& (self.settings is Some <==> self.ledger@.len() >= SETTINGS_SCHEMA_VERSION)
        &&& (self.settings matches Some(s) ==> s.id == 0)
    }

    /// A store with no tables and an empty ledger.
    pub fn empty() -> (r: Database)
        ensures
            r.wf(),
            r.ledger@.len() == 0,
            r.workspaces@.len() == 0,
            r.chronographs@.len() == 0,
            r.settings is None,
    {
        Database { ledger: Vec::new(), workspaces: Vec::new(), chronographs: Vec::new(), settings: None }
    }

    /// A fresh store with its schema migrated at time `now`.
    pub fn new(now: String) -> (r: Database)
        ensures
            r.wf(),
            r.ledger@ == complete_ledger(),
            r.workspaces@.len() == 0,
            r.chronographs@.len() == 0,
            r.settings matches Some(s) && is_seeded_settings(s, now),
    {
        let mut db = Database::empty();
        db.run_migrations(now);
        db
    }

    /// Applies, in order, each migration the ledger does not list yet, and
    /// records it there; does nothing when the schema is current.
    pub fn run_migrations(&mut self, now: String)
        requires
            old(self).wf(),
        ensures
            final(self).wf(),
            migrated(*old(self), *final(self), now),
            old(self).ledger@.len() == LATEST_SCHEMA_VERSION ==> *final(self) == *old(self),
    {
        if self.ledger.len() >= LATEST_SCHEMA_VERSION as usize {
            assert(self.ledger@ =~= complete_ledger());
            return;
        }
        let mut version: u32 = self.ledger.len() as u32 + 1;
        while version <= LATEST_SCHEMA_VERSION
            invariant
                1 <= version <= LATEST_SCHEMA_VERSION + 1,
                self.ledger@.len() == version - 1,
                ledger_in_order(self.ledger@),
                self.workspaces@ == old(self).workspaces@,
                self.chronographs@ == old(self).chronographs@,
                old(self).wf(),
                old(self).ledger@.len() <= self.ledger@.len(),
                old(self).ledger@.len() >= SETTINGS_SCHEMA_VERSION ==> self.settings == old(
                    self,
                ).settings,
                old(self).ledger@.len() < SETTINGS_SCHEMA_VERSION ==> if self.ledger@.len()
                    >= SETTINGS_SCHEMA_VERSION {
                    self.settings matches Some(s) && is_seeded_settings(s, now)
                } else {
                    self.settings is None
                },
            decreases LATEST_SCHEMA_VERSION + 1 - version,
        {
            if version == SETTINGS_SCHEMA_VERSION {
                self.settings = Some(
                    UserSettings {
                        id: 0,
                        theme: "system".to_owned(),
                        show_app_in_system_tray: false,
                        notify_on_timer_complete: true,
                        created_at: now.clone(),
                        modified_at: now.clone(),
                    },
                );
            }
            self.ledger.push(version);
            version = version + 1;
        }
        assert(self.ledger@ =~= complete_ledger());
    }
}

/// Whether the ids of these workspace rows strictly increase.
fn workspaces_in_order(rows: &Vec<Workspace>) -> (r: bool)
    ensures
        r == workspace_ids_ascending(rows@),
{
    let mut i: usize = 1;
    if rows.len() == 0 {
        return true;
    }
    while i < rows.len()
        invariant
            1 <= i <= rows@.len(),
            workspace_ids_ascending(rows@.subrange(0, i as int)),
        decreases rows@.len() - i,
    {
        if rows[i - 1].id >= rows[i].id {
            return false;
        }
        assert forall|a: int, b: int| 0 <= a < b < i + 1 implies rows@[a].id < rows@[b].id by {
            if b < i {
                assert(rows@.subrange(0, i as int)[a] == rows@[a]);
                assert(rows@.subrange(0, i as int)[b] == rows@[b]);
            } else if a < i - 1 {
                assert(rows@.subrange(0, i as int)[a] == rows@[a]);
                assert(rows@.subrange(0, i as int)[i - 1] == rows@[i - 1]);
            }
        }
        assert(workspace_ids_ascending(rows@.subrange(0, i as int + 1)));
        i = i + 1;
    }
    assert(rows@.subrange(0, rows@.len() as int) =~= rows@);
    true
}

/// Whether the ids of these chronograph rows strictly increase.
fn chronographs_in_order(rows: &Vec<Chronograph>) -> (r: bool)
    ensures
        r == chronograph_ids_ascending(rows@),
{
    let mut i: usize = 1;
    if rows.len() == 0 {
        return true;
    }
    while i < rows.len()
        invariant
            1 <= i <= rows@.len(),
            chronograph_ids_ascending(rows@.subrange(0, i as int)),
        decreases rows@.len() - i,
    {
        if rows[i - 1].id >= rows[i].id {
            return false;
        }
        assert forall|a: int, b: int| 0 <= a < b < i + 1 implies rows@[a].id < rows@[b].id by {
            if b < i {
                assert(rows@.subrange(0, i as int)[a] == rows@[a]);
                assert(rows@.subrange(0, i as int)[b] == rows@[b]);
            } else if a < i - 1 {
                assert(rows@.subrange(0, i as int)[a] == rows@[a]);
                assert(rows@.subrange(0, i as int)[i - 1] == rows@[i - 1]);
            }
        }
        assert(chronograph_ids_ascending(rows@.subrange(0, i as int + 1)));
        i = i + 1;
    }
    assert(rows@.subrange(0, rows@.len() as int) =~= rows@);
    true
}

/// Whether the ledger lists migrations 1, 2, ... in order, none past the newest.
fn ledger_is_in_order(ledger: &Vec<u32>) -> (r: bool)
    ensures
        r == ledger_in_order(ledger@),
{
    if ledger.len() > LATEST_SCHEMA_VERSION as usize {
        return false;
    }
    let mut i: usize = 0;
    while i < ledger.len()
        invariant
            i <= ledger@.len() <= LATEST_SCHEMA_VERSION,
            forall|k: int| 0 <= k < i ==> ledger@[k] == k + 1,
        decreases ledger@.len() - i,
    {
        if ledger[i] != i as u32 + 1 {
            return false;
        }
        i = i + 1;
    }
    true
}

impl Database {
    /// A store made of rows read back from disk; `None` when they break the
    /// store's invariant (ids out of order, a ledger out of order, a settings
    /// row missing, unexpected or not keyed by 0).
    pub fn from_parts(
        ledger: Vec<u32>,
        workspaces: Vec<Workspace>,
        chronographs: Vec<Chronograph>,
        settings: Option<UserSettings>,
    ) -> (r: Option<Database>)
        ensures
            r is Some <==> (Database { ledger, workspaces, chronographs, settings }).wf(),
            r matches Some(db) ==> db == (Database { ledger, workspaces, chronographs, settings }),
    {
        let settings_fit = match &settings {
            Some(s) => s.id == 0 && ledger.len() >= SETTINGS_SCHEMA_VERSION as usize,
            None => ledger.len() < SETTINGS_SCHEMA_VERSION as usize,
        };
        if settings_fit && ledger_is_in_order(&ledger) && workspaces_in_order(&workspaces)
            && chronographs_in_order(&chronographs) {
            Some(Database { ledger, workspaces, chronographs, settings })
        } else {
            None
        }
    }
}

/// Running the migrations a second time changes nothing: no migration is applied
/// twice and the ledger, rows and settings stay as the first run left them.
pub proof fn lemma_migrations_idempotent(
    start: Database,
    once: Database,
    twice: Database,
    first_run: String,
    second_run: String,
)
    requires
        start.wf(),
        migrated(start, once, first_run),
        migrated(once, twice, second_run),
    ensures
        same_state(once, twice),
{
}

} // verus!
