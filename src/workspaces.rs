//! Workspace records and the workspace repository.
use vstd::prelude::*;

use crate::chronographs::{
    lemma_without_workspace_keeps_order, without_workspace, without_workspace_rows, Chronograph,
};
use crate::db::Database;

verus! {

/// A stored workspace.
#[derive(Debug, Clone)]
pub struct Workspace {
    pub id: u32,
    pub title: String,
    pub description: String,
    pub is_favourite: bool,
    pub is_selected: bool,
    pub created_at: String,
    pub modified_at: String,
    pub deleted_at: String,
}

/// The caller-supplied fields of a workspace.
#[derive(Debug, Clone)]
pub struct WorkspaceInput {
    pub title: String,
    pub description: String,
    pub is_favourite: bool,
    pub is_selected: bool,
}

/// Row ids strictly increase along the table.
pub open spec fn workspace_ids_ascending(s: Seq<Workspace>) -> bool {
    forall|i: int, j: int| 0 <= i < j < s.len() ==> s[i].id < s[j].id
}

impl Workspace {
    /// An identical copy of the row.
    pub fn duplicate(&self) -> (r: Workspace)
        ensures
            r == *self,
    {
        Workspace {
            id: self.id,
            title: self.title.clone(),
            description: self.description.clone(),
            is_favourite: self.is_favourite,
            is_selected: self.is_selected,
            created_at: self.created_at.clone(),
            modified_at: self.modified_at.clone(),
            deleted_at: self.deleted_at.clone(),
        }
    }
}

/// Why the current workspace cannot be told.
#[derive(Debug, Clone, Copy, PartialEq, Eq, Structural)]
pub enum CurrentWorkspaceError {
    /// No workspace is selected.
    NoneSelected,
    /// More than one workspace is selected, so none is the current one.
    SeveralSelected,
}

/// The rows of `s` in descending `id` order: the newest first.
pub open spec fn newest_first(s: Seq<Workspace>) -> Seq<Workspace>
    decreases s.len(),
{
    if s.len() == 0 {
        Seq::empty()
    } else {
        newest_first(s.drop_first()).push(s[0])
    }
}

/// Whether some row has this id.
pub open spec fn has_workspace(s: Seq<Workspace>, id: u32) -> bool {
    exists|i: int| 0 <= i < s.len() && s[i].id == id
}

/// How many rows are selected.
pub open spec fn selected_count(s: Seq<Workspace>) -> nat
    decreases s.len(),
{
    if s.len() == 0 {
        0
    } else {
        selected_count(s.drop_last()) + if s.last().is_selected {
            1nat
        } else {
            0nat
        }
    }
}

/// The id the next inserted row gets: one above the largest, or 1 in an empty table.
pub open spec fn next_workspace_id(s: Seq<Workspace>) -> int {
    if s.len() == 0 {
        1
    } else {
        s.last().id + 1
    }
}

/// `w` is the row that inserting `input` at time `now` under `id` writes.
pub open spec fn is_new_workspace(w: Workspace, id: int, input: WorkspaceInput, now: String) -> bool {
    &&& w.id == id
    &&& w.title == input.title
    &&& w.description == input.description
    &&& w.is_favourite == input.is_favourite
    &&& w.is_selected == input.is_selected
    &&& w.created_at == now
    &&& w.modified_at == now
    &&& w.deleted_at@.len() == 0
}

/// `w` is `old` with its four mutable fields replaced by `input` at time `now`.
pub open spec fn is_updated_workspace(
    old: Workspace,
    w: Workspace,
    input: WorkspaceInput,
    now: String,
) -> bool {
    &&& w.id == old.id
    &&& w.title == input.title
    &&& w.description == input.description
    &&& w.is_favourite == input.is_favourite
    &&& w.is_selected == input.is_selected
    &&& w.created_at == old.created_at
    &&& w.modified_at == now
    &&& w.deleted_at == old.deleted_at
}

/// The newest-first listing is the table read from its end.
pub proof fn lemma_newest_first_index(s: Seq<Workspace>)
    ensures
        newest_first(s).len() == s.len(),
        forall|i: int| 0 <= i < s.len() ==> newest_first(s)[i] == s[s.len() - 1 - i],
    decreases s.len(),
{
    if s.len() > 0 {
        lemma_newest_first_index(s.drop_first());
    }
}

/// Appending a row puts it at the front of the newest-first listing.
pub proof fn lemma_newest_first_push(s: Seq<Workspace>, w: Workspace)
    ensures
        newest_first(s.push(w)) == seq![w] + newest_first(s),
    decreases s.len(),
{
    if s.len() == 0 {
        assert(s.push(w).drop_first() =~= s);
        assert(newest_first(s.push(w)) =~= seq![w] + newest_first(s));
    } else {
        assert(s.push(w).drop_first() =~= s.drop_first().push(w));
        lemma_newest_first_push(s.drop_first(), w);
        assert(newest_first(s.push(w)) =~= seq![w] + newest_first(s));
    }
}

/// The newest-first listing of ascending rows is in strictly descending id order.
pub proof fn lemma_newest_first_descending(s: Seq<Workspace>)
    requires
        workspace_ids_ascending(s),
    ensures
        forall|i: int, j: int|
            0 <= i < j < newest_first(s).len() ==> newest_first(s)[i].id > newest_first(s)[j].id,
{
    lemma_newest_first_index(s);
}

/// After a workspace is added, listing all workspaces shows exactly one new
/// entry: first, equal to the input, with an id above every earlier one.
pub proof fn lemma_added_workspace_listed_first(
    before: Database,
    after: Database,
    w: Workspace,
    input: WorkspaceInput,
    now: String,
)
    requires
        before.wf(),
        is_new_workspace(w, next_workspace_id(before.workspaces@), input, now),
        after.workspaces@ == before.workspaces@.push(w),
    ensures
        newest_first(after.workspaces@) == seq![w] + newest_first(before.workspaces@),
        newest_first(after.workspaces@)[0].title == input.title,
        newest_first(after.workspaces@)[0].description == input.description,
        newest_first(after.workspaces@)[0].is_favourite == input.is_favourite,
        newest_first(after.workspaces@)[0].is_selected == input.is_selected,
        forall|i: int|
            0 <= i < before.workspaces@.len() ==> before.workspaces@[i].id < newest_first(
                after.workspaces@,
            )[0].id,
{
    lemma_newest_first_push(before.workspaces@, w);
    let s = before.workspaces@;
    assert forall|i: int| 0 <= i < s.len() implies s[i].id < w.id by {
        if i < s.len() - 1 {
            assert(s[i].id < s[s.len() - 1].id);
        }
    }
}

/// Finds the position of the row with this id.
pub(crate) fn find_workspace(rows: &Vec<Workspace>, id: u32) -> (r: Option<usize>)
    ensures
        r is Some <==> has_workspace(rows@, id),
        r matches Some(i) ==> i < rows@.len() && rows@[i as int].id == id,
{
    let mut i: usize = 0;
    while i < rows.len()
        invariant
            i <= rows@.len(),
            forall|k: int| 0 <= k < i ==> rows@[k].id != id,
        decreases rows@.len() - i,
    {
        if rows[i].id == id {
            return Some(i);
        }
        i = i + 1;
    }
    None
}

/// All workspaces, newest (highest id) first.
pub fn fetch_all_workspaces(db: &Database) -> (r: Vec<Workspace>)
    ensures
        r@ == newest_first(db.workspaces@),
        r@.len() == db.workspaces@.len(),
        forall|i: int|
            0 <= i < r@.len() ==> #[trigger] r@[i] == db.workspaces@[db.workspaces@.len() - 1 - i],
{
    let rows = &db.workspaces;
    let mut out: Vec<Workspace> = Vec::new();
    let mut i: usize = rows.len();
    while i > 0
        invariant
            i <= rows@.len(),
            out@ == newest_first(rows@.subrange(i as int, rows@.len() as int)),
        decreases i,
    {
        let ghost before = rows@.subrange(i as int, rows@.len() as int);
        i = i - 1;
        out.push(rows[i].duplicate());
        proof {
            let now_seen = rows@.subrange(i as int, rows@.len() as int);
            assert(now_seen.drop_first() =~= before);
        }
    }
    assert(rows@.subrange(0, rows@.len() as int) =~= rows@);
    proof {
        lemma_newest_first_index(rows@);
    }
    out
}

/// The one selected workspace; an error when none or several are selected.
pub fn fetch_current_workspace(db: &Database) -> (r: Result<Workspace, CurrentWorkspaceError>)
    ensures
        selected_count(db.workspaces@) == 0 <==> r == Err::<Workspace, _>(
            CurrentWorkspaceError::NoneSelected,
        ),
        selected_count(db.workspaces@) >= 2 <==> r == Err::<Workspace, _>(
            CurrentWorkspaceError::SeveralSelected,
        ),
        selected_count(db.workspaces@) == 1 <==> r is Ok,
        r matches Ok(w) ==> w.is_selected && exists|i: int|
            0 <= i < db.workspaces@.len() && db.workspaces@[i] == w,
{
    let rows = &db.workspaces;
    let mut count: usize = 0;
    let mut found: usize = 0;
    let mut i: usize = 0;
    while i < rows.len()
        invariant
            i <= rows@.len(),
            count == selected_count(rows@.subrange(0, i as int)),
            count <= i,
            count > 0 ==> found < i && rows@[found as int].is_selected,
        decreases rows@.len() - i,
    {
        assert(rows@.subrange(0, i as int + 1).drop_last() =~= rows@.subrange(0, i as int));
        if rows[i].is_selected {
            count = count + 1;
            found = i;
        }
        i = i + 1;
    }
    assert(rows@.subrange(0, rows@.len() as int) =~= rows@);
    if count == 0 {
        Err(CurrentWorkspaceError::NoneSelected)
    } else if count > 1 {
        Err(CurrentWorkspaceError::SeveralSelected)
    } else {
        Ok(rows[found].duplicate())
    }
}

/// Inserts a workspace under the next id; false when the id space is exhausted.
pub fn add_workspace(db: &mut Database, workspace: WorkspaceInput, now: String) -> (r: bool)
    requires
        old(db).wf(),
    ensures
        final(db).wf(),
        r <==> next_workspace_id(old(db).workspaces@) <= u32::MAX,
        r ==> exists|w: Workspace|
            is_new_workspace(w, next_workspace_id(old(db).workspaces@), workspace, now)
                && final(db).workspaces@ == old(db).workspaces@.push(w),
        !r ==> final(db).workspaces@ == old(db).workspaces@,
        final(db).chronographs@ == old(db).chronographs@,
        final(db).ledger@ == old(db).ledger@,
        final(db).settings == old(db).settings,
{
    let n = db.workspaces.len();
    let id: u32 = if n == 0 {
        1
    } else {
        let last = db.workspaces[n - 1].id;
        if last == u32::MAX {
            return false;
        }
        last + 1
    };
    let w = Workspace {
        id,
        title: workspace.title,
        description: workspace.description,
        is_favourite: workspace.is_favourite,
        is_selected: workspace.is_selected,
        created_at: now.clone(),
        modified_at: now,
        deleted_at: String::new(),
    };
    db.workspaces.push(w);
    true
}

/// Replaces the four mutable fields of the row with this id; false when there is none.
pub fn update_workspace(db: &mut Database, id: u32, workspace: WorkspaceInput, now: String) -> (r:
    bool)
    requires
        old(db).wf(),
    ensures
        final(db).wf(),
        r == has_workspace(old(db).workspaces@, id),
        r ==> exists|i: int|
            0 <= i < old(db).workspaces@.len() && old(db).workspaces@[i].id == id
                && is_updated_workspace(old(db).workspaces@[i], final(db).workspaces@[i], workspace, now)
                && final(db).workspaces@ == old(db).workspaces@.update(i, final(db).workspaces@[i]),
        !r ==> final(db).workspaces@ == old(db).workspaces@,
        final(db).chronographs@ == old(db).chronographs@,
        final(db).ledger@ == old(db).ledger@,
        final(db).settings == old(db).settings,
{
    match find_workspace(&db.workspaces, id) {
        None => false,
        Some(i) => {
            let w = Workspace {
                id,
                title: workspace.title,
                description: workspace.description,
                is_favourite: workspace.is_favourite,
                is_selected: workspace.is_selected,
                created_at: db.workspaces[i].created_at.clone(),
                modified_at: now,
                deleted_at: db.workspaces[i].deleted_at.clone(),
            };
            db.workspaces[i] = w;
            true
        },
    }
}

/// Removes the row with this id and, with it, its chronographs; false when there is none.
pub fn delete_workspace(db: &mut Database, id: u32) -> (r: bool)
    requires
        old(db).wf(),
    ensures
        final(db).wf(),
        r == has_workspace(old(db).workspaces@, id),
        r ==> exists|i: int|
            0 <= i < old(db).workspaces@.len() && old(db).workspaces@[i].id == id
                && final(db).workspaces@ == old(db).workspaces@.remove(i),
        r ==> final(db).chronographs@ == without_workspace(old(db).chronographs@, id),
        !r ==> final(db).workspaces@ == old(db).workspaces@,
        !r ==> final(db).chronographs@ == old(db).chronographs@,
        final(db).ledger@ == old(db).ledger@,
        final(db).settings == old(db).settings,
{
    match find_workspace(&db.workspaces, id) {
        None => false,
        Some(i) => {
            db.workspaces.remove(i);
            let kept = without_workspace_rows(&db.chronographs, id);
            proof {
                lemma_without_workspace_keeps_order(db.chronographs@, id);
            }
            db.chronographs = kept;
            true
        },
    }
}

} // verus!
