//! Chronograph records and the chronograph repository.
use vstd::prelude::*;

use crate::db::Database;
use crate::workspaces::has_workspace;

verus! {

/// A stored chronograph (a timer or a stopwatch) of one workspace.
#[derive(Debug, Clone)]
pub struct Chronograph {
    pub id: u32,
    pub workspace_id: u32,
    pub name: String,
    pub kind: String,
    pub state: String,
    pub duration: i32,
    pub is_favourite: bool,
    pub created_at: String,
    pub modified_at: String,
}

/// The fields of a new chronograph, with the workspace it belongs to.
#[derive(Debug, Clone)]
pub struct ChronographInput {
    pub workspace_id: u32,
    pub name: String,
    pub kind: String,
    pub state: String,
    pub duration: i32,
    pub is_favourite: bool,
}

/// The replaceable fields of a chronograph.
#[derive(Debug, Clone)]
pub struct ChronographUpdateInput {
    pub name: String,
    pub kind: String,
    pub state: String,
    pub duration: i32,
    pub is_favourite: bool,
}

/// Row ids strictly increase along the table.
pub open spec fn chronograph_ids_ascending(s: Seq<Chronograph>) -> bool {
    forall|i: int, j: int| 0 <= i < j < s.len() ==> s[i].id < s[j].id
}

/// The row belongs to `workspace_id` and is of this kind.
pub open spec fn chronograph_matches(c: Chronograph, workspace_id: u32, kind: Seq<char>) -> bool {
    c.workspace_id == workspace_id && c.kind@ == kind
}

/// The rows of `s` of this workspace and kind, newest (highest id) first.
pub open spec fn newest_matching(s: Seq<Chronograph>, workspace_id: u32, kind: Seq<char>) -> Seq<
    Chronograph,
>
    decreases s.len(),
{
    if s.len() == 0 {
        Seq::empty()
    } else {
        let rest = newest_matching(s.drop_first(), workspace_id, kind);
        if chronograph_matches(s[0], workspace_id, kind) {
            rest.push(s[0])
        } else {
            rest
        }
    }
}

/// Whether a row has this id and belongs to this workspace.
pub open spec fn has_chronograph(s: Seq<Chronograph>, workspace_id: u32, id: u32) -> bool {
    exists|i: int| 0 <= i < s.len() && s[i].id == id && s[i].workspace_id == workspace_id
}

/// The id the next inserted row gets: one above the largest, or 1 in an empty table.
pub open spec fn next_chronograph_id(s: Seq<Chronograph>) -> int {
    if s.len() == 0 {
        1
    } else {
        s.last().id + 1
    }
}

/// `c` is the row that inserting `input` at time `now` under `id` writes.
pub open spec fn is_new_chronograph(c: Chronograph, id: int, input: ChronographInput, now: String) -> bool {
    &&& c.id == id
    &&& c.workspace_id == input.workspace_id
    &&& c.name == input.name
    &&& c.kind == input.kind
    &&& c.state == input.state
    &&& c.duration == input.duration
    &&& c.is_favourite == input.is_favourite
    &&& c.created_at == now
    &&& c.modified_at == now
}

/// `c` is `old` with its replaceable fields set from `input` at time `now`.
pub open spec fn is_updated_chronograph(
    old: Chronograph,
    c: Chronograph,
    input: ChronographUpdateInput,
    now: String,
) -> bool {
    &&& c.id == old.id
    &&& c.workspace_id == old.workspace_id
    &&& c.name == input.name
    &&& c.kind == input.kind
    &&& c.state == input.state
    &&& c.duration == input.duration
    &&& c.is_favourite == input.is_favourite
    &&& c.created_at == old.created_at
    &&& c.modified_at == now
}

/// The rows of `s` whose workspace is not `workspace_id`, in their order.
pub open spec fn without_workspace(s: Seq<Chronograph>, workspace_id: u32) -> Seq<Chronograph>
    decreases s.len(),
{
    if s.len() == 0 {
        Seq::empty()
    } else {
        let rest = without_workspace(s.drop_last(), workspace_id);
        if s.last().workspace_id == workspace_id {
            rest
        } else {
            rest.push(s.last())
        }
    }
}

/// Dropping a workspace's rows keeps the others in ascending id order.
pub proof fn lemma_without_workspace_keeps_order(s: Seq<Chronograph>, workspace_id: u32)
    requires
        chronograph_ids_ascending(s),
    ensures
        chronograph_ids_ascending(without_workspace(s, workspace_id)),
        forall|k: int|
            0 <= k < without_workspace(s, workspace_id).len() ==> exists|j: int|
                0 <= j < s.len() && s[j] == #[trigger] without_workspace(s, workspace_id)[k],
    decreases s.len(),
{
    if s.len() > 0 {
        let t = s.drop_last();
        lemma_without_workspace_keeps_order(t, workspace_id);
        let rest = without_workspace(t, workspace_id);
        assert forall|k: int| 0 <= k < rest.len() implies rest[k].id < s.last().id by {
            let j = choose|j: int| 0 <= j < t.len() && t[j] == rest[k];
            assert(s[j] == t[j]);
        }
        assert forall|k: int|
            0 <= k < without_workspace(s, workspace_id).len() implies exists|j: int|
                0 <= j < s.len() && s[j] == #[trigger] without_workspace(s, workspace_id)[k] by {
            if k < rest.len() {
                let j = choose|j: int| 0 <= j < t.len() && t[j] == rest[k];
                assert(s[j] == t[j]);
            } else {
                assert(s[s.len() - 1] == s.last());
            }
        }
    }
}

/// The rows whose workspace is not `workspace_id`, copied in their order.
pub fn without_workspace_rows(rows: &Vec<Chronograph>, workspace_id: u32) -> (r: Vec<Chronograph>)
    ensures
        r@ == without_workspace(rows@, workspace_id),
{
    let mut out: Vec<Chronograph> = Vec::new();
    let mut i: usize = 0;
    while i < rows.len()
        invariant
            i <= rows@.len(),
            out@ == without_workspace(rows@.subrange(0, i as int), workspace_id),
        decreases rows@.len() - i,
    {
        assert(rows@.subrange(0, i as int + 1).drop_last() =~= rows@.subrange(0, i as int));
        if rows[i].workspace_id != workspace_id {
            out.push(rows[i].duplicate());
        }
        i = i + 1;
    }
    assert(rows@.subrange(0, rows@.len() as int) =~= rows@);
    out
}

/// Listing a workspace's chronographs of one kind yields rows of the table that
/// belong to that workspace and kind, in strictly descending id order.
pub proof fn lemma_listing_matches_and_descends(
    s: Seq<Chronograph>,
    workspace_id: u32,
    kind: Seq<char>,
)
    requires
        chronograph_ids_ascending(s),
    ensures
        forall|k: int|
            0 <= k < newest_matching(s, workspace_id, kind).len() ==> chronograph_matches(
                #[trigger] newest_matching(s, workspace_id, kind)[k],
                workspace_id,
                kind,
            ) && exists|j: int| 0 <= j < s.len() && s[j] == newest_matching(s, workspace_id, kind)[k],
        forall|a: int, b: int|
            0 <= a < b < newest_matching(s, workspace_id, kind).len() ==> newest_matching(
                s,
                workspace_id,
                kind,
            )[a].id > newest_matching(s, workspace_id, kind)[b].id,
    decreases s.len(),
{
    if s.len() > 0 {
        let t = s.drop_first();
        lemma_listing_matches_and_descends(t, workspace_id, kind);
        let rest = newest_matching(t, workspace_id, kind);
        assert forall|k: int| 0 <= k < rest.len() implies rest[k].id > s[0].id by {
            let j = choose|j: int| 0 <= j < t.len() && t[j] == rest[k];
            assert(s[j + 1] == t[j]);
        }
        let r = newest_matching(s, workspace_id, kind);
        assert forall|k: int| 0 <= k < r.len() implies chronograph_matches(
            #[trigger] r[k],
            workspace_id,
            kind,
        ) && exists|j: int| 0 <= j < s.len() && s[j] == r[k] by {
            if k < rest.len() {
                let j = choose|j: int| 0 <= j < t.len() && t[j] == rest[k];
                assert(s[j + 1] == t[j]);
            } else {
                assert(s[0] == r[k]);
            }
        }
    }
}

/// Finds the position of the row with this id in this workspace.
fn find_chronograph(rows: &Vec<Chronograph>, workspace_id: u32, id: u32) -> (r: Option<usize>)
    ensures
        r is Some <==> has_chronograph(rows@, workspace_id, id),
        r matches Some(i) ==> i < rows@.len() && rows@[i as int].id == id && rows@[i as int].workspace_id
            == workspace_id,
{
    let mut i: usize = 0;
    while i < rows.len()
        invariant
            i <= rows@.len(),
            forall|k: int| 0 <= k < i ==> !(rows@[k].id == id && rows@[k].workspace_id == workspace_id),
        decreases rows@.len() - i,
    {
        if rows[i].id == id && rows[i].workspace_id == workspace_id {
            return Some(i);
        }
        i = i + 1;
    }
    None
}

/// The chronographs of one workspace and kind, newest (highest id) first.
pub fn fetch_all_chronographs(db: &Database, workspace_id: u32, kind: String) -> (r: Vec<
    Chronograph,
>)
    ensures
        r@ == newest_matching(db.chronographs@, workspace_id, kind@),
{
    let rows = &db.chronographs;
    let mut out: Vec<Chronograph> = Vec::new();
    let mut i: usize = rows.len();
    while i > 0
        invariant
            i <= rows@.len(),
            out@ == newest_matching(rows@.subrange(i as int, rows@.len() as int), workspace_id, kind@),
        decreases i,
    {
        let ghost before = rows@.subrange(i as int, rows@.len() as int);
        i = i - 1;
        proof {
            assert(rows@.subrange(i as int, rows@.len() as int).drop_first() =~= before);
        }
        if rows[i].workspace_id == workspace_id && rows[i].kind == kind {
            out.push(rows[i].duplicate());
        }
    }
    assert(rows@.subrange(0, rows@.len() as int) =~= rows@);
    out
}

/// Inserts a chronograph under the next id. False, with nothing written, when its
/// workspace does not exist or the id space is exhausted.
pub fn add_chronograph(db: &mut Database, chronograph: ChronographInput, now: String) -> (r: bool)
    requires
        old(db).wf(),
    ensures
        final(db).wf(),
        r <==> has_workspace(old(db).workspaces@, chronograph.workspace_id) && next_chronograph_id(
            old(db).chronographs@,
        ) <= u32::MAX,
        r ==> exists|c: Chronograph|
            is_new_chronograph(c, next_chronograph_id(old(db).chronographs@), chronograph, now)
                && final(db).chronographs@ == old(db).chronographs@.push(c),
        !r ==> final(db).chronographs@ == old(db).chronographs@,
        final(db).workspaces@ == old(db).workspaces@,
        final(db).ledger@ == old(db).ledger@,
        final(db).settings == old(db).settings,
{
    let n = db.chronographs.len();
    let id: u32 = if n == 0 {
        1
    } else {
        let last = db.chronographs[n - 1].id;
        if last == u32::MAX {
            return false;
        }
        last + 1
    };
    if crate::workspaces::find_workspace(&db.workspaces, chronograph.workspace_id).is_none() {
        return false;
    }
    let c = Chronograph {
        id,
        workspace_id: chronograph.workspace_id,
        name: chronograph.name,
        kind: chronograph.kind,
        state: chronograph.state,
        duration: chronograph.duration,
        is_favourite: chronograph.is_favourite,
        created_at: now.clone(),
        modified_at: now,
    };
    db.chronographs.push(c);
    true
}

/// Replaces the fields of the row keyed by `(id, workspace_id)`; false, with
/// nothing changed, when there is none.
pub fn update_chronograph(
    db: &mut Database,
    id: u32,
    workspace_id: u32,
    chronograph: ChronographUpdateInput,
    now: String,
) -> (r: bool)
    requires
        old(db).wf(),
    ensures
        final(db).wf(),
        r == has_chronograph(old(db).chronographs@, workspace_id, id),
        r ==> exists|i: int|
            0 <= i < old(db).chronographs@.len() && old(db).chronographs@[i].id == id
                && old(db).chronographs@[i].workspace_id == workspace_id && is_updated_chronograph(
                old(db).chronographs@[i],
                final(db).chronographs@[i],
                chronograph,
                now,
            ) && final(db).chronographs@ == old(db).chronographs@.update(
                i,
                final(db).chronographs@[i],
            ),
        !r ==> final(db).chronographs@ == old(db).chronographs@,
        final(db).workspaces@ == old(db).workspaces@,
        final(db).ledger@ == old(db).ledger@,
        final(db).settings == old(db).settings,
{
    match find_chronograph(&db.chronographs, workspace_id, id) {
        None => false,
        Some(i) => {
            let c = Chronograph {
                id,
                workspace_id,
                name: chronograph.name,
                kind: chronograph.kind,
                state: chronograph.state,
                duration: chronograph.duration,
                is_favourite: chronograph.is_favourite,
                created_at: db.chronographs[i].created_at.clone(),
                modified_at: now,
            };
            db.chronographs[i] = c;
            true
        },
    }
}

/// Removes the row keyed by `(id, workspace_id)`; false, with nothing changed, when
/// there is none.
pub fn delete_chronograph(db: &mut Database, workspace_id: u32, id: u32) -> (r: bool)
    requires
        old(db).wf(),
    ensures
        final(db).wf(),
        r == has_chronograph(old(db).chronographs@, workspace_id, id),
        r ==> exists|i: int|
            0 <= i < old(db).chronographs@.len() && old(db).chronographs@[i].id == id
                && old(db).chronographs@[i].workspace_id == workspace_id
                && final(db).chronographs@ == old(db).chronographs@.remove(i),
        !r ==> final(db).chronographs@ == old(db).chronographs@,
        final(db).workspaces@ == old(db).workspaces@,
        final(db).ledger@ == old(db).ledger@,
        final(db).settings == old(db).settings,
{
    match find_chronograph(&db.chronographs, workspace_id, id) {
        None => false,
        Some(i) => {
            db.chronographs.remove(i);
            true
        },
    }
}

impl Chronograph {
    /// An identical copy of the row.
    pub fn duplicate(&self) -> (r: Chronograph)
        ensures
            r == *self,
    {
        Chronograph {
            id: self.id,
            workspace_id: self.workspace_id,
            name: self.name.clone(),
            kind: self.kind.clone(),
            state: self.state.clone(),
            duration: self.duration,
            is_favourite: self.is_favourite,
            created_at: self.created_at.clone(),
            modified_at: self.modified_at.clone(),
        }
    }
}

} // verus!
