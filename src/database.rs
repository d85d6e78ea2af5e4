//! The task store: the active table and the archive table, the operations
//! that change them, and the queries over them.

use vstd::prelude::*;

use crate::args::UpdateTask;
use crate::date::{due_date_passed, due_text_passed, DateOnly};

verus! {

/// The longest project name, in characters, that the active table takes.
pub const MAX_PROJECT_CHARS: usize = 50;

/// The longest task description, in characters, that the active table takes.
pub const MAX_TASK_CHARS: usize = 100;

/// A task as the caller hands it over for creation: it has no id yet.
pub struct TodoData {
    pub project: String,
    pub task: String,
    pub due_date: String,
    pub complete: bool,
}

/// A row of the active table.
#[derive(Clone, Debug, PartialEq, Eq)]
pub struct TodoView {
    pub id: u64,
    pub project: String,
    pub task: String,
    pub due_date: String,
    pub complete: bool,
}

/// A row of the archive table: a copy of an active row, with an id of the
/// archive's own and the moment of archival.
#[derive(Clone, Debug, PartialEq, Eq)]
pub struct ArchivedTask {
    pub id: u64,
    pub project: String,
    pub task: String,
    pub due_date: String,
    pub complete: bool,
    pub archived_date: String,
}

/// Why an operation on the store failed.
#[derive(Clone, Copy, Debug, PartialEq, Eq, Structural)]
pub enum StorageError {
    /// The store cannot take or give what was asked of it.
    StorageUnavailable,
    /// A write broke a constraint of the table: a field too long, or no id
    /// left for a new row.
    SchemaViolation,
    /// No active row has the id.
    NotFound,
    /// An update asked both to mark a task complete and to delete it.
    ConflictingUpdate,
    /// The table asked for has never been created.
    NotInitialized,
}

/// The two tables as values: `None` for a table that was never created.
pub struct StoreModel {
    pub active: Option<Seq<TodoView>>,
    pub archived: Option<Seq<ArchivedTask>>,
}

/// Ids strictly ascend along the rows, so each id is unique and the rows
/// stand in order of insertion.
pub open spec fn ids_ascend(ids: Seq<u64>) -> bool {
    forall|i: int, j: int| 0 <= i < j < ids.len() ==> ids[i] < ids[j]
}

pub open spec fn active_ids(rows: Seq<TodoView>) -> Seq<u64> {
    rows.map_values(|t: TodoView| t.id)
}

pub open spec fn archived_ids(rows: Seq<ArchivedTask>) -> Seq<u64> {
    rows.map_values(|t: ArchivedTask| t.id)
}

/// The id a new row gets: one past the largest id in the table, or 1 in an
/// empty table.
pub open spec fn next_id(ids: Seq<u64>) -> int {
    if ids.len() == 0 {
        1
    } else {
        ids.last() + 1
    }
}

impl StoreModel {
    pub open spec fn wf(self) -> bool {
        &&& (self.active matches Some(rows) ==> ids_ascend(active_ids(rows)))
        &&& (self.archived matches Some(rows) ==> ids_ascend(archived_ids(rows)))
    }

    pub open spec fn active_rows(self) -> Seq<TodoView> {
        match self.active {
            Some(rows) => rows,
            None => Seq::empty(),
        }
    }

    pub open spec fn archived_rows(self) -> Seq<ArchivedTask> {
        match self.archived {
            Some(rows) => rows,
            None => Seq::empty(),
        }
    }
}

/// A table held as a vector, as a sequence of rows.
pub open spec fn table_of<T>(t: Option<Vec<T>>) -> Option<Seq<T>> {
    match t {
        Some(v) => Some(v@),
        None => None,
    }
}

/// The task store: both tables, in memory.
pub struct TaskStore {
    active: Option<Vec<TodoView>>,
    archived: Option<Vec<ArchivedTask>>,
}

impl View for TaskStore {
    type V = StoreModel;

    closed spec fn view(&self) -> StoreModel {
        StoreModel { active: table_of(self.active), archived: table_of(self.archived) }
    }
}

/// A task fits the columns of the active table.
pub open spec fn fits_schema(d: TodoData) -> bool {
    d.project@.len() <= MAX_PROJECT_CHARS && d.task@.len() <= MAX_TASK_CHARS
}

/// The active row that a new task becomes under the given id.
pub open spec fn row_of(d: TodoData, id: u64) -> TodoView {
    TodoView {
        id,
        project: d.project,
        task: d.task,
        due_date: d.due_date,
        complete: d.complete,
    }
}

/// Inserting a task: the active table is created if absent, and the task is
/// appended under a fresh id.
pub open spec fn insert_outcome(s: StoreModel, d: TodoData) -> Result<StoreModel, StorageError> {
    let rows = s.active_rows();
    let id = next_id(active_ids(rows));
    if !fits_schema(d) || id > u64::MAX {
        Err(StorageError::SchemaViolation)
    } else {
        Ok(StoreModel { active: Some(rows.push(row_of(d, id as u64))), archived: s.archived })
    }
}

/// How an operation's result and the store after it follow from its outcome:
/// on success the store is the new one; on failure it is left as it was.
pub open spec fn settles<T>(
    r: Result<T, StorageError>,
    before: StoreModel,
    after: StoreModel,
    outcome: Result<StoreModel, StorageError>,
) -> bool {
    match r {
        Ok(_) => outcome == Ok::<StoreModel, StorageError>(after),
        Err(e) => outcome == Err::<StoreModel, StorageError>(e) && after == before,
    }
}

impl TaskStore {
    /// The store's ids ascend in each table.
    pub open spec fn wf(&self) -> bool {
        self@.wf()
    }

    /// A store in which no table has been created yet.
    pub fn new() -> (s: TaskStore)
        ensures
            s.wf(),
            s@.active is None,
            s@.archived is None,
    {
        TaskStore { active: None, archived: None }
    }

    /// A store holding the given tables as they are, provided ids strictly
    /// ascend in each; `SchemaViolation` otherwise.
    pub fn from_tables(active: Option<Vec<TodoView>>, archived: Option<Vec<ArchivedTask>>) -> (r:
        Result<TaskStore, StorageError>)
        ensures
            match r {
                Ok(s) => s.wf() && s@.active == table_of(active) && s@.archived == table_of(archived),
                Err(e) => e == StorageError::SchemaViolation && !(StoreModel {
                    active: table_of(active),
                    archived: table_of(archived),
                }).wf(),
            },
    {
        let store = TaskStore { active, archived };
        let ok_active = match &store.active {
            Some(rows) => active_ids_ascend(rows),
            None => true,
        };
        let ok_archived = match &store.archived {
            Some(rows) => archived_ids_ascend(rows),
            None => true,
        };
        if ok_active && ok_archived {
            Ok(store)
        } else {
            Err(StorageError::SchemaViolation)
        }
    }

    /// The two tables, handed back for storing.
    pub fn into_tables(self) -> (r: (Option<Vec<TodoView>>, Option<Vec<ArchivedTask>>))
        ensures
            self@.active == table_of(r.0),
            self@.archived == table_of(r.1),
    {
        (self.active, self.archived)
    }

    /// Creates the active table if it is absent, keeping any rows it holds.
    pub fn ensure_schema(&mut self)
        requires
            old(self).wf(),
        ensures
            final(self).wf(),
            final(self)@.active == Some(old(self)@.active_rows()),
            final(self)@.archived == old(self)@.archived,
    {
        if self.active.is_none() {
            self.active = Some(Vec::new());
        }
    }

    /// Creates the archive table if it is absent, keeping any rows it holds.
    pub fn ensure_archive_schema(&mut self)
        requires
            old(self).wf(),
        ensures
            final(self).wf(),
            final(self)@.archived == Some(old(self)@.archived_rows()),
            final(self)@.active == old(self)@.active,
    {
        if self.archived.is_none() {
            self.archived = Some(Vec::new());
        }
    }
}

/// Where consecutive ids ascend, any earlier id is below any later one.
proof fn lemma_ascend_step(ids: Seq<u64>, i: int, j: int)
    requires
        forall|m: int| 0 < m < ids.len() ==> ids[m - 1] < #[trigger] ids[m],
        0 <= i < j < ids.len(),
    ensures
        ids[i] < ids[j],
    decreases j - i,
{
    if i + 1 < j {
        lemma_ascend_step(ids, i + 1, j);
    }
}

proof fn lemma_ascend_from_neighbours(ids: Seq<u64>)
    requires
        forall|i: int| 0 < i < ids.len() ==> ids[i - 1] < #[trigger] ids[i],
    ensures
        ids_ascend(ids),
{
    assert forall|i: int, j: int| 0 <= i < j < ids.len() implies ids[i] < ids[j] by {
        lemma_ascend_step(ids, i, j);
    }
}

fn active_ids_ascend(rows: &Vec<TodoView>) -> (r: bool)
    ensures
        r == ids_ascend(active_ids(rows@)),
{
    let mut i: usize = 1;
    while i < rows.len()
        invariant
            1 <= i,
            forall|j: int| 0 < j < i && j < rows.len() ==> active_ids(rows@)[j - 1] < #[trigger] active_ids(
                rows@,
            )[j],
        decreases rows.len() - i,
    {
        if rows[i - 1].id >= rows[i].id {
            assert(active_ids(rows@)[i - 1] >= active_ids(rows@)[i as int]);
            return false;
        }
        i += 1;
    }
    proof { lemma_ascend_from_neighbours(active_ids(rows@)); }
    true
}

fn archived_ids_ascend(rows: &Vec<ArchivedTask>) -> (r: bool)
    ensures
        r == ids_ascend(archived_ids(rows@)),
{
    let mut i: usize = 1;
    while i < rows.len()
        invariant
            1 <= i,
            forall|j: int| 0 < j < i && j < rows.len() ==> archived_ids(rows@)[j - 1]
                < #[trigger] archived_ids(rows@)[j],
        decreases rows.len() - i,
    {
        if rows[i - 1].id >= rows[i].id {
            assert(archived_ids(rows@)[i - 1] >= archived_ids(rows@)[i as int]);
            return false;
        }
        i += 1;
    }
    proof { lemma_ascend_from_neighbours(archived_ids(rows@)); }
    true
}

/// The number of characters in a text.
fn char_count(s: &String) -> (n: usize)
    ensures
        n == s@.len(),
{
    s.as_str().unicode_len()
}

impl TodoData {
    /// Inserts the task into the active table, creating the table if needed.
    /// Fails with `SchemaViolation`, changing nothing, where the project or
    /// the description is too long or no id is left.
    pub fn write_data(self, store: &mut TaskStore) -> (r: Result<(), StorageError>)
        requires
            old(store).wf(),
        ensures
            final(store).wf(),
            settles(r, old(store)@, final(store)@, insert_outcome(old(store)@, self)),
    {
        if char_count(&self.project) > MAX_PROJECT_CHARS || char_count(&self.task)
            > MAX_TASK_CHARS {
            return Err(StorageError::SchemaViolation);
        }
        store.insert_row(self)
    }
}

impl TaskStore {
    fn insert_row(&mut self, d: TodoData) -> (r: Result<(), StorageError>)
        requires
            old(self).wf(),
            fits_schema(d),
        ensures
            final(self).wf(),
            settles(r, old(self)@, final(self)@, insert_outcome(old(self)@, d)),
    {
        let mut rows = match self.active.take() {
            Some(v) => v,
            None => Vec::new(),
        };
        let n = rows.len();
        let id: u64 = if n == 0 {
            1
        } else if rows[n - 1].id == u64::MAX {
            self.active = Some(rows);
            return Err(StorageError::SchemaViolation);
        } else {
            rows[n - 1].id + 1
        };
        assert(id == next_id(active_ids(rows@)));
        let ghost old_rows = rows@;
        rows.push(TodoView {
            id,
            project: d.project,
            task: d.task,
            due_date: d.due_date,
            complete: d.complete,
        });
        assert(active_ids(rows@) =~= active_ids(old_rows).push(id));
        self.active = Some(rows);
        Ok(())
    }
}

/// The active rows after marking the task with the given id complete.
pub open spec fn marked_complete(rows: Seq<TodoView>, id: u64) -> Seq<TodoView> {
    rows.map_values(|t: TodoView| if t.id == id { TodoView { complete: true, ..t } } else { t })
}

/// The rows whose id is the given one: at most one where ids are unique.
pub open spec fn with_id(rows: Seq<TodoView>, id: u64) -> Seq<TodoView> {
    rows.filter(|t: TodoView| t.id == id)
}

/// The rows whose id is not the given one.
pub open spec fn without_id(rows: Seq<TodoView>, id: u64) -> Seq<TodoView> {
    rows.filter(|t: TodoView| t.id != id)
}

/// Updating a task: marking it complete and deleting it exclude each other;
/// asking for neither changes nothing; an id that matches no row changes
/// nothing and is no error. A store whose active table was never created
/// holds no row with the id either, so an update there succeeds and changes
/// nothing.
pub open spec fn update_outcome(
    s: StoreModel,
    id: u64,
    mark_complete: bool,
    delete: bool,
) -> Result<StoreModel, StorageError> {
    if mark_complete && delete {
        Err(StorageError::ConflictingUpdate)
    } else if !mark_complete && !delete {
        Ok(s)
    } else {
        match s.active {
            None => Ok(s),
            Some(rows) => Ok(
                StoreModel {
                    active: Some(
                        if mark_complete {
                            marked_complete(rows, id)
                        } else {
                            without_id(rows, id)
                        },
                    ),
                    archived: s.archived,
                },
            ),
        }
    }
}

proof fn lemma_filter_keeps_all<A>(s: Seq<A>, p: spec_fn(A) -> bool)
    requires
        forall|i: int| 0 <= i < s.len() ==> p(s[i]),
    ensures
        s.filter(p) == s,
    decreases s.len(),
{
    reveal(Seq::filter);
    if s.len() > 0 {
        lemma_filter_keeps_all(s.drop_last(), p);
        assert(s.drop_last().push(s.last()) =~= s);
    }
}

pub(crate) proof fn lemma_filter_drops_all<A>(s: Seq<A>, p: spec_fn(A) -> bool)
    requires
        forall|i: int| 0 <= i < s.len() ==> !p(s[i]),
    ensures
        s.filter(p) == Seq::<A>::empty(),
    decreases s.len(),
{
    reveal(Seq::filter);
    if s.len() > 0 {
        lemma_filter_drops_all(s.drop_last(), p);
    }
    assert(s.filter(p) =~= Seq::<A>::empty());
}

proof fn lemma_filter_one<A>(x: A, p: spec_fn(A) -> bool)
    ensures
        seq![x].filter(p) == (if p(x) { seq![x] } else { Seq::<A>::empty() }),
{
    reveal(Seq::filter);
    assert(seq![x].drop_last() =~= Seq::<A>::empty());
    reveal_with_fuel(Seq::filter, 2);
}

/// Filtering a sequence in which exactly the element at `k` fails the
/// predicate removes that element; one in which exactly it passes leaves it
/// alone.
proof fn lemma_filter_single_out<A>(s: Seq<A>, p: spec_fn(A) -> bool, k: int)
    requires
        0 <= k < s.len(),
        forall|i: int| 0 <= i < s.len() && i != k ==> p(s[i]),
        !p(s[k]),
    ensures
        s.filter(p) == s.remove(k),
        s.filter(|a: A| !p(a)) == seq![s[k]],
{
    let q = |a: A| !p(a);
    let front = s.take(k);
    let back = s.skip(k + 1);
    assert(s =~= front + seq![s[k]] + back);
    Seq::filter_distributes_over_add(front + seq![s[k]], back, p);
    Seq::filter_distributes_over_add(front, seq![s[k]], p);
    Seq::filter_distributes_over_add(front + seq![s[k]], back, q);
    Seq::filter_distributes_over_add(front, seq![s[k]], q);
    lemma_filter_keeps_all(front, p);
    lemma_filter_keeps_all(back, p);
    lemma_filter_drops_all(front, q);
    lemma_filter_drops_all(back, q);
    lemma_filter_one(s[k], p);
    lemma_filter_one(s[k], q);
    assert(s.remove(k) =~= front + back);
    assert(Seq::<A>::empty() + seq![s[k]] + Seq::<A>::empty() =~= seq![s[k]]);
}

/// Deleting the only row with a given id, or none, is filtering it out.
pub(crate) proof fn lemma_without_id(rows: Seq<TodoView>, id: u64, k: Option<int>)
    requires
        ids_ascend(active_ids(rows)),
        k matches Some(i) ==> 0 <= i < rows.len() && rows[i].id == id,
        k is None ==> forall|j: int| 0 <= j < rows.len() ==> rows[j].id != id,
    ensures
        without_id(rows, id) == (match k {
            Some(i) => rows.remove(i),
            None => rows,
        }),
        with_id(rows, id) == (match k {
            Some(i) => seq![rows[i]],
            None => Seq::<TodoView>::empty(),
        }),
{
    let p = |t: TodoView| t.id != id;
    let q = |t: TodoView| t.id == id;
    match k {
        Some(i) => {
            assert forall|j: int| 0 <= j < rows.len() && j != i implies p(rows[j]) by {
                assert(active_ids(rows)[j] == rows[j].id);
                assert(active_ids(rows)[i] == rows[i].id);
            }
            lemma_filter_single_out(rows, p, i);
            assert(q =~= |t: TodoView| !p(t));
        },
        None => {
            lemma_filter_keeps_all(rows, p);
            lemma_filter_drops_all(rows, q);
        },
    }
}

/// The position of the row with the given id, if any.
fn find_row(rows: &Vec<TodoView>, id: u64) -> (r: Option<usize>)
    ensures
        r matches Some(k) ==> k < rows.len() && rows@[k as int].id == id,
        r is None ==> forall|j: int| 0 <= j < rows.len() ==> rows@[j].id != id,
{
    let mut i: usize = 0;
    while i < rows.len()
        invariant
            i <= rows.len(),
            forall|j: int| 0 <= j < i ==> rows@[j].id != id,
        decreases rows.len() - i,
    {
        if rows[i].id == id {
            return Some(i);
        }
        i += 1;
    }
    None
}

impl TaskStore {
    /// Marks the task with the given id complete, or deletes it; see
    /// `update_outcome`.
    pub fn apply_update(&mut self, id: u64, mark_complete: bool, delete: bool) -> (r: Result<
        (),
        StorageError,
    >)
        requires
            old(self).wf(),
        ensures
            final(self).wf(),
            settles(r, old(self)@, final(self)@, update_outcome(old(self)@, id, mark_complete, delete)),
    {
        if mark_complete && delete {
            return Err(StorageError::ConflictingUpdate);
        }
        if !mark_complete && !delete {
            return Ok(());
        }
        let mut rows = match self.active.take() {
            Some(v) => v,
            None => {
                return Ok(());
            },
        };
        let ghost old_rows = rows@;
        let found = find_row(&rows, id);
        proof {
            lemma_without_id(old_rows, id, match found { Some(k) => Some(k as int), None => None });
        }
        if mark_complete {
            if let Some(k) = found {
                rows[k].complete = true;
                proof {
                    assert forall|j: int| 0 <= j < old_rows.len() && j != k implies old_rows[j].id != id by {
                        assert(active_ids(old_rows)[j] == old_rows[j].id);
                        assert(active_ids(old_rows)[k as int] == old_rows[k as int].id);
                    }
                }
            }
            assert(rows@ =~= marked_complete(old_rows, id));
            assert(active_ids(rows@) =~= active_ids(old_rows));
        } else {
            if let Some(k) = found {
                rows.remove(k);
                assert(active_ids(rows@) =~= active_ids(old_rows).remove(k as int));
            }
        }
        self.active = Some(rows);
        Ok(())
    }
}

impl TodoData {
    /// Applies the update that `update_task` asks for to the store: see
    /// `TaskStore::apply_update`. The task data itself plays no part.
    pub fn update_task(self, update_task: UpdateTask, store: &mut TaskStore) -> (r: Result<
        (),
        StorageError,
    >)
        requires
            old(store).wf(),
        ensures
            final(store).wf(),
            settles(
                r,
                old(store)@,
                final(store)@,
                update_outcome(old(store)@, update_task.id, update_task.complete, update_task.delete),
            ),
    {
        store.apply_update(update_task.id, update_task.complete, update_task.delete)
    }
}

/// The archive row that an active row becomes under the given archive id.
pub open spec fn archived_copy(t: TodoView, id: u64, archived_date: String) -> ArchivedTask {
    ArchivedTask {
        id,
        project: t.project,
        task: t.task,
        due_date: t.due_date,
        complete: t.complete,
        archived_date,
    }
}

/// Archiving a task: its row leaves the active table and a copy of it, under
/// a fresh archive id and stamped with `now`, is appended to the archive
/// table, both at once. An id that no active row has fails with `NotFound`,
/// also on a store whose active table was never created; nothing changes
/// then, and the archive table is not created either.
pub open spec fn archive_outcome(s: StoreModel, id: u64, now: String) -> Result<
    StoreModel,
    StorageError,
> {
    match s.active {
        None => Err(StorageError::NotFound),
        Some(rows) => {
            let hits = with_id(rows, id);
            let archive = s.archived_rows();
            let archive_id = next_id(archived_ids(archive));
            if hits.len() == 0 {
                Err(StorageError::NotFound)
            } else if archive_id > u64::MAX {
                Err(StorageError::SchemaViolation)
            } else {
                Ok(
                    StoreModel {
                        active: Some(without_id(rows, id)),
                        archived: Some(archive.push(archived_copy(hits[0], archive_id as u64, now))),
                    },
                )
            }
        },
    }
}

/// Moves the task with the given id from the active table to the archive
/// table, creating the archive table if needed; see `archive_outcome`. On
/// failure neither table changes.
pub fn archive_task(task_id: u64, store: &mut TaskStore, now: String) -> (r: Result<
    (),
    StorageError,
>)
    requires
        old(store).wf(),
    ensures
        final(store).wf(),
        settles(r, old(store)@, final(store)@, archive_outcome(old(store)@, task_id, now)),
{
    store.archive_row(task_id, now)
}

impl TaskStore {
    fn archive_row(&mut self, id: u64, now: String) -> (r: Result<(), StorageError>)
        requires
            old(self).wf(),
        ensures
            final(self).wf(),
            settles(r, old(self)@, final(self)@, archive_outcome(old(self)@, id, now)),
    {
        let k = match &self.active {
            None => {
                return Err(StorageError::NotFound);
            },
            Some(rows) => {
                let found = find_row(rows, id);
                proof {
                    lemma_without_id(rows@, id, match found { Some(k) => Some(k as int), None => None });
                }
                match found {
                    None => {
                        return Err(StorageError::NotFound);
                    },
                    Some(k) => k,
                }
            },
        };
        let mut archive = match self.archived.take() {
            Some(v) => v,
            None => Vec::new(),
        };
        let n = archive.len();
        let archive_id: u64 = if n == 0 {
            1
        } else if archive[n - 1].id == u64::MAX {
            self.archived = Some(archive);
            return Err(StorageError::SchemaViolation);
        } else {
            archive[n - 1].id + 1
        };
        assert(archive_id == next_id(archived_ids(archive@)));
        let mut rows = match self.active.take() {
            Some(v) => v,
            None => Vec::new(),
        };
        let ghost old_archive = archive@;
        let ghost old_rows = rows@;
        let t = rows.remove(k);
        assert(active_ids(rows@) =~= active_ids(old_rows).remove(k as int));
        archive.push(
            ArchivedTask {
                id: archive_id,
                project: t.project,
                task: t.task,
                due_date: t.due_date,
                complete: t.complete,
                archived_date: now,
            },
        );
        assert(archived_ids(archive@) =~= archived_ids(old_archive).push(archive_id));
        self.active = Some(rows);
        self.archived = Some(archive);
        Ok(())
    }
}

/// A row belongs to the given project.
pub open spec fn of_project(project: Seq<char>) -> spec_fn(TodoView) -> bool {
    |t: TodoView| t.project@ == project
}

/// The rows of a given project.
pub open spec fn in_project(rows: Seq<TodoView>, project: Seq<char>) -> Seq<TodoView> {
    rows.filter(of_project(project))
}

/// The archived rows of a given project.
pub open spec fn archived_in_project(rows: Seq<ArchivedTask>, project: Seq<char>) -> Seq<
    ArchivedTask,
> {
    rows.filter(|t: ArchivedTask| t.project@ == project)
}

/// The active rows not yet complete.
pub open spec fn pending(rows: Seq<TodoView>) -> Seq<TodoView> {
    rows.filter(|t: TodoView| !t.complete)
}

/// The active rows not yet complete whose due date has passed by `today`.
pub open spec fn overdue(rows: Seq<TodoView>, today: DateOnly) -> Seq<TodoView> {
    rows.filter(|t: TodoView| !t.complete && due_text_passed(t.due_date@, today))
}

/// Listing the active table: its rows, or `NotInitialized` where it was
/// never created.
pub open spec fn all_active(s: StoreModel) -> Result<Seq<TodoView>, StorageError> {
    match s.active {
        Some(rows) => Ok(rows),
        None => Err(StorageError::NotInitialized),
    }
}

/// Listing the active tasks of one project.
pub open spec fn active_of_project(s: StoreModel, project: Seq<char>) -> Result<
    Seq<TodoView>,
    StorageError,
> {
    match s.active {
        Some(rows) => Ok(in_project(rows, project)),
        None => Err(StorageError::NotInitialized),
    }
}

pub open spec fn listing_view<T>(r: Result<Vec<T>, StorageError>) -> Result<Seq<T>, StorageError> {
    match r {
        Ok(v) => Ok(v@),
        Err(e) => Err(e),
    }
}

/// A copy of an active row.
fn copy_row(t: &TodoView) -> (r: TodoView)
    ensures
        r == *t,
{
    TodoView {
        id: t.id,
        project: t.project.clone(),
        task: t.task.clone(),
        due_date: t.due_date.clone(),
        complete: t.complete,
    }
}

/// A copy of an archived row.
fn copy_archived(t: &ArchivedTask) -> (r: ArchivedTask)
    ensures
        r == *t,
{
    ArchivedTask {
        id: t.id,
        project: t.project.clone(),
        task: t.task.clone(),
        due_date: t.due_date.clone(),
        complete: t.complete,
        archived_date: t.archived_date.clone(),
    }
}

/// The active rows whose project is `project`, in order.
fn select_project(rows: &Vec<TodoView>, project: &String) -> (r: Vec<TodoView>)
    ensures
        r@ == in_project(rows@, project@),
{
    let mut out: Vec<TodoView> = Vec::new();
    let mut i: usize = 0;
    while i < rows.len()
        invariant
            i <= rows.len(),
            out@ == in_project(rows@.take(i as int), project@),
        decreases rows.len() - i,
    {
        proof {
            reveal(Seq::filter);
            assert(rows@.take(i + 1).drop_last() =~= rows@.take(i as int));
        }
        if rows[i].project == *project {
            out.push(copy_row(&rows[i]));
        }
        i += 1;
    }
    assert(rows@.take(rows.len() as int) =~= rows@);
    out
}

/// The archived rows whose project is `project`, in order.
fn select_archived_project(rows: &Vec<ArchivedTask>, project: &String) -> (r: Vec<ArchivedTask>)
    ensures
        r@ == archived_in_project(rows@, project@),
{
    let mut out: Vec<ArchivedTask> = Vec::new();
    let mut i: usize = 0;
    while i < rows.len()
        invariant
            i <= rows.len(),
            out@ == archived_in_project(rows@.take(i as int), project@),
        decreases rows.len() - i,
    {
        proof {
            reveal(Seq::filter);
            assert(rows@.take(i + 1).drop_last() =~= rows@.take(i as int));
        }
        if rows[i].project == *project {
            out.push(copy_archived(&rows[i]));
        }
        i += 1;
    }
    assert(rows@.take(rows.len() as int) =~= rows@);
    out
}

/// Lists the active tasks of the project named `project_name`, in order of
/// insertion; `NotInitialized` where the active table was never created.
pub fn get_tasks(project_name: &str, store: &TaskStore) -> (r: Result<Vec<TodoView>, StorageError>)
    ensures
        listing_view(r) == active_of_project(store@, project_name@),
{
    let name = project_name.to_owned();
    match &store.active {
        Some(rows) => Ok(select_project(rows, &name)),
        None => Err(StorageError::NotInitialized),
    }
}

/// Lists every active task, in order of insertion; `NotInitialized` where the
/// active table was never created.
pub fn get_all_tasks(store: &TaskStore) -> (r: Result<Vec<TodoView>, StorageError>)
    ensures
        listing_view(r) == all_active(store@),
{
    match &store.active {
        Some(rows) => {
            let mut out: Vec<TodoView> = Vec::new();
            let mut i: usize = 0;
            while i < rows.len()
                invariant
                    i <= rows.len(),
                    out@ == rows@.take(i as int),
                decreases rows.len() - i,
            {
                out.push(copy_row(&rows[i]));
                i += 1;
                assert(out@ =~= rows@.take(i as int));
            }
            assert(rows@.take(rows.len() as int) =~= rows@);
            Ok(out)
        },
        None => Err(StorageError::NotInitialized),
    }
}

/// Lists every archived task, in order of archive id. The archive table is
/// created first where it is absent, so this listing never fails.
pub fn get_all_archived_tasks(store: &mut TaskStore) -> (r: Result<Vec<ArchivedTask>, StorageError>)
    requires
        old(store).wf(),
    ensures
        final(store).wf(),
        final(store)@.active == old(store)@.active,
        final(store)@.archived == Some(old(store)@.archived_rows()),
        listing_view(r) == Ok::<Seq<ArchivedTask>, StorageError>(old(store)@.archived_rows()),
{
    store.ensure_archive_schema();
    match &store.archived {
        Some(rows) => {
            let mut out: Vec<ArchivedTask> = Vec::new();
            let mut i: usize = 0;
            while i < rows.len()
                invariant
                    i <= rows.len(),
                    out@ == rows@.take(i as int),
                decreases rows.len() - i,
            {
                out.push(copy_archived(&rows[i]));
                i += 1;
                assert(out@ =~= rows@.take(i as int));
            }
            assert(rows@.take(rows.len() as int) =~= rows@);
            Ok(out)
        },
        None => Ok(Vec::new()),
    }
}

/// Lists the archived tasks of the project named `project_name`, in order of
/// archive id. The archive table is created first where it is absent, so
/// this listing never fails.
pub fn get_archived_tasks(project_name: &str, store: &mut TaskStore) -> (r: Result<
    Vec<ArchivedTask>,
    StorageError,
>)
    requires
        old(store).wf(),
    ensures
        final(store).wf(),
        final(store)@.active == old(store)@.active,
        final(store)@.archived == Some(old(store)@.archived_rows()),
        listing_view(r) == Ok::<Seq<ArchivedTask>, StorageError>(
            archived_in_project(old(store)@.archived_rows(), project_name@),
        ),
{
    store.ensure_archive_schema();
    let name = project_name.to_owned();
    match &store.archived {
        Some(rows) => Ok(select_archived_project(rows, &name)),
        None => Ok(Vec::new()),
    }
}

/// A count as the stats query returns it: `NotInitialized` where the active
/// table was never created, `StorageUnavailable` where the number does not
/// fit a `u32`, else the number.
pub open spec fn counted(s: StoreModel, n: int) -> Result<u32, StorageError> {
    if s.active is None {
        Err(StorageError::NotInitialized)
    } else if n <= u32::MAX {
        Ok(n as u32)
    } else {
        Err(StorageError::StorageUnavailable)
    }
}

/// The number of pending tasks, as the stats query returns it.
pub open spec fn pending_count(s: StoreModel) -> Result<u32, StorageError> {
    counted(s, pending(s.active_rows()).len() as int)
}

/// The number of overdue tasks on `today`, as the stats query returns it.
pub open spec fn overdue_count(s: StoreModel, today: DateOnly) -> Result<u32, StorageError> {
    counted(s, overdue(s.active_rows(), today).len() as int)
}

/// Counts the active tasks not yet complete; `NotInitialized` where the
/// active table was never created.
pub fn count_pending(store: &TaskStore) -> (r: Result<u32, StorageError>)
    ensures
        r == pending_count(store@),
{
    match &store.active {
        None => Err(StorageError::NotInitialized),
        Some(rows) => {
            let mut n: usize = 0;
            let mut i: usize = 0;
            while i < rows.len()
                invariant
                    i <= rows.len(),
                    n == pending(rows@.take(i as int)).len(),
                    n <= i,
                decreases rows.len() - i,
            {
                proof {
                    reveal(Seq::filter);
                    assert(rows@.take(i + 1).drop_last() =~= rows@.take(i as int));
                }
                if !rows[i].complete {
                    n += 1;
                }
                i += 1;
            }
            assert(rows@.take(rows.len() as int) =~= rows@);
            if n > u32::MAX as usize {
                Err(StorageError::StorageUnavailable)
            } else {
                Ok(n as u32)
            }
        },
    }
}

/// Counts the active tasks not yet complete whose due date is strictly
/// before `today`; a due date that is no date never counts.
/// `NotInitialized` where the active table was never created.
pub fn count_overdue(store: &TaskStore, today: &DateOnly) -> (r: Result<u32, StorageError>)
    ensures
        r == overdue_count(store@, *today),
{
    match &store.active {
        None => Err(StorageError::NotInitialized),
        Some(rows) => {
            let mut n: usize = 0;
            let mut i: usize = 0;
            while i < rows.len()
                invariant
                    i <= rows.len(),
                    n == overdue(rows@.take(i as int), *today).len(),
                    n <= i,
                decreases rows.len() - i,
            {
                proof {
                    reveal(Seq::filter);
                    assert(rows@.take(i + 1).drop_last() =~= rows@.take(i as int));
                }
                if !rows[i].complete && due_date_passed(rows[i].due_date.as_str(), today) {
                    n += 1;
                }
                i += 1;
            }
            assert(rows@.take(rows.len() as int) =~= rows@);
            if n > u32::MAX as usize {
                Err(StorageError::StorageUnavailable)
            } else {
                Ok(n as u32)
            }
        },
    }
}

} // verus!
