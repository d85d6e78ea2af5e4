//! Laws of the task store: what holds of its operations taken together.

use vstd::prelude::*;

use crate::data_handler::{view_listing, ALL_PROJECTS};
use crate::database::{
    active_ids, all_active, archive_outcome, archived_copy, archived_ids, fits_schema,
    insert_outcome, next_id, overdue, overdue_count, pending, pending_count, row_of,
    update_outcome, with_id, in_project, of_project, StorageError, StoreModel, TodoData, TodoView,
};
use crate::date::{due_text_passed, DateOnly};

verus! {

/// Writing a valid task and then listing the active tasks gives the rows
/// that were there followed by exactly one new row, which carries the task's
/// fields under an id that no earlier row has; from a store without rows the
/// listing is that one row alone.
pub proof fn lemma_write_then_list(s: StoreModel, d: TodoData)
    requires
        s.wf(),
        fits_schema(d),
        next_id(active_ids(s.active_rows())) <= u64::MAX,
    ensures
        insert_outcome(s, d) matches Ok(after) && all_active(after) == Ok::<
            Seq<TodoView>,
            StorageError,
        >(s.active_rows().push(row_of(d, next_id(active_ids(s.active_rows())) as u64))),
        !active_ids(s.active_rows()).contains(next_id(active_ids(s.active_rows())) as u64),
        s.active_rows().len() == 0 ==> (insert_outcome(s, d) matches Ok(after) && all_active(after)
            == Ok::<Seq<TodoView>, StorageError>(seq![row_of(d, 1)])),
{
    let ids = active_ids(s.active_rows());
    if s.active_rows().len() == 0 {
        assert(s.active_rows().push(row_of(d, 1)) =~= seq![row_of(d, 1)]);
    } else {
        assert forall|i: int| 0 <= i < ids.len() implies ids[i] < next_id(ids) by {
            if i < ids.len() - 1 {
                assert(ids[i] < ids[ids.len() - 1]);
            }
        }
    }
}

/// Archiving the id of an active row removes that row from the active
/// listing, leaving no row with the id, and appends exactly one copy of it,
/// stamped with `now`, to the archive listing.
pub proof fn lemma_archive_moves_row(s: StoreModel, id: u64, now: String, k: int)
    requires
        s.wf(),
        s.active is Some,
        0 <= k < s.active_rows().len(),
        s.active_rows()[k].id == id,
        next_id(archived_ids(s.archived_rows())) <= u64::MAX,
    ensures
        archive_outcome(s, id, now) matches Ok(after) && {
            &&& all_active(after) == Ok::<Seq<TodoView>, StorageError>(s.active_rows().remove(k))
            &&& with_id(after.active_rows(), id).len() == 0
            &&& after.archived_rows() == s.archived_rows().push(
                archived_copy(
                    s.active_rows()[k],
                    next_id(archived_ids(s.archived_rows())) as u64,
                    now,
                ),
            )
        },
{
    let rows = s.active_rows();
    crate::database::lemma_without_id(rows, id, Some(k));
    let rest = rows.remove(k);
    assert forall|j: int| 0 <= j < rest.len() implies rest[j].id != id by {
        let m = if j < k { j } else { j + 1 };
        assert(active_ids(rows)[m] == rows[m].id);
        assert(active_ids(rows)[k] == rows[k].id);
    }
    crate::database::lemma_filter_drops_all(rest, |t: TodoView| t.id == id);
}

/// Archiving an id that no active row has fails with `NotFound`, whether or
/// not the active table was ever created; the operation then changes
/// neither table.
pub proof fn lemma_archive_absent(s: StoreModel, id: u64, now: String)
    requires
        s.wf(),
        forall|j: int| 0 <= j < s.active_rows().len() ==> s.active_rows()[j].id != id,
    ensures
        archive_outcome(s, id, now) == Err::<StoreModel, StorageError>(StorageError::NotFound),
{
    if s.active is Some {
        crate::database::lemma_without_id(s.active_rows(), id, None);
    }
}

/// Asking to mark a task complete and to delete it at once fails with
/// `ConflictingUpdate`, whatever the store and the id.
pub proof fn lemma_conflicting_update(s: StoreModel, id: u64)
    ensures
        update_outcome(s, id, true, true) == Err::<StoreModel, StorageError>(
            StorageError::ConflictingUpdate,
        ),
{
}

/// In a sequence without duplicates, the number of elements that pass a
/// predicate is the size of the set of such elements.
proof fn lemma_filter_counts_set<A>(s: Seq<A>, p: spec_fn(A) -> bool)
    requires
        s.no_duplicates(),
    ensures
        s.filter(p).no_duplicates(),
        s.filter(p).len() == s.to_set().filter(p).len(),
    decreases s.len(),
{
    reveal(Seq::filter);
    if s.len() > 0 {
        let rest = s.drop_last();
        assert(rest.no_duplicates());
        lemma_filter_counts_set(rest, p);
        if p(s.last()) {
            if rest.filter(p).contains(s.last()) {
                rest.lemma_filter_contains_rev(p, s.last());
                let i = choose|i: int| 0 <= i < rest.len() && rest[i] == s.last();
                assert(s[i] == s[s.len() - 1]);
            }
        }
    }
    broadcast use vstd::seq_lib::group_filter_ensures;
    assert(s.filter(p).to_set() =~= s.to_set().filter(p)) by {
        assert forall|a: A| s.to_set().filter(p).contains(a) implies s.filter(p).to_set().contains(
            a,
        ) by {
            let i = choose|i: int| 0 <= i < s.len() && s[i] == a;
            s.lemma_filter_contains(p, i);
        }
        assert forall|a: A| s.filter(p).to_set().contains(a) implies s.to_set().filter(p).contains(
            a,
        ) by {
            s.lemma_filter_contains_rev(p, a);
            let i = choose|i: int| 0 <= i < s.filter(p).len() && s.filter(p)[i] == a;
            s.lemma_filter_pred(p, i);
        }
    }
    s.filter(p).unique_seq_to_set();
}

/// Rows with ascending ids are all distinct.
proof fn lemma_rows_distinct(rows: Seq<TodoView>)
    requires
        crate::database::ids_ascend(active_ids(rows)),
    ensures
        rows.no_duplicates(),
{
    assert forall|i: int, j: int| 0 <= i < rows.len() && 0 <= j < rows.len() && i != j implies rows[i]
        != rows[j] by {
        assert(active_ids(rows)[i] == rows[i].id);
        assert(active_ids(rows)[j] == rows[j].id);
    }
}

/// The pending count is the number of elements of the set of active tasks
/// not yet complete; the overdue count is that of the set of those whose due
/// date has also passed by `today`.
pub proof fn lemma_counts_are_set_sizes(s: StoreModel, today: DateOnly)
    requires
        s.wf(),
        s.active is Some,
        s.active_rows().len() <= u32::MAX,
    ensures
        pending_count(s) == Ok::<u32, StorageError>(
            s.active_rows().to_set().filter(|t: TodoView| !t.complete).len() as u32,
        ),
        overdue_count(s, today) == Ok::<u32, StorageError>(
            s.active_rows().to_set().filter(
                |t: TodoView| !t.complete && due_text_passed(t.due_date@, today),
            ).len() as u32,
        ),
{
    let rows = s.active_rows();
    lemma_rows_distinct(rows);
    lemma_filter_counts_set(rows, |t: TodoView| !t.complete);
    lemma_filter_counts_set(rows, |t: TodoView| !t.complete && due_text_passed(t.due_date@, today));
    broadcast use vstd::seq_lib::group_filter_ensures;
    assert(pending(rows).len() <= rows.len());
    assert(overdue(rows, today).len() <= rows.len());
}

/// Listing under a project name gives just the rows of that project, in
/// their order, and every one of them; listing under `All` gives every row
/// whatever its project.
pub proof fn lemma_project_filter(s: StoreModel, filter: Seq<char>)
    requires
        s.active is Some,
    ensures
        filter == ALL_PROJECTS@ ==> view_listing(s, filter) == Ok::<Seq<TodoView>, StorageError>(
            s.active_rows(),
        ),
        filter != ALL_PROJECTS@ ==> (view_listing(s, filter) matches Ok(sel) && {
            &&& forall|i: int| 0 <= i < sel.len() ==> sel[i].project@ == filter
            &&& forall|t: TodoView| s.active_rows().contains(t) && t.project@ == filter ==> sel.contains(t)
            &&& forall|t: TodoView| sel.contains(t) ==> s.active_rows().contains(t)
            &&& sel == in_project(s.active_rows(), filter)
        }),
{
    let rows = s.active_rows();
    let p = of_project(filter);
    broadcast use vstd::seq_lib::group_filter_ensures;
    assert forall|t: TodoView| rows.contains(t) && t.project@ == filter implies rows.filter(p).contains(t) by {
        let i = choose|i: int| 0 <= i < rows.len() && rows[i] == t;
        rows.lemma_filter_contains(p, i);
    }
    assert forall|t: TodoView| rows.filter(p).contains(t) implies rows.contains(t) by {
        rows.lemma_filter_contains_rev(p, t);
    }
    assert forall|i: int| 0 <= i < rows.filter(p).len() implies rows.filter(p)[i].project@ == filter by {
        rows.lemma_filter_pred(p, i);
    }
}

/// An update of an id that no active row has succeeds and leaves the store
/// as it was, unless it asks for both actions at once.
pub proof fn lemma_update_unknown_id(s: StoreModel, id: u64, mark_complete: bool, delete: bool)
    requires
        s.wf(),
        !(mark_complete && delete),
        forall|j: int| 0 <= j < s.active_rows().len() ==> s.active_rows()[j].id != id,
    ensures
        update_outcome(s, id, mark_complete, delete) == Ok::<StoreModel, StorageError>(s),
{
    if s.active is Some {
        let rows = s.active_rows();
        crate::database::lemma_without_id(rows, id, None);
        assert(crate::database::marked_complete(rows, id) =~= rows);
        let after = update_outcome(s, id, mark_complete, delete)->Ok_0;
        assert(after.active_rows() =~= rows);
    }
}

/// Marking a task complete twice over succeeds both times and leaves the
/// same store: each row with the id is complete after the first time, and
/// the second time changes nothing.
pub proof fn lemma_mark_complete_twice(s: StoreModel, id: u64)
    ensures
        update_outcome(s, id, true, false) matches Ok(once) && {
            &&& update_outcome(once, id, true, false) == Ok::<StoreModel, StorageError>(once)
            &&& forall|i: int|
                0 <= i < once.active_rows().len() && #[trigger] once.active_rows()[i].id == id
                    ==> once.active_rows()[i].complete
        },
{
    let once = update_outcome(s, id, true, false)->Ok_0;
    let twice = update_outcome(once, id, true, false)->Ok_0;
    assert(twice.active_rows() =~= once.active_rows());
    assert(twice == once);
}

} // verus!
