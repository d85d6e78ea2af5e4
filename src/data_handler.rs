//! Carrying out one task command against the store.

use vstd::prelude::*;

use crate::args::TaskSubcommand;
use crate::database::{
    active_of_project, all_active, archive_outcome, archive_task, archived_in_project,
    count_overdue, count_pending, get_all_archived_tasks, get_all_tasks, get_archived_tasks,
    get_tasks, insert_outcome, overdue_count, pending_count, update_outcome, ArchivedTask,
    StorageError, StoreModel, TaskStore, TodoView,
};
use crate::date::DateOnly;

verus! {

/// The project name that stands for every project in a listing.
pub const ALL_PROJECTS: &'static str = "All";

/// What a command produced.
pub enum Response {
    /// The store was changed as asked.
    Done,
    /// Active tasks, in order of insertion.
    Tasks(Vec<TodoView>),
    /// Archived tasks, in order of archive id.
    ArchivedTasks(Vec<ArchivedTask>),
    /// A count of tasks.
    Count(u32),
    /// The command failed and changed nothing.
    Failed(StorageError),
}

/// Listing active tasks under `filter`: all of them under the name `All`,
/// else those whose project is `filter`.
pub open spec fn view_listing(s: StoreModel, filter: Seq<char>) -> Result<
    Seq<TodoView>,
    StorageError,
> {
    if filter == ALL_PROJECTS@ {
        all_active(s)
    } else {
        active_of_project(s, filter)
    }
}

/// The archived rows that a listing under `filter` selects.
pub open spec fn archive_selection(rows: Seq<ArchivedTask>, filter: Seq<char>) -> Seq<
    ArchivedTask,
> {
    if filter == ALL_PROJECTS@ {
        rows
    } else {
        archived_in_project(rows, filter)
    }
}

/// The response to a command that changes the store, and the store after it.
pub open spec fn changed_as(
    r: Response,
    before: StoreModel,
    after: StoreModel,
    outcome: Result<StoreModel, StorageError>,
) -> bool {
    match outcome {
        Ok(s) => r is Done && after == s,
        Err(e) => r == Response::Failed(e) && after == before,
    }
}

/// The stats query counts overdue tasks only when asked for those alone, and
/// pending tasks otherwise.
pub open spec fn counts_overdue(pending: bool, overdue: bool) -> bool {
    overdue && !pending
}

/// Carries out one command: adds, updates or archives a task, lists active
/// or archived tasks, or counts pending or overdue tasks. `today` decides
/// which tasks are overdue; `now` stamps an archived task.
pub fn handle_data(data_to_handle: TaskSubcommand, store: &mut TaskStore, today: &DateOnly, now: String) -> (r:
    Response)
    requires
        old(store).wf(),
    ensures
        final(store).wf(),
        match data_to_handle {
            TaskSubcommand::Add(add) => changed_as(
                r,
                old(store)@,
                final(store)@,
                insert_outcome(old(store)@, add.data()),
            ),
            TaskSubcommand::Update(u) => changed_as(
                r,
                old(store)@,
                final(store)@,
                update_outcome(old(store)@, u.id, u.complete, u.delete),
            ),
            TaskSubcommand::Archive(a) => changed_as(
                r,
                old(store)@,
                final(store)@,
                archive_outcome(old(store)@, a.id, now),
            ),
            TaskSubcommand::View(v) => final(store)@ == old(store)@ && match view_listing(
                old(store)@,
                v.project@,
            ) {
                Ok(rows) => r matches Response::Tasks(t) && t@ == rows,
                Err(e) => r == Response::Failed(e),
            },
            TaskSubcommand::ViewArchive(v) => {
                &&& final(store)@.active == old(store)@.active
                &&& final(store)@.archived == Some(old(store)@.archived_rows())
                &&& (r matches Response::ArchivedTasks(t) && t@ == archive_selection(
                    old(store)@.archived_rows(),
                    v.project@,
                ))
            },
            TaskSubcommand::Stats(g) => final(store)@ == old(store)@ && match (if counts_overdue(
                g.pending,
                g.overdue,
            ) {
                overdue_count(old(store)@, *today)
            } else {
                pending_count(old(store)@)
            }) {
                Ok(n) => r == Response::Count(n),
                Err(e) => r == Response::Failed(e),
            },
        },
{
    let all = ALL_PROJECTS.to_owned();
    match data_to_handle {
        TaskSubcommand::Add(add) => {
            let data = add.to_todo_data();
            match data.write_data(store) {
                Ok(()) => Response::Done,
                Err(e) => Response::Failed(e),
            }
        },
        TaskSubcommand::Update(u) => {
            let data = u.to_todo_data();
            match data.update_task(u, store) {
                Ok(()) => Response::Done,
                Err(e) => Response::Failed(e),
            }
        },
        TaskSubcommand::Archive(a) => {
            match archive_task(a.id, store, now) {
                Ok(()) => Response::Done,
                Err(e) => Response::Failed(e),
            }
        },
        TaskSubcommand::View(v) => {
            let listing = if v.project == all {
                get_all_tasks(store)
            } else {
                get_tasks(v.project.as_str(), store)
            };
            match listing {
                Ok(rows) => Response::Tasks(rows),
                Err(e) => Response::Failed(e),
            }
        },
        TaskSubcommand::ViewArchive(v) => {
            let listing = if v.project == all {
                get_all_archived_tasks(store)
            } else {
                get_archived_tasks(v.project.as_str(), store)
            };
            match listing {
                Ok(rows) => Response::ArchivedTasks(rows),
                Err(e) => Response::Failed(e),
            }
        },
        TaskSubcommand::Stats(g) => {
            let count = if g.overdue && !g.pending {
                count_overdue(store, today)
            } else {
                count_pending(store)
            };
            match count {
                Ok(n) => Response::Count(n),
                Err(e) => Response::Failed(e),
            }
        },
    }
}

} // verus!
