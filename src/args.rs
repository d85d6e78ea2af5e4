//! The requests that the command line hands to the tracker.

use vstd::prelude::*;

use crate::database::TodoData;

verus! {

/// The whole command line.
pub struct Cli {
    pub options: OptionTypes,
}

/// The groups of commands.
pub enum OptionTypes {
    /// Add task, update task, view task
    Task(TaskOptions),
}

/// The task commands.
pub struct TaskOptions {
    pub command: TaskSubcommand,
}

/// One task command.
pub enum TaskSubcommand {
    /// Add a new task
    Add(AddTask),
    /// Update a task
    Update(UpdateTask),
    /// View tasks
    View(ViewTask),
    /// Archive a task
    Archive(ArchiveTask),
    /// View archived tasks
    ViewArchive(ViewArchiveTask),
    /// Count pending or overdue tasks
    Stats(GetStats),
}

/// A request to create a task.
pub struct AddTask {
    /// Project name
    pub project: String,
    /// Task description
    pub task: String,
    /// Due date in format 'YYYY-MM-DD'
    pub due_date: String,
    /// Status
    pub complete: bool,
}

impl AddTask {
    /// The task that this request creates, as a value.
    pub open spec fn data(self) -> TodoData {
        TodoData {
            project: self.project,
            task: self.task,
            due_date: self.due_date,
            complete: self.complete,
        }
    }

    /// The task that this request creates.
    pub fn to_todo_data(self) -> (r: TodoData)
        ensures
            r == self.data(),
    {
        TodoData {
            project: self.project,
            task: self.task,
            due_date: self.due_date,
            complete: self.complete,
        }
    }
}

/// A request to mark a task complete or to delete it.
#[derive(Clone, Copy, Debug, PartialEq, Eq, Structural)]
pub struct UpdateTask {
    /// Row ID for task
    pub id: u64,
    /// Mark as complete
    pub complete: bool,
    /// Delete task
    pub delete: bool,
}

impl UpdateTask {
    /// Task data to go with an update: only the completion flag carries
    /// anything, the text fields hold a placeholder.
    pub fn to_todo_data(self) -> (r: TodoData)
        ensures
            r.complete == self.complete,
            r.project@ == PLACEHOLDER@,
            r.task@ == PLACEHOLDER@,
            r.due_date@ == PLACEHOLDER@,
    {
        TodoData {
            project: PLACEHOLDER.to_owned(),
            task: PLACEHOLDER.to_owned(),
            due_date: PLACEHOLDER.to_owned(),
            complete: self.complete,
        }
    }
}

/// The text that stands in the fields of an update's task data.
pub const PLACEHOLDER: &'static str = "Placeholder";

/// A request to list active tasks.
pub struct ViewTask {
    /// View specific project, or every project under the name `All`
    pub project: String,
}

/// A request to archive a task.
pub struct ArchiveTask {
    /// Row ID for task to archive
    pub id: u64,
}

/// A request to list archived tasks.
pub struct ViewArchiveTask {
    /// View archived tasks for specific project, or every project under the
    /// name `All`
    pub project: String,
}

/// A request for a count.
pub struct GetStats {
    /// Get pending tasks count
    pub pending: bool,
    /// Get overdue tasks count
    pub overdue: bool,
}

} // verus!
