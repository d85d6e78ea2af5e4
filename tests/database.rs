use task_tracker::args::UpdateTask;
use task_tracker::database::{
    archive_task, count_overdue, count_pending, get_all_archived_tasks, get_all_tasks,
    get_archived_tasks, get_tasks, StorageError, TaskStore, TodoData, TodoView,
};
use task_tracker::date::DateOnly;

use chrono::Datelike;

fn today() -> DateOnly {
    let d = chrono::Utc::now().date_naive();
    DateOnly { year: d.year(), month: d.month(), day: d.day() }
}

fn now() -> String {
    String::from("2023-02-01 12:00:00")
}

fn task(project: &str, task: &str, due_date: &str, complete: bool) -> TodoData {
    TodoData {
        project: String::from(project),
        task: String::from(task),
        due_date: String::from(due_date),
        complete,
    }
}

#[test]
fn add_data() {
    let mut store = TaskStore::new();
    let sample = task("Test", "Test", "2023-01-01", false);

    assert_eq!(Ok(()), sample.write_data(&mut store));
}

#[test]
fn update_data() {
    let mut store = TaskStore::new();
    let prepare = task("Test", "Test", "2023-01-01", false);
    let sample = task("Test", "Test", "2023-01-01", false);

    prepare.write_data(&mut store).expect("database does not exist");

    let sample_param = UpdateTask { id: 1, complete: true, delete: false };

    assert_eq!(Ok(()), sample.update_task(sample_param, &mut store));
}

#[test]
fn delete_data() {
    let mut store = TaskStore::new();
    let prepare = task("Test", "Test", "2023-01-01", false);
    let sample = task("Test", "Test", "2023-01-01", false);

    prepare.write_data(&mut store).expect("database does not exist");

    let sample_param = UpdateTask { id: 1, complete: false, delete: true };

    assert_eq!(Ok(()), sample.update_task(sample_param, &mut store));
}

#[test]
fn get_all_data() {
    let mut store = TaskStore::new();
    let prepare = task("Apple", "Test", "2023-01-01", false);

    prepare.write_data(&mut store).expect("database does not exist");

    assert_eq!(
        Ok(vec![TodoView {
            id: 1,
            project: String::from("Apple"),
            task: String::from("Test"),
            due_date: String::from("2023-01-01"),
            complete: false,
        }]),
        get_all_tasks(&store)
    );
}

#[test]
fn get_project_data() {
    let mut store = TaskStore::new();
    let prepare = task("Apple", "Test", "2023-01-01", false);

    prepare.write_data(&mut store).expect("database does not exist");

    assert_eq!(
        Ok(vec![TodoView {
            id: 1,
            project: String::from("Apple"),
            task: String::from("Test"),
            due_date: String::from("2023-01-01"),
            complete: false,
        }]),
        get_tasks("Apple", &store)
    );
}

#[test]
fn get_pending_count() {
    let mut store = TaskStore::new();
    let prepare = task("Apple", "Test", "2023-01-01", false);

    prepare.write_data(&mut store).expect("database does not exist");

    assert_eq!(Ok(1), count_pending(&store));
}

#[test]
fn get_overdue_count() {
    let mut store = TaskStore::new();
    let prepare = task("Apple", "Test", "2023-01-01", false);

    prepare.write_data(&mut store).expect("database does not exist");

    assert_eq!(Ok(1), count_overdue(&store, &today()));
}

#[test]
fn test_archive_task() {
    let mut store = TaskStore::new();
    let t = task("Work", "Complete presentation", "2023-01-15", false);

    t.write_data(&mut store).expect("Failed to create task");

    assert_eq!(Ok(()), archive_task(1, &mut store, now()));

    let main_tasks = get_all_tasks(&store).unwrap();
    assert_eq!(main_tasks.len(), 0);

    let archived_tasks = get_all_archived_tasks(&mut store).unwrap();
    assert_eq!(archived_tasks.len(), 1);
    assert_eq!(archived_tasks[0].project, "Work");
    assert_eq!(archived_tasks[0].task, "Complete presentation");
}

#[test]
fn archive_nonexistent_task() {
    let mut store = TaskStore::new();

    let result = archive_task(999, &mut store, now());
    assert!(result.is_err());
}

#[test]
fn test_get_all_archived_tasks() {
    let mut store = TaskStore::new();
    let task1 = task("Work", "Task 1", "2023-01-01", true);
    let task2 = task("Personal", "Task 2", "2023-01-02", false);

    task1.write_data(&mut store).expect("Failed to create task1");
    task2.write_data(&mut store).expect("Failed to create task2");

    archive_task(1, &mut store, now()).expect("Failed to archive task1");
    archive_task(2, &mut store, now()).expect("Failed to archive task2");

    let archived = get_all_archived_tasks(&mut store).unwrap();
    assert_eq!(archived.len(), 2);

    let main_tasks = get_all_tasks(&store).unwrap();
    assert_eq!(main_tasks.len(), 0);
}

#[test]
fn get_archived_tasks_by_project() {
    let mut store = TaskStore::new();
    let work_task = task("Work", "Work task", "2023-01-01", false);
    let personal_task = task("Personal", "Personal task", "2023-01-02", false);

    work_task.write_data(&mut store).expect("Failed to create work task");
    personal_task.write_data(&mut store).expect("Failed to create personal task");

    archive_task(1, &mut store, now()).expect("Failed to archive work task");
    archive_task(2, &mut store, now()).expect("Failed to archive personal task");

    let work_archived = get_archived_tasks("Work", &mut store).unwrap();
    assert_eq!(work_archived.len(), 1);
    assert_eq!(work_archived[0].project, "Work");
    assert_eq!(work_archived[0].task, "Work task");

    let personal_archived = get_archived_tasks("Personal", &mut store).unwrap();
    assert_eq!(personal_archived.len(), 1);
    assert_eq!(personal_archived[0].project, "Personal");
    assert_eq!(personal_archived[0].task, "Personal task");
}

#[test]
fn archive_task_transaction_integrity() {
    let mut store = TaskStore::new();
    let t = task("Test", "Transaction test", "2023-01-01", false);

    t.write_data(&mut store).expect("Failed to create task");

    archive_task(1, &mut store, now()).expect("Failed to archive task");

    let main_count = get_all_tasks(&store).unwrap().len();
    let archive_count = get_all_archived_tasks(&mut store).unwrap().len();

    assert_eq!(main_count, 0, "Task should be removed from main table");
    assert_eq!(archive_count, 1, "Task should exist in archive table");
}

#[test]
fn write_then_list_gives_one_equal_row() {
    let mut store = TaskStore::new();
    task("Home", "Paint fence", "2024-05-05", true).write_data(&mut store).unwrap();
    let rows = get_all_tasks(&store).unwrap();
    assert_eq!(rows.len(), 1);
    assert_eq!(rows[0].project, "Home");
    assert_eq!(rows[0].task, "Paint fence");
    assert_eq!(rows[0].due_date, "2024-05-05");
    assert!(rows[0].complete);
}

#[test]
fn ids_follow_the_largest() {
    let mut store = TaskStore::new();
    for name in ["a", "b", "c"] {
        task("P", name, "2023-01-01", false).write_data(&mut store).unwrap();
    }
    task("P", "x", "2023-01-01", false)
        .update_task(UpdateTask { id: 2, complete: false, delete: true }, &mut store)
        .unwrap();
    task("P", "d", "2023-01-01", false).write_data(&mut store).unwrap();
    let ids: Vec<u64> = get_all_tasks(&store).unwrap().iter().map(|t| t.id).collect();
    assert_eq!(ids, vec![1, 3, 4]);
}

#[test]
fn archive_keeps_fields_and_stamps_time() {
    let mut store = TaskStore::new();
    task("Work", "Report", "2023-03-03", true).write_data(&mut store).unwrap();
    archive_task(1, &mut store, String::from("2023-04-04 10:00:00")).unwrap();
    let archived = get_all_archived_tasks(&mut store).unwrap();
    assert_eq!(archived.len(), 1);
    assert_eq!(archived[0].id, 1);
    assert_eq!(archived[0].project, "Work");
    assert_eq!(archived[0].task, "Report");
    assert_eq!(archived[0].due_date, "2023-03-03");
    assert!(archived[0].complete);
    assert_eq!(archived[0].archived_date, "2023-04-04 10:00:00");
}

#[test]
fn archive_absent_id_changes_nothing() {
    let mut store = TaskStore::new();
    task("Work", "Keep", "2023-01-01", false).write_data(&mut store).unwrap();
    assert_eq!(Err(StorageError::NotFound), archive_task(7, &mut store, now()));
    assert_eq!(get_all_tasks(&store).unwrap().len(), 1);
    assert_eq!(get_all_archived_tasks(&mut store).unwrap().len(), 0);
}

#[test]
fn archive_without_active_table_is_not_found() {
    let mut store = TaskStore::new();
    assert_eq!(Err(StorageError::NotFound), archive_task(1, &mut store, now()));
    assert_eq!(Err(StorageError::NotInitialized), get_all_tasks(&store));
    assert!(store.into_tables().1.is_none());
}

#[test]
fn conflicting_update_changes_nothing() {
    let mut store = TaskStore::new();
    task("Work", "Keep", "2023-01-01", false).write_data(&mut store).unwrap();
    assert_eq!(Err(StorageError::ConflictingUpdate), store.apply_update(1, true, true));
    assert_eq!(Err(StorageError::ConflictingUpdate), store.apply_update(42, true, true));
    let rows = get_all_tasks(&store).unwrap();
    assert_eq!(rows.len(), 1);
    assert!(!rows[0].complete);
}

#[test]
fn conflicting_update_on_empty_store() {
    let mut store = TaskStore::new();
    assert_eq!(Err(StorageError::ConflictingUpdate), store.apply_update(1, true, true));
    assert_eq!(Err(StorageError::NotInitialized), get_all_tasks(&store));
}

#[test]
fn mark_complete_twice_is_idempotent() {
    let mut store = TaskStore::new();
    task("Work", "Twice", "2023-01-01", false).write_data(&mut store).unwrap();
    assert_eq!(Ok(()), store.apply_update(1, true, false));
    assert!(get_all_tasks(&store).unwrap()[0].complete);
    assert_eq!(Ok(()), store.apply_update(1, true, false));
    let rows = get_all_tasks(&store).unwrap();
    assert_eq!(rows.len(), 1);
    assert!(rows[0].complete);
}

#[test]
fn update_of_unknown_id_is_silent() {
    let mut store = TaskStore::new();
    task("Work", "Stay", "2023-01-01", false).write_data(&mut store).unwrap();
    assert_eq!(Ok(()), store.apply_update(9, true, false));
    assert_eq!(Ok(()), store.apply_update(9, false, true));
    let rows = get_all_tasks(&store).unwrap();
    assert_eq!(rows.len(), 1);
    assert!(!rows[0].complete);
}

#[test]
fn update_with_no_flag_is_no_op() {
    let mut store = TaskStore::new();
    task("Work", "Stay", "2023-01-01", false).write_data(&mut store).unwrap();
    assert_eq!(Ok(()), store.apply_update(1, false, false));
    assert_eq!(get_all_tasks(&store).unwrap().len(), 1);
}

#[test]
fn update_without_table_is_silent() {
    let mut store = TaskStore::new();
    assert_eq!(Ok(()), store.apply_update(1, true, false));
    assert_eq!(Ok(()), store.apply_update(1, false, true));
    assert_eq!(Ok(()), store.apply_update(1, false, false));
    assert_eq!(Err(StorageError::NotInitialized), get_all_tasks(&store));
}

#[test]
fn counts_follow_completion_and_due_date() {
    let mut store = TaskStore::new();
    task("A", "old open", "2020-01-01", false).write_data(&mut store).unwrap();
    task("A", "old done", "2020-01-01", true).write_data(&mut store).unwrap();
    task("B", "future open", "2999-12-31", false).write_data(&mut store).unwrap();
    task("B", "bad date", "soon", false).write_data(&mut store).unwrap();
    task("B", "due today", "2023-06-15", false).write_data(&mut store).unwrap();
    let day = DateOnly { year: 2023, month: 6, day: 15 };
    assert_eq!(Ok(4), count_pending(&store));
    assert_eq!(Ok(1), count_overdue(&store, &day));
    let next_day = DateOnly { year: 2023, month: 6, day: 16 };
    assert_eq!(Ok(2), count_overdue(&store, &next_day));
}

#[test]
fn counts_without_table_are_not_initialized() {
    let store = TaskStore::new();
    assert_eq!(Err(StorageError::NotInitialized), count_pending(&store));
    assert_eq!(
        Err(StorageError::NotInitialized),
        count_overdue(&store, &DateOnly { year: 2023, month: 1, day: 1 })
    );
}

#[test]
fn empty_table_lists_nothing() {
    let mut store = TaskStore::new();
    store.ensure_schema();
    assert_eq!(Ok(vec![]), get_all_tasks(&store));
    assert_eq!(Ok(0), count_pending(&store));
}

#[test]
fn project_filter_matches_exactly() {
    let mut store = TaskStore::new();
    task("Work", "one", "2023-01-01", false).write_data(&mut store).unwrap();
    task("Home", "two", "2023-01-01", false).write_data(&mut store).unwrap();
    task("work", "three", "2023-01-01", false).write_data(&mut store).unwrap();
    task("Work", "four", "2023-01-01", false).write_data(&mut store).unwrap();
    let rows = get_tasks("Work", &store).unwrap();
    let names: Vec<&str> = rows.iter().map(|t| t.task.as_str()).collect();
    assert_eq!(names, vec!["one", "four"]);
    assert_eq!(get_tasks("Nothing", &store), Ok(vec![]));
}

#[test]
fn too_long_fields_are_rejected() {
    let mut store = TaskStore::new();
    let long_project = "p".repeat(51);
    assert_eq!(
        Err(StorageError::SchemaViolation),
        task(&long_project, "t", "2023-01-01", false).write_data(&mut store)
    );
    let long_task = "t".repeat(101);
    assert_eq!(
        Err(StorageError::SchemaViolation),
        task("p", &long_task, "2023-01-01", false).write_data(&mut store)
    );
    assert_eq!(Err(StorageError::NotInitialized), get_all_tasks(&store));
    let edge_project = "é".repeat(50);
    let edge_task = "t".repeat(100);
    assert_eq!(Ok(()), task(&edge_project, &edge_task, "2023-01-01", false).write_data(&mut store));
}

#[test]
fn largest_id_leaves_no_room() {
    let rows = vec![TodoView {
        id: u64::MAX,
        project: String::from("P"),
        task: String::from("last"),
        due_date: String::from("2023-01-01"),
        complete: false,
    }];
    let mut store = TaskStore::from_tables(Some(rows), None).unwrap();
    assert_eq!(
        Err(StorageError::SchemaViolation),
        task("P", "more", "2023-01-01", false).write_data(&mut store)
    );
    assert_eq!(get_all_tasks(&store).unwrap().len(), 1);
}

#[test]
fn tables_with_unordered_ids_are_refused() {
    let row = |id: u64| TodoView {
        id,
        project: String::from("P"),
        task: String::from("t"),
        due_date: String::from("2023-01-01"),
        complete: false,
    };
    assert!(TaskStore::from_tables(Some(vec![row(2), row(1)]), None).is_err());
    assert!(TaskStore::from_tables(Some(vec![row(3), row(3)]), None).is_err());
    let store = TaskStore::from_tables(Some(vec![row(1), row(5)]), None).unwrap();
    let (active, archived) = store.into_tables();
    assert_eq!(active.unwrap().len(), 2);
    assert!(archived.is_none());
}

#[test]
fn end_to_end_archive() {
    let mut store = TaskStore::new();
    task("Work", "Ship release", "2023-01-01", false).write_data(&mut store).unwrap();
    assert_eq!(Ok(1), count_pending(&store));
    let id = get_all_tasks(&store).unwrap()[0].id;
    archive_task(id, &mut store, now()).unwrap();
    assert_eq!(Ok(0), count_pending(&store));
    let archived = get_all_archived_tasks(&mut store).unwrap();
    assert_eq!(archived.len(), 1);
    assert_eq!(archived[0].project, "Work");
    assert_eq!(archived[0].task, "Ship release");
    assert_eq!(archived[0].due_date, "2023-01-01");
}
