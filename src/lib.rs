//! A personal task tracker: an active table of tasks, an archive table, and
//! the queries and counts over them, with every operation verified against a
//! model of the two tables.

pub mod args;
pub mod data_handler;
pub mod database;
pub mod date;
pub mod laws;
pub mod views;
