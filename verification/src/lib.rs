//! An in-memory task tracker: tasks move through a small workflow of
//! statuses, and every operation of the store is specified over a
//! mathematical map from identifiers to tasks.

pub mod commands;
pub mod identifiers;
pub mod laws;
pub mod manifest;
pub mod task_manager;
pub mod tasks;
pub mod text;
