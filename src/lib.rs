//! Incremental data loading and view navigation for a workflow-execution dashboard.
//!
//! The library holds what a terminal front end decides: which rows are loaded,
//! which fetch runs next, which row is highlighted and which view is shown.
//! Fetching, timing and drawing stay with the caller, which hands results back
//! as plain values.

pub mod loading;
pub mod collection;
pub mod controller;
pub mod selection;
pub mod pane;
pub mod keys;
pub mod execution;
pub mod workflow;
pub mod query;
pub mod table;
pub mod navigator;
pub mod label;
pub mod laws;
