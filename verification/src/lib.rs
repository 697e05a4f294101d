//! Repository logic for the `goal_intent_data` table.
//!
//! The table holds immutable snapshots of a goal intent's data; the newest
//! snapshot (the row with the greatest id for a given `goal_intent_id`) is its
//! current state.  This crate verifies the repository's semantics — insert,
//! point lookup, and the filtered, paginated query — against an in-memory
//! model of the table, states the exact SQL statements the database-backed
//! path issues, and maps database rows back into typed records.

pub mod db;
pub mod laws;
pub mod model;
pub mod seq_util;
pub mod store;
pub mod text;
