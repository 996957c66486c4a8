//! A minimalistic task tracker: tasks with a triage level, a status and a
//! size, kept in JSON databases that a TOML configuration lists.
//!
//! This crate holds the tracker's logic with its proofs: the task levels and
//! their names and numbers, the task databases, the configuration, the paths
//! and defaults the tracker derives, and the task hashes.

pub mod config;
pub mod database;
pub mod hash;
pub mod paths;
pub mod task;
pub mod text;
