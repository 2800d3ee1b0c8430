//! Configuration resolution and branch-naming engine for keeping a
//! per-checkout PostgreSQL database in sync with the current Git branch.
//!
//! The library merges three configuration layers (base file, local overlay,
//! environment) with a fixed precedence, maps Git branch names to valid
//! PostgreSQL database identifiers, and classifies branches as
//! creatable / switchable / disabled.

pub mod classify;
pub mod cli;
pub mod config;
pub mod database;
pub mod env;
pub mod hooks;
pub mod merge;
pub mod naming;
pub mod text;
