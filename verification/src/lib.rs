//! Run commands across Foreman-managed hosts: the verified core.
//!
//! The library holds the decisions of the tool: how settings from the
//! command line, the configuration file and the environment are merged,
//! how the Foreman host query is addressed and read, how SSH outcomes are
//! reported and when a run counts as failed. Reading files, talking HTTP,
//! spawning `ssh` and printing live in the application around it.

mod text;

pub mod level;

pub mod codes;
pub mod config;
pub mod foreman;
pub mod report;
pub mod runner;
pub mod ssh;
