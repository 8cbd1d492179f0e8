//! Verified core of a tool that clones boilerplate repositories as detached
//! projects and later upgrades them by three-way merges.
pub mod text;
pub mod config;
pub mod source;
pub mod git;
pub mod cli;
pub mod snapshot;
pub mod commands;
