//! Terminal client over a version-control repository: tabbed views with
//! keyboard-driven navigation and a small set of mutating actions
//! (stage, commit, refresh).
//!
//! The event-driven view and state machine lives here, fully verified; the
//! terminal, the event channel and the rendering around it are ordinary
//! unverified plumbing that calls into this crate.

pub mod app;
pub mod commands;
pub mod commit_info;
pub mod config;
pub mod errors;
pub mod events;
pub mod file_list;
pub mod keys;
pub mod numfmt;
pub mod repo_view;
pub mod repository;
pub mod status;
pub mod utils;
pub mod workflow_view;
pub mod worktrees_view;
