//! Decision logic of a repository mirroring tool.
//!
//! A workspace holds cloned repositories two levels below its root. For each
//! of them the tool reads the git remotes, derives a mirror address from the
//! first GitHub address it finds, points a mirror remote at it, pushes, and
//! keeps one status record per repository name. This crate holds the rules of
//! that workflow as functions on plain values; running git, walking the disk
//! and talking to the status store are left to the caller.

pub mod record;
pub mod message;
pub mod mirror;
pub mod remote;
pub mod script;
pub mod sync;
pub mod text;
pub mod trace;
