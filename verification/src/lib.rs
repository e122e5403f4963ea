//! A client of the Gitea forge, for release automation: commits, tags, releases,
//! pull requests and their labels, and branches of one repository.
//!
//! The library sends nothing itself. Each operation of [`gitea::Gitea`] yields a
//! request, and takes the reply to it; one that takes several is a state with a
//! step (see [`http`]). What every operation does is a function of its state and
//! the reply, given over the values of both; [`laws`] says what whole runs of
//! operations come to.

pub mod bindings;
pub mod branches;
pub mod commits;
pub mod error;
pub mod files;
pub mod gitea;
pub mod http;
pub mod labels;
pub mod laws;
pub mod pull_edits;
pub mod pulls;
pub mod releases;
pub mod tags;
pub mod text;
pub mod types;
pub mod wire;
