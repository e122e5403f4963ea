//! What holds of whole operations, whatever the forge replies.

pub mod branches;
pub mod commits;
pub mod encodings;
pub mod failures;
pub mod files;
pub mod labels;
pub mod pull_edits;
pub mod pulls;
pub mod releases;
pub mod replies;
pub mod requests;
pub mod runs;
pub mod sequences;
pub mod setup;
pub mod tags;
pub mod texts;
pub mod values;
