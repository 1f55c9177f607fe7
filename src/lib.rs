//! A merge queue for pull requests: it tests one approved pull request at a
//! time against the tip of its base branch and lands it only when every
//! required check passed.
pub mod config;
pub mod github;
pub mod queue;
pub mod state;
