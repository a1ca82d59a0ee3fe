//! Release locations and pull request diffs for `tuicr`, verified with Verus.
pub mod command;
pub mod isolation;
pub mod large_diff;
pub mod local_checkout;
pub mod pull_request;
pub mod run;
pub mod source;
pub mod temporary_clone;
pub mod text;
pub mod version;
