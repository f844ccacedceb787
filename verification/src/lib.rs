//! Publishing build artifacts to the "master" release of a GitHub repository.
//!
//! The crate holds the decisions of the publishing run: which request comes
//! next, what it carries, and how each answer is judged. Sending the requests,
//! reading the artifact directory and asking the version-control system for
//! the current commit are left to the caller, who feeds the outcomes back as
//! events.

pub mod status;
pub mod text;
pub mod host;
pub mod measure;
pub mod json;
pub mod release;
pub mod request;
pub mod workflow;
pub mod laws;
pub mod directory;
pub mod config;
