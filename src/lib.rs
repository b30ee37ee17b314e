//! Decisions behind a pre-commit secret-scanning guard: which release asset
//! fits the platform and where it is installed, whether an update is due,
//! how the repository's enable switch is written and read, how the
//! scanner is invoked and its exit status read, and what the status report
//! recommends.

pub mod config;
pub mod error;
pub mod hook;
pub mod install;
pub mod metadata;
pub mod platform;
pub mod release;
pub mod scan;
pub mod status;
pub mod text;
pub mod version;
