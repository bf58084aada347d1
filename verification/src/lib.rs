//! A model of the events that a toolchain-checking pipeline reports.
//!
//! Each step of the pipeline (fetching the release index, setting up a
//! toolchain, running a check, seeing it pass or fail) is described by an
//! [`Action`]: an immutable record of what the step is about, from which a
//! machine-readable name and a display status are derived.

pub mod action;
pub mod laws;
pub mod release_source;
pub mod toolchain;
pub mod version;

pub use action::{Action, ActionDetails, ActionStatus, ScopePosition};
pub use release_source::ReleaseSource;
pub use toolchain::OwnedToolchainSpec;
