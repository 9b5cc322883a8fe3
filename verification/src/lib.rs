//! Bootstraps a local development environment from a remote backup snapshot.
//!
//! The library holds the verified core of the pipeline: validating a snapshot
//! request, deciding per-artifact download outcomes, collecting a fetch
//! summary, planning archive extraction with exclusion rules, and driving the
//! fixed three-step environment-orchestration state machine. All filesystem,
//! network and child-process work is performed by the surrounding binary,
//! which feeds plain values (existence checks, status codes, exit statuses)
//! into the decision functions defined here.

pub mod command;
pub mod config;
pub mod download;
pub mod extract;
pub mod fetch;
pub mod orchestrate;
pub mod pipeline;
pub mod request;
pub mod strutil;

pub use command::Command;
pub use command::CommandOption;
