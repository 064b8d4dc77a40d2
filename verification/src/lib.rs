//! Supervision rules for a local backend sidecar: which port it listens on,
//! where its entry point lives, what environment it is launched with, when it
//! counts as healthy, and how a start attempt proceeds from step to step.

pub mod config;
pub mod entry;
pub mod environment;
pub mod health;
pub mod launch;
pub mod lifecycle;
pub mod platform;
pub mod port;
pub mod reclaim;
pub mod supervisor;
pub mod text;
