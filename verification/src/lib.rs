//! Orchestration of a nested-virtualization benchmark sandbox.

pub mod config;
pub mod error;
pub mod generator;
pub mod host;
pub mod laws;
pub mod layout;
pub mod plan;
pub mod protocol;
pub mod workflow;
