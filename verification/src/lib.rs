//! Multi-platform packaging pipeline for natively built compiler plugins.
//!
//! The library drives three stages: extracting dynamic-library artifacts
//! from a build tool's event stream, deriving platform-bound manifests,
//! and assembling per-platform package directories, with aggregated
//! partial-failure reporting across the crate-by-platform matrix.

pub mod assemble;
pub mod build_cmd;
pub mod cli;
pub mod dedup;
pub mod events;
pub mod extract;
pub mod manifest;
pub mod orchestrate;
pub mod platform;
pub mod publish;
pub mod text;
pub mod toolchain;
