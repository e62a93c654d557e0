//! Client-side core for a command-line text-generation tool.
//!
//! The library covers the logic that is worth specifying precisely:
//! resolving a layered configuration with per-field defaults, encoding and
//! parsing the configuration file format, building the two outbound request
//! bodies, classifying HTTP outcomes, and normalizing the two response
//! shapes into one uniform record.  Process plumbing (argument handling,
//! file and network I/O, progress display) lives outside the library.

pub mod api;
pub mod cli;
pub mod config;
pub mod config_format;
pub mod decimal;
pub mod error;
pub mod json;
pub mod models;
