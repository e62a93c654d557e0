//! The parsed command line, as plain data.
//!
//! Argument handling itself lives with the process around the library;
//! these types carry what it parsed.

use vstd::prelude::*;

verus! {

/// Parsed command line.
pub struct Cli {
    /// A configuration file chosen explicitly.
    pub config: Option<String>,
    /// How many times debugging output was requested.
    pub debug: u8,
    /// The subcommand to run.
    pub command: Commands,
}

/// Top-level subcommands.
pub enum Commands {
    /// Fill-in-the-middle code completion.
    CodeCompletion { prompt: String, suffix: String, max_tokens: Option<u32> },
    /// A single chat exchange.
    Chat { message: String, max_tokens: Option<u32> },
    /// Configuration management.
    Config { action: ConfigCommands },
}

/// Configuration subcommands.
pub enum ConfigCommands {
    /// Write the all-defaults configuration file.
    Generate { path: String },
    /// Show the configuration a file resolves to.
    View { path: String },
    /// Load a configuration from a chosen path.
    Load { path: String },
}

} // verus!
