//! The command-line surface as plain data.  The embedding application owns
//! argument parsing and hands the engine one of these values; the engine
//! never reads the process environment itself.

use vstd::prelude::*;

verus! {

/// A parsed invocation: an optional config-file path and a command.
#[derive(Debug)]
pub struct Cli {
    pub config: Option<String>,
    pub command: Option<Commands>,
}

/// The tool's commands.
#[derive(Debug)]
pub enum Commands {
    /// Snapshot commands.
    Snapshot(SnapshotArgs),
    /// Configuration options.
    Config(ConfigArgs),
    /// Prepares a folder for snapshot creation.
    Init { dir: Option<String> },
}

/// The configuration subcommand.
#[derive(Debug)]
pub struct ConfigArgs {
    pub command: Option<ConfigOptions>,
}

#[derive(Debug)]
pub enum ConfigOptions {
    /// Shows the current configuration.
    Show,
}

/// The snapshot subcommand.
#[derive(Debug)]
pub struct SnapshotArgs {
    pub command: SnapshotOptions,
}

#[derive(Debug)]
pub enum SnapshotOptions {
    /// Captures the tree under `project_path` as a new snapshot.
    Create { project_path: String, name: Option<String> },
    /// Materializes the snapshot `snapshot_id` into `destination_path`.
    Clone { snapshot_id: String, destination_path: Option<String> },
    /// Lists the snapshots under the registry root.
    Show,
}

} // verus!
