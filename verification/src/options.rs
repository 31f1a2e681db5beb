//! Recognized command-line options and the override policy they carry.

use vstd::prelude::*;

verus! {

/// The two recognized options: a flag that forces the built-in default
/// configuration, and an optional override of the configuration directory.
/// No subcommands.
#[derive(Debug, Clone)]
pub struct Options {
    pub default_config: bool,
    pub config_path: Option<String>,
}

impl Options {
    /// Override policy: an explicit request for the default configuration
    /// bypasses file resolution entirely; nothing is read from disk.
    pub fn wants_file_config(&self) -> (r: bool)
        ensures
            r == !self.default_config,
    {
        !self.default_config
    }
}

} // verus!
