//! Command-line options.
//!
//! The options are parsed by the surrounding process; this module holds the
//! validated shape that the rest of the crate works with, together with its
//! defaults.

use vstd::prelude::*;

verus! {

/// Options taken from the command line. Each boolean flag, when set, overrides
/// the corresponding field of the configuration file.
pub struct Options {
    /// Path of the configuration file.
    pub config: String,
    /// Run every entry's commands once at startup.
    pub init: bool,
    /// Emit diagnostic log entries.
    pub verbose: bool,
    /// Log commands instead of executing them.
    pub dry_run: bool,
}

impl Options {
    /// The configuration file path these options name.
    pub fn config_path(&self) -> (r: &str)
        ensures
            r@ == self.config@,
    {
        self.config.as_str()
    }
}

impl Default for Options {
    /// Without arguments: the stock configuration file, and every flag off.
    fn default() -> (r: Self)
        ensures
            r.config@ == "/etc/watchd/config.toml"@,
            !r.init,
            !r.verbose,
            !r.dry_run,
    {
        Options {
            config: "/etc/watchd/config.toml".to_owned(),
            init: false,
            verbose: false,
            dry_run: false,
        }
    }
}

} // verus!
