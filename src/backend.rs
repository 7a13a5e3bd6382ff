//! The two kinds of backend, and the command-line options of the daemon.
use vstd::prelude::*;

verus! {

/// The backend that reads and writes named pipes of native-endian samples.
pub struct Pipe;

/// The backend that captures from and plays on the default audio devices.
pub struct Device;

/// How much the daemon logs.
#[derive(Clone, Copy, Debug, PartialEq, Eq, Structural)]
pub enum Verbosity {
    Warn,
    Info,
    Debug,
    Trace,
}

/// The daemon's command-line options.
pub struct Opt {
    /// How many times `-v` was given.
    pub verbose: usize,
    /// Path of the configuration file.
    pub config: String,
}

/// The default path of the configuration file.
pub const DEFAULT_CONFIG: &'static str = "soundwire.conf";

impl Opt {
    /// Warnings only by default; each `-v` adds a level, up to tracing.
    pub fn verbosity(&self) -> (r: Verbosity)
        ensures
            r == (if self.verbose == 0 {
                Verbosity::Warn
            } else if self.verbose == 1 {
                Verbosity::Info
            } else if self.verbose == 2 {
                Verbosity::Debug
            } else {
                Verbosity::Trace
            }),
    {
        if self.verbose == 0 {
            Verbosity::Warn
        } else if self.verbose == 1 {
            Verbosity::Info
        } else if self.verbose == 2 {
            Verbosity::Debug
        } else {
            Verbosity::Trace
        }
    }
}

} // verus!
