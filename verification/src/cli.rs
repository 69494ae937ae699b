//! The arguments of the command line, and what they ask the program to do.

use vstd::prelude::*;
use vstd::string::StringExecFns;

verus! {

/// The arguments of the command line.
#[derive(Debug, Clone)]
pub struct CliArgs {
    pub config: String,
    pub generate: bool,
    pub generate_compat: bool,
    pub listen_address: Option<String>,
    pub listen_port: Option<u16>,
    pub homeserver: String,
    pub verbose: bool,
    pub unsafe_mode: bool,
    pub owner: Option<String>,
    pub reset: bool,
}

/// What a run of the program is to do.
#[derive(Debug, Clone, Copy, PartialEq, Eq, Structural)]
pub enum RunMode {
    /// Write the registration file and exit.
    Generate,
    /// Write the registration file with the second user namespace and exit.
    GenerateCompat,
    /// Purge what the bridge has stored and exit.
    Reset,
    /// Run the bridge.
    Bridge,
}

impl CliArgs {
    /// The arguments of a command line that names none: the configuration
    /// file `config.yaml`, the homeserver at `http://localhost:8008`, and
    /// nothing else set.
    pub fn defaults() -> (r: Self)
        ensures
            r.config@ == "config.yaml"@,
            !r.generate,
            !r.generate_compat,
            r.listen_address is None,
            r.listen_port is None,
            r.homeserver@ == "http://localhost:8008"@,
            !r.verbose,
            !r.unsafe_mode,
            r.owner is None,
            !r.reset,
    {
        CliArgs {
            config: String::from_str("config.yaml"),
            generate: false,
            generate_compat: false,
            listen_address: None,
            listen_port: None,
            homeserver: String::from_str("http://localhost:8008"),
            verbose: false,
            unsafe_mode: false,
            owner: None,
            reset: false,
        }
    }

    /// What these arguments ask for: generating comes before generating
    /// for other servers, that before a reset, and that before running.
    pub open spec fn mode_of(&self) -> RunMode {
        if self.generate {
            RunMode::Generate
        } else if self.generate_compat {
            RunMode::GenerateCompat
        } else if self.reset {
            RunMode::Reset
        } else {
            RunMode::Bridge
        }
    }

    /// What these arguments ask for.
    pub fn mode(&self) -> (r: RunMode)
        ensures
            r == self.mode_of(),
    {
        if self.generate {
            RunMode::Generate
        } else if self.generate_compat {
            RunMode::GenerateCompat
        } else if self.reset {
            RunMode::Reset
        } else {
            RunMode::Bridge
        }
    }
}

} // verus!
