//! What can go wrong with the configuration.

use vstd::prelude::*;

verus! {

/// Errors from the configuration
#[derive(Debug, Clone, Copy, PartialEq, Eq, Structural)]
pub enum ConfigError {
    /// The system can't figure out the path for the configuration file
    CantFigureConfigPath,
    /// The configuration file has an error and can't be parsed
    ConfigFileIsBroken,
    /// There was something broken with the data and we couldn't save it properly
    InvalidConfiguration,
    /// The select path is invalid
    InvalidPath,
}

} // verus!
