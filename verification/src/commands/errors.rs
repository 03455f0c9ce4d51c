//! What can go wrong with a command.

use crate::config::errors::ConfigError;
use vstd::prelude::*;
use vstd::std_specs::convert::FromSpecImpl;

verus! {

/// Errors for the commands
#[derive(Debug, Clone, Copy, PartialEq, Eq, Structural)]
pub enum CommandError {
    /// Error connecting to the Mastodon account
    ConnectError,
    /// Configuration file is broken
    ConfigError(ConfigError),
    /// The requested account does not exist
    NoSuchAccount,
    /// The storage type requested does not exist
    NoSuchStorage,
    /// No new favourite
    NoNewFavourite,
}

impl From<ConfigError> for CommandError {
    fn from(e: ConfigError) -> (error: CommandError) {
        CommandError::ConfigError(e)
    }
}

impl FromSpecImpl<ConfigError> for CommandError {
    open spec fn obeys_from_spec() -> bool {
        true
    }

    open spec fn from_spec(e: ConfigError) -> CommandError {
        CommandError::ConfigError(e)
    }
}

} // verus!
