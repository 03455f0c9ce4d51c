//! What can go wrong with the command line.

use vstd::prelude::*;

verus! {

/// Errors of the command line
#[derive(Debug, Clone, Copy, PartialEq, Eq, Structural)]
pub enum ParsingError {
    /// The words of the command line name no command
    UnknownCommand,
    /// The word after `storage add` or `storage remove` names no storage
    UnknownStorage,
}

} // verus!
