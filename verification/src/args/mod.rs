//! The command that a command line asks for.

pub mod errors;

use crate::args::errors::ParsingError;
use crate::commands::Command;
use crate::commands::CommandView;
use crate::commands::StorageType;
use crate::commands::storage_named;
use crate::text::same;
use vstd::prelude::*;

verus! {

/// The command for the account `name` that the words `words` name: the
/// first word decides, and `storage` takes `add` or `remove` and the word
/// of a storage behind it.
pub open spec fn account_command(name: Seq<char>, words: Seq<Seq<char>>) -> Result<
    CommandView,
    ParsingError,
> {
    if words.len() == 0 {
        Err(ParsingError::UnknownCommand)
    } else if words[0] == "create"@ {
        Ok(CommandView::AddAccount(name))
    } else if words[0] == "remove"@ {
        Ok(CommandView::RemoveAccount(name))
    } else if words[0] == "fetch"@ {
        Ok(CommandView::Fetch(name))
    } else if words[0] == "sync"@ {
        Ok(CommandView::Sync(name))
    } else if words[0] == "storage"@ && words.len() >= 3 && words[1] == "add"@ {
        match storage_named(words[2]) {
            Some(storage) => Ok(CommandView::AddStorage(name, storage)),
            None => Err(ParsingError::UnknownStorage),
        }
    } else if words[0] == "storage"@ && words.len() >= 3 && words[1] == "remove"@ {
        match storage_named(words[2]) {
            Some(storage) => Ok(CommandView::RemoveStorage(name, storage)),
            None => Err(ParsingError::UnknownStorage),
        }
    } else {
        Err(ParsingError::UnknownCommand)
    }
}

/// The command that a command line asks for. Without an account it asks to
/// fetch all accounts.
pub open spec fn command_of(account: Option<Seq<char>>, words: Seq<Seq<char>>) -> Result<
    CommandView,
    ParsingError,
> {
    match account {
        Some(name) => account_command(name, words),
        None => Ok(CommandView::FetchAll),
    }
}

/// The view of a command or of the error in its place.
pub open spec fn outcome(result: Result<Command, ParsingError>) -> Result<
    CommandView,
    ParsingError,
> {
    match result {
        Ok(command) => Ok(command@),
        Err(e) => Err(e),
    }
}

/// The storage that the third of `words` names.
fn storage_word(words: &Vec<String>) -> (storage: Result<StorageType, ParsingError>)
    requires
        words@.len() >= 3,
    ensures
        match storage_named(words@[2]@) {
            Some(named) => storage == Ok::<StorageType, ParsingError>(named),
            None => storage == Err::<StorageType, ParsingError>(ParsingError::UnknownStorage),
        },
{
    match StorageType::try_from(words[2].as_str()) {
        Ok(storage) => Ok(storage),
        Err(_) => Err(ParsingError::UnknownStorage),
    }
}

/// Parse the command line, returning the necessary command: `account` is
/// the alias that the line gives, `subcommands` the words of the
/// subcommands after it, outermost first.
pub fn parse(account: Option<&str>, subcommands: &Vec<String>) -> (command: Result<
    Command,
    ParsingError,
>)
    ensures
        outcome(command) == command_of(
            match account {
                Some(name) => Some(name@),
                None => None,
            },
            Seq::new(subcommands@.len(), |i: int| subcommands@[i]@),
        ),
{
    let account_name = match account {
        Some(name) => name,
        None => {
            return Ok(Command::fetch_all());
        },
    };
    if subcommands.len() == 0 {
        return Err(ParsingError::UnknownCommand);
    }
    let first = subcommands[0].as_str();
    if same(first, "create") {
        Ok(Command::add_account(account_name))
    } else if same(first, "remove") {
        Ok(Command::remove_account(account_name))
    } else if same(first, "fetch") {
        Ok(Command::fetch(account_name))
    } else if same(first, "sync") {
        Ok(Command::sync(account_name))
    } else if same(first, "storage") && subcommands.len() >= 3 && same(
        subcommands[1].as_str(),
        "add",
    ) {
        match storage_word(subcommands) {
            Ok(storage) => Ok(Command::add_storage(account_name, storage)),
            Err(e) => Err(e),
        }
    } else if same(first, "storage") && subcommands.len() >= 3 && same(
        subcommands[1].as_str(),
        "remove",
    ) {
        match storage_word(subcommands) {
            Ok(storage) => Ok(Command::remove_storage(account_name, storage)),
            Err(e) => Err(e),
        }
    } else {
        Err(ParsingError::UnknownCommand)
    }
}

} // verus!
