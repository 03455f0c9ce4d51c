//! The commands of the program and what each of them does to the
//! configuration.

pub mod addaccount;
pub mod errors;
pub mod fetch;
pub mod removeaccount;

use crate::commands::errors::CommandError;
use crate::config::JoplinConfig;
use crate::config::config::Config;
use crate::config::config::Edit;
use crate::config::config::edited;
use crate::storage::markdown::MarkdownConfig;
use crate::storage::org::OrgConfig;
use crate::text::same;
use vstd::prelude::*;

verus! {

/// Available Storages.
#[derive(Debug, Clone, Copy, PartialEq, Eq, Structural)]
pub enum StorageType {
    /// Store in the filesystem, as Markdown.
    Markdown,
    /// Store in the filesystem, as Org-Mode.
    Org,
    /// Store in Joplin.
    Joplin,
}

/// The storage that the word `s` names.
pub open spec fn storage_named(s: Seq<char>) -> Option<StorageType> {
    if s == "markdown"@ {
        Some(StorageType::Markdown)
    } else if s == "org"@ {
        Some(StorageType::Org)
    } else if s == "joplin"@ {
        Some(StorageType::Joplin)
    } else {
        None
    }
}

impl StorageType {
    /// The storage that the word `s` names: `markdown`, `org` or `joplin`.
    /// Any other word is no storage.
    pub fn try_from(s: &str) -> (storage: Result<Self, CommandError>)
        ensures
            match storage_named(s@) {
                Some(named) => storage == Ok::<StorageType, CommandError>(named),
                None => storage == Err::<StorageType, CommandError>(CommandError::NoSuchStorage),
            },
    {
        if same(s, "markdown") {
            Ok(StorageType::Markdown)
        } else if same(s, "org") {
            Ok(StorageType::Org)
        } else if same(s, "joplin") {
            Ok(StorageType::Joplin)
        } else {
            Err(CommandError::NoSuchStorage)
        }
    }
}

/// Available commands.
#[derive(Debug, PartialEq, Eq)]
pub enum Command {
    /// Add a new account.
    AddAccount(String),
    /// Remove an account.
    RemoveAccount(String),
    /// Add a storage in an account.
    AddStorage(String, StorageType),
    /// Remove a storage from an account.
    RemoveStorage(String, StorageType),
    /// Fetch favourites from all accounts.
    FetchAll,
    /// Fetch one single account.
    Fetch(String),
    /// Forces the last favourite to be the current favourite.
    Sync(String),
}

/// What a [`Command`] stands for.
pub enum CommandView {
    AddAccount(Seq<char>),
    RemoveAccount(Seq<char>),
    AddStorage(Seq<char>, StorageType),
    RemoveStorage(Seq<char>, StorageType),
    FetchAll,
    Fetch(Seq<char>),
    Sync(Seq<char>),
}

impl View for Command {
    type V = CommandView;

    open spec fn view(&self) -> CommandView {
        match self {
            Command::AddAccount(name) => CommandView::AddAccount(name@),
            Command::RemoveAccount(name) => CommandView::RemoveAccount(name@),
            Command::AddStorage(account, storage) => CommandView::AddStorage(account@, *storage),
            Command::RemoveStorage(account, storage) => CommandView::RemoveStorage(
                account@,
                *storage,
            ),
            Command::FetchAll => CommandView::FetchAll,
            Command::Fetch(account) => CommandView::Fetch(account@),
            Command::Sync(account) => CommandView::Sync(account@),
        }
    }
}

impl Command {
    pub fn add_account(name: &str) -> (command: Self)
        ensures
            command@ == CommandView::AddAccount(name@),
    {
        Command::AddAccount(name.to_owned())
    }

    pub fn remove_account(name: &str) -> (command: Self)
        ensures
            command@ == CommandView::RemoveAccount(name@),
    {
        Command::RemoveAccount(name.to_owned())
    }

    pub fn add_storage(account: &str, storage: StorageType) -> (command: Self)
        ensures
            command@ == CommandView::AddStorage(account@, storage),
    {
        Command::AddStorage(account.to_owned(), storage)
    }

    pub fn remove_storage(account: &str, storage: StorageType) -> (command: Self)
        ensures
            command@ == CommandView::RemoveStorage(account@, storage),
    {
        Command::RemoveStorage(account.to_owned(), storage)
    }

    pub fn fetch_all() -> (command: Self)
        ensures
            command@ == CommandView::FetchAll,
    {
        Command::FetchAll
    }

    pub fn fetch(account: &str) -> (command: Self)
        ensures
            command@ == CommandView::Fetch(account@),
    {
        Command::Fetch(account.to_owned())
    }

    pub fn sync(account: &str) -> (command: Self)
        ensures
            command@ == CommandView::Sync(account@),
    {
        Command::Sync(account.to_owned())
    }
}

/// The settings of one storage, as its user gave them.
#[derive(Debug, PartialEq, Eq)]
pub enum StorageConfig {
    Markdown(MarkdownConfig),
    Org(OrgConfig),
    Joplin(JoplinConfig),
}

/// The change that enables a storage with the settings `storage`.
pub open spec fn enabling(storage: StorageConfig) -> Edit {
    match storage {
        StorageConfig::Markdown(config) => Edit::Markdown(Some(config)),
        StorageConfig::Org(config) => Edit::Org(Some(config)),
        StorageConfig::Joplin(config) => Edit::Joplin(Some(config)),
    }
}

/// The change that disables the storage `storage`.
pub open spec fn disabling(storage: StorageType) -> Edit {
    match storage {
        StorageType::Markdown => Edit::Markdown(None),
        StorageType::Org => Edit::Org(None),
        StorageType::Joplin => Edit::Joplin(None),
    }
}

/// Enables a storage for the account `account`, with the settings
/// `storage`. Settings of the same storage that were there are replaced.
/// Fails with `NoSuchAccount`, and changes nothing, where `config` holds no
/// account of that name.
pub fn add_storage(config: &mut Config, account: &str, storage: StorageConfig) -> (done: Result<
    (),
    CommandError,
>)
    requires
        old(config).wf(),
    ensures
        final(config).wf(),
        final(config).aliases() == old(config).aliases(),
        if old(config)@.contains_key(account@) {
            &&& done is Ok
            &&& final(config)@ == old(config)@.insert(
                account@,
                edited(old(config)@[account@], enabling(storage)),
            )
        } else {
            &&& done == Err::<(), CommandError>(CommandError::NoSuchAccount)
            &&& final(config)@ == old(config)@
        },
{
    if config.account(account).is_none() {
        return Err(CommandError::NoSuchAccount);
    }
    match storage {
        StorageConfig::Markdown(settings) => config.set_storage_markdown(account, settings),
        StorageConfig::Org(settings) => config.set_storage_org(account, settings),
        StorageConfig::Joplin(settings) => config.set_storage_joplin(account, settings),
    }
    Ok(())
}

/// Disables the storage `storage` for the account `account`. Fails with
/// `NoSuchAccount`, and changes nothing, where `config` holds no account of
/// that name.
pub fn remove_storage(config: &mut Config, account: &str, storage: StorageType) -> (done: Result<
    (),
    CommandError,
>)
    requires
        old(config).wf(),
    ensures
        final(config).wf(),
        final(config).aliases() == old(config).aliases(),
        if old(config)@.contains_key(account@) {
            &&& done is Ok
            &&& final(config)@ == old(config)@.insert(
                account@,
                edited(old(config)@[account@], disabling(storage)),
            )
        } else {
            &&& done == Err::<(), CommandError>(CommandError::NoSuchAccount)
            &&& final(config)@ == old(config)@
        },
{
    if config.account(account).is_none() {
        return Err(CommandError::NoSuchAccount);
    }
    match storage {
        StorageType::Markdown => config.remove_storage_markdown(account),
        StorageType::Org => config.remove_storage_org(account),
        StorageType::Joplin => config.remove_storage_joplin(account),
    }
    Ok(())
}

} // verus!
