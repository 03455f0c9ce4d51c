//! The main configuration: the accounts by their aliases.

use crate::config::JoplinConfig;
use crate::config::account::AccountConfig;
use crate::config::account::AccountConfigView;
use crate::config::account::Credentials;
use crate::config::account::fresh_account;
use crate::config::errors::ConfigError;
use crate::storage::markdown::MarkdownConfig;
use crate::storage::org::OrgConfig;
use crate::text::same;
use std::path::PathBuf;
use vstd::prelude::*;

verus! {

/// `std::path::PathBuf`, a path of the file system. Nothing inside it is
/// known here; it is only handed on.
#[verifier::external_type_specification]
#[verifier::external_body]
pub struct ExPathBuf(PathBuf);

/// Calls `directories::ProjectDirs::from` and takes the `config_dir` of
/// what it gives: the directory for the settings of the named application
/// under the home of the user, or nothing where the system names no home.
/// The answer depends on the machine and the user, so the contract claims
/// nothing of it.
#[verifier::external_body]
fn project_config_dir(qualifier: &str, organization: &str, application: &str) -> (dir: Option<
    PathBuf,
>) {
    directories::ProjectDirs::from(qualifier, organization, application).map(
        |dirs| dirs.config_dir().to_path_buf(),
    )
}

/// The path of the configuration file, given what the system said of the
/// directory for it: that directory, or `CantFigureConfigPath` where the
/// system named none.
pub fn config_path(dir: Option<PathBuf>) -> (path: Result<PathBuf, ConfigError>)
    ensures
        match dir {
            Some(d) => path == Ok::<PathBuf, ConfigError>(d),
            None => path == Err::<PathBuf, ConfigError>(ConfigError::CantFigureConfigPath),
        },
{
    match dir {
        Some(d) => Ok(d),
        None => Err(ConfigError::CantFigureConfigPath),
    }
}

/// One entry of the configuration: an account under its alias.
#[derive(Debug, PartialEq, Eq)]
pub struct Entry {
    pub name: String,
    pub account: AccountConfig,
}

/// The alias of the entry at `i`.
pub open spec fn alias_at(entries: Seq<Entry>, i: int) -> Seq<char> {
    entries[i].name@
}

/// No alias stands twice in `entries`.
pub open spec fn distinct(entries: Seq<Entry>) -> bool {
    forall|i: int, j: int|
        0 <= i < j < entries.len() ==> #[trigger] alias_at(entries, i) != #[trigger] alias_at(
            entries,
            j,
        )
}

/// A sequence without repeated aliases stays so without its last entry.
pub proof fn lemma_distinct_init(entries: Seq<Entry>)
    requires
        distinct(entries),
        entries.len() > 0,
    ensures
        distinct(entries.drop_last()),
{
    let init = entries.drop_last();
    assert forall|i: int, j: int| 0 <= i < j < init.len() implies #[trigger] alias_at(init, i)
        != #[trigger] alias_at(init, j) by {
        assert(alias_at(init, i) == alias_at(entries, i));
        assert(alias_at(init, j) == alias_at(entries, j));
    }
}

/// The accounts of `entries` by their aliases.
pub open spec fn accounts_of(entries: Seq<Entry>) -> Map<Seq<char>, AccountConfigView>
    decreases entries.len(),
{
    if entries.len() == 0 {
        Map::empty()
    } else {
        accounts_of(entries.drop_last()).insert(entries.last().name@, entries.last().account@)
    }
}

/// The aliases of `accounts_of(entries)` are those of the entries.
pub proof fn lemma_accounts_keys(entries: Seq<Entry>, name: Seq<char>)
    ensures
        accounts_of(entries).contains_key(name) <==> exists|i: int|
            0 <= i < entries.len() && #[trigger] alias_at(entries, i) == name,
    decreases entries.len(),
{
    if entries.len() > 0 {
        let init = entries.drop_last();
        lemma_accounts_keys(init, name);
        if accounts_of(entries).contains_key(name) {
            if entries.last().name@ == name {
                assert(alias_at(entries, entries.len() - 1) == name);
            } else {
                let i = choose|i: int| 0 <= i < init.len() && #[trigger] alias_at(init, i) == name;
                assert(alias_at(entries, i) == name);
            }
        }
        if exists|i: int| 0 <= i < entries.len() && #[trigger] alias_at(entries, i) == name {
            let i = choose|i: int|
                0 <= i < entries.len() && #[trigger] alias_at(entries, i) == name;
            if i < init.len() {
                assert(alias_at(init, i) == name);
            }
        }
    }
}

/// Each entry of a sequence without repeated aliases is found under its
/// alias.
pub proof fn lemma_accounts_at(entries: Seq<Entry>, at: int)
    requires
        distinct(entries),
        0 <= at < entries.len(),
    ensures
        accounts_of(entries).contains_key(entries[at].name@),
        accounts_of(entries)[entries[at].name@] == entries[at].account@,
    decreases entries.len(),
{
    let init = entries.drop_last();
    if at < entries.len() - 1 {
        lemma_distinct_init(entries);
        lemma_accounts_at(init, at);
        assert(init[at] == entries[at]);
        assert(alias_at(entries, at) != alias_at(entries, entries.len() - 1));
    }
}

/// Replacing the account of one entry replaces it under its alias.
pub proof fn lemma_accounts_update(entries: Seq<Entry>, at: int, entry: Entry)
    requires
        distinct(entries),
        0 <= at < entries.len(),
        entry.name@ == entries[at].name@,
    ensures
        distinct(entries.update(at, entry)),
        accounts_of(entries.update(at, entry)) == accounts_of(entries).insert(
            entry.name@,
            entry.account@,
        ),
    decreases entries.len(),
{
    let updated = entries.update(at, entry);
    assert forall|i: int, j: int| 0 <= i < j < updated.len() implies #[trigger] alias_at(
        updated,
        i,
    ) != #[trigger] alias_at(updated, j) by {
        assert(alias_at(updated, i) == alias_at(entries, i));
        assert(alias_at(updated, j) == alias_at(entries, j));
    }
    let init = entries.drop_last();
    if at == entries.len() - 1 {
        assert(updated.drop_last() =~= init);
        assert(accounts_of(updated) =~= accounts_of(entries).insert(entry.name@, entry.account@));
    } else {
        lemma_distinct_init(entries);
        assert(init[at] == entries[at]);
        lemma_accounts_update(init, at, entry);
        assert(updated.drop_last() =~= init.update(at, entry));
        assert(updated.last() == entries.last());
        assert(alias_at(entries, at) != alias_at(entries, entries.len() - 1));
        assert(accounts_of(updated) =~= accounts_of(entries).insert(entry.name@, entry.account@));
    }
}

/// Removing one entry removes its alias.
pub proof fn lemma_accounts_remove(entries: Seq<Entry>, at: int)
    requires
        distinct(entries),
        0 <= at < entries.len(),
    ensures
        distinct(entries.remove(at)),
        accounts_of(entries.remove(at)) == accounts_of(entries).remove(entries[at].name@),
    decreases entries.len(),
{
    let removed = entries.remove(at);
    assert forall|i: int, j: int| 0 <= i < j < removed.len() implies #[trigger] alias_at(
        removed,
        i,
    ) != #[trigger] alias_at(removed, j) by {
        let from_i = if i < at {
            i
        } else {
            i + 1
        };
        let from_j = if j < at {
            j
        } else {
            j + 1
        };
        assert(alias_at(removed, i) == alias_at(entries, from_i));
        assert(alias_at(removed, j) == alias_at(entries, from_j));
    }
    let init = entries.drop_last();
    let name = entries[at].name@;
    if at == entries.len() - 1 {
        assert(removed =~= init);
        lemma_accounts_keys(init, name);
        if accounts_of(init).contains_key(name) {
            let i = choose|i: int| 0 <= i < init.len() && #[trigger] alias_at(init, i) == name;
            assert(alias_at(entries, i) == alias_at(entries, at));
        }
        assert(accounts_of(removed) =~= accounts_of(entries).remove(name));
    } else {
        lemma_distinct_init(entries);
        assert(init[at] == entries[at]);
        lemma_accounts_remove(init, at);
        assert(removed.drop_last() =~= init.remove(at));
        assert(removed.last() == entries.last());
        assert(alias_at(entries, at) != alias_at(entries, entries.len() - 1));
        assert(accounts_of(removed) =~= accounts_of(entries).remove(name));
    }
}

/// One change to the configuration of an account.
#[derive(Debug, PartialEq, Eq)]
pub enum Edit {
    /// The watermark becomes this identifier.
    Favourite(String),
    /// The Markdown storage gets these settings, or is disabled.
    Markdown(Option<MarkdownConfig>),
    /// The Org storage gets these settings, or is disabled.
    Org(Option<OrgConfig>),
    /// The Joplin storage gets these settings, or is disabled.
    Joplin(Option<JoplinConfig>),
}

/// The account `account` after the change `edit`.
pub open spec fn edited(account: AccountConfigView, edit: Edit) -> AccountConfigView {
    match edit {
        Edit::Favourite(favourite) => AccountConfigView { favourite: favourite@, ..account },
        Edit::Markdown(Some(config)) => AccountConfigView { markdown: Some(config@), ..account },
        Edit::Markdown(None) => AccountConfigView { markdown: None, ..account },
        Edit::Org(Some(config)) => AccountConfigView { org: Some(config@), ..account },
        Edit::Org(None) => AccountConfigView { org: None, ..account },
        Edit::Joplin(Some(config)) => AccountConfigView { joplin: Some(config@), ..account },
        Edit::Joplin(None) => AccountConfigView { joplin: None, ..account },
    }
}

/// The accounts `accounts` after the account under `name` took the change
/// `edit`. Nothing changes where there is no such account.
pub open spec fn changed(
    accounts: Map<Seq<char>, AccountConfigView>,
    name: Seq<char>,
    edit: Edit,
) -> Map<Seq<char>, AccountConfigView> {
    if accounts.contains_key(name) {
        accounts.insert(name, edited(accounts[name], edit))
    } else {
        accounts
    }
}

/// The aliases of `entries`, in order.
pub open spec fn names_of(entries: Seq<Entry>) -> Seq<Seq<char>> {
    Seq::new(entries.len(), |i: int| entries[i].name@)
}

/// The main configuration
#[derive(Debug, PartialEq, Eq)]
pub struct Config {
    entries: Vec<Entry>,
}

impl View for Config {
    type V = Map<Seq<char>, AccountConfigView>;

    closed spec fn view(&self) -> Map<Seq<char>, AccountConfigView> {
        accounts_of(self.entries@)
    }
}

impl Config {
    /// No alias stands twice. Every configuration that this module hands
    /// out is well formed.
    pub closed spec fn wf(&self) -> bool {
        distinct(self.entries@)
    }

    /// The aliases in the order in which their accounts were first added.
    pub closed spec fn aliases(&self) -> Seq<Seq<char>> {
        names_of(self.entries@)
    }

    /// The aliases are the accounts' keys: an alias stands in
    /// [`Config::aliases`] where the configuration holds an account under
    /// it, and there it stands once. So the order of the aliases is all
    /// that the view as a map leaves out.
    pub proof fn law_aliases_are_the_keys(&self)
        requires
            self.wf(),
        ensures
            forall|name: Seq<char>| self@.contains_key(name) <==> self.aliases().contains(name),
            forall|i: int, j: int|
                0 <= i < j < self.aliases().len() ==> self.aliases()[i] != self.aliases()[j],
    {
        let names = self.aliases();
        assert forall|name: Seq<char>| self@.contains_key(name) <==> names.contains(name) by {
            lemma_accounts_keys(self.entries@, name);
            if self@.contains_key(name) {
                let i = choose|i: int|
                    0 <= i < self.entries@.len() && #[trigger] alias_at(self.entries@, i) == name;
                assert(names[i] == name);
            }
            if names.contains(name) {
                let i = choose|i: int| 0 <= i < names.len() && names[i] == name;
                assert(alias_at(self.entries@, i) == name);
            }
        }
        assert forall|i: int, j: int| 0 <= i < j < names.len() implies names[i] != names[j] by {
            assert(alias_at(self.entries@, i) != alias_at(self.entries@, j));
        }
    }

    /// Figure out the filename for the configuration file. Fails with
    /// `CantFigureConfigPath`, and with nothing else, where the system
    /// names no directory for it.
    pub fn filename() -> (path: Result<PathBuf, ConfigError>)
        ensures
            path matches Err(e) ==> e == ConfigError::CantFigureConfigPath,
    {
        config_path(project_config_dir("me", "JulioBiason", "downfav.toml"))
    }

    /// A configuration without accounts.
    pub fn new() -> (config: Self)
        ensures
            config.wf(),
            config@ == Map::<Seq<char>, AccountConfigView>::empty(),
            config.aliases() == Seq::<Seq<char>>::empty(),
    {
        let config = Config { entries: Vec::new() };
        assert(config.aliases() =~= Seq::<Seq<char>>::empty());
        config
    }

    /// Where the entry of `name` stands.
    fn position(&self, name: &str) -> (at: Option<usize>)
        ensures
            match at {
                Some(i) => i < self.entries@.len() && self.entries@[i as int].name@ == name@,
                None => forall|i: int|
                    0 <= i < self.entries@.len() ==> #[trigger] alias_at(self.entries@, i)
                        != name@,
            },
    {
        let mut i: usize = 0;
        while i < self.entries.len()
            invariant
                i <= self.entries.len(),
                forall|k: int| 0 <= k < i ==> #[trigger] alias_at(self.entries@, k) != name@,
            decreases self.entries.len() - i,
        {
            if same(self.entries[i].name.as_str(), name) {
                return Some(i);
            }
            i += 1;
        }
        None
    }

    /// How many accounts there are.
    pub fn len(&self) -> (count: usize)
        ensures
            count == self.aliases().len(),
    {
        self.entries.len()
    }

    /// The alias of the account at `index`, in the order of the aliases.
    pub fn alias(&self, index: usize) -> (name: &String)
        requires
            self.wf(),
            index < self.aliases().len(),
        ensures
            name@ == self.aliases()[index as int],
            self@.contains_key(name@),
    {
        proof {
            lemma_accounts_at(self.entries@, index as int);
        }
        &self.entries[index].name
    }

    /// The account under the alias `name`.
    pub fn account(&self, name: &str) -> (account: Option<&AccountConfig>)
        requires
            self.wf(),
        ensures
            match account {
                Some(a) => self@.contains_key(name@) && self@[name@] == a@,
                None => !self@.contains_key(name@),
            },
    {
        proof {
            lemma_accounts_keys(self.entries@, name@);
        }
        match self.position(name) {
            Some(i) => {
                proof {
                    assert(alias_at(self.entries@, i as int) == name@);
                    lemma_accounts_at(self.entries@, i as int);
                }
                Some(&self.entries[i].account)
            },
            None => None,
        }
    }

    /// Add a new account to the configuration file. An account that was
    /// there under the alias is replaced and keeps its place.
    pub fn add_account(&mut self, name: &str, configuration: Credentials)
        requires
            old(self).wf(),
        ensures
            final(self).wf(),
            final(self)@ == old(self)@.insert(name@, fresh_account(configuration@)),
            final(self).aliases() == if old(self)@.contains_key(name@) {
                old(self).aliases()
            } else {
                old(self).aliases().push(name@)
            },
    {
        proof {
            lemma_accounts_keys(self.entries@, name@);
        }
        let entry = Entry { name: name.to_owned(), account: AccountConfig::new(configuration) };
        let ghost before = self.entries@;
        match self.position(name) {
            Some(i) => {
                proof {
                    assert(alias_at(before, i as int) == name@);
                    lemma_accounts_update(before, i as int, entry);
                }
                self.entries.set(i, entry);
                assert(names_of(self.entries@) =~= names_of(before));
            },
            None => {
                self.entries.push(entry);
                proof {
                    assert(self.entries@.drop_last() =~= before);
                    let after = self.entries@;
                    assert forall|i: int, j: int|
                        0 <= i < j < after.len() implies #[trigger] alias_at(after, i)
                        != #[trigger] alias_at(after, j) by {
                        assert(alias_at(after, i) == alias_at(before, i));
                        if j < before.len() {
                            assert(alias_at(after, j) == alias_at(before, j));
                        }
                    }
                    assert(names_of(self.entries@) =~= names_of(before).push(name@));
                }
            },
        }
    }

    /// Remove account
    pub fn remove_account(&mut self, name: &str)
        requires
            old(self).wf(),
        ensures
            final(self).wf(),
            final(self)@ == old(self)@.remove(name@),
            if old(self)@.contains_key(name@) {
                exists|at: int|
                    0 <= at < old(self).aliases().len() && old(self).aliases()[at] == name@
                        && final(self).aliases() == old(self).aliases().remove(at)
            } else {
                final(self).aliases() == old(self).aliases()
            },
    {
        proof {
            lemma_accounts_keys(self.entries@, name@);
        }
        let ghost before = self.entries@;
        match self.position(name) {
            Some(i) => {
                proof {
                    assert(alias_at(before, i as int) == name@);
                    lemma_accounts_remove(before, i as int);
                }
                self.entries.remove(i);
                proof {
                    assert(names_of(before)[i as int] == name@);
                    assert(names_of(self.entries@) =~= names_of(before).remove(i as int));
                    assert(old(self).aliases()[i as int] == name@);
                    assert(self.aliases() == old(self).aliases().remove(i as int));
                }
            },
            None => {
                assert(self@ =~= self@.remove(name@));
            },
        }
    }

    /// Makes the change `edit` to the account under `account`. The
    /// accounts keep their order.
    pub fn change(&mut self, account: &str, edit: Edit)
        requires
            old(self).wf(),
        ensures
            final(self).wf(),
            final(self)@ == changed(old(self)@, account@, edit),
            final(self).aliases() == old(self).aliases(),
    {
        proof {
            lemma_accounts_keys(self.entries@, account@);
        }
        let ghost before = self.entries@;
        match self.position(account) {
            Some(i) => {
                proof {
                    assert(alias_at(before, i as int) == account@);
                    lemma_accounts_at(before, i as int);
                }
                let mut entry = self.entries.remove(i);
                match edit {
                    Edit::Favourite(favourite) => entry.account.set_favourite(favourite.as_str()),
                    Edit::Markdown(Some(config)) => entry.account.set_markdown(config),
                    Edit::Markdown(None) => entry.account.remove_markdown(),
                    Edit::Org(Some(config)) => entry.account.set_org(config),
                    Edit::Org(None) => entry.account.remove_org(),
                    Edit::Joplin(Some(config)) => entry.account.set_joplin(config),
                    Edit::Joplin(None) => entry.account.remove_joplin(),
                }
                proof {
                    lemma_accounts_update(before, i as int, entry);
                }
                self.entries.insert(i, entry);
                proof {
                    assert(self.entries@ =~= before.update(i as int, entry));
                    assert(names_of(self.entries@) =~= names_of(before));
                }
            },
            None => {},
        }
    }

    /// Set the configuration for the markdown storage
    pub fn set_storage_markdown(&mut self, account: &str, config: MarkdownConfig)
        requires
            old(self).wf(),
        ensures
            final(self).wf(),
            final(self)@ == changed(old(self)@, account@, Edit::Markdown(Some(config))),
            final(self).aliases() == old(self).aliases(),
    {
        self.change(account, Edit::Markdown(Some(config)));
    }

    /// Remove the Markdown storage from the account.
    pub fn remove_storage_markdown(&mut self, account: &str)
        requires
            old(self).wf(),
        ensures
            final(self).wf(),
            final(self)@ == changed(old(self)@, account@, Edit::Markdown(None)),
            final(self).aliases() == old(self).aliases(),
    {
        self.change(account, Edit::Markdown(None));
    }

    /// Set the configuration for the Org storage.
    pub fn set_storage_org(&mut self, account: &str, config: OrgConfig)
        requires
            old(self).wf(),
        ensures
            final(self).wf(),
            final(self)@ == changed(old(self)@, account@, Edit::Org(Some(config))),
            final(self).aliases() == old(self).aliases(),
    {
        self.change(account, Edit::Org(Some(config)));
    }

    /// Remove the Org storage.
    pub fn remove_storage_org(&mut self, account: &str)
        requires
            old(self).wf(),
        ensures
            final(self).wf(),
            final(self)@ == changed(old(self)@, account@, Edit::Org(None)),
            final(self).aliases() == old(self).aliases(),
    {
        self.change(account, Edit::Org(None));
    }

    /// Set the configuration for the Joplin storage.
    pub fn set_storage_joplin(&mut self, account: &str, config: JoplinConfig)
        requires
            old(self).wf(),
        ensures
            final(self).wf(),
            final(self)@ == changed(old(self)@, account@, Edit::Joplin(Some(config))),
            final(self).aliases() == old(self).aliases(),
    {
        self.change(account, Edit::Joplin(Some(config)));
    }

    /// Remove the Joplin storage.
    pub fn remove_storage_joplin(&mut self, account: &str)
        requires
            old(self).wf(),
        ensures
            final(self).wf(),
            final(self)@ == changed(old(self)@, account@, Edit::Joplin(None)),
            final(self).aliases() == old(self).aliases(),
    {
        self.change(account, Edit::Joplin(None));
    }

    /// Set the a last seen favourite for the account
    pub fn set_new_favourite(&mut self, account: &str, favourite: &str)
        requires
            old(self).wf(),
        ensures
            final(self).wf(),
            final(self)@ == if old(self)@.contains_key(account@) {
                old(self)@.insert(
                    account@,
                    AccountConfigView { favourite: favourite@, ..old(self)@[account@] },
                )
            } else {
                old(self)@
            },
            final(self).aliases() == old(self).aliases(),
    {
        self.change(account, Edit::Favourite(favourite.to_owned()));
    }
}

} // verus!
