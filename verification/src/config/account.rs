//! The configuration of one account.

use crate::config::JoplinConfig;
use crate::config::JoplinConfigView;
use crate::config::favourite::Favourite;
use crate::storage::markdown::MarkdownConfig;
use crate::storage::org::OrgConfig;
use vstd::prelude::*;

verus! {

/// What the remote service needs to know the account by: the address of
/// the server and the keys that the registration gave.
#[derive(Debug, PartialEq, Eq)]
pub struct Credentials {
    pub base: String,
    pub client_id: String,
    pub client_secret: String,
    pub redirect: String,
    pub token: String,
}

/// What [`Credentials`] stand for.
pub struct CredentialsView {
    pub base: Seq<char>,
    pub client_id: Seq<char>,
    pub client_secret: Seq<char>,
    pub redirect: Seq<char>,
    pub token: Seq<char>,
}

impl View for Credentials {
    type V = CredentialsView;

    open spec fn view(&self) -> CredentialsView {
        CredentialsView {
            base: self.base@,
            client_id: self.client_id@,
            client_secret: self.client_secret@,
            redirect: self.redirect@,
            token: self.token@,
        }
    }
}

impl Clone for Credentials {
    fn clone(&self) -> (copy: Self)
        ensures
            copy@ == self@,
    {
        Credentials {
            base: self.base.clone(),
            client_id: self.client_id.clone(),
            client_secret: self.client_secret.clone(),
            redirect: self.redirect.clone(),
            token: self.token.clone(),
        }
    }
}

/// Account configuration
#[derive(Debug, PartialEq, Eq)]
pub struct AccountConfig {
    pub favourite: Favourite,
    pub mastodon: Credentials,
    pub markdown: Option<MarkdownConfig>,
    pub org: Option<OrgConfig>,
    pub joplin: Option<JoplinConfig>,
}

/// What an [`AccountConfig`] stands for: the watermark, the credentials,
/// and for each storage its settings where it is enabled.
pub struct AccountConfigView {
    pub favourite: Seq<char>,
    pub mastodon: CredentialsView,
    pub markdown: Option<Seq<char>>,
    pub org: Option<Seq<char>>,
    pub joplin: Option<JoplinConfigView>,
}

impl View for AccountConfig {
    type V = AccountConfigView;

    open spec fn view(&self) -> AccountConfigView {
        AccountConfigView {
            favourite: self.favourite@,
            mastodon: self.mastodon@,
            markdown: match self.markdown {
                Some(config) => Some(config@),
                None => None,
            },
            org: match self.org {
                Some(config) => Some(config@),
                None => None,
            },
            joplin: match self.joplin {
                Some(config) => Some(config@),
                None => None,
            },
        }
    }
}

/// The configuration of an account that was just added: no favourite seen
/// and no storage enabled.
pub open spec fn fresh_account(configuration: CredentialsView) -> AccountConfigView {
    AccountConfigView {
        favourite: Seq::empty(),
        mastodon: configuration,
        markdown: None,
        org: None,
        joplin: None,
    }
}

impl AccountConfig {
    /// Create an empty account configuration.
    pub fn new(configuration: Credentials) -> (account: Self)
        ensures
            account@ == fresh_account(configuration@),
    {
        AccountConfig {
            mastodon: configuration,
            favourite: Favourite::new(),
            markdown: None,
            org: None,
            joplin: None,
        }
    }

    /// Return the top favourite for the account.
    pub fn top_favourite(&self) -> (top: String)
        ensures
            top@ == self@.favourite,
    {
        self.favourite.last()
    }

    pub fn set_favourite(&mut self, favourite: &str)
        ensures
            final(self)@ == (AccountConfigView { favourite: favourite@, ..old(self)@ }),
    {
        self.favourite.set(favourite);
    }

    /// The same account with `most_recent_favourite` as its watermark.
    pub fn save(self, most_recent_favourite: &str) -> (account: Self)
        ensures
            account@ == (AccountConfigView { favourite: most_recent_favourite@, ..self@ }),
    {
        AccountConfig {
            favourite: Favourite::new_with_value(most_recent_favourite),
            mastodon: self.mastodon,
            markdown: self.markdown,
            org: self.org,
            joplin: self.joplin,
        }
    }

    /// The Mastodon configuration for the account.
    pub fn mastodon(&self) -> (configuration: Credentials)
        ensures
            configuration@ == self@.mastodon,
    {
        self.mastodon.clone()
    }

    /// Set the Markdown configuration.
    pub fn set_markdown(&mut self, config: MarkdownConfig)
        ensures
            final(self)@ == (AccountConfigView { markdown: Some(config@), ..old(self)@ }),
    {
        self.markdown = Some(config);
    }

    /// Remove the Markdown configuration.
    pub fn remove_markdown(&mut self)
        ensures
            final(self)@ == (AccountConfigView { markdown: None, ..old(self)@ }),
    {
        self.markdown = None;
    }

    /// Return the Markdown configuration.
    pub fn markdown(&self) -> (config: &Option<MarkdownConfig>)
        ensures
            *config == self.markdown,
    {
        &self.markdown
    }

    /// Set the Org configuration.
    pub fn set_org(&mut self, config: OrgConfig)
        ensures
            final(self)@ == (AccountConfigView { org: Some(config@), ..old(self)@ }),
    {
        self.org = Some(config);
    }

    /// Remove the Org configuration.
    pub fn remove_org(&mut self)
        ensures
            final(self)@ == (AccountConfigView { org: None, ..old(self)@ }),
    {
        self.org = None;
    }

    /// Return the Org configuration.
    pub fn org(&self) -> (config: &Option<OrgConfig>)
        ensures
            *config == self.org,
    {
        &self.org
    }

    /// Set the Joplin configuration.
    pub fn set_joplin(&mut self, config: JoplinConfig)
        ensures
            final(self)@ == (AccountConfigView { joplin: Some(config@), ..old(self)@ }),
    {
        self.joplin = Some(config);
    }

    /// Remove the Joplin configuration.
    pub fn remove_joplin(&mut self)
        ensures
            final(self)@ == (AccountConfigView { joplin: None, ..old(self)@ }),
    {
        self.joplin = None;
    }

    /// Return the Joplin configuration.
    pub fn joplin(&self) -> (config: &Option<JoplinConfig>)
        ensures
            *config == self.joplin,
    {
        &self.joplin
    }
}

} // verus!
