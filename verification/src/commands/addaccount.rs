//! Adding an account.

use crate::config::account::Credentials;
use crate::config::account::fresh_account;
use crate::config::config::Config;
use vstd::prelude::*;

verus! {

#[derive(Debug, PartialEq, Eq)]
pub struct AddAccount {
    pub name: String,
}

impl AddAccount {
    pub fn new(name: &str) -> (command: Self)
        ensures
            command.name@ == name@,
    {
        AddAccount { name: name.to_owned() }
    }

    /// Puts the account into `config` under its name, with the credentials
    /// that the registration at the server gave, no favourite seen and no
    /// storage. An account that was there under the name is replaced.
    pub fn execute(&self, config: &mut Config, connection: Credentials)
        requires
            old(config).wf(),
        ensures
            final(config).wf(),
            final(config)@ == old(config)@.insert(self.name@, fresh_account(connection@)),
    {
        config.add_account(self.name.as_str(), connection);
    }
}

} // verus!
