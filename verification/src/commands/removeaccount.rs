//! Removing an account.

use crate::config::config::Config;
use vstd::prelude::*;

verus! {

#[derive(Debug, PartialEq, Eq)]
pub struct RemoveAccount {
    pub name: String,
}

impl RemoveAccount {
    pub fn new(name: &str) -> (command: Self)
        ensures
            command.name@ == name@,
    {
        RemoveAccount { name: name.to_owned() }
    }

    /// Takes the account out of `config` and says so. Nothing changes
    /// where there is no account of that name.
    pub fn execute(&self, config: &mut Config) -> (message: &'static str)
        requires
            old(config).wf(),
        ensures
            final(config).wf(),
            final(config)@ == old(config)@.remove(self.name@),
            message@ == "Account removed"@,
    {
        config.remove_account(self.name.as_str());
        "Account removed"
    }
}

} // verus!
