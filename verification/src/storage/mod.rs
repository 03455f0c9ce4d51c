//! The record model and the storage backends.

pub mod attachment;
pub mod data;
pub mod filesystem;
pub mod helpers;
pub mod joplin;
pub mod markdown;
pub mod org;
pub mod storage;

use crate::config::account::AccountConfig;
use crate::storage::data::Data;
use crate::storage::data::DataView;
use crate::storage::joplin::Joplin;
use crate::storage::markdown::Markdown;
use crate::storage::org::Org;
use crate::storage::storage::Step;
use crate::storage::storage::StepView;
use crate::storage::storage::Storage;
use crate::storage::storage::step_views;
use vstd::prelude::*;

verus! {

/// The storages that are enabled for one account. A record of the account
/// goes to each of them.
pub struct Storages {
    pub markdown: Option<Markdown>,
    pub org: Option<Org>,
    pub joplin: Option<Joplin>,
}

/// The plan of the storage `storage` for `record`, as a sequence of one
/// plan; no plan where the storage is not enabled.
pub open spec fn plan_of<S: Storage>(storage: Option<S>, record: DataView) -> Seq<Seq<StepView>> {
    match storage {
        Some(enabled) => seq![enabled.plan(record)],
        None => Seq::empty(),
    }
}

/// The views of `plans`, in order.
pub open spec fn plan_views(plans: Seq<Vec<Step>>) -> Seq<Seq<StepView>> {
    Seq::new(plans.len(), |i: int| step_views(plans[i]@))
}

impl Storages {
    /// One plan for each enabled storage: Markdown, then Org, then Joplin.
    pub open spec fn plans(&self, record: DataView) -> Seq<Seq<StepView>> {
        plan_of(self.markdown, record) + plan_of(self.org, record) + plan_of(self.joplin, record)
    }

    /// How many storages are enabled.
    pub open spec fn count(&self) -> nat {
        (if self.markdown is Some {
            1nat
        } else {
            0nat
        }) + (if self.org is Some {
            1nat
        } else {
            0nat
        }) + (if self.joplin is Some {
            1nat
        } else {
            0nat
        })
    }

    /// The storages of `account`: Markdown and Org as the account
    /// configures them, the journal being that of today, and the connection
    /// `joplin` where the caller has made one. There are none where the
    /// account has an Org storage and the clock of the system gives no day
    /// to name its journal by.
    pub fn new(account: &AccountConfig, joplin: Option<Joplin>) -> (storages: Option<Self>)
        ensures
            match storages {
                Some(s) => {
                    &&& s.joplin == joplin
                    &&& match account.markdown {
                        Some(config) => s.markdown matches Some(m) && m.path@ == config.path@,
                        None => s.markdown is None,
                    }
                    &&& match account.org {
                        Some(config) => s.org matches Some(o) && o.path@ == config.path@
                            && o.of_a_day(),
                        None => s.org is None,
                    }
                },
                None => account.org is Some,
            },
    {
        let markdown = match &account.markdown {
            Some(config) => Some(Markdown::new(config)),
            None => None,
        };
        let org = match &account.org {
            Some(config) => match Org::new_from_config(config) {
                Some(org) => Some(org),
                None => {
                    return None;
                },
            },
            None => None,
        };
        Some(Storages { markdown, org, joplin })
    }

    /// The plans that save `record` in every enabled storage, one plan for
    /// each. The plans do not depend on each other: where a step of one
    /// fails, the others are still to be run.
    pub fn save(&self, record: &Data) -> (plans: Vec<Vec<Step>>)
        ensures
            plan_views(plans@) == self.plans(record@),
            plans@.len() == self.count(),
    {
        let mut plans: Vec<Vec<Step>> = Vec::new();
        match &self.markdown {
            Some(storage) => {
                plans.push(storage.save(record));
            },
            None => {},
        }
        assert(plan_views(plans@) =~= plan_of(self.markdown, record@));
        match &self.org {
            Some(storage) => {
                plans.push(storage.save(record));
            },
            None => {},
        }
        assert(plan_views(plans@) =~= plan_of(self.markdown, record@) + plan_of(
            self.org,
            record@,
        ));
        match &self.joplin {
            Some(storage) => {
                plans.push(storage.save(record));
            },
            None => {},
        }
        assert(plan_views(plans@) =~= self.plans(record@));
        plans
    }
}

} // verus!
