//! The plain filesystem backend: the Markdown layout below the directory
//! `data` of the working directory.

use crate::storage::data::Data;
use crate::storage::data::DataView;
use crate::storage::helpers::markdown_of;
use crate::storage::markdown::attachments_below;
use crate::storage::markdown::content_below;
use crate::storage::markdown::dir_below;
use crate::storage::markdown::download_steps;
use crate::storage::markdown::markdown_plan;
use crate::storage::markdown::record_dir;
use crate::storage::markdown::save_below;
use crate::storage::storage::Step;
use crate::storage::storage::StepView;
use crate::storage::storage::Storage;
use crate::storage::storage::joined;
use crate::storage::storage::step_views;
use vstd::prelude::*;

verus! {

#[derive(Debug, PartialEq, Eq)]
pub struct Filesystem {}

impl Filesystem {
    pub fn new() -> (storage: Self) {
        Filesystem {  }
    }

    /// The directory in which the data from this toot will be saved.
    pub fn dir(&self, data: &Data) -> (dir: String)
        ensures
            dir@ == record_dir("data"@, data@),
    {
        dir_below("data", data)
    }

    /// Make sure the path structure exists for saving the data.
    pub fn create_dirs(&self, data: &Data) -> (step: Step)
        ensures
            step@ == (StepView::CreateDirs { path: record_dir("data"@, data@) }),
    {
        Step::CreateDirs { path: self.dir(data) }
    }

    /// Save the content in the directory.
    pub fn save_content(&self, data: &Data) -> (step: Step)
        ensures
            step@ == (StepView::WriteFile {
                path: joined(record_dir("data"@, data@), "toot.md"@),
                content: markdown_of(data@),
            }),
    {
        content_below("data", data)
    }

    /// Save the attachments.
    pub fn save_attachments(&self, data: &Data) -> (steps: Vec<Step>)
        ensures
            step_views(steps@) == download_steps(record_dir("data"@, data@), data@.attachments),
    {
        attachments_below("data", data)
    }
}

impl Storage for Filesystem {
    open spec fn plan(&self, record: DataView) -> Seq<StepView> {
        markdown_plan("data"@, record)
    }

    fn save(&self, data: &Data) -> (steps: Vec<Step>) {
        save_below("data", data)
    }
}

} // verus!
