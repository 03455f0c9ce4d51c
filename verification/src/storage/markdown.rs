//! The Markdown backend: one directory per post, with the text in
//! `toot.md` and the media beside it.

use crate::config::errors::ConfigError;
use crate::config::expandable;
use crate::config::literal_path;
use crate::config::path_from_input;
use crate::storage::attachment::filename_of;
use crate::storage::data::Data;
use crate::storage::data::DataView;
use crate::storage::helpers::make_markdown;
use crate::storage::helpers::markdown_of;
use crate::storage::storage::Step;
use crate::storage::storage::StepView;
use crate::storage::storage::Storage;
use crate::storage::storage::join;
use crate::storage::storage::joined;
use crate::storage::storage::step_views;
use crate::text::trim;
use vstd::prelude::*;

verus! {

/// Configuration for the Markdown backend
#[derive(Debug, PartialEq, Eq)]
pub struct MarkdownConfig {
    /// Path where files will be stored.
    pub path: String,
}

impl View for MarkdownConfig {
    type V = Seq<char>;

    open spec fn view(&self) -> Seq<char> {
        self.path@
    }
}

impl MarkdownConfig {
    /// The configuration that the line `input`, the answer to the question
    /// for the base path, stands for: its path is the line without the
    /// white space at its ends, with the home directory and environment
    /// variables filled in. A line that holds nothing to fill in is taken
    /// as it is. The only failure is `InvalidPath`: for a line in which a
    /// `$` stands before a character that is not ASCII, and for a variable
    /// that cannot be looked up.
    pub fn config(input: &str) -> (config: Result<Self, ConfigError>)
        ensures
            match config {
                Ok(c) => {
                    &&& expandable(trim(input@))
                    &&& literal_path(trim(input@)) ==> c@ == trim(input@)
                },
                Err(e) => e == ConfigError::InvalidPath && !literal_path(trim(input@)),
            },
    {
        match path_from_input(input) {
            Ok(path) => Ok(MarkdownConfig { path }),
            Err(e) => Err(e),
        }
    }
}

/// The directory of a record below `base`: `base/account/id`.
pub open spec fn record_dir(base: Seq<char>, record: DataView) -> Seq<char> {
    joined(joined(base, record.account), record.id)
}

/// One download into `dir` for each of `urls`, in order, each under the
/// file name of its attachment.
pub open spec fn download_steps(dir: Seq<char>, urls: Seq<Seq<char>>) -> Seq<StepView> {
    Seq::new(
        urls.len(),
        |i: int| StepView::Download { url: urls[i], path: joined(dir, filename_of(urls[i])) },
    )
}

/// The steps that save `record` below `base`: make its directory, write
/// its Markdown text to `toot.md` there, and download each attachment into
/// the same directory.
pub open spec fn markdown_plan(base: Seq<char>, record: DataView) -> Seq<StepView> {
    let dir = record_dir(base, record);
    seq![
        StepView::CreateDirs { path: dir },
        StepView::WriteFile { path: joined(dir, "toot.md"@), content: markdown_of(record) },
    ] + download_steps(dir, record.attachments)
}

/// The directory of `data` below `base`.
pub fn dir_below(base: &str, data: &Data) -> (dir: String)
    ensures
        dir@ == record_dir(base@, data@),
{
    let account = join(base, data.account.as_str());
    join(account.as_str(), data.id.as_str())
}

/// The step that writes the Markdown text of `data` into its directory
/// below `base`.
pub fn content_below(base: &str, data: &Data) -> (step: Step)
    ensures
        step@ == (StepView::WriteFile {
            path: joined(record_dir(base@, data@), "toot.md"@),
            content: markdown_of(data@),
        }),
{
    let dir = dir_below(base, data);
    Step::WriteFile { path: join(dir.as_str(), "toot.md"), content: make_markdown(data) }
}

/// The steps that download the attachments of `data` into its directory
/// below `base`.
pub fn attachments_below(base: &str, data: &Data) -> (steps: Vec<Step>)
    ensures
        step_views(steps@) == download_steps(record_dir(base@, data@), data@.attachments),
{
    let dir = dir_below(base, data);
    let mut steps: Vec<Step> = Vec::new();
    let mut i: usize = 0;
    while i < data.attachments.len()
        invariant
            i <= data.attachments.len(),
            steps@.len() == i,
            dir@ == record_dir(base@, data@),
            forall|k: int|
                0 <= k < i ==> (#[trigger] steps@[k])@ == download_steps(
                    dir@,
                    data@.attachments,
                )[k],
        decreases data.attachments.len() - i,
    {
        let attachment = &data.attachments[i];
        let name = attachment.filename();
        let step = Step::Download {
            url: attachment.url.clone(),
            path: join(dir.as_str(), name.as_str()),
        };
        assert(data@.attachments[i as int] == attachment@);
        steps.push(step);
        i += 1;
    }
    assert(step_views(steps@) =~= download_steps(dir@, data@.attachments));
    steps
}

/// The steps that save `data` below `base`.
pub fn save_below(base: &str, data: &Data) -> (steps: Vec<Step>)
    ensures
        step_views(steps@) == markdown_plan(base@, data@),
{
    let mut steps: Vec<Step> = Vec::new();
    steps.push(Step::CreateDirs { path: dir_below(base, data) });
    steps.push(content_below(base, data));
    let mut downloads = attachments_below(base, data);
    let ghost head = steps@;
    let ghost tail = downloads@;
    steps.append(&mut downloads);
    proof {
        let plan = markdown_plan(base@, data@);
        assert(steps@ =~= head + tail);
        assert(step_views(steps@).len() == plan.len());
        assert forall|k: int| 0 <= k < plan.len() implies step_views(steps@)[k] == plan[k] by {
            if k >= 2 {
                assert(steps@[k] == tail[k - 2]);
                assert(step_views(tail)[k - 2] == tail[k - 2]@);
            }
        }
        assert(step_views(steps@) =~= plan);
    }
    steps
}

/// The Markdown storage: posts are saved below the directory `path`.
#[derive(Debug, PartialEq, Eq)]
pub struct Markdown {
    pub path: String,
}

impl Markdown {
    pub fn new(config: &MarkdownConfig) -> (storage: Self)
        ensures
            storage.path@ == config.path@,
    {
        Markdown { path: config.path.clone() }
    }

    /// The directory in which the data from this toot will be saved.
    pub fn dir(&self, data: &Data) -> (dir: String)
        ensures
            dir@ == record_dir(self.path@, data@),
    {
        dir_below(self.path.as_str(), data)
    }

    /// Make sure the path structure exists for saving the data.
    pub fn create_dirs(&self, data: &Data) -> (step: Step)
        ensures
            step@ == (StepView::CreateDirs { path: record_dir(self.path@, data@) }),
    {
        Step::CreateDirs { path: self.dir(data) }
    }

    /// Save the content in the directory.
    pub fn save_content(&self, data: &Data) -> (step: Step)
        ensures
            step@ == (StepView::WriteFile {
                path: joined(record_dir(self.path@, data@), "toot.md"@),
                content: markdown_of(data@),
            }),
    {
        content_below(self.path.as_str(), data)
    }

    /// Save the attachments.
    pub fn save_attachments(&self, data: &Data) -> (steps: Vec<Step>)
        ensures
            step_views(steps@) == download_steps(
                record_dir(self.path@, data@),
                data@.attachments,
            ),
    {
        attachments_below(self.path.as_str(), data)
    }
}

impl Storage for Markdown {
    open spec fn plan(&self, record: DataView) -> Seq<StepView> {
        markdown_plan(self.path@, record)
    }

    fn save(&self, data: &Data) -> (steps: Vec<Step>) {
        save_below(self.path.as_str(), data)
    }
}

} // verus!
