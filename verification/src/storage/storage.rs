//! What a backend asks to be done for one record: the steps of a save, in
//! order, as plain values. Running them is left to the caller.

use crate::storage::data::Data;
use crate::storage::data::DataView;
use vstd::prelude::*;

verus! {

/// One step of a save.
#[derive(Debug, PartialEq, Eq)]
pub enum Step {
    /// Create the directory `path` and every directory above it that is
    /// missing. Nothing is done where it exists.
    CreateDirs { path: String },
    /// Create or replace the file `path` with `content`.
    WriteFile { path: String, content: String },
    /// Fetch `url` and write what comes to the file `path`.
    Download { url: String, path: String },
    /// Append `content` to the file `path`. Where the file is missing, create
    /// it and write `header` first.
    Append { path: String, header: String, content: String },
    /// Fetch `url` and send what comes to `endpoint` as a multipart form:
    /// the part `data` with the bytes under the file name `filename`, the
    /// part `props` with the text `props`. The answer names the new
    /// resource.
    Upload { url: String, endpoint: String, filename: String, props: String },
    /// Send a note to `endpoint` as a JSON object with the keys `parent_id`,
    /// `title`, `body` and `source_url`. In a plan the body stands without
    /// the references to the resources, which are known only when the
    /// uploads before the note have answered; the step is completed with
    /// them before it is run.
    CreateNote {
        endpoint: String,
        parent_id: String,
        title: String,
        body: String,
        source_url: String,
    },
}

/// What a [`Step`] stands for.
pub enum StepView {
    CreateDirs { path: Seq<char> },
    WriteFile { path: Seq<char>, content: Seq<char> },
    Download { url: Seq<char>, path: Seq<char> },
    Append { path: Seq<char>, header: Seq<char>, content: Seq<char> },
    Upload { url: Seq<char>, endpoint: Seq<char>, filename: Seq<char>, props: Seq<char> },
    CreateNote {
        endpoint: Seq<char>,
        parent_id: Seq<char>,
        title: Seq<char>,
        body: Seq<char>,
        source_url: Seq<char>,
    },
}

impl View for Step {
    type V = StepView;

    open spec fn view(&self) -> StepView {
        match self {
            Step::CreateDirs { path } => StepView::CreateDirs { path: path@ },
            Step::WriteFile { path, content } => StepView::WriteFile {
                path: path@,
                content: content@,
            },
            Step::Download { url, path } => StepView::Download { url: url@, path: path@ },
            Step::Append { path, header, content } => StepView::Append {
                path: path@,
                header: header@,
                content: content@,
            },
            Step::Upload { url, endpoint, filename, props } => StepView::Upload {
                url: url@,
                endpoint: endpoint@,
                filename: filename@,
                props: props@,
            },
            Step::CreateNote { endpoint, parent_id, title, body, source_url } => {
                StepView::CreateNote {
                    endpoint: endpoint@,
                    parent_id: parent_id@,
                    title: title@,
                    body: body@,
                    source_url: source_url@,
                }
            },
        }
    }
}

/// The views of `steps`, in order.
pub open spec fn step_views(steps: Seq<Step>) -> Seq<StepView> {
    Seq::new(steps.len(), |i: int| steps[i]@)
}

/// The views of a sequence with one more step are the views of the sequence
/// with the view of that step.
pub proof fn lemma_step_views_push(steps: Seq<Step>, step: Step)
    ensures
        step_views(steps.push(step)) == step_views(steps).push(step@),
{
    assert(step_views(steps.push(step)) =~= step_views(steps).push(step@));
}

/// The views of two sequences, one after the other, are the views of the
/// first and then those of the second.
pub proof fn lemma_step_views_add(first: Seq<Step>, second: Seq<Step>)
    ensures
        step_views(first + second) == step_views(first) + step_views(second),
{
    assert(step_views(first + second) =~= step_views(first) + step_views(second));
}

/// The path of `name` inside the directory `base`: the two with a `/`
/// between them. Inside the empty base, which stands for the working
/// directory, it is `name` itself.
pub open spec fn joined(base: Seq<char>, name: Seq<char>) -> Seq<char> {
    if base.len() == 0 {
        name
    } else {
        base + "/"@ + name
    }
}

/// The path of `name` inside the directory `base`.
pub fn join(base: &str, name: &str) -> (path: String)
    ensures
        path@ == joined(base@, name@),
{
    let mut path = base.to_owned();
    if !base.is_empty() {
        path.append("/");
    }
    path.append(name);
    assert(path@ =~= joined(base@, name@));
    path
}

/// Trait for storing favorites on a storage.
pub trait Storage {
    /// The steps that save `record` in this storage, in the order in which
    /// they are to be run. A step that fails ends the save.
    spec fn plan(&self, record: DataView) -> Seq<StepView>;

    /// Save the favourite in the storage: the steps to run for it.
    fn save(&self, record: &Data) -> (steps: Vec<Step>)
        ensures
            step_views(steps@) == self.plan(record@),
    ;
}

} // verus!
