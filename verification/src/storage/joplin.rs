//! The Joplin backend: notes and resources sent to the local service.

use crate::config::JoplinConfig;
use crate::storage::attachment::filename_of;
use crate::storage::data::Data;
use crate::storage::data::DataView;
use crate::storage::helpers::make_markdown;
use crate::storage::helpers::markdown_of;
use crate::storage::storage::Step;
use crate::storage::storage::StepView;
use crate::storage::storage::Storage;
use crate::storage::storage::lemma_step_views_push;
use crate::storage::storage::step_views;
use crate::text::decimal;
use crate::text::json_escape;
use crate::text::json_escaped;
use crate::text::last_index_of;
use crate::text::lemma_last_index_of;
use crate::text::push_decimal;
use crate::text::same;
use crate::text::substring;
use crate::text::to_chars;
use vstd::prelude::*;

verus! {

/// A notebook as the service lists it.
#[derive(Debug, PartialEq, Eq)]
pub struct Folder {
    pub id: String,
    pub title: String,
}

/// What a [`Folder`] stands for.
pub struct FolderView {
    pub id: Seq<char>,
    pub title: Seq<char>,
}

impl View for Folder {
    type V = FolderView;

    open spec fn view(&self) -> FolderView {
        FolderView { id: self.id@, title: self.title@ }
    }
}

/// The views of `folders`, in order.
pub open spec fn folder_views(folders: Seq<Folder>) -> Seq<FolderView> {
    Seq::new(folders.len(), |i: int| folders[i]@)
}

/// One page of the list of notebooks.
#[derive(Debug, PartialEq, Eq)]
pub struct FolderList {
    pub items: Vec<Folder>,
    pub has_more: bool,
}

/// A file that the service holds, as the answer to its upload names it.
#[derive(Debug, PartialEq, Eq)]
pub struct Resource {
    pub id: String,
    pub filename: String,
}

/// What a [`Resource`] stands for.
pub struct ResourceView {
    pub id: Seq<char>,
    pub filename: Seq<char>,
}

impl View for Resource {
    type V = ResourceView;

    open spec fn view(&self) -> ResourceView {
        ResourceView { id: self.id@, filename: self.filename@ }
    }
}

/// The views of `resources`, in order.
pub open spec fn resource_views(resources: Seq<Resource>) -> Seq<ResourceView> {
    Seq::new(resources.len(), |i: int| resources[i]@)
}

/// The address of the service on `port`, up to the path.
pub open spec fn service(port: nat) -> Seq<char> {
    "http://localhost:"@ + decimal(port) + "/"@
}

/// The address that lists the notebooks, one page of them.
pub open spec fn folders_url(port: nat, token: Seq<char>, page: nat) -> Seq<char> {
    service(port) + "folders?token="@ + token + "&page="@ + decimal(page)
}

/// The address of the collection `resource` of the service.
pub open spec fn collection_url(port: nat, token: Seq<char>, resource: Seq<char>) -> Seq<char> {
    service(port) + resource + "?token="@ + token
}

/// The `id` of the first of `folders` with the title `title`.
pub open spec fn folder_titled(folders: Seq<FolderView>, title: Seq<char>) -> Option<Seq<char>>
    decreases folders.len(),
{
    if folders.len() == 0 {
        None
    } else if folders[0].title == title {
        Some(folders[0].id)
    } else {
        folder_titled(folders.drop_first(), title)
    }
}

/// The extension of a file name: what follows its last dot, unless that dot
/// is the first character of the name. Only what follows the last `/`
/// counts as the name.
pub open spec fn extension_of(name: Seq<char>) -> Option<Seq<char>> {
    let base = name.skip(last_index_of(name, '/') + 1);
    let dot = last_index_of(base, '.');
    if dot <= 0 {
        None
    } else {
        Some(base.skip(dot + 1))
    }
}

/// Whether a note shows the file inline: its extension is `jpeg`, `jpg`,
/// `png` or `gif`.
pub open spec fn inlineable(filename: Seq<char>) -> bool {
    extension_of(filename) matches Some(extension) && (extension == "jpeg"@ || extension
        == "jpg"@ || extension == "png"@ || extension == "gif"@)
}

/// The reference to a resource in the text of a note: an image where the
/// file is shown inline, else a link.
pub open spec fn resource_link(resource: ResourceView) -> Seq<char> {
    let mark = if inlineable(resource.filename) {
        "!"@
    } else {
        Seq::empty()
    };
    mark + "["@ + resource.filename + "](:/"@ + resource.id + ")"@
}

/// The references to `resources`, each after a blank line.
pub open spec fn resources_text(resources: Seq<ResourceView>) -> Seq<char>
    decreases resources.len(),
{
    if resources.len() == 0 {
        Seq::empty()
    } else {
        resources_text(resources.drop_last()) + "\n\n"@ + resource_link(resources.last())
    }
}

/// The properties that go with the upload of the file `filename`: the
/// JSON object whose one member `title` is the name of the file.
pub open spec fn resource_props(filename: Seq<char>) -> Seq<char> {
    "{\"title\": \""@ + json_escaped(filename) + "\"}"@
}

/// The title of the note of a record.
pub open spec fn note_title(record: DataView) -> Seq<char> {
    record.account + "/"@ + record.id
}

/// The reading of the list of notebooks, page by page. It starts at page 1
/// and goes on for as long as the page read last said that there are more.
#[derive(Debug, PartialEq, Eq)]
pub struct FolderListing {
    pub page: u64,
    pub has_more: bool,
    pub folders: Vec<Folder>,
}

impl FolderListing {
    /// Nothing read yet.
    pub fn new() -> (listing: Self)
        ensures
            listing.page == 1,
            listing.has_more,
            listing.folders@.len() == 0,
    {
        FolderListing { page: 1, has_more: true, folders: Vec::new() }
    }

    /// The address to ask for the next page; `None` once the list is
    /// complete.
    pub fn next_request(&self, config: &JoplinConfig) -> (url: Option<String>)
        ensures
            match url {
                Some(u) => self.has_more && u@ == folders_url(
                    config.port as nat,
                    config.token@,
                    self.page as nat,
                ),
                None => !self.has_more,
            },
    {
        if !self.has_more {
            return None;
        }
        let mut url = "http://localhost:".to_owned();
        push_decimal(&mut url, config.port as u64);
        url.append("/");
        url.append("folders?token=");
        url.append(config.token.as_str());
        url.append("&page=");
        push_decimal(&mut url, self.page);
        assert(url@ =~= folders_url(config.port as nat, config.token@, self.page as nat));
        Some(url)
    }

    /// Takes the answer to the request for the current page: its notebooks
    /// go behind those read before, and the next page is due if the answer
    /// says that there are more.
    pub fn receive(&mut self, list: FolderList)
        requires
            old(self).has_more,
            old(self).page < u64::MAX,
        ensures
            final(self).folders@ == old(self).folders@ + list.items@,
            final(self).page == old(self).page + 1,
            final(self).has_more == list.has_more,
    {
        let mut items = list.items;
        self.folders.append(&mut items);
        self.page = self.page + 1;
        self.has_more = list.has_more;
    }
}

/// The notebooks that a listing comes to, given the answers of the service
/// page by page: those of every page up to the first one that says that
/// there are no more.
pub open spec fn listed(pages: Seq<FolderList>) -> Seq<Folder>
    decreases pages.len(),
{
    if pages.len() == 0 {
        Seq::empty()
    } else if !pages[0].has_more {
        pages[0].items@
    } else {
        pages[0].items@ + listed(pages.drop_first())
    }
}

/// Runs a listing over the answers `pages` of the service, the first page
/// first: the notebooks of the pages that the listing asks for.
pub fn get_folder_list(pages: Vec<FolderList>) -> (folders: Vec<Folder>)
    requires
        pages@.len() < u64::MAX,
    ensures
        folders@ == listed(pages@),
{
    let mut listing = FolderListing::new();
    let ghost all = pages@;
    proof {
        assert(all.skip(0) =~= all);
        assert(listing.folders@ + listed(all) =~= listed(all));
    }
    for page in it: pages
        invariant
            it.seq() == all,
            all.len() < u64::MAX,
            listing.page <= it.index() + 1,
            listed(all) == if listing.has_more {
                listing.folders@ + listed(all.skip(it.index() as int))
            } else {
                listing.folders@
            },
    {
        if listing.has_more {
            let ghost before = listing.folders@;
            let ghost rest = all.skip(it.index() as int);
            proof {
                assert(rest[0] == page);
                assert(rest.drop_first() =~= all.skip(it.index() + 1));
            }
            listing.receive(page);
            proof {
                if page.has_more {
                    assert(listing.folders@ + listed(all.skip(it.index() + 1)) =~= before + listed(
                        rest,
                    ));
                }
            }
        }
    }
    proof {
        assert(all.skip(all.len() as int) =~= Seq::<FolderList>::empty());
        assert(listing.folders@ + Seq::<Folder>::empty() =~= listing.folders@);
    }
    listing.folders
}

/// Connection to Joplin.
#[derive(Debug, PartialEq, Eq)]
pub struct Joplin {
    pub port: u32,
    pub token: String,
    pub folder_id: String,
}

impl Joplin {
    /// The connection that files notes in the notebook named in `config`,
    /// given the notebooks that the service lists. There is none where no
    /// notebook has that name.
    pub fn new_from_config(config: &JoplinConfig, folders: &Vec<Folder>) -> (joplin: Option<
        Joplin,
    >)
        ensures
            match folder_titled(folder_views(folders@), config.folder@) {
                Some(id) => joplin matches Some(j) && j.port == config.port && j.token@
                    == config.token@ && j.folder_id@ == id,
                None => joplin is None,
            },
    {
        match Joplin::find_folder(folders, config.folder.as_str()) {
            Some(folder_id) => Some(
                Joplin { port: config.port, token: config.token.clone(), folder_id },
            ),
            None => None,
        }
    }

    /// The `id` of the first of `folders` that has the title `title`.
    pub fn find_folder(folders: &Vec<Folder>, title: &str) -> (id: Option<String>)
        ensures
            match folder_titled(folder_views(folders@), title@) {
                Some(found) => id matches Some(i) && i@ == found,
                None => id is None,
            },
    {
        let ghost views = folder_views(folders@);
        let mut i: usize = 0;
        assert(views.skip(0) =~= views);
        while i < folders.len()
            invariant
                i <= folders.len(),
                views == folder_views(folders@),
                folder_titled(views, title@) == folder_titled(views.skip(i as int), title@),
            decreases folders.len() - i,
        {
            proof {
                let rest = views.skip(i as int);
                assert(rest[0] == folders@[i as int]@);
                assert(rest.drop_first() =~= views.skip(i + 1));
            }
            if same(folders[i].title.as_str(), title) {
                return Some(folders[i].id.clone());
            }
            i += 1;
        }
        None
    }

    /// Whether a note shows the file `filename` inline.
    pub fn is_inlineable(filename: &str) -> (inline: bool)
        ensures
            inline == inlineable(filename@),
    {
        let chars = to_chars(filename);
        let mut start: usize = chars.len();
        while start > 0 && chars[start - 1] != '/'
            invariant
                start <= chars.len(),
                forall|k: int| start <= k < chars.len() ==> #[trigger] chars@[k] != '/',
            decreases start,
        {
            start -= 1;
        }
        let mut dot: usize = chars.len();
        while dot > start && chars[dot - 1] != '.'
            invariant
                start <= dot <= chars.len(),
                forall|k: int| dot <= k < chars.len() ==> #[trigger] chars@[k] != '.',
            decreases dot,
        {
            dot -= 1;
        }
        proof {
            lemma_last_index_of(chars@, '/', start - 1);
            let base = chars@.skip(start as int);
            assert forall|k: int| dot - 1 - start < k < base.len() implies #[trigger] base[k]
                != '.' by {
                assert(base[k] == chars@[start + k]);
            }
            if dot > start {
                assert(base[dot - 1 - start] == chars@[dot - 1]);
            }
            lemma_last_index_of(base, '.', dot - 1 - start);
            assert(base.skip(dot - start) =~= chars@.subrange(dot as int, chars.len() as int));
        }
        if dot - start <= 1 {
            return false;
        }
        let extension = substring(filename, dot, chars.len());
        let extension = extension.as_str();
        same(extension, "jpeg") || same(extension, "jpg") || same(extension, "png") || same(
            extension,
            "gif",
        )
    }

    /// Appends to `text` the references to `resources`, each after a blank
    /// line.
    pub fn add_resources_to_text(text: &mut String, resources: &Vec<Resource>)
        ensures
            final(text)@ == old(text)@ + resources_text(resource_views(resources@)),
    {
        let ghost views = resource_views(resources@);
        let mut i: usize = 0;
        assert(views.take(0) =~= Seq::<ResourceView>::empty());
        assert(text@ =~= old(text)@ + Seq::<char>::empty());
        while i < resources.len()
            invariant
                i <= resources.len(),
                views == resource_views(resources@),
                text@ == old(text)@ + resources_text(views.take(i as int)),
            decreases resources.len() - i,
        {
            let resource = &resources[i];
            let ghost before = text@;
            text.append("\n\n");
            if Joplin::is_inlineable(resource.filename.as_str()) {
                text.append("!");
            }
            text.append("[");
            text.append(resource.filename.as_str());
            text.append("](:/");
            text.append(resource.id.as_str());
            text.append(")");
            proof {
                let upto = views.take(i + 1);
                assert(upto.drop_last() =~= views.take(i as int));
                assert(upto.last() == resource@);
                assert(text@ =~= before + "\n\n"@ + resource_link(resource@));
                assert(text@ =~= old(text)@ + resources_text(upto));
            }
            i += 1;
        }
        assert(views.take(resources.len() as int) =~= views);
    }

    /// The address of the collection `resource` of the service.
    pub fn base_url(&self, resource: &str) -> (url: String)
        ensures
            url@ == collection_url(self.port as nat, self.token@, resource@),
    {
        let mut url = "http://localhost:".to_owned();
        push_decimal(&mut url, self.port as u64);
        url.append("/");
        url.append(resource);
        url.append("?token=");
        url.append(self.token.as_str());
        assert(url@ =~= collection_url(self.port as nat, self.token@, resource@));
        url
    }

    /// The step that uploads the file at `url` as the resource `filename`.
    pub open spec fn upload(&self, url: Seq<char>) -> StepView {
        StepView::Upload {
            url,
            endpoint: collection_url(self.port as nat, self.token@, "resources"@),
            filename: filename_of(url),
            props: resource_props(filename_of(url)),
        }
    }

    /// The step that uploads the file at `url` under the name `filename`.
    pub fn upload_resource(&self, url: &str, filename: String) -> (step: Step)
        ensures
            step@ == (StepView::Upload {
                url: url@,
                endpoint: collection_url(self.port as nat, self.token@, "resources"@),
                filename: filename@,
                props: resource_props(filename@),
            }),
    {
        let mut props = "{\"title\": \"".to_owned();
        props.append(json_escape(filename.as_str()).as_str());
        props.append("\"}");
        assert(props@ =~= resource_props(filename@));
        Step::Upload { url: url.to_owned(), endpoint: self.base_url("resources"), filename, props }
    }

    /// One upload for each attachment at `urls`, in order.
    pub open spec fn uploads(&self, urls: Seq<Seq<char>>) -> Seq<StepView> {
        Seq::new(urls.len(), |i: int| self.upload(urls[i]))
    }

    /// The steps that upload the attachments of `record`, in order.
    pub fn save_attachments(&self, record: &Data) -> (steps: Vec<Step>)
        ensures
            step_views(steps@) == self.uploads(record@.attachments),
    {
        let mut steps: Vec<Step> = Vec::new();
        let mut i: usize = 0;
        while i < record.attachments.len()
            invariant
                i <= record.attachments.len(),
                steps@.len() == i,
                forall|k: int|
                    0 <= k < i ==> (#[trigger] steps@[k])@ == self.uploads(
                        record@.attachments,
                    )[k],
            decreases record.attachments.len() - i,
        {
            let attachment = &record.attachments[i];
            assert(record@.attachments[i as int] == attachment@);
            let step = self.upload_resource(attachment.url.as_str(), attachment.filename());
            steps.push(step);
            i += 1;
        }
        assert(step_views(steps@) =~= self.uploads(record@.attachments));
        steps
    }

    /// The step that creates the note of `record`.
    pub open spec fn note(&self, record: DataView) -> StepView {
        StepView::CreateNote {
            endpoint: collection_url(self.port as nat, self.token@, "notes"@),
            parent_id: self.folder_id@,
            title: note_title(record),
            body: markdown_of(record),
            source_url: record.source,
        }
    }

    /// The step that creates the note of `record` once its attachments are
    /// uploaded as `resources`: the body is the Markdown of the record and
    /// then the references to the resources, in their order.
    pub open spec fn note_with(&self, record: DataView, resources: Seq<ResourceView>) -> StepView {
        StepView::CreateNote {
            endpoint: collection_url(self.port as nat, self.token@, "notes"@),
            parent_id: self.folder_id@,
            title: note_title(record),
            body: markdown_of(record) + resources_text(resources),
            source_url: record.source,
        }
    }

    /// The step that creates the note of `record`, whose attachments the
    /// service holds as `resources`.
    pub fn save_note(&self, record: &Data, resources: &Vec<Resource>) -> (step: Step)
        ensures
            step@ == self.note_with(record@, resource_views(resources@)),
    {
        let mut text = make_markdown(record);
        Joplin::add_resources_to_text(&mut text, resources);
        let mut title = record.account.clone();
        title.append("/");
        title.append(record.id.as_str());
        assert(title@ =~= note_title(record@));
        self.save_content(&title, &text, &record.source)
    }

    /// The step that creates a note with the given title, text and source
    /// in the notebook of this connection.
    pub fn save_content(&self, title: &String, text: &String, source: &String) -> (step: Step)
        ensures
            step@ == (StepView::CreateNote {
                endpoint: collection_url(self.port as nat, self.token@, "notes"@),
                parent_id: self.folder_id@,
                title: title@,
                body: text@,
                source_url: source@,
            }),
    {
        Step::CreateNote {
            endpoint: self.base_url("notes"),
            parent_id: self.folder_id.clone(),
            title: title.clone(),
            body: text.clone(),
            source_url: source.clone(),
        }
    }
}

/// The step `step` as it is run once the uploads before it have given
/// `resources`: the body of a note is followed by the references to the
/// resources; every other step is as it was.
pub open spec fn completed(step: StepView, resources: Seq<ResourceView>) -> StepView {
    match step {
        StepView::CreateNote { endpoint, parent_id, title, body, source_url } => {
            StepView::CreateNote {
                endpoint,
                parent_id,
                title,
                body: body + resources_text(resources),
                source_url,
            }
        },
        _ => step,
    }
}

/// The step `step` as it is run once the uploads before it have given
/// `resources`.
pub fn complete_note(step: Step, resources: &Vec<Resource>) -> (sent: Step)
    ensures
        sent@ == completed(step@, resource_views(resources@)),
{
    match step {
        Step::CreateNote { endpoint, parent_id, title, body, source_url } => {
            let mut text = body;
            Joplin::add_resources_to_text(&mut text, resources);
            Step::CreateNote { endpoint, parent_id, title, body: text, source_url }
        },
        other => other,
    }
}

/// The note that is sent: the last step of the plan of a record, completed
/// with the resources that its uploads gave, is the note of the record with
/// these resources. Its body is the Markdown of the record followed by one
/// reference for each resource, in their order.
pub proof fn law_note_holds_the_references(
    joplin: Joplin,
    record: DataView,
    resources: Seq<ResourceView>,
)
    ensures
        completed(joplin.plan(record).last(), resources) == joplin.note_with(record, resources),
        joplin.plan(record).len() == record.attachments.len() + 1,
        forall|i: int|
            0 <= i < record.attachments.len() ==> #[trigger] joplin.plan(record)[i]
                == joplin.upload(record.attachments[i]),
{
}

impl Storage for Joplin {
    open spec fn plan(&self, record: DataView) -> Seq<StepView> {
        self.uploads(record.attachments).push(self.note(record))
    }

    fn save(&self, record: &Data) -> (steps: Vec<Step>) {
        let mut steps = self.save_attachments(record);
        let text = make_markdown(record);
        let mut title = record.account.clone();
        title.append("/");
        title.append(record.id.as_str());
        assert(title@ =~= note_title(record@));
        let note = self.save_content(&title, &text, &record.source);
        proof {
            lemma_step_views_push(steps@, note);
        }
        steps.push(note);
        steps
    }
}

} // verus!
