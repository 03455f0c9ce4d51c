//! The Org backend: the HTML walk that renders a post as Org text, and the
//! daily journal that the posts are appended to.

use crate::config::errors::ConfigError;
use crate::config::expandable;
use crate::config::literal_path;
use crate::config::path_from_input;
use crate::html::HtmlAttribute;
use crate::html::HtmlAttributeView;
use crate::html::HtmlNode;
use crate::html::HtmlNodeView;
use crate::html::attribute_views;
use crate::html::node_views;
use crate::html::parse_html;
use crate::html::parsed_document;
use crate::storage::attachment::filename_of;
use crate::storage::data::Data;
use crate::storage::data::DataView;
use crate::storage::storage::Step;
use crate::storage::storage::StepView;
use crate::storage::storage::Storage;
use crate::storage::storage::join;
use crate::storage::storage::joined;
use crate::storage::storage::lemma_step_views_push;
use crate::storage::storage::step_views;
use crate::text::contains;
use crate::text::push_signed_zero_padded;
use crate::text::push_zero_padded;
use crate::text::same;
use crate::text::signed_zero_padded;
use crate::text::str_contains;
use crate::text::str_trim;
use crate::text::trim;
use crate::text::zero_padded;
use chrono::Datelike;
use vstd::prelude::*;

verus! {

/// The value of the first attribute of `attrs` that is named `name`.
pub open spec fn attribute(attrs: Seq<HtmlAttributeView>, name: Seq<char>) -> Option<Seq<char>>
    decreases attrs.len(),
{
    if attrs.len() == 0 {
        None
    } else if attrs[0].name == name {
        Some(attrs[0].value)
    } else {
        attribute(attrs.drop_first(), name)
    }
}

/// The Org text of an element, given the Org text `inner` of its children.
///
/// `html`, `head` and `body` add nothing. `p` and `br` end in a paragraph
/// break. A `span` whose class holds `ellipsis` ends in three dots; one whose
/// class holds `invisible` (and not `ellipsis`) gives nothing at all. An `a`
/// whose `rel` holds `tag` adds nothing; any other `a` with an `href` becomes
/// an Org link. Every other element adds nothing to what its children give.
pub open spec fn org_element(
    tag: Seq<char>,
    attrs: Seq<HtmlAttributeView>,
    inner: Seq<char>,
) -> Seq<char> {
    if tag == "html"@ || tag == "head"@ || tag == "body"@ {
        inner
    } else if tag == "p"@ || tag == "br"@ {
        inner + "\n\n  "@
    } else if tag == "span"@ {
        match attribute(attrs, "class"@) {
            Some(classes) => if contains(classes, "ellipsis"@) {
                inner + "..."@
            } else if contains(classes, "invisible"@) {
                Seq::empty()
            } else {
                inner
            },
            None => inner,
        }
    } else if tag == "a"@ {
        match attribute(attrs, "rel"@) {
            Some(rel) if contains(rel, "tag"@) => inner,
            _ => match attribute(attrs, "href"@) {
                Some(href) => "[["@ + href + "]["@ + inner + "]]"@,
                None => inner,
            },
        }
    } else {
        inner
    }
}

/// The Org text of a node and all below it, in document order.
pub open spec fn org_text(node: HtmlNodeView) -> Seq<char>
    decreases node,
{
    match node {
        HtmlNodeView::Text { content } => content,
        HtmlNodeView::Element { tag, attrs, children } => org_element(
            tag,
            attrs,
            org_children(children),
        ),
        HtmlNodeView::Other { children } => org_children(children),
    }
}

/// The Org texts of `children`, one after the other.
pub open spec fn org_children(children: Seq<HtmlNodeView>) -> Seq<char>
    decreases children,
{
    if children.len() == 0 {
        Seq::empty()
    } else {
        org_children(children.drop_last()) + org_text(children.last())
    }
}

/// The value of the first attribute of `attrs` that is named `name`.
pub fn find_attribute<'a>(attrs: &'a Vec<HtmlAttribute>, name: &str) -> (value: Option<&'a String>)
    ensures
        match value {
            Some(v) => attribute(attribute_views(attrs@), name@) == Some(v@),
            None => attribute(attribute_views(attrs@), name@) is None,
        },
{
    let ghost views = attribute_views(attrs@);
    let mut i: usize = 0;
    assert(views.skip(0) =~= views);
    while i < attrs.len()
        invariant
            i <= attrs.len(),
            views == attribute_views(attrs@),
            attribute(views, name@) == attribute(views.skip(i as int), name@),
        decreases attrs.len() - i,
    {
        proof {
            let rest = views.skip(i as int);
            assert(rest[0] == attrs@[i as int]@);
            assert(rest.drop_first() =~= views.skip(i + 1));
        }
        if same(attrs[i].name.as_str(), name) {
            return Some(&attrs[i].value);
        }
        i += 1;
    }
    None
}

/// Appends the Org text of `input` to `result`.
pub fn walk(input: &HtmlNode, result: &mut String)
    ensures
        final(result)@ == old(result)@ + org_text(input@),
    decreases input,
{
    match input {
        HtmlNode::Text { content } => {
            result.append(content.as_str());
        },
        HtmlNode::Other { children } => {
            walk_children(children, result);
        },
        HtmlNode::Element { tag, attrs, children } => {
            let ghost before = result@;
            let ghost inner = org_children(node_views(*children));
            let tag = tag.as_str();
            if same(tag, "html") || same(tag, "head") || same(tag, "body") {
                walk_children(children, result);
            } else if same(tag, "p") || same(tag, "br") {
                walk_children(children, result);
                result.append("\n\n  ");
                assert(result@ =~= before + (inner + "\n\n  "@));
            } else if same(tag, "span") {
                match find_attribute(attrs, "class") {
                    Some(classes) => {
                        if str_contains(classes.as_str(), "ellipsis") {
                            walk_children(children, result);
                            result.append("...");
                            assert(result@ =~= before + (inner + "..."@));
                        } else if !str_contains(classes.as_str(), "invisible") {
                            walk_children(children, result);
                        } else {
                            assert(result@ =~= before + Seq::<char>::empty());
                        }
                    },
                    None => {
                        walk_children(children, result);
                    },
                }
            } else if same(tag, "a") {
                let rel = find_attribute(attrs, "rel");
                let tagged = match rel {
                    Some(rel) => str_contains(rel.as_str(), "tag"),
                    None => false,
                };
                if tagged {
                    walk_children(children, result);
                } else {
                    match find_attribute(attrs, "href") {
                        Some(href) => {
                            result.append("[[");
                            result.append(href.as_str());
                            result.append("][");
                            walk_children(children, result);
                            result.append("]]");
                            assert(result@ =~= before + ("[["@ + href@ + "]["@ + inner + "]]"@));
                        },
                        None => {
                            walk_children(children, result);
                        },
                    }
                }
            } else {
                walk_children(children, result);
            }
        },
    }
}

/// Appends the Org texts of `children`, in order, to `result`.
pub fn walk_children(children: &Vec<HtmlNode>, result: &mut String)
    ensures
        final(result)@ == old(result)@ + org_children(node_views(*children)),
    decreases children,
{
    let ghost views = node_views(*children);
    let mut i: usize = 0;
    assert(views.take(0) =~= Seq::<HtmlNodeView>::empty());
    assert(result@ =~= old(result)@ + Seq::<char>::empty());
    while i < children.len()
        invariant
            i <= children.len(),
            views == node_views(*children),
            result@ == old(result)@ + org_children(views.take(i as int)),
        decreases children.len() - i,
    {
        let ghost before = result@;
        walk(&children[i], result);
        proof {
            let upto = views.take(i + 1);
            assert(upto.drop_last() =~= views.take(i as int));
            assert(upto.last() == children[i as int]@);
            assert(result@ =~= old(result)@ + org_children(upto));
        }
        i += 1;
    }
    assert(views.take(children.len() as int) =~= views);
}

/// The text of a node and all below it with no markup but the break after
/// each paragraph.
pub open spec fn plain_text(node: HtmlNodeView) -> Seq<char>
    decreases node,
{
    match node {
        HtmlNodeView::Text { content } => content,
        HtmlNodeView::Element { tag, attrs, children } => if tag == "p"@ {
            plain_children(children) + "\n\n  "@
        } else {
            plain_children(children)
        },
        HtmlNodeView::Other { children } => plain_children(children),
    }
}

/// The plain texts of `children`, one after the other.
pub open spec fn plain_children(children: Seq<HtmlNodeView>) -> Seq<char>
    decreases children,
{
    if children.len() == 0 {
        Seq::empty()
    } else {
        plain_children(children.drop_last()) + plain_text(children.last())
    }
}

/// `node` holds nothing but text, paragraphs and links to tags (`a` whose
/// `rel` holds `tag`), below the `html`, `head` and `body` of a document.
pub open spec fn only_paragraphs_and_tag_links(node: HtmlNodeView) -> bool
    decreases node,
{
    match node {
        HtmlNodeView::Text { content } => true,
        HtmlNodeView::Element { tag, attrs, children } => {
            &&& all_paragraphs_and_tag_links(children)
            &&& {
                ||| tag == "html"@
                ||| tag == "head"@
                ||| tag == "body"@
                ||| tag == "p"@
                ||| tag == "a"@ && (attribute(attrs, "rel"@) matches Some(rel) && contains(
                    rel,
                    "tag"@,
                ))
            }
        },
        HtmlNodeView::Other { children } => all_paragraphs_and_tag_links(children),
    }
}

/// Every node of `children` meets [`only_paragraphs_and_tag_links`].
pub open spec fn all_paragraphs_and_tag_links(children: Seq<HtmlNodeView>) -> bool
    decreases children,
{
    if children.len() == 0 {
        true
    } else {
        all_paragraphs_and_tag_links(children.drop_last()) && only_paragraphs_and_tag_links(
            children.last(),
        )
    }
}

proof fn lemma_tag_names_differ()
    ensures
        "p"@ != "html"@,
        "p"@ != "head"@,
        "p"@ != "body"@,
        "a"@ != "html"@,
        "a"@ != "head"@,
        "a"@ != "body"@,
        "a"@ != "p"@,
        "a"@ != "br"@,
        "a"@ != "span"@,
        "span"@ != "html"@,
        "span"@ != "head"@,
        "span"@ != "body"@,
        "span"@ != "p"@,
        "span"@ != "br"@,
{
    reveal_strlit("html");
    reveal_strlit("head");
    reveal_strlit("body");
    reveal_strlit("p");
    reveal_strlit("br");
    reveal_strlit("span");
    reveal_strlit("a");
    assert("a"@[0] != "p"@[0]);
    assert("span"@[0] != "html"@[0]);
    assert("span"@[0] != "head"@[0]);
    assert("span"@[0] != "body"@[0]);
}

/// Links to tags leave no link markup: where a tree holds nothing but text,
/// paragraphs and links to tags, its Org text is its plain text. It therefore
/// holds `[[` or `]]` only where the text of the post itself does.
pub proof fn law_tag_links_leave_no_markup(node: HtmlNodeView)
    requires
        only_paragraphs_and_tag_links(node),
    ensures
        org_text(node) == plain_text(node),
        contains(org_text(node), "[["@) == contains(plain_text(node), "[["@),
        contains(org_text(node), "]]"@) == contains(plain_text(node), "]]"@),
    decreases node,
{
    lemma_tag_names_differ();
    match node {
        HtmlNodeView::Text { content } => {},
        HtmlNodeView::Element { tag, attrs, children } => {
            law_tag_links_leave_no_markup_below(children);
        },
        HtmlNodeView::Other { children } => {
            law_tag_links_leave_no_markup_below(children);
        },
    }
}

/// [`law_tag_links_leave_no_markup`], of a sequence of nodes.
pub proof fn law_tag_links_leave_no_markup_below(children: Seq<HtmlNodeView>)
    requires
        all_paragraphs_and_tag_links(children),
    ensures
        org_children(children) == plain_children(children),
    decreases children,
{
    if children.len() > 0 {
        law_tag_links_leave_no_markup_below(children.drop_last());
        law_tag_links_leave_no_markup(children.last());
    }
}

/// An invisible span gives no text: a `span` whose class holds `invisible`,
/// and not `ellipsis`, adds nothing to the Org text, whatever stands inside
/// it.
pub proof fn law_invisible_span_gives_nothing(
    attrs: Seq<HtmlAttributeView>,
    children: Seq<HtmlNodeView>,
)
    requires
        attribute(attrs, "class"@) matches Some(classes) && contains(classes, "invisible"@)
            && !contains(classes, "ellipsis"@),
    ensures
        org_text(HtmlNodeView::Element { tag: "span"@, attrs, children }) == Seq::<char>::empty(),
{
    lemma_tag_names_differ();
}

/// The class `invisible` itself holds `invisible` and not `ellipsis`, so a
/// `<span class="invisible">` gives no text.
pub proof fn law_span_class_invisible(attrs: Seq<HtmlAttributeView>, children: Seq<HtmlNodeView>)
    requires
        attribute(attrs, "class"@) == Some("invisible"@),
    ensures
        org_text(HtmlNodeView::Element { tag: "span"@, attrs, children }) == Seq::<char>::empty(),
{
    reveal_strlit("invisible");
    reveal_strlit("ellipsis");
    let class = "invisible"@;
    let other = "ellipsis"@;
    assert(class.subrange(0, 9) =~= class);
    assert(crate::text::occurs_at(class, class, 0));
    assert forall|at: int| !crate::text::occurs_at(class, other, at) by {
        if crate::text::occurs_at(class, other, at) {
            assert(0 <= at <= 1);
            assert(class.subrange(at, at + 8)[0] == other[0]);
        }
    }
    law_invisible_span_gives_nothing(attrs, children);
}

/// Configuration for the Org backend
#[derive(Debug, PartialEq, Eq)]
pub struct OrgConfig {
    pub path: String,
}

impl View for OrgConfig {
    type V = Seq<char>;

    open spec fn view(&self) -> Seq<char> {
        self.path@
    }
}

impl OrgConfig {
    /// The configuration that the line `input`, the answer to the question
    /// for the base path, stands for: its path is the line without the
    /// white space at its ends, with the home directory and environment
    /// variables filled in. A line that holds nothing to fill in is taken
    /// as it is. The only failure is `InvalidPath`: for a line in which a
    /// `$` stands before a character that is not ASCII, and for a variable
    /// that cannot be looked up.
    pub fn config(input: &str) -> (config: Result<Self, ConfigError>)
        ensures
            match config {
                Ok(c) => {
                    &&& expandable(trim(input@))
                    &&& literal_path(trim(input@)) ==> c@ == trim(input@)
                },
                Err(e) => e == ConfigError::InvalidPath && !literal_path(trim(input@)),
            },
    {
        match path_from_input(input) {
            Ok(path) => Ok(OrgConfig { path }),
            Err(e) => Err(e),
        }
    }
}

/// The name of the journal file of a day: year, month and day in digits,
/// then `.org`.
pub open spec fn journal_name(year: int, month: nat, day: nat) -> Seq<char> {
    signed_zero_padded(year, 4) + zero_padded(month, 2) + zero_padded(day, 2) + ".org"@
}

/// A day as the journal's title shows it: year, month and day with a hyphen
/// between them.
pub open spec fn journal_date(year: int, month: nat, day: nat) -> Seq<char> {
    signed_zero_padded(year, 4) + "-"@ + zero_padded(month, 2) + "-"@ + zero_padded(day, 2)
}

/// The line that a new journal file starts with, and the blank line after
/// it.
pub open spec fn journal_header(date: Seq<char>) -> Seq<char> {
    "#+title: Favourites from "@ + date + "\n\n"@
}

/// The heading of a record in the journal.
pub open spec fn org_intro(record: DataView) -> Seq<char> {
    "* "@ + record.account + "/"@ + record.id + "\n"@
}

/// The content warning of a record in the journal; nothing where the
/// record has none.
pub open spec fn org_title(record: DataView) -> Seq<char> {
    if record.title.len() > 0 {
        "  ("@ + record.title + ")"@ + "\n\n"@
    } else {
        Seq::empty()
    }
}

/// The body of a record in the journal, given the document of its text: the
/// Org text of the document without the white space at its ends, indented
/// and followed by a blank line.
pub open spec fn org_body(document: HtmlNodeView) -> Seq<char> {
    "  "@ + trim("  "@ + org_text(document)) + "\n\n"@
}

/// What one record adds to the journal before its attachments.
pub open spec fn org_entry(record: DataView, document: HtmlNodeView) -> Seq<char> {
    org_intro(record) + org_title(record) + org_body(document)
}

/// The name under which the journal's directory holds the attachment at
/// `url` of the post `id`.
pub open spec fn stored_name(id: Seq<char>, url: Seq<char>) -> Seq<char> {
    id + "-"@ + filename_of(url)
}

/// The line of the journal that links to an attachment: a list item with
/// the Org link from the name of the file to the file.
pub open spec fn attachment_line(path: Seq<char>, filename: Seq<char>) -> Seq<char> {
    "  - [[file:"@ + path + "]["@ + filename + "]]\n"@
}

/// The Org storage: one journal file per day in the directory `path`.
#[derive(Debug, PartialEq, Eq)]
pub struct Org {
    /// The path where the file will be stored
    pub path: String,
    /// The filename for the org file
    pub filename: String,
    /// The date being processed, needed for the header if it is a new file
    pub date: String,
}

impl Org {
    /// The path of the journal file.
    pub open spec fn file(&self) -> Seq<char> {
        joined(self.path@, self.filename@)
    }

    /// The step that appends `content` to the journal.
    pub open spec fn appended(&self, content: Seq<char>) -> StepView {
        StepView::Append { path: self.file(), header: journal_header(self.date@), content }
    }

    /// The two steps for one attachment: the download into the journal's
    /// directory, then the line that links to the file.
    pub open spec fn attachment_steps(&self, id: Seq<char>, url: Seq<char>) -> Seq<StepView> {
        let path = joined(self.path@, stored_name(id, url));
        seq![
            StepView::Download { url, path },
            self.appended(attachment_line(path, filename_of(url))),
        ]
    }

    /// The steps for the attachments at `urls`, in order.
    pub open spec fn attachments_steps(&self, id: Seq<char>, urls: Seq<Seq<char>>) -> Seq<
        StepView,
    >
        decreases urls.len(),
    {
        if urls.len() == 0 {
            Seq::empty()
        } else {
            self.attachments_steps(id, urls.drop_last()) + self.attachment_steps(id, urls.last())
        }
    }

    /// The steps for the attachments of a record: none where it has no
    /// attachment; else the line `Attachments:`, the steps of each
    /// attachment, and a blank line.
    pub open spec fn attachments_plan(&self, record: DataView) -> Seq<StepView> {
        if record.attachments.len() == 0 {
            Seq::empty()
        } else {
            seq![self.appended("  Attachments:\n"@)] + self.attachments_steps(
                record.id,
                record.attachments,
            ) + seq![self.appended("\n\n"@)]
        }
    }

    /// The steps that save a record, given the document of its text.
    pub open spec fn plan_with(&self, record: DataView, document: HtmlNodeView) -> Seq<StepView> {
        seq![self.appended(org_entry(record, document))] + self.attachments_plan(record)
    }

    /// The storage that writes to the journal of the given day in the
    /// directory of `config`.
    pub fn on_date(config: &OrgConfig, year: i32, month: u32, day: u32) -> (org: Org)
        ensures
            org.path@ == config.path@,
            org.filename@ == journal_name(year as int, month as nat, day as nat),
            org.date@ == journal_date(year as int, month as nat, day as nat),
    {
        let mut filename = String::new();
        push_signed_zero_padded(&mut filename, year as i64, 4);
        push_zero_padded(&mut filename, month as u64, 2);
        push_zero_padded(&mut filename, day as u64, 2);
        filename.append(".org");
        let mut date = String::new();
        push_signed_zero_padded(&mut date, year as i64, 4);
        date.append("-");
        push_zero_padded(&mut date, month as u64, 2);
        date.append("-");
        push_zero_padded(&mut date, day as u64, 2);
        proof {
            assert(filename@ =~= journal_name(year as int, month as nat, day as nat));
            assert(date@ =~= journal_date(year as int, month as nat, day as nat));
        }
        Org { path: config.path.clone(), filename, date }
    }

    /// The journal is that of some day: its name and its date are those of
    /// one day of the calendar.
    pub open spec fn of_a_day(&self) -> bool {
        exists|year: int, month: nat, day: nat|
            1 <= month <= 12 && 1 <= day <= 31 && self.filename@ == #[trigger] journal_name(
                year,
                month,
                day,
            ) && self.date@ == journal_date(year, month, day)
    }

    /// The storage in the directory of `config` for what the clock said:
    /// the journal of the day `today`, and no storage where the clock gave
    /// no day.
    pub fn on_day(config: &OrgConfig, today: Option<(i32, u32, u32)>) -> (org: Option<Org>)
        ensures
            match today {
                Some(date) => org matches Some(o) && o.path@ == config.path@ && o.filename@
                    == journal_name(date.0 as int, date.1 as nat, date.2 as nat) && o.date@
                    == journal_date(date.0 as int, date.1 as nat, date.2 as nat),
                None => org is None,
            },
    {
        match today {
            Some(date) => Some(Org::on_date(config, date.0, date.1, date.2)),
            None => None,
        }
    }

    /// The storage that writes to the journal of today, by the clock in
    /// UTC, in the directory of `config`. There is none where the clock of
    /// the system gives no day.
    pub fn new_from_config(config: &OrgConfig) -> (org: Option<Org>)
        ensures
            org matches Some(o) ==> o.path@ == config.path@ && o.of_a_day(),
    {
        let date = today();
        let org = Org::on_day(config, date);
        proof {
            if let Some(d) = date {
                assert(org->Some_0.filename@ == journal_name(d.0 as int, d.1 as nat, d.2 as nat));
            }
        }
        org
    }

    /// The line that the journal file starts with when it is new.
    pub fn header(&self) -> (header: String)
        ensures
            header@ == journal_header(self.date@),
    {
        let mut header = String::new();
        header.append("#+title: Favourites from ");
        header.append(self.date.as_str());
        header.append("\n\n");
        assert(header@ =~= journal_header(self.date@));
        header
    }

    /// The step that appends `content` to the journal.
    pub fn append(&self, content: String) -> (step: Step)
        ensures
            step@ == self.appended(content@),
    {
        Step::Append {
            path: join(self.path.as_str(), self.filename.as_str()),
            header: self.header(),
            content,
        }
    }

    /// Do the initialization of saving the data in Org format: the step
    /// that appends the entry of `record`, whose text parsed to `document`.
    pub fn start_org(&self, record: &Data, document: &HtmlNode) -> (step: Step)
        ensures
            step@ == self.appended(org_entry(record@, document@)),
    {
        let mut entry = intro(record);
        entry.append(title(record).as_str());
        entry.append(text(document).as_str());
        self.append(entry)
    }

    /// Add the final attachments
    pub fn attachments(&self, record: &Data) -> (steps: Vec<Step>)
        ensures
            step_views(steps@) == self.attachments_plan(record@),
    {
        let mut steps: Vec<Step> = Vec::new();
        if record.attachments.len() == 0 {
            assert(step_views(steps@) =~= Seq::<StepView>::empty());
            return steps;
        }
        steps.push(self.append("  Attachments:\n".to_owned()));
        let ghost urls = record@.attachments;
        let ghost first = seq![self.appended("  Attachments:\n"@)];
        assert(step_views(steps@) =~= first + self.attachments_steps(record@.id, urls.take(0)));
        let mut i: usize = 0;
        while i < record.attachments.len()
            invariant
                i <= record.attachments.len(),
                urls == record@.attachments,
                first == seq![self.appended("  Attachments:\n"@)],
                step_views(steps@) == first + self.attachments_steps(
                    record@.id,
                    urls.take(i as int),
                ),
            decreases record.attachments.len() - i,
        {
            let attachment = &record.attachments[i];
            let filename = attachment.filename();
            let mut storage_name = record.id.clone();
            storage_name.append("-");
            storage_name.append(filename.as_str());
            let in_storage = join(self.path.as_str(), storage_name.as_str());
            let mut attachment_info = "  - [[file:".to_owned();
            attachment_info.append(in_storage.as_str());
            attachment_info.append("][");
            attachment_info.append(filename.as_str());
            attachment_info.append("]]\n");
            let download = Step::Download { url: attachment.url.clone(), path: in_storage };
            let line = self.append(attachment_info);
            proof {
                let url = urls[i as int];
                assert(url == attachment@);
                assert(storage_name@ =~= stored_name(record@.id, url));
                let pair = self.attachment_steps(record@.id, url);
                assert(line@ == pair[1]);
                assert(download@ == pair[0]);
                let upto = urls.take(i + 1);
                assert(upto.drop_last() =~= urls.take(i as int));
                assert(upto.last() == url);
                lemma_step_views_push(steps@, download);
                lemma_step_views_push(steps@.push(download), line);
                assert(step_views(steps@).push(download@).push(line@) =~= first
                    + self.attachments_steps(record@.id, upto));
            }
            steps.push(download);
            steps.push(line);
            i += 1;
        }
        let end = self.append("\n\n".to_owned());
        proof {
            assert(urls.take(i as int) =~= urls);
            lemma_step_views_push(steps@, end);
        }
        steps.push(end);
        steps
    }

    /// The steps that save `record`, whose text parsed to `document`.
    pub fn save_parsed(&self, record: &Data, document: &HtmlNode) -> (steps: Vec<Step>)
        ensures
            step_views(steps@) == self.plan_with(record@, document@),
    {
        let mut steps: Vec<Step> = Vec::new();
        steps.push(self.start_org(record, document));
        let mut rest = self.attachments(record);
        let ghost head = steps@;
        let ghost tail = rest@;
        steps.append(&mut rest);
        proof {
            assert(steps@ =~= head + tail);
            crate::storage::storage::lemma_step_views_add(head, tail);
            assert(step_views(head) =~= seq![self.appended(org_entry(record@, document@))]);
        }
        steps
    }
}

/// The initial header for the content
pub fn intro(record: &Data) -> (heading: String)
    ensures
        heading@ == org_intro(record@),
{
    let mut heading = "* ".to_owned();
    heading.append(record.account.as_str());
    heading.append("/");
    heading.append(record.id.as_str());
    heading.append("\n");
    assert(heading@ =~= org_intro(record@));
    heading
}

/// If the content has a title (content warning), add it
pub fn title(record: &Data) -> (warning: String)
    ensures
        warning@ == org_title(record@),
{
    let mut warning = String::new();
    if !record.title.as_str().is_empty() {
        warning.append("  (");
        warning.append(record.title.as_str());
        warning.append(")");
        warning.append("\n\n");
    }
    assert(warning@ =~= org_title(record@));
    warning
}

/// The main body of the content
pub fn text(document: &HtmlNode) -> (body: String)
    ensures
        body@ == org_body(document@),
{
    let mut result = String::new();
    result.append("  ");
    walk(document, &mut result);
    let mut body = String::new();
    body.append("  ");
    body.append(str_trim(result.as_str()).as_str());
    body.append("\n\n");
    assert(body@ =~= org_body(document@));
    body
}

/// Reads the clock of the system and gives the day that it shows in UTC.
/// The seconds since 1970 come from `std::time::SystemTime`, the day from
/// `chrono::DateTime::from_timestamp` and the methods of
/// `chrono::Datelike`, whose documentation gives the month as 1 to 12 and
/// the day as 1 to 31. There is no day where the clock stands before 1970
/// or beyond the years that `chrono` holds. What the clock says is not
/// known before it is read.
#[verifier::external_body]
fn today() -> (date: Option<(i32, u32, u32)>)
    ensures
        match date {
            Some(day) => 1 <= day.1 <= 12 && 1 <= day.2 <= 31,
            None => true,
        },
{
    let now = std::time::SystemTime::now().duration_since(std::time::UNIX_EPOCH).ok()?;
    let seconds = i64::try_from(now.as_secs()).ok()?;
    let date = chrono::DateTime::from_timestamp(seconds, now.subsec_nanos())?;
    Some((date.year(), date.month(), date.day()))
}

impl Storage for Org {
    open spec fn plan(&self, record: DataView) -> Seq<StepView> {
        self.plan_with(record, parsed_document(record.text))
    }

    fn save(&self, record: &Data) -> (steps: Vec<Step>) {
        let document = parse_html(record.text.as_str());
        self.save_parsed(record, &document)
    }
}

} // verus!
