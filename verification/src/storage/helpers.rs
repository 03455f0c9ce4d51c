//! The Markdown text of a record.

use crate::html::HtmlNode;
use crate::html::HtmlNodeView;
use crate::html::node_views;
use crate::html::parse_html;
use crate::html::parsed_document;
use crate::storage::data::Data;
use crate::storage::data::DataView;
use crate::text::same;
use vstd::prelude::*;

verus! {

/// The Markdown that the HTML-to-Markdown converter gives for the HTML text
/// `html`.
pub uninterp spec fn markdown_of_html(html: Seq<char>) -> Seq<char>;

/// Whether below an element `tag` a list item stands in a list, given
/// whether the element itself does: a list (`ul`, `ol`, `menu`) opens one,
/// a table cell (`td`, `th`) closes every list around it, any other element
/// changes nothing.
pub open spec fn in_list_below(tag: Seq<char>, in_list: bool) -> bool {
    if tag == "ul"@ || tag == "ol"@ || tag == "menu"@ {
        true
    } else if tag == "td"@ || tag == "th"@ {
        false
    } else {
        in_list
    }
}

/// Every list item (`li`) of `node` and below stands in a list: between
/// the item and the table cell nearest around it, or the root where no cell
/// is around it, stands a `ul`, an `ol` or a `menu`. `in_list` says whether
/// `node` itself stands in one.
pub open spec fn items_in_lists(node: HtmlNodeView, in_list: bool) -> bool
    decreases node,
{
    match node {
        HtmlNodeView::Text { content } => true,
        HtmlNodeView::Element { tag, attrs, children } => {
            &&& tag == "li"@ ==> in_list
            &&& all_items_in_lists(children, in_list_below(tag, in_list))
        },
        HtmlNodeView::Other { children } => all_items_in_lists(children, in_list),
    }
}

/// Every node of `children` meets [`items_in_lists`].
pub open spec fn all_items_in_lists(children: Seq<HtmlNodeView>, in_list: bool) -> bool
    decreases children,
{
    if children.len() == 0 {
        true
    } else {
        all_items_in_lists(children.drop_last(), in_list) && items_in_lists(
            children.last(),
            in_list,
        )
    }
}

/// The converter can take the document: every list item of it stands in a
/// list.
pub open spec fn convertible(document: HtmlNodeView) -> bool {
    items_in_lists(document, false)
}

/// Whether every list item of `node` and below stands in a list.
pub fn check_items_in_lists(node: &HtmlNode, in_list: bool) -> (ok: bool)
    ensures
        ok == items_in_lists(node@, in_list),
    decreases node,
{
    match node {
        HtmlNode::Text { content } => true,
        HtmlNode::Other { children } => check_all_items_in_lists(children, in_list),
        HtmlNode::Element { tag, attrs, children } => {
            let tag = tag.as_str();
            if same(tag, "li") && !in_list {
                return false;
            }
            let below = if same(tag, "ul") || same(tag, "ol") || same(tag, "menu") {
                true
            } else if same(tag, "td") || same(tag, "th") {
                false
            } else {
                in_list
            };
            check_all_items_in_lists(children, below)
        },
    }
}

/// Whether every list item of `children` and below stands in a list.
pub fn check_all_items_in_lists(children: &Vec<HtmlNode>, in_list: bool) -> (ok: bool)
    ensures
        ok == all_items_in_lists(node_views(*children), in_list),
    decreases children,
{
    let ghost views = node_views(*children);
    let mut i: usize = 0;
    assert(views.take(0) =~= Seq::<HtmlNodeView>::empty());
    while i < children.len()
        invariant
            i <= children.len(),
            views == node_views(*children),
            all_items_in_lists(views.take(i as int), in_list),
        decreases children.len() - i,
    {
        let ok = check_items_in_lists(&children[i], in_list);
        proof {
            let upto = views.take(i + 1);
            assert(upto.drop_last() =~= views.take(i as int));
            assert(upto.last() == children[i as int]@);
            if !ok && all_items_in_lists(views, in_list) {
                lemma_items_in_lists_prefix(views, i + 1, in_list);
            }
        }
        if !ok {
            return false;
        }
        i += 1;
    }
    assert(views.take(children.len() as int) =~= views);
    true
}

/// Where every node of a sequence meets [`items_in_lists`], so does every
/// node of each of its prefixes.
pub proof fn lemma_items_in_lists_prefix(children: Seq<HtmlNodeView>, n: int, in_list: bool)
    requires
        0 <= n <= children.len(),
        all_items_in_lists(children, in_list),
    ensures
        all_items_in_lists(children.take(n), in_list),
    decreases children.len(),
{
    if n < children.len() {
        lemma_items_in_lists_prefix(children.drop_last(), n, in_list);
        assert(children.drop_last().take(n) =~= children.take(n));
    } else {
        assert(children.take(n) =~= children);
    }
}

/// Calls `html2md::parse_html`, which parses `html` as a document and
/// renders it as Markdown. It parses with `html5ever::parse_document` into
/// a `markup5ever_rcdom::RcDom` with default options, so its tree is the
/// one that [`parsed_document`] names. Its handler for a list item reads
/// the kind of the list from the elements around the item, up to the table
/// cell that it renders; where it finds none it cuts into text that the
/// handlers around it still hold positions in, and these then fail. So the
/// call is made only for a document whose list items all stand in lists.
/// The converter reads nothing but its argument, so the contract gives its
/// result a name; it claims nothing else of it.
#[verifier::external_body]
fn html_to_markdown(html: &str) -> (markdown: String)
    requires
        convertible(parsed_document(html@)),
    ensures
        markdown@ == markdown_of_html(html@),
{
    html2md::parse_html(html)
}

/// The body of a record in a Markdown document: the HTML text converted to
/// Markdown, or, where the converter cannot take the text, the HTML text as
/// it is, which Markdown holds as it stands.
pub open spec fn markdown_body(html: Seq<char>) -> Seq<char> {
    if convertible(parsed_document(html)) {
        markdown_of_html(html)
    } else {
        html
    }
}

/// A Markdown document: the title and a blank line where there is a title,
/// then the body, then a blank line and the source where there is a source.
pub open spec fn markdown_document(title: Seq<char>, body: Seq<char>, source: Seq<char>) -> Seq<
    char,
> {
    let head = if title.len() > 0 {
        title + "\n\n"@
    } else {
        Seq::empty()
    };
    let tail = if source.len() > 0 {
        "\n\n"@ + source
    } else {
        Seq::empty()
    };
    head + body + tail
}

/// The Markdown text of a record.
pub open spec fn markdown_of(record: DataView) -> Seq<char> {
    markdown_document(record.title, markdown_body(record.text), record.source)
}

/// Puts the title in front of the Markdown `body` and the source behind it,
/// each only where it is not empty.
pub fn compose_markdown(title: &str, body: &str, source: &str) -> (result: String)
    ensures
        result@ == markdown_document(title@, body@, source@),
{
    let mut result = String::new();
    if !title.is_empty() {
        result.append(title);
        result.append("\n\n");
    }
    result.append(body);
    if !source.is_empty() {
        result.append("\n\n");
        result.append(source);
    }
    assert(result@ =~= markdown_document(title@, body@, source@));
    result
}

/// The body of a Markdown document for the HTML text `html`: the text
/// converted to Markdown where every list item of it stands in a list, and
/// the text as it is else.
pub fn make_body(html: &str) -> (body: String)
    ensures
        body@ == markdown_body(html@),
{
    let document = parse_html(html);
    if check_items_in_lists(&document, false) {
        html_to_markdown(html)
    } else {
        html.to_owned()
    }
}

/// The Markdown text of `status`: its body converted from HTML, under its
/// title and above its source.
pub fn make_markdown(status: &Data) -> (result: String)
    ensures
        result@ == markdown_of(status@),
{
    let base_content = make_body(status.text.as_str());
    compose_markdown(status.title.as_str(), base_content.as_str(), status.source.as_str())
}

/// A document without title and source is its body: nothing stands before
/// the body and nothing after it.
pub proof fn law_bare_document_is_its_body(body: Seq<char>)
    ensures
        markdown_document(Seq::empty(), body, Seq::empty()) == body,
{
    assert(markdown_document(Seq::empty(), body, Seq::empty()) =~= body);
}

/// A record with an empty title and an empty source renders as its body
/// alone, with no blank separator before or after it.
pub proof fn law_bare_record_renders_as_its_body(record: DataView)
    requires
        record.title.len() == 0,
        record.source.len() == 0,
    ensures
        markdown_of(record) == markdown_body(record.text),
{
    assert(markdown_of(record) =~= markdown_body(record.text));
}

} // verus!
