//! A parsed HTML document as a tree of plain values.

use html5ever::tendril::TendrilSink;
use markup5ever_rcdom::Handle;
use markup5ever_rcdom::NodeData;
use markup5ever_rcdom::RcDom;
use vstd::prelude::*;

verus! {

/// One attribute of an element.
#[derive(Debug, PartialEq, Eq)]
pub struct HtmlAttribute {
    pub name: String,
    pub value: String,
}

/// What an [`HtmlAttribute`] stands for.
pub struct HtmlAttributeView {
    pub name: Seq<char>,
    pub value: Seq<char>,
}

impl View for HtmlAttribute {
    type V = HtmlAttributeView;

    open spec fn view(&self) -> HtmlAttributeView {
        HtmlAttributeView { name: self.name@, value: self.value@ }
    }
}

/// One node of a document.
#[derive(Debug, PartialEq, Eq)]
pub enum HtmlNode {
    /// Character data.
    Text { content: String },
    /// An element, by its local name.
    Element { tag: String, attrs: Vec<HtmlAttribute>, children: Vec<HtmlNode> },
    /// Any other node: the document itself, a doctype, a comment, a
    /// processing instruction.
    Other { children: Vec<HtmlNode> },
}

/// What a [`HtmlNode`] stands for.
pub enum HtmlNodeView {
    Text { content: Seq<char> },
    Element { tag: Seq<char>, attrs: Seq<HtmlAttributeView>, children: Seq<HtmlNodeView> },
    Other { children: Seq<HtmlNodeView> },
}

impl View for HtmlNode {
    type V = HtmlNodeView;

    open spec fn view(&self) -> HtmlNodeView
        decreases self,
    {
        match self {
            HtmlNode::Text { content } => HtmlNodeView::Text { content: content@ },
            HtmlNode::Element { tag, attrs, children } => HtmlNodeView::Element {
                tag: tag@,
                attrs: attribute_views(attrs@),
                children: node_views(*children),
            },
            HtmlNode::Other { children } => HtmlNodeView::Other { children: node_views(*children) },
        }
    }
}

/// The views of `attrs`, in order.
pub open spec fn attribute_views(attrs: Seq<HtmlAttribute>) -> Seq<HtmlAttributeView> {
    attrs.map_values(|a: HtmlAttribute| a@)
}

/// The views of `nodes`, in order.
pub open spec fn node_views(nodes: Vec<HtmlNode>) -> Seq<HtmlNodeView>
    decreases nodes,
{
    Seq::new(
        nodes@.len(),
        |i: int|
            if 0 <= i < nodes@.len() {
                nodes[i]@
            } else {
                HtmlNodeView::Other { children: Seq::empty() }
            },
    )
}

/// `markup5ever_rcdom::Node`, a node of the tree that the parser builds.
/// Nothing inside it is known here; it is only handed from the parser to
/// the copy.
#[verifier::external_type_specification]
#[verifier::external_body]
pub struct ExDomNode(markup5ever_rcdom::Node);

/// What a node of the parser's tree holds, itself and below it: its kind,
/// for a text its characters, for an element its local name and its
/// attributes, and for every node its children in order.
pub uninterp spec fn dom_view(node: markup5ever_rcdom::Node) -> HtmlNodeView;

/// The tree that the HTML parser builds from the text `html`, taken as a
/// whole document.
pub uninterp spec fn parsed_document(html: Seq<char>) -> HtmlNodeView;

/// Runs `html5ever::parse_document` with a `markup5ever_rcdom::RcDom` sink
/// and default options over the bytes of `html`, and hands out the
/// document node of the result. Reading from bytes in memory cannot fail.
/// The parser reads nothing but its input, so the contract gives its tree
/// a name; it claims nothing else of it.
#[verifier::external_body]
fn parse_dom(html: &str) -> (document: Handle)
    ensures
        dom_view(*document) == parsed_document(html@),
{
    html5ever::parse_document(RcDom::default(), Default::default())
        .from_utf8()
        .read_from(&mut html.as_bytes())
        .unwrap()
        .document
}

/// Copies a node of `markup5ever_rcdom` and all below it: the contents of
/// `NodeData::Text`, the local name and the attributes (local name and
/// value) of `NodeData::Element`, and the `children` of every node, in
/// order; the parser gives a text no children. The contract says that the
/// copy is what the node holds, which is what [`dom_view`] names.
#[verifier::external_body]
fn copy_dom(handle: &Handle) -> (node: HtmlNode)
    ensures
        node@ == dom_view(**handle),
{
    let children = handle.children.borrow().iter().map(copy_dom).collect();
    match handle.data {
        NodeData::Text { ref contents } => HtmlNode::Text { content: contents.borrow().to_string() },
        NodeData::Element { ref name, ref attrs, .. } => HtmlNode::Element {
            tag: name.local.to_string(),
            attrs: attrs.borrow().iter().map(|a| HtmlAttribute {
                name: a.name.local.to_string(),
                value: a.value.to_string(),
            }).collect(),
            children,
        },
        _ => HtmlNode::Other { children },
    }
}

/// Parses `html` as a whole document.
pub fn parse_html(html: &str) -> (document: HtmlNode)
    ensures
        document@ == parsed_document(html@),
{
    let dom = parse_dom(html);
    copy_dom(&dom)
}

} // verus!
