//! Markup as the server sends it, read through the `tl` parser.

use tl::{ParseError, ParserOptions, VDom};
use vstd::prelude::*;

verus! {

/// `tl::VDom`: a parsed document, a table of nodes in document order.
#[verifier::external_type_specification]
#[verifier::external_body]
pub struct ExVDom<'a>(VDom<'a>);

/// `tl::ParseError`: why a document could not be parsed.
#[verifier::external_type_specification]
#[verifier::external_body]
pub struct ExParseError(ParseError);

/// One node of a document as plain values.
pub struct HtmlNode {
    /// The name of the tag, if the node is a tag.
    pub tag: Option<Seq<char>>,
    /// The `id` attribute, if the node is a tag and has one.
    pub id: Option<Seq<char>>,
    /// The text within the node, markup left out.
    pub text: Seq<char>,
    /// The first and the last place, in the table, of the nodes below a tag
    /// that has any.
    pub span: Option<(int, int)>,
    /// The attributes of a tag that have a value, by name.
    pub attributes: Map<Seq<char>, Seq<char>>,
}

/// The nodes that a document holds, in document order.
pub uninterp spec fn dom_nodes(dom: VDom<'_>) -> Seq<HtmlNode>;

/// The places, in the table, of the nodes at the top of a document.
pub uninterp spec fn dom_top(dom: VDom<'_>) -> Seq<int>;

/// The nodes that `tl::parse` finds in a text, if it can parse it.
pub uninterp spec fn parsed_nodes(text: Seq<char>) -> Option<Seq<HtmlNode>>;

/// The places of the top nodes that `tl::parse` finds in a text.
pub uninterp spec fn parsed_top(text: Seq<char>) -> Seq<int>;

/// Calls `tl::parse` with the default options. The document holds what the
/// parser finds in `text`.
#[verifier::external_body]
pub(crate) fn parse<'a>(text: &'a str) -> (out: Result<VDom<'a>, ParseError>)
    ensures
        match out {
            Ok(dom) => parsed_nodes(text@) == Some(dom_nodes(dom)) && parsed_top(text@) == dom_top(
                dom,
            ),
            Err(_) => parsed_nodes(text@) is None,
        },
{
    tl::parse(text, ParserOptions::default())
}

/// Calls `VDom::nodes` for the number of nodes.
#[verifier::external_body]
pub(crate) fn node_count(dom: &VDom<'_>) -> (count: usize)
    ensures
        count == dom_nodes(*dom).len(),
{
    dom.nodes().len()
}

/// Calls `Node::as_tag` and `HTMLTag::name` on the node at `at`.
#[verifier::external_body]
pub(crate) fn node_tag(dom: &VDom<'_>, at: usize) -> (tag: Option<String>)
    requires
        at < dom_nodes(*dom).len(),
    ensures
        crate::text::option_view(tag) == dom_nodes(*dom)[at as int].tag,
{
    dom.nodes()[at].as_tag().map(|tag| tag.name().as_utf8_str().into_owned())
}

/// Calls `Attributes::id` on the node at `at`, if it is a tag.
#[verifier::external_body]
pub(crate) fn node_id(dom: &VDom<'_>, at: usize) -> (id: Option<String>)
    requires
        at < dom_nodes(*dom).len(),
    ensures
        crate::text::option_view(id) == dom_nodes(*dom)[at as int].id,
{
    dom.nodes()[at].as_tag().and_then(|tag| tag.attributes().id()).map(
        |id| id.as_utf8_str().into_owned(),
    )
}

/// Calls `Node::inner_text` on the node at `at`.
#[verifier::external_body]
pub(crate) fn node_text(dom: &VDom<'_>, at: usize) -> (text: String)
    requires
        at < dom_nodes(*dom).len(),
    ensures
        text@ == dom_nodes(*dom)[at as int].text,
{
    dom.nodes()[at].inner_text(dom.parser()).into_owned()
}

/// Calls `Node::children` and `Children::boundaries` on the node at `at`.
#[verifier::external_body]
pub(crate) fn node_span(dom: &VDom<'_>, at: usize) -> (span: Option<(usize, usize)>)
    requires
        at < dom_nodes(*dom).len(),
    ensures
        match span {
            Some((first, last)) => dom_nodes(*dom)[at as int].span == Some(
                (first as int, last as int),
            ),
            None => dom_nodes(*dom)[at as int].span is None,
        },
{
    dom.nodes()[at].children().and_then(|below| below.boundaries(dom.parser())).map(
        |(first, last)| (first as usize, last as usize),
    )
}

/// Calls `Attributes::get` on the node at `at`, if it is a tag: the value of
/// the attribute `key`, if the tag has that attribute with a value.
#[verifier::external_body]
pub(crate) fn node_attribute<'a>(dom: &VDom<'a>, at: usize, key: &'a str) -> (value: Option<String>)
    requires
        at < dom_nodes(*dom).len(),
    ensures
        crate::text::option_view(value) == (if dom_nodes(*dom)[at as int].attributes.contains_key(
            key@,
        ) {
            Some(dom_nodes(*dom)[at as int].attributes[key@])
        } else {
            None
        }),
{
    dom.nodes()[at].as_tag().and_then(|tag| tag.attributes().get(key)).flatten().map(
        |value| value.as_utf8_str().into_owned(),
    )
}

/// Calls `VDom::children` for the places of the nodes at the top.
#[verifier::external_body]
pub(crate) fn top_nodes(dom: &VDom<'_>) -> (top: Vec<usize>)
    ensures
        top@.map_values(|at: usize| at as int) == dom_top(*dom),
{
    dom.children().iter().map(|handle| handle.get_inner() as usize).collect()
}

} // verus!
