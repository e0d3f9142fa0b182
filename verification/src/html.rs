//! The HTML boundary: every read of a page goes through the `scraper` crate
//! behind the trusted items of this file.
//!
//! An element is held as its HTML, the element itself included. Selecting
//! within an element reads that HTML again as a fragment and selects under
//! its first element, so each query is a function of plain text. The
//! element's ancestors are not part of that fragment: a selector is matched
//! against the element and what it holds.

use vstd::prelude::*;

verus! {

/// The HTML of each element of the HTML document `html` that the CSS
/// selector `css` matches, in document order.
pub uninterp spec fn document_selection(html: Seq<char>, css: Seq<char>) -> Seq<Seq<char>>;

/// The HTML of each element under the first element of the HTML fragment
/// `content` that the CSS selector `css` matches, in document order; the
/// first element itself is not among them.
pub uninterp spec fn fragment_selection(content: Seq<char>, css: Seq<char>) -> Seq<Seq<char>>;

/// The text of every text node of the HTML fragment `content`, joined in
/// document order.
pub uninterp spec fn fragment_text(content: Seq<char>) -> Seq<char>;

/// The nodes under the first node of the HTML fragment `content` (the
/// element whose HTML it is): the text of each text node, and `None` for
/// every other node.
pub uninterp spec fn fragment_children(content: Seq<char>) -> Seq<Option<Seq<char>>>;

/// Parses `html` as a document with `scraper::Html::parse_document`, and
/// returns the HTML (`ElementRef::html`) of each element that
/// `scraper::Selector::parse(css)` matches, in document order. The contract
/// names that result; it states nothing of it. A selector that does not parse
/// selects nothing.
#[verifier::external_body]
pub(crate) fn select_in_document(html: &str, css: &str) -> (r: Vec<String>)
    ensures
        r.deep_view() == document_selection(html@, css@),
{
    match scraper::Selector::parse(css) {
        Ok(selector) => scraper::Html::parse_document(html)
            .select(&selector)
            .map(|element| element.html())
            .collect(),
        Err(_) => Vec::new(),
    }
}

/// Parses `content` as a fragment with `scraper::Html::parse_fragment`,
/// takes the first element under the fragment's root (the element whose HTML
/// `content` is), and returns the HTML (`ElementRef::html`) of each element
/// that `ElementRef::select` with `scraper::Selector::parse(css)` yields
/// under it, in document order; `select` skips the element itself. The
/// contract names that result; it states nothing of it. A selector that does
/// not parse, or a fragment without element, selects nothing.
#[verifier::external_body]
pub(crate) fn select_in_fragment(content: &str, css: &str) -> (r: Vec<String>)
    ensures
        r.deep_view() == fragment_selection(content@, css@),
{
    let fragment = scraper::Html::parse_fragment(content);
    let first = fragment.root_element().child_elements().next();
    let found = match (scraper::Selector::parse(css), first) {
        (Ok(selector), Some(element)) => element.select(&selector).map(|e| e.html()).collect(),
        _ => Vec::new(),
    };
    found
}

/// The text nodes of the fragment `content`, joined: what
/// `scraper::ElementRef::text` yields from the fragment's root element,
/// collected into one string. The contract names that result.
#[verifier::external_body]
pub(crate) fn text_of_fragment(content: &str) -> (r: String)
    ensures
        r@ == fragment_text(content@),
{
    scraper::Html::parse_fragment(content).root_element().text().collect()
}

/// The children (`ego_tree::NodeRef::children`) of the first child of the
/// fragment's root element, each mapped to its text when it is a
/// `scraper::Node::Text` and to `None` otherwise; no child when the root has
/// none. The contract names that result.
#[verifier::external_body]
pub(crate) fn children_of_fragment(content: &str) -> (r: Vec<Option<String>>)
    ensures
        r.deep_view() == fragment_children(content@),
{
    let fragment = scraper::Html::parse_fragment(content);
    match fragment.root_element().first_child() {
        Some(element) => element
            .children()
            .map(|child| match child.value() {
                scraper::Node::Text(text) => Some(text.to_string()),
                _ => None,
            })
            .collect(),
        None => Vec::new(),
    }
}

} // verus!
