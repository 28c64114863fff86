//! The parsed document: what the rest of the library asks of it.
//!
//! Documents, elements and selectors are those of `scraper`. The library
//! never looks inside them: every question goes through one of the functions
//! below, whose answer depends on the arguments alone.

use vstd::prelude::*;
use scraper::{Element, ElementRef, Selector};

verus! {

/// An element of a parsed document: `scraper::ElementRef`.
#[verifier::external_type_specification]
#[verifier::external_body]
pub struct ExElementRef<'a>(ElementRef<'a>);

/// A parsed selector: `scraper::Selector`.
#[verifier::external_type_specification]
#[verifier::external_body]
pub struct ExSelector(Selector);

/// A parsed document: `scraper::Html`.
#[verifier::external_type_specification]
#[verifier::external_body]
pub struct ExHtml(scraper::Html);

/// The selector that `Selector::parse` reads from a text, if it reads one.
pub uninterp spec fn parsed_selector(text: Seq<char>) -> Option<Selector>;

/// The document that `Html::parse_document` builds from a text.
pub uninterp spec fn parsed_document(text: Seq<char>) -> scraper::Html;

/// The document that `Html::parse_fragment` builds from a text.
pub uninterp spec fn parsed_fragment(text: Seq<char>) -> scraper::Html;

/// The root element of a document, as `Html::root_element` gives it.
pub uninterp spec fn document_root(document: &scraper::Html) -> ElementRef<'_>;

/// The elements of a document that match a selector, in the order in which
/// `Html::select` yields them.
pub uninterp spec fn document_matches(document: &scraper::Html, selector: Selector) -> Seq<ElementRef<'_>>;

/// The descendants of an element that match a selector, in document order, as
/// `ElementRef::select` yields them.
pub uninterp spec fn selected(element: ElementRef<'_>, selector: Selector) -> Seq<ElementRef<'_>>;

/// The value of an element's attribute, as `ElementRef::attr` gives it.
pub uninterp spec fn attribute(element: ElementRef<'_>, name: Seq<char>) -> Option<Seq<char>>;

/// The text nodes under an element, in document order, as `ElementRef::text`
/// yields them.
pub uninterp spec fn text_nodes(element: ElementRef<'_>) -> Seq<Seq<char>>;

/// The markup of an element, itself included, as `ElementRef::html` writes it.
pub uninterp spec fn markup(element: ElementRef<'_>) -> Seq<char>;

/// The next sibling of an element that is an element, as
/// `Element::next_sibling_element` gives it.
pub uninterp spec fn following_element(element: ElementRef<'_>) -> Option<ElementRef<'_>>;

/// The node right after an element, if that node is an element: what
/// `ElementRef::wrap` makes of `NodeRef::next_sibling`.
pub uninterp spec fn adjacent_element(element: ElementRef<'_>) -> Option<ElementRef<'_>>;

/// Trusted: the result of `Selector::parse`, which depends on the text alone;
/// its error is dropped.
#[verifier::external_body]
pub(crate) fn parse_selector(text: &str) -> (selector: Option<Selector>)
    ensures
        selector == parsed_selector(text@),
{
    Selector::parse(text).ok()
}

/// Trusted: the result of `Html::parse_document`, which depends on the text
/// alone.
#[verifier::external_body]
pub(crate) fn parse_document(text: &str) -> (document: scraper::Html)
    ensures
        document == parsed_document(text@),
{
    scraper::Html::parse_document(text)
}

/// Trusted: the result of `Html::parse_fragment`, which depends on the text
/// alone.
#[verifier::external_body]
pub(crate) fn parse_fragment(text: &str) -> (document: scraper::Html)
    ensures
        document == parsed_fragment(text@),
{
    scraper::Html::parse_fragment(text)
}

/// Trusted: the result of `Html::root_element`. A document that either parse
/// function built has such an element.
#[verifier::external_body]
pub(crate) fn root_element<'a>(document: &'a scraper::Html) -> (root: ElementRef<'a>)
    requires
        exists|text: Seq<char>|
            *document == parsed_document(text) || *document == parsed_fragment(text),
    ensures
        root == document_root(document),
{
    document.root_element()
}

/// Trusted: what `Html::select` yields, collected in order.
#[verifier::external_body]
pub(crate) fn select_in_document<'a>(document: &'a scraper::Html, selector: &Selector) -> (found: Vec<
    ElementRef<'a>,
>)
    ensures
        found@ == document_matches(document, *selector),
{
    document.select(selector).collect()
}

/// Trusted: what `ElementRef::select` yields, collected in order.
#[verifier::external_body]
pub(crate) fn select<'a>(element: ElementRef<'a>, selector: &Selector) -> (found: Vec<ElementRef<'a>>)
    ensures
        found@ == selected(element, *selector),
{
    element.select(selector).collect()
}

/// Trusted: the result of `ElementRef::attr`, copied.
#[verifier::external_body]
pub(crate) fn attr(element: ElementRef<'_>, name: &str) -> (value: Option<String>)
    ensures
        value.deep_view() == attribute(element, name@),
{
    element.attr(name).map(|v| v.to_string())
}

/// Trusted: what `ElementRef::text` yields, each text copied, in order.
#[verifier::external_body]
pub(crate) fn texts(element: ElementRef<'_>) -> (nodes: Vec<String>)
    ensures
        nodes.deep_view() == text_nodes(element),
{
    element.text().map(|t| t.to_string()).collect()
}

/// Trusted: the result of `ElementRef::html`.
#[verifier::external_body]
pub(crate) fn html(element: ElementRef<'_>) -> (text: String)
    ensures
        text@ == markup(element),
{
    element.html()
}

/// Trusted: the result of `Element::next_sibling_element`.
#[verifier::external_body]
pub(crate) fn next_sibling_element<'a>(element: ElementRef<'a>) -> (next: Option<ElementRef<'a>>)
    ensures
        next == following_element(element),
{
    element.next_sibling_element()
}

/// Trusted: the result of `NodeRef::next_sibling`, kept by `ElementRef::wrap`
/// only if it is an element.
#[verifier::external_body]
pub(crate) fn next_sibling<'a>(element: ElementRef<'a>) -> (next: Option<ElementRef<'a>>)
    ensures
        next == adjacent_element(element),
{
    element.next_sibling().and_then(ElementRef::wrap)
}

} // verus!
