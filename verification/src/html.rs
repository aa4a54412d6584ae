//! Queries on HTML text, done by the `scraper` crate.
//!
//! A query names a CSS selector and an attribute. Its answer lists, for each
//! element that the selector matches and in document order, what this crate
//! reads of an element: the value of that attribute and the text nodes below
//! the element.

use vstd::prelude::*;
use crate::seqs::{view_of, views};

verus! {

/// Mathematical value of an [`Element`].
pub struct ElementView {
    pub attr: Option<Seq<char>>,
    pub text: Seq<Seq<char>>,
}

/// What a query reads of one matched element.
#[derive(Debug)]
pub struct Element {
    attr: Option<String>,
    text: Vec<String>,
}

impl View for Element {
    type V = ElementView;

    closed spec fn view(&self) -> ElementView {
        ElementView { attr: view_of(self.attr), text: views(self.text@) }
    }
}

impl Element {
    /// An element with the given value of the queried attribute, if it has
    /// the attribute, and the given text nodes.
    pub fn new(attr: Option<String>, text: Vec<String>) -> (element: Self)
        ensures
            element@ == (ElementView { attr: view_of(attr), text: views(text@) }),
    {
        Self { attr, text }
    }

    /// The value of the queried attribute, if the element has that attribute.
    pub fn get_attr(&self) -> (r: &Option<String>)
        ensures
            view_of(*r) == self@.attr,
    {
        &self.attr
    }

    /// The text nodes below the element, in document order.
    pub fn get_text(&self) -> (r: &Vec<String>)
        ensures
            views(r@) == self@.text,
    {
        &self.text
    }
}

/// The elements of the document `html` that `selector` matches, in document
/// order, each with its value of the attribute `attr`. There is no answer
/// where `selector` is no valid CSS selector.
pub uninterp spec fn selected(html: Seq<char>, selector: Seq<char>, attr: Seq<char>) -> Option<
    Seq<ElementView>,
>;

/// For each element of the document `html` that `outer` matches, in document
/// order: the elements below it that `inner` matches, in document order, each
/// with its value of the attribute `attr`. There is no answer where one of the
/// two is no valid CSS selector.
pub uninterp spec fn selected_within(
    html: Seq<char>,
    outer: Seq<char>,
    inner: Seq<char>,
    attr: Seq<char>,
) -> Option<Seq<Seq<ElementView>>>;

/// The document `html` as `scraper` writes it out again after parsing it.
pub uninterp spec fn rewritten(html: Seq<char>) -> Seq<char>;

/// The views of each list of elements in `groups`.
pub open spec fn group_views(groups: Seq<Vec<Element>>) -> Seq<Seq<ElementView>> {
    groups.map_values(|group: Vec<Element>| views(group@))
}

/// Parses `selector` with `scraper::Selector::parse` and `html` with
/// `Html::parse_document`, walks the matches of `Html::select` and reads from
/// each `ElementRef::attr` and `ElementRef::text`. The answer depends on the
/// three texts alone; the contract gives it the name [`selected`] and claims
/// nothing else.
#[verifier::external_body]
pub(crate) fn select(html: &str, selector: &str, attr: &str) -> (r: Option<Vec<Element>>)
    ensures
        match r {
            Some(elements) => selected(html@, selector@, attr@) == Some(views(elements@)),
            None => selected(html@, selector@, attr@) is None,
        },
{
    let selector = scraper::Selector::parse(selector).ok()?;
    let document = scraper::Html::parse_document(html);
    let read = |e: scraper::ElementRef| {
        Element::new(e.attr(attr).map(|a| a.to_string()), e.text().map(|t| t.to_string()).collect())
    };
    Some(document.select(&selector).map(read).collect())
}

/// As [`select`], but walks the matches of `outer` with `Html::select` and,
/// below each, the matches of `inner` with `ElementRef::select`. The answer
/// depends on the four texts alone; the contract gives it the name
/// [`selected_within`] and claims nothing else.
#[verifier::external_body]
pub(crate) fn select_within(html: &str, outer: &str, inner: &str, attr: &str) -> (r: Option<
    Vec<Vec<Element>>,
>)
    ensures
        match r {
            Some(groups) => selected_within(html@, outer@, inner@, attr@) == Some(
                group_views(groups@),
            ),
            None => selected_within(html@, outer@, inner@, attr@) is None,
        },
{
    let outer = scraper::Selector::parse(outer).ok()?;
    let inner = scraper::Selector::parse(inner).ok()?;
    let document = scraper::Html::parse_document(html);
    let read = |e: scraper::ElementRef| {
        Element::new(e.attr(attr).map(|a| a.to_string()), e.text().map(|t| t.to_string()).collect())
    };
    Some(document.select(&outer).map(|o| o.select(&inner).map(read).collect()).collect())
}

/// Parses `html` with `scraper::Html::parse_document` and writes it out with
/// `Html::html`. The result depends on the text alone; the contract gives it
/// the name [`rewritten`] and claims nothing else.
#[verifier::external_body]
pub(crate) fn rewrite(html: &str) -> (r: String)
    ensures
        r@ == rewritten(html@),
{
    scraper::Html::parse_document(html).html()
}

} // verus!
