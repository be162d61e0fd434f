//! Parsed HTML documents and CSS selectors, backed by the `scraper` crate.
//!
//! Both types keep the text they were built from next to the parsed value, and
//! their view is that text. The parsed value is private and set only by the
//! constructors here, so it is always the parse of the text that the view
//! names.
use vstd::prelude::*;

verus! {

#[verifier::external_type_specification]
#[verifier::external_body]
pub struct ExHtml(scraper::Html);

#[verifier::external_type_specification]
#[verifier::external_body]
pub struct ExSelector(scraper::Selector);

/// Whether `scraper` accepts `text` as a CSS selector group.
pub uninterp spec fn selector_parses(text: Seq<char>) -> bool;

/// The inner HTML of each element that the selector group `selector` picks in
/// the document `document`, in the order in which `scraper` yields them.
pub uninterp spec fn selected_inner_html(document: Seq<char>, selector: Seq<char>) -> Seq<
    Seq<char>,
>;

/// The value of the attribute `attr` on each element that the selector group
/// `selector` picks in the document `document` (`None` where the element lacks
/// it), in the order in which `scraper` yields them.
pub uninterp spec fn selected_attr(document: Seq<char>, selector: Seq<char>, attr: Seq<char>) -> Seq<
    Option<Seq<char>>,
>;

/// Relies on `scraper::Selector::parse`: it succeeds exactly on the texts that
/// `scraper` accepts as a selector group.
#[verifier::external_body]
fn compile_selector(text: &str) -> (r: Option<scraper::Selector>)
    ensures
        r.is_some() == selector_parses(text@),
{
    scraper::Selector::parse(text).ok()
}

/// Relies on `scraper::Html::parse_document`, which never fails: malformed
/// markup is repaired as browsers do.
#[verifier::external_body]
fn parse_html(text: &str) -> (r: scraper::Html) {
    scraper::Html::parse_document(text)
}

/// Relies on `scraper::Html::select` and `ElementRef::inner_html`: the inner
/// HTML of every selected element, in the order of the selection.
#[verifier::external_body]
fn select_inner_html(doc: &Document, sel: &CssSelector) -> (r: Vec<String>)
    ensures
        r.deep_view() == selected_inner_html(doc@, sel@),
{
    let mut r = Vec::new();
    for element in doc.tree.select(&sel.compiled) {
        r.push(element.inner_html());
    }
    r
}

/// Relies on `scraper::Html::select` and `ElementRef::attr`: the attribute
/// `attr` of every selected element, in the order of the selection.
#[verifier::external_body]
pub(crate) fn select_attr(doc: &Document, sel: &CssSelector, attr: &str) -> (r: Vec<Option<String>>)
    ensures
        r.deep_view() == selected_attr(doc@, sel@, attr@),
{
    let mut r = Vec::new();
    for element in doc.tree.select(&sel.compiled) {
        r.push(element.attr(attr).map(|v| v.to_string()));
    }
    r
}

/// A CSS selector group together with its source text.
pub struct CssSelector {
    text: String,
    compiled: scraper::Selector,
}

impl View for CssSelector {
    type V = Seq<char>;

    closed spec fn view(&self) -> Seq<char> {
        self.text@
    }
}

impl CssSelector {
    /// Compiles `text`; `None` exactly when it is not a valid selector group.
    pub fn parse(text: &str) -> (r: Option<CssSelector>)
        ensures
            r.is_some() == selector_parses(text@),
            r matches Some(s) ==> s@ == text@,
    {
        match compile_selector(text) {
            Some(compiled) => Some(CssSelector { text: String::from_str(text), compiled }),
            None => None,
        }
    }

    /// The source text of the selector group.
    pub fn text(&self) -> (r: &str)
        ensures
            r@ == self@,
    {
        self.text.as_str()
    }
}

/// A parsed HTML document together with its source text.
pub struct Document {
    text: String,
    tree: scraper::Html,
}

impl View for Document {
    type V = Seq<char>;

    closed spec fn view(&self) -> Seq<char> {
        self.text@
    }
}

/// The first element of `matches`, or the empty text when there is none.
pub open spec fn first_or_empty(matches: Seq<Seq<char>>) -> Seq<char> {
    if matches.len() > 0 {
        matches[0]
    } else {
        Seq::empty()
    }
}

impl Document {
    /// Parses `text` as a whole HTML document. Parsing never fails.
    pub fn parse(text: String) -> (r: Document)
        ensures
            r@ == text@,
    {
        let tree = parse_html(text.as_str());
        Document { text, tree }
    }

    /// The inner HTML of the first element that `sel` picks, or the empty
    /// string when it picks none. Further matches are ignored.
    pub fn extract(&self, sel: &CssSelector) -> (r: String)
        ensures
            r@ == first_or_empty(selected_inner_html(self@, sel@)),
    {
        let mut matches = select_inner_html(self, sel);
        let ghost all = matches.deep_view();
        if matches.len() > 0 {
            assert(all[0] == matches@[0]@);
            matches.swap_remove(0)
        } else {
            String::new()
        }
    }
}

} // verus!
