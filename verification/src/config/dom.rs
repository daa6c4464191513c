use vstd::prelude::*;

use scraper::Selector as CssSelector;

verus! {

#[verifier::external_type_specification]
#[verifier::external_body]
pub struct ExHtml(scraper::Html);

#[verifier::external_type_specification]
#[verifier::external_body]
pub struct ExElementRef<'a>(scraper::ElementRef<'a>);

#[verifier::external_type_specification]
#[verifier::external_body]
pub struct ExCssSelector(CssSelector);

/// Whether scraper's selector parser accepts this CSS text.
pub uninterp spec fn css_is_valid(css: Seq<char>) -> bool;

/// How many elements the selector `css` matches below the element that the steps `at` reach
/// from the root of the document parsed from `html`. A step is a selector's text and the index
/// of one of its matches, in document order.
pub uninterp spec fn css_match_count(html: Seq<char>, at: Seq<(Seq<char>, nat)>, css: Seq<char>) -> nat;

/// The inner HTML of the element that the steps `at` reach from the root of the document
/// parsed from `html`.
pub uninterp spec fn inner_html_at(html: Seq<char>, at: Seq<(Seq<char>, nat)>) -> Seq<char>;

/// A parsed CSS selector, known by the text it was parsed from.
pub struct Css {
    sel: CssSelector,
    text: Ghost<Seq<char>>,
}

impl View for Css {
    type V = Seq<char>;

    closed spec fn view(&self) -> Seq<char> {
        self.text@
    }
}

/// A parsed HTML document, known by the text it was parsed from.
pub struct Document {
    doc: scraper::Html,
    text: Ghost<Seq<char>>,
}

impl View for Document {
    type V = Seq<char>;

    closed spec fn view(&self) -> Seq<char> {
        self.text@
    }
}

/// An element of a parsed document, known by the document's text and the steps that reach it
/// from the root. Only the trusted functions of this module make one, each next to the scraper
/// call that gives the element.
pub struct Element<'a> {
    elem: scraper::ElementRef<'a>,
    html: Ghost<Seq<char>>,
    path: Ghost<Seq<(Seq<char>, nat)>>,
}

impl<'a> View for Element<'a> {
    type V = (Seq<char>, Seq<(Seq<char>, nat)>);

    closed spec fn view(&self) -> (Seq<char>, Seq<(Seq<char>, nat)>) {
        (self.html@, self.path@)
    }
}

/// Parses CSS selector text with `scraper::Selector::parse`; the selector is there exactly when
/// the text is valid CSS, and it is known by that text.
#[verifier::external_body]
pub(crate) fn parse_css(css: &str) -> (selector: Option<Css>)
    ensures
        selector is Some <==> css_is_valid(css@),
        selector matches Some(s) ==> s@ == css@,
{
    match CssSelector::parse(css) {
        Ok(sel) => Some(Css { sel, text: Ghost(css@) }),
        Err(_) => None,
    }
}

/// Parses an HTML document with `scraper::Html::parse_document`, which accepts any text; the
/// document is known by that text.
#[verifier::external_body]
fn parse_html(html: &str) -> (document: Document)
    ensures
        document@ == html@,
{
    Document { doc: scraper::Html::parse_document(html), text: Ghost(html@) }
}

/// The `<html>` element of a parsed document (`scraper::Html::root_element`), reached by no
/// step; a document that `parse_document` built always has one.
#[verifier::external_body]
fn root_of(document: &Document) -> (root: Element<'_>)
    ensures
        root@ == (document@, Seq::<(Seq<char>, nat)>::empty()),
{
    Element { elem: document.doc.root_element(), html: Ghost(document.text@), path: Ghost(Seq::empty()) }
}

/// The elements below `scope` that the selector matches, in document order
/// (`scraper::ElementRef::select`): as many as `css_match_count` names, the one at index `i`
/// reached from `scope` by the step of the selector's text and `i`.
#[verifier::external_body]
pub(crate) fn select_all<'a>(scope: &Element<'a>, selector: &Css) -> (found: Vec<Element<'a>>)
    ensures
        found@.len() == css_match_count(scope@.0, scope@.1, selector@),
        forall|i: int|
            0 <= i < found@.len() ==> (#[trigger] found@[i])@ == (scope@.0, scope@.1.push((selector@, i as nat))),
{
    scope.elem.select(&selector.sel).enumerate().map(|(i, elem)| Element {
        elem,
        html: Ghost(scope.html@),
        path: Ghost(scope.path@.push((selector.text@, i as nat))),
    }).collect()
}

/// The inner HTML of an element (`scraper::ElementRef::inner_html`), as `inner_html_at` names
/// it for the element's document and steps.
#[verifier::external_body]
pub(crate) fn inner_html(element: &Element) -> (html: String)
    ensures
        html@ == inner_html_at(element@.0, element@.1),
{
    element.elem.inner_html()
}

impl Document {
    /// Parses HTML text; any text gives a document.
    pub fn parse(html: &str) -> (d: Document)
        ensures
            d@ == html@,
    {
        parse_html(html)
    }

    /// The root element of the document, reached by no step.
    pub fn root(&self) -> (e: Element<'_>)
        ensures
            e@ == (self@, Seq::<(Seq<char>, nat)>::empty()),
    {
        root_of(self)
    }
}

} // verus!
