use crate::text::text_of;
use scraper::error::SelectorErrorKind;
use scraper::{Element, ElementRef, Html, Selector};
use vstd::prelude::*;

verus! {

/// A parsed document of `scraper`, held as it is.
#[verifier::external_type_specification]
#[verifier::external_body]
pub struct ExHtml(Html);

/// A handle of `scraper` to one element of a parsed document.
#[verifier::external_type_specification]
#[verifier::external_body]
pub struct ExElementRef<'a>(ElementRef<'a>);

/// A compiled selector group of `scraper`.
#[verifier::external_type_specification]
#[verifier::external_body]
pub struct ExSelector(Selector);

/// The reason for which `scraper` refuses a selector expression.
#[verifier::external_type_specification]
#[verifier::external_body]
pub struct ExSelectorErrorKind(SelectorErrorKind);

/// What `Selector::parse` makes of a selector expression.
pub uninterp spec fn compiled(expression: Seq<char>) -> Result<Selector, SelectorErrorKind>;

/// The elements of a document that `Html::select` yields for a selector, in
/// the order in which it yields them.
pub uninterp spec fn page_matches(page: &Html, selector: Selector) -> Seq<ElementRef>;

/// The elements below `scope` that `ElementRef::select` yields for a
/// selector, in the order in which it yields them.
pub uninterp spec fn element_matches(scope: ElementRef, selector: Selector) -> Seq<ElementRef>;

/// The markup between the tags of an element, as `ElementRef::inner_html`
/// writes it.
pub uninterp spec fn inner_markup(element: ElementRef) -> Seq<char>;

/// The value that `ElementRef::attr` finds for an attribute name.
pub uninterp spec fn attribute(element: ElementRef, name: Seq<char>) -> Option<Seq<char>>;

/// The text nodes at and below an element, as `ElementRef::text` yields them.
pub uninterp spec fn text_nodes(element: ElementRef) -> Seq<Seq<char>>;

/// The element that comes last before an element among its siblings, as
/// `Element::prev_sibling_element` finds it: nodes that are no elements are
/// passed over.
pub uninterp spec fn previous_element(element: ElementRef) -> Option<ElementRef>;

/// The first item of a sequence, if it has one.
pub open spec fn first_of<T>(items: Seq<T>) -> Option<T> {
    if items.len() > 0 {
        Some(items[0])
    } else {
        None
    }
}

/// The selector that an expression compiles to. It means something only
/// where `compiled` is `Ok`.
pub open spec fn selector_for(expression: Seq<char>) -> Selector {
    compiled(expression)->Ok_0
}

/// Whether `expression` compiles, and to `selector`.
pub open spec fn compiles_to(expression: Seq<char>, selector: Selector) -> bool {
    compiled(expression) is Ok && selector_for(expression) == selector
}

/// Calls `Selector::parse`. The contract claims only that the outcome is a
/// function of the expression.
#[verifier::external_body]
pub(crate) fn compile_selector(expression: &str) -> (r: Result<Selector, SelectorErrorKind>)
    ensures
        r == compiled(expression@),
{
    Selector::parse(expression)
}

/// Calls `Html::select` and gathers what it yields. The contract claims that
/// the elements and their order are a function of the document and the
/// selector.
#[verifier::external_body]
pub(crate) fn select_in_page<'a>(page: &'a Html, selector: &Selector) -> (found: Vec<
    ElementRef<'a>,
>)
    ensures
        found@ == page_matches(page, *selector),
{
    page.select(selector).collect()
}

/// Calls `ElementRef::select` and gathers what it yields. The contract claims
/// that the elements and their order are a function of the scope and the
/// selector.
#[verifier::external_body]
pub(crate) fn select_in_element<'a>(scope: ElementRef<'a>, selector: &Selector) -> (found: Vec<
    ElementRef<'a>,
>)
    ensures
        found@ == element_matches(scope, *selector),
{
    scope.select(selector).collect()
}

/// Calls `ElementRef::inner_html`. The contract claims that the markup
/// written is a function of the element.
#[verifier::external_body]
pub(crate) fn inner_html(element: ElementRef<'_>) -> (markup: String)
    ensures
        markup@ == inner_markup(element),
{
    element.inner_html()
}

/// Calls `ElementRef::attr` and copies the value found. The contract claims
/// that the value is a function of the element and the name.
#[verifier::external_body]
pub(crate) fn attr(element: ElementRef<'_>, name: &str) -> (value: Option<String>)
    ensures
        text_of(value) == attribute(element, name@),
{
    element.attr(name).map(str::to_owned)
}

/// Calls `ElementRef::text` and copies each text node that it yields. The
/// contract claims that the texts and their order are a function of the
/// element.
#[verifier::external_body]
pub(crate) fn texts(element: ElementRef<'_>) -> (nodes: Vec<String>)
    ensures
        nodes.deep_view() == text_nodes(element),
{
    element.text().map(str::to_owned).collect()
}

/// Calls `Element::prev_sibling_element`. The contract claims that the
/// outcome is a function of the element.
#[verifier::external_body]
pub(crate) fn prev_sibling_element<'a>(element: ElementRef<'a>) -> (before: Option<ElementRef<'a>>)
    ensures
        before == previous_element(element),
{
    Element::prev_sibling_element(&element)
}

} // verus!
