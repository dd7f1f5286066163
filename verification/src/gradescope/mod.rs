pub mod course;
pub mod home;

use crate::markup::{
    attr, attribute, compile_selector, compiled, compiles_to, element_matches, first_of,
    inner_html, inner_markup, select_in_element, selector_for, text_nodes, texts,
};
use crate::text::text_of;
use scraper::{ElementRef, Selector};
use vstd::prelude::*;

verus! {

/// The block of assignments on a course page.
pub open spec fn assignment_table() -> Seq<char> {
    "#assignments-student-table"@
}

/// The rows of the assignment table.
pub open spec fn table_rows() -> Seq<char> {
    "tbody > tr"@
}

/// The link of a row that bears the assignment's name.
pub open spec fn primary_link() -> Seq<char> {
    ".table--primaryLink"@
}

/// The status text of a row whose submission is complete.
pub open spec fn complete_marker() -> Seq<char> {
    ".submissionStatus-complete > .submissionStatus--text"@
}

/// The status text of a row that carries a warning.
pub open spec fn warning_marker() -> Seq<char> {
    ".submissionStatus-warning > .submissionStatus--text"@
}

/// The score of a row.
pub open spec fn score_marker() -> Seq<char> {
    ".submissionStatus--score"@
}

/// The release marker of a row.
pub open spec fn release_marker() -> Seq<char> {
    ".submissionTimeChart--releaseDate"@
}

/// The due marker of a row.
pub open spec fn due_marker() -> Seq<char> {
    ".submissionTimeChart--dueDate"@
}

/// A course list that directly follows a page heading.
pub open spec fn course_lists() -> Seq<char> {
    ".pageHeading + .courseList"@
}

/// A container of course boxes that directly follows a term label.
pub open spec fn term_courses() -> Seq<char> {
    ".courseList--term + .courseList--coursesForTerm"@
}

/// A course box that is not the tile for adding a course.
pub open spec fn course_boxes() -> Seq<char> {
    ".courseBox:not(.courseBox-new)"@
}

/// The short name in a course box.
pub open spec fn box_shortname() -> Seq<char> {
    ".courseBox--shortname"@
}

/// The full name in a course box.
pub open spec fn box_name() -> Seq<char> {
    ".courseBox--name"@
}

/// Whether every selector expression of the scraper compiles.
pub open spec fn all_compile() -> bool {
    &&& compiled(assignment_table()) is Ok
    &&& compiled(table_rows()) is Ok
    &&& compiled(primary_link()) is Ok
    &&& compiled(complete_marker()) is Ok
    &&& compiled(warning_marker()) is Ok
    &&& compiled(score_marker()) is Ok
    &&& compiled(release_marker()) is Ok
    &&& compiled(due_marker()) is Ok
    &&& compiled(course_lists()) is Ok
    &&& compiled(term_courses()) is Ok
    &&& compiled(course_boxes()) is Ok
    &&& compiled(box_shortname()) is Ok
    &&& compiled(box_name()) is Ok
}

/// The elements below `scope` that match a selector expression.
pub open spec fn all_matches(scope: ElementRef, expression: Seq<char>) -> Seq<ElementRef> {
    element_matches(scope, selector_for(expression))
}

/// The first element below `scope` that matches a selector expression.
pub open spec fn first_match(scope: ElementRef, expression: Seq<char>) -> Option<ElementRef> {
    first_of(all_matches(scope, expression))
}

/// The selectors of the scraper, each compiled once and then applied to
/// every row and every course box.
pub struct Selectors {
    pub(crate) assignment_table: Selector,
    pub(crate) table_rows: Selector,
    pub(crate) primary_link: Selector,
    pub(crate) complete_marker: Selector,
    pub(crate) warning_marker: Selector,
    pub(crate) score_marker: Selector,
    pub(crate) release_marker: Selector,
    pub(crate) due_marker: Selector,
    pub(crate) course_lists: Selector,
    pub(crate) term_courses: Selector,
    pub(crate) course_boxes: Selector,
    pub(crate) box_shortname: Selector,
    pub(crate) box_name: Selector,
}

impl Selectors {
    /// Each field is what its expression compiles to.
    #[verifier::type_invariant]
    pub closed spec fn well_formed(self) -> bool {
        &&& compiles_to(assignment_table(), self.assignment_table)
        &&& compiles_to(table_rows(), self.table_rows)
        &&& compiles_to(primary_link(), self.primary_link)
        &&& compiles_to(complete_marker(), self.complete_marker)
        &&& compiles_to(warning_marker(), self.warning_marker)
        &&& compiles_to(score_marker(), self.score_marker)
        &&& compiles_to(release_marker(), self.release_marker)
        &&& compiles_to(due_marker(), self.due_marker)
        &&& compiles_to(course_lists(), self.course_lists)
        &&& compiles_to(term_courses(), self.term_courses)
        &&& compiles_to(course_boxes(), self.course_boxes)
        &&& compiles_to(box_shortname(), self.box_shortname)
        &&& compiles_to(box_name(), self.box_name)
    }

    /// Compiles every selector expression of the scraper. There is a result
    /// exactly if each of them compiles.
    pub fn compile() -> (r: Option<Selectors>)
        ensures
            r is Some <==> all_compile(),
    {
        let assignment_table = match compile_selector("#assignments-student-table") {
            Ok(selector) => selector,
            Err(_) => return None,
        };
        let table_rows = match compile_selector("tbody > tr") {
            Ok(selector) => selector,
            Err(_) => return None,
        };
        let primary_link = match compile_selector(".table--primaryLink") {
            Ok(selector) => selector,
            Err(_) => return None,
        };
        let complete_marker = match compile_selector(
            ".submissionStatus-complete > .submissionStatus--text",
        ) {
            Ok(selector) => selector,
            Err(_) => return None,
        };
        let warning_marker = match compile_selector(
            ".submissionStatus-warning > .submissionStatus--text",
        ) {
            Ok(selector) => selector,
            Err(_) => return None,
        };
        let score_marker = match compile_selector(".submissionStatus--score") {
            Ok(selector) => selector,
            Err(_) => return None,
        };
        let release_marker = match compile_selector(".submissionTimeChart--releaseDate") {
            Ok(selector) => selector,
            Err(_) => return None,
        };
        let due_marker = match compile_selector(".submissionTimeChart--dueDate") {
            Ok(selector) => selector,
            Err(_) => return None,
        };
        let course_lists = match compile_selector(".pageHeading + .courseList") {
            Ok(selector) => selector,
            Err(_) => return None,
        };
        let term_courses = match compile_selector(
            ".courseList--term + .courseList--coursesForTerm",
        ) {
            Ok(selector) => selector,
            Err(_) => return None,
        };
        let course_boxes = match compile_selector(".courseBox:not(.courseBox-new)") {
            Ok(selector) => selector,
            Err(_) => return None,
        };
        let box_shortname = match compile_selector(".courseBox--shortname") {
            Ok(selector) => selector,
            Err(_) => return None,
        };
        let box_name = match compile_selector(".courseBox--name") {
            Ok(selector) => selector,
            Err(_) => return None,
        };
        Some(
            Selectors {
                assignment_table,
                table_rows,
                primary_link,
                complete_marker,
                warning_marker,
                score_marker,
                release_marker,
                due_marker,
                course_lists,
                term_courses,
                course_boxes,
                box_shortname,
                box_name,
            },
        )
    }
}

/// The markup of the first element below `scope` that matches `expression`.
pub open spec fn first_markup(scope: ElementRef, expression: Seq<char>) -> Option<Seq<char>> {
    match first_match(scope, expression) {
        Some(element) => Some(inner_markup(element)),
        None => None,
    }
}

/// All the text at and below an element, in the order of the document.
pub open spec fn element_text(element: ElementRef) -> Seq<char> {
    text_nodes(element).flatten()
}

/// The value of the attribute `name` of the first element below `scope` that
/// matches `expression`.
pub open spec fn first_attribute(
    scope: ElementRef,
    expression: Seq<char>,
    name: Seq<char>,
) -> Option<Seq<char>> {
    match first_match(scope, expression) {
        Some(element) => attribute(element, name),
        None => None,
    }
}

/// The elements below `scope` that match a selector expression, in the
/// order of the document, and none of them where nothing matches. There is
/// no result where the expression is no selector.
pub fn select_all<'a>(scope: ElementRef<'a>, expression: &str) -> (found: Option<
    Vec<ElementRef<'a>>,
>)
    ensures
        (match found {
            Some(all) => compiled(expression@) is Ok && all@ == all_matches(scope, expression@),
            None => compiled(expression@) is Err,
        }),
{
    match compile_selector(expression) {
        Ok(selector) => Some(select_in_element(scope, &selector)),
        Err(_) => None,
    }
}

/// The first element below `scope` that a compiled selector matches, or none
/// where it matches nothing.
pub fn select_first<'a>(scope: ElementRef<'a>, selector: &Selector) -> (found: Option<
    ElementRef<'a>,
>)
    ensures
        found == first_of(element_matches(scope, *selector)),
{
    let all = select_in_element(scope, selector);
    if all.len() > 0 {
        Some(all[0])
    } else {
        None
    }
}

/// The markup of the first element below `scope` that a compiled selector
/// matches, or none where it matches nothing.
pub fn read_markup(scope: ElementRef<'_>, selector: &Selector) -> (markup: Option<String>)
    ensures
        text_of(markup) == (match first_of(element_matches(scope, *selector)) {
            Some(element) => Some(inner_markup(element)),
            None => None,
        }),
{
    match select_first(scope, selector) {
        Some(element) => Some(inner_html(element)),
        None => None,
    }
}

/// The value of the attribute `name` of the first element below `scope`
/// that a compiled selector matches, or none where it matches nothing or
/// the element has no such attribute.
pub fn read_attribute(scope: ElementRef<'_>, selector: &Selector, name: &str) -> (value: Option<
    String,
>)
    ensures
        text_of(value) == (match first_of(element_matches(scope, *selector)) {
            Some(element) => attribute(element, name@),
            None => None,
        }),
{
    match select_first(scope, selector) {
        Some(element) => attr(element, name),
        None => None,
    }
}

/// All the text at and below an element, in the order of the document.
pub fn read_text(element: ElementRef<'_>) -> (text: String)
    ensures
        text@ == element_text(element),
{
    let nodes = texts(element);
    let mut text = String::new();
    let mut i: usize = 0;
    assert(nodes.deep_view().take(0) =~= Seq::<Seq<char>>::empty());
    while i < nodes.len()
        invariant
            i <= nodes.len(),
            text@ == nodes.deep_view().take(i as int).flatten(),
        decreases nodes.len() - i,
    {
        proof {
            let all = nodes.deep_view();
            assert(all[i as int] == nodes[i as int]@);
            assert(all.take(i + 1) =~= all.take(i as int).push(all[i as int]));
            all.take(i as int).lemma_flatten_push(all[i as int]);
        }
        text.append(nodes[i].as_str());
        i += 1;
    }
    assert(nodes.deep_view().take(nodes.len() as int) =~= nodes.deep_view());
    text
}

} // verus!
