use crate::config::{Config, WhichTerms, WhichTermsView};
use crate::error::ScrapeError;
use crate::gradescope::course::Assignment;
use crate::gradescope::{
    all_matches, box_name, box_shortname, course_boxes, course_lists, element_text, first_markup,
    read_markup, read_text, term_courses, Selectors,
};
use crate::links::{path, path_of, resolve, resolved};
use crate::markup::{
    attr, attribute, page_matches, prev_sibling_element, previous_element, select_in_element,
    select_in_page, selector_for,
};
use crate::outcome::{gather, lemma_gather_failure, lemma_gather_values};
use crate::text::{last_segment, last_segment_of, parse_u32, text_of, u32_of_text};
use scraper::{ElementRef, Html};
use url::Url;
use vstd::prelude::*;

verus! {

/// One course of a term.
#[derive(Debug, Clone, PartialEq, Eq)]
pub struct CourseInfo {
    /// The number at the end of the course's URL.
    pub id: u32,
    pub name: String,
    pub shortname: String,
    /// The link of the course box, resolved against the base URL.
    pub url: Url,
}

/// A course as contracts see it.
pub struct CourseInfoView {
    pub id: u32,
    pub name: Seq<char>,
    pub shortname: Seq<char>,
    pub url: Url,
}

impl View for CourseInfo {
    type V = CourseInfoView;

    open spec fn view(&self) -> CourseInfoView {
        CourseInfoView { id: self.id, name: self.name@, shortname: self.shortname@, url: self.url }
    }
}

impl DeepView for CourseInfo {
    type V = CourseInfoView;

    open spec fn deep_view(&self) -> CourseInfoView {
        self@
    }
}

/// A course together with its assignments.
#[derive(Debug, Clone, PartialEq, Eq)]
pub struct Course {
    pub info: CourseInfo,
    pub assignments: Vec<Assignment>,
}

/// A term and its courses, in the order of the page.
#[derive(Debug, Clone, PartialEq, Eq)]
pub struct TermInfo {
    pub name: String,
    pub courses: Vec<CourseInfo>,
}

/// A term as contracts see it.
pub struct TermInfoView {
    pub name: Seq<char>,
    pub courses: Seq<CourseInfoView>,
}

impl View for TermInfo {
    type V = TermInfoView;

    open spec fn view(&self) -> TermInfoView {
        TermInfoView { name: self.name@, courses: self.courses.deep_view() }
    }
}

/// What a course box holds, as far as a course is read from it: each field
/// is the text found for it, or none where the box has no such element or
/// attribute.
#[derive(Debug, Clone, PartialEq, Eq)]
pub struct CourseBox {
    /// The markup of the short-name element.
    pub shortname: Option<String>,
    /// The markup of the name element.
    pub name: Option<String>,
    /// The link attribute of the box.
    pub href: Option<String>,
}

/// A course box as contracts see it.
pub struct CourseBoxView {
    pub shortname: Option<Seq<char>>,
    pub name: Option<Seq<char>>,
    pub href: Option<Seq<char>>,
}

impl View for CourseBox {
    type V = CourseBoxView;

    open spec fn view(&self) -> CourseBoxView {
        CourseBoxView {
            shortname: text_of(self.shortname),
            name: text_of(self.name),
            href: text_of(self.href),
        }
    }
}

/// The course number that the path of a course URL ends in: the unsigned
/// integer written behind the last `/`.
pub open spec fn id_of_path(path: Seq<char>) -> Result<u32, ScrapeError> {
    match last_segment(path) {
        None => Err(ScrapeError::MissingCourseId),
        Some(segment) => match u32_of_text(segment) {
            None => Err(ScrapeError::InvalidCourseId),
            Some(id) => Ok(id),
        },
    }
}

/// The course that a course box gives when its link is resolved against
/// `base`, or the first of its fields that fails: the short name, the name,
/// the link, the URL, the course number, in that order.
pub open spec fn course_of(base: Url, course: CourseBoxView) -> Result<
    CourseInfoView,
    ScrapeError,
> {
    if course.shortname is None {
        Err(ScrapeError::MissingCourseShortname)
    } else if course.name is None {
        Err(ScrapeError::MissingCourseName)
    } else if course.href is None {
        Err(ScrapeError::MissingCourseUrl)
    } else if resolved(base, course.href->0) is Err {
        Err(ScrapeError::InvalidCourseUrl)
    } else {
        let url = resolved(base, course.href->0)->Ok_0;
        match id_of_path(path_of(url)) {
            Err(e) => Err(e),
            Ok(id) => Ok(
                CourseInfoView { id, name: course.name->0, shortname: course.shortname->0, url },
            ),
        }
    }
}

/// What the course box `element` holds.
pub open spec fn box_of(element: ElementRef) -> CourseBoxView {
    CourseBoxView {
        shortname: first_markup(element, box_shortname()),
        name: first_markup(element, box_name()),
        href: attribute(element, "href"@),
    }
}

/// The courses of the boxes in `container`, or the failure of the first box
/// that fails. The tile for adding a course is no box.
pub open spec fn courses_in(base: Url, container: ElementRef) -> Result<
    Seq<CourseInfoView>,
    ScrapeError,
> {
    gather(
        all_matches(container, course_boxes()).map_values(
            |course: ElementRef| course_of(base, box_of(course)),
        ),
    )
}

/// The term whose courses `container` holds: its name is the text of the
/// element before the container, which is the term's label.
pub open spec fn term_of(base: Url, container: ElementRef) -> Result<TermInfoView, ScrapeError> {
    match previous_element(container) {
        None => Err(ScrapeError::MissingTermName),
        Some(label) => match courses_in(base, container) {
            Err(e) => Err(e),
            Ok(courses) => Ok(TermInfoView { name: element_text(label), courses }),
        },
    }
}

/// The terms of a course list, each read or failed by itself, in the order
/// of the list.
pub open spec fn terms_in(base: Url, list: ElementRef) -> Seq<Result<TermInfoView, ScrapeError>> {
    all_matches(list, term_courses()).map_values(|container: ElementRef| term_of(base, container))
}

/// Whether the text of a heading announces the courses that the user
/// teaches.
pub open spec fn is_instructor_heading(heading: Seq<char>) -> bool {
    heading == "Instructor Courses"@
}

/// Whether a course list is read: the element before it, which is its
/// heading, does not announce the courses that the user teaches.
pub open spec fn is_student_list(list: ElementRef) -> bool {
    match previous_element(list) {
        Some(heading) => !is_instructor_heading(element_text(heading)),
        None => false,
    }
}

/// The terms that one course list adds to the page's terms.
pub open spec fn terms_from(base: Url, list: ElementRef) -> Seq<Result<TermInfoView, ScrapeError>> {
    if is_student_list(list) {
        terms_in(base, list)
    } else {
        Seq::empty()
    }
}

/// The terms of the course lists `lists`, in order.
pub open spec fn terms_of_lists(base: Url, lists: Seq<ElementRef>) -> Seq<
    Result<TermInfoView, ScrapeError>,
> {
    lists.flat_map(|list: ElementRef| terms_from(base, list))
}

/// The terms of a landing page before any of them is selected.
pub open spec fn terms_on(base: Url, page: &Html) -> Seq<Result<TermInfoView, ScrapeError>> {
    terms_of_lists(base, page_matches(page, selector_for(course_lists())))
}

/// Whether a term was read and bears one of `names`.
pub open spec fn is_named(names: Seq<Seq<char>>, term: Result<TermInfoView, ScrapeError>) -> bool {
    term is Ok && names.contains(term->Ok_0.name)
}

/// The terms that a policy keeps: all of them; the first of them; or those
/// that were read and bear one of the given names.
pub open spec fn selected(
    terms: Seq<Result<TermInfoView, ScrapeError>>,
    policy: WhichTermsView,
) -> Seq<Result<TermInfoView, ScrapeError>> {
    match policy {
        WhichTermsView::All => terms,
        WhichTermsView::MostRecentOnly => terms.take(if terms.len() > 0 {
            1
        } else {
            0
        }),
        WhichTermsView::These(names) => terms.filter(
            |term: Result<TermInfoView, ScrapeError>| is_named(names, term),
        ),
    }
}

/// Under `MostRecentOnly` a page with at least one term gives exactly its
/// first term, and a page without terms gives none.
pub proof fn lemma_most_recent_is_first(terms: Seq<Result<TermInfoView, ScrapeError>>)
    ensures
        terms.len() >= 1 ==> selected(terms, WhichTermsView::MostRecentOnly) == seq![terms[0]],
        terms.len() == 0 ==> selected(terms, WhichTermsView::MostRecentOnly) == Seq::<
            Result<TermInfoView, ScrapeError>,
        >::empty(),
{
    if terms.len() >= 1 {
        assert(terms.take(1) =~= seq![terms[0]]);
    } else {
        assert(terms.take(0) =~= Seq::empty());
    }
}

/// Under `These(names)` every term that is kept was read and bears one of
/// the names, and every term that was read and bears one of the names is
/// kept. So a term of another name is left out, and so is a term that
/// failed.
pub proof fn lemma_these_keeps_named(
    terms: Seq<Result<TermInfoView, ScrapeError>>,
    names: Seq<Seq<char>>,
)
    ensures
        forall|i: int|
            0 <= i < selected(terms, WhichTermsView::These(names)).len() ==> is_named(
                names,
                #[trigger] selected(terms, WhichTermsView::These(names))[i],
            ),
        forall|i: int|
            0 <= i < terms.len() && is_named(names, terms[i]) ==> selected(
                terms,
                WhichTermsView::These(names),
            ).contains(#[trigger] terms[i]),
        forall|i: int|
            0 <= i < selected(terms, WhichTermsView::These(names)).len() ==> (#[trigger] selected(
                terms,
                WhichTermsView::These(names),
            )[i]) is Ok,
        selected(terms, WhichTermsView::These(names)).len() <= terms.len(),
{
    let keep = |term: Result<TermInfoView, ScrapeError>| is_named(names, term);
    let kept = selected(terms, WhichTermsView::These(names));
    assert(kept == terms.filter(keep));
    assert forall|i: int| 0 <= i < kept.len() implies is_named(names, #[trigger] kept[i]) by {
        terms.lemma_filter_pred(keep, i);
    }
    assert forall|i: int| 0 <= i < terms.len() && is_named(names, terms[i]) implies kept.contains(
        #[trigger] terms[i],
    ) by {
        terms.lemma_filter_contains(keep, i);
    }
    terms.lemma_filter_len(keep);
}

/// Whether a course list stands behind a heading whose text is exactly
/// `Instructor Courses`.
pub open spec fn is_instructor_list(list: ElementRef) -> bool {
    previous_element(list) is Some && is_instructor_heading(
        element_text(previous_element(list)->0),
    )
}

/// A course list under the heading `Instructor Courses` adds nothing: the
/// terms of some course lists are those of the same lists without that one,
/// and so are the terms that a policy keeps of them, whatever the policy.
pub proof fn lemma_instructor_list_excluded(
    base: Url,
    lists: Seq<ElementRef>,
    k: int,
    policy: WhichTermsView,
)
    requires
        0 <= k < lists.len(),
        is_instructor_list(lists[k]),
    ensures
        terms_from(base, lists[k]).len() == 0,
        terms_of_lists(base, lists) == terms_of_lists(base, lists.remove(k)),
        selected(terms_of_lists(base, lists), policy) == selected(
            terms_of_lists(base, lists.remove(k)),
            policy,
        ),
    decreases lists.len(),
{
    let from = |list: ElementRef| terms_from(base, list);
    let front = lists.drop_last();
    let last = lists.last();
    assert(lists =~= front.push(last));
    front.lemma_flat_map_push(from, last);
    if k == lists.len() - 1 {
        assert(lists.remove(k) =~= front);
        assert(front.flat_map(from) + from(last) =~= front.flat_map(from));
    } else {
        lemma_instructor_list_excluded(base, front, k, policy);
        assert(lists.remove(k) =~= front.remove(k).push(last));
        front.remove(k).lemma_flat_map_push(from, last);
    }
}

/// The outcome of reading one course, as contracts see it.
pub open spec fn course_view(r: Result<CourseInfo, ScrapeError>) -> Result<
    CourseInfoView,
    ScrapeError,
> {
    match r {
        Ok(course) => Ok(course@),
        Err(e) => Err(e),
    }
}

/// The outcome of reading the courses of a term, as contracts see it.
pub open spec fn courses_view(r: Result<Vec<CourseInfo>, ScrapeError>) -> Result<
    Seq<CourseInfoView>,
    ScrapeError,
> {
    match r {
        Ok(courses) => Ok(courses.deep_view()),
        Err(e) => Err(e),
    }
}

/// The outcome of reading one term, as contracts see it.
pub open spec fn term_view(r: Result<TermInfo, ScrapeError>) -> Result<TermInfoView, ScrapeError> {
    match r {
        Ok(term) => Ok(term@),
        Err(e) => Err(e),
    }
}

/// The outcomes of reading several terms, as contracts see them.
pub open spec fn terms_view(terms: Seq<Result<TermInfo, ScrapeError>>) -> Seq<
    Result<TermInfoView, ScrapeError>,
> {
    terms.map_values(|r: Result<TermInfo, ScrapeError>| term_view(r))
}

/// Reads the course number off the path of a course URL.
pub fn course_id(path: &str) -> (r: Result<u32, ScrapeError>)
    ensures
        r == id_of_path(path@),
{
    match last_segment_of(path) {
        None => Err(ScrapeError::MissingCourseId),
        Some(segment) => match parse_u32(segment.as_str()) {
            None => Err(ScrapeError::InvalidCourseId),
            Some(id) => Ok(id),
        },
    }
}

/// Reads from a course box what a course is made of.
pub fn read_course_box(selectors: &Selectors, element: ElementRef<'_>) -> (course: CourseBox)
    ensures
        course@ == box_of(element),
{
    proof {
        use_type_invariant(selectors);
    }
    let shortname = read_markup(element, &selectors.box_shortname);
    let name = read_markup(element, &selectors.box_name);
    let href = attr(element, "href");
    CourseBox { shortname, name, href }
}

/// Whether `names` holds `name`.
pub fn holds_name(names: &Vec<String>, name: &String) -> (held: bool)
    ensures
        held == names.deep_view().contains(name@),
{
    let mut i: usize = 0;
    while i < names.len()
        invariant
            i <= names.len(),
            forall|j: int| 0 <= j < i ==> names.deep_view()[j] != name@,
        decreases names.len() - i,
    {
        assert(names.deep_view()[i as int] == names[i as int]@);
        if names[i] == *name {
            return true;
        }
        i += 1;
    }
    false
}

/// Keeps of the terms of a page those that the policy asks for, in their
/// order: all of them, read or failed; the first of them, read or failed;
/// or those that were read and bear one of the given names, so that a term
/// that failed is left out.
pub fn select_terms(terms: Vec<Result<TermInfo, ScrapeError>>, policy: &WhichTerms) -> (kept: Vec<
    Result<TermInfo, ScrapeError>,
>)
    ensures
        terms_view(kept@) == selected(terms_view(terms@), policy@),
{
    match policy {
        WhichTerms::All => terms,
        WhichTerms::MostRecentOnly => {
            let mut terms = terms;
            let ghost all = terms@;
            let mut kept: Vec<Result<TermInfo, ScrapeError>> = Vec::new();
            if terms.len() > 0 {
                let first = terms.swap_remove(0);
                kept.push(first);
                assert(terms_view(kept@) =~= terms_view(all).take(1));
            } else {
                assert(terms_view(kept@) =~= terms_view(all).take(0));
            }
            kept
        },
        WhichTerms::These(names) => {
            let mut rest = terms;
            let ghost all = rest@;
            let ghost keep = |term: Result<TermInfoView, ScrapeError>|
                is_named(names.deep_view(), term);
            let mut kept: Vec<Result<TermInfo, ScrapeError>> = Vec::new();
            let ghost mut done: int = 0;
            assert(terms_view(all).take(0).filter(keep) =~= terms_view(kept@)) by {
                assert(terms_view(all).take(0) =~= Seq::empty());
                reveal(Seq::filter);
            }
            while rest.len() > 0
                invariant
                    0 <= done <= all.len(),
                    rest@ == all.skip(done),
                    keep == (|term: Result<TermInfoView, ScrapeError>|
                        is_named(names.deep_view(), term)),
                    terms_view(kept@) == terms_view(all).take(done).filter(keep),
                decreases rest.len(),
            {
                let term = rest.remove(0);
                proof {
                    assert(term == all[done]);
                    assert(rest@ =~= all.skip(done + 1));
                    let before = terms_view(all).take(done);
                    assert(terms_view(all).take(done + 1) =~= before.push(term_view(term)));
                    Seq::lemma_filter_push(before, term_view(term), keep);
                }
                let wanted = match &term {
                    Ok(info) => holds_name(names, &info.name),
                    Err(_) => false,
                };
                if wanted {
                    proof {
                        assert(terms_view(kept@.push(term)) =~= terms_view(kept@).push(
                            term_view(term),
                        ));
                    }
                    kept.push(term);
                }
                proof {
                    done = done + 1;
                }
            }
            assert(terms_view(all).take(all.len() as int) =~= terms_view(all));
            kept
        },
    }
}

impl Config {
    /// Builds the course of a course box: its names, its URL, which is the
    /// box's link resolved against the base URL, and its number, which is
    /// read off the end of that URL's path. The first field that is absent
    /// or does not parse fails the course.
    pub fn course_from_box(&self, course: CourseBox) -> (r: Result<CourseInfo, ScrapeError>)
        ensures
            course_view(r) == course_of(self.gradescope_base_url, course@),
            r matches Ok(info) ==> id_of_path(path_of(info.url)) == Ok::<u32, ScrapeError>(info.id),
    {
        let shortname = match course.shortname {
            Some(text) => text,
            None => return Err(ScrapeError::MissingCourseShortname),
        };
        let name = match course.name {
            Some(text) => text,
            None => return Err(ScrapeError::MissingCourseName),
        };
        let href = match course.href {
            Some(text) => text,
            None => return Err(ScrapeError::MissingCourseUrl),
        };
        let url = match resolve(&self.gradescope_base_url, href.as_str()) {
            Ok(url) => url,
            Err(_) => return Err(ScrapeError::InvalidCourseUrl),
        };
        let id = match course_id(path(&url).as_str()) {
            Ok(id) => id,
            Err(e) => return Err(e),
        };
        Ok(CourseInfo { id, name, shortname, url })
    }

    /// Reads the course of one course box. The course's number is the
    /// unsigned integer written behind the last `/` of the path of its URL.
    pub fn parse_course_box(&self, selectors: &Selectors, course: ElementRef<'_>) -> (r: Result<
        CourseInfo,
        ScrapeError,
    >)
        ensures
            course_view(r) == course_of(self.gradescope_base_url, box_of(course)),
            r matches Ok(info) ==> id_of_path(path_of(info.url)) == Ok::<u32, ScrapeError>(info.id),
    {
        self.course_from_box(read_course_box(selectors, course))
    }

    /// Reads the courses of a term from the boxes of its container, in the
    /// order of the boxes. One box that fails fails the term.
    pub fn parse_courses_for_term(
        &self,
        selectors: &Selectors,
        courses_for_term: ElementRef<'_>,
    ) -> (r: Result<Vec<CourseInfo>, ScrapeError>)
        ensures
            courses_view(r) == courses_in(self.gradescope_base_url, courses_for_term),
    {
        proof {
            use_type_invariant(selectors);
        }
        let boxes = select_in_element(courses_for_term, &selectors.course_boxes);
        let ghost base = self.gradescope_base_url;
        let ghost outcomes = boxes@.map_values(
            |course: ElementRef| course_of(base, box_of(course)),
        );
        let mut courses: Vec<CourseInfo> = Vec::new();
        let mut i: usize = 0;
        while i < boxes.len()
            invariant
                i <= boxes.len(),
                courses.len() == i,
                base == self.gradescope_base_url,
                boxes@ == all_matches(courses_for_term, course_boxes()),
                outcomes == boxes@.map_values(|course: ElementRef| course_of(base, box_of(course))),
                forall|j: int|
                    0 <= j < i ==> #[trigger] outcomes[j] == Ok::<CourseInfoView, ScrapeError>(
                        courses[j]@,
                    ),
            decreases boxes.len() - i,
        {
            match self.parse_course_box(selectors, boxes[i]) {
                Ok(course) => {
                    courses.push(course);
                },
                Err(e) => {
                    proof {
                        assert(outcomes[i as int] == Err::<CourseInfoView, ScrapeError>(e));
                        lemma_gather_failure(outcomes, i as int);
                    }
                    return Err(e);
                },
            }
            i += 1;
        }
        proof {
            let values = courses.deep_view();
            assert forall|j: int| 0 <= j < outcomes.len() implies outcomes[j] == Ok::<
                CourseInfoView,
                ScrapeError,
            >(values[j]) by {
                assert(values[j] == courses[j]@);
            }
            lemma_gather_values(outcomes, values);
        }
        Ok(courses)
    }

    /// Reads one term: its name from the element before the container of
    /// its courses, then its courses.
    pub fn parse_term(&self, selectors: &Selectors, courses_for_term: ElementRef<'_>) -> (r: Result<
        TermInfo,
        ScrapeError,
    >)
        ensures
            term_view(r) == term_of(self.gradescope_base_url, courses_for_term),
    {
        let label = match prev_sibling_element(courses_for_term) {
            Some(label) => label,
            None => return Err(ScrapeError::MissingTermName),
        };
        let name = read_text(label);
        let courses = match self.parse_courses_for_term(selectors, courses_for_term) {
            Ok(courses) => courses,
            Err(e) => return Err(e),
        };
        Ok(TermInfo { name, courses })
    }

    /// Reads the terms of a course list, in the order of the list. A term
    /// that fails stands in the result as its failure and leaves the other
    /// terms as they are.
    pub fn parse_course_list(&self, selectors: &Selectors, course_list: ElementRef<'_>) -> (r: Vec<
        Result<TermInfo, ScrapeError>,
    >)
        ensures
            terms_view(r@) == terms_in(self.gradescope_base_url, course_list),
    {
        proof {
            use_type_invariant(selectors);
        }
        let containers = select_in_element(course_list, &selectors.term_courses);
        let ghost base = self.gradescope_base_url;
        let mut terms: Vec<Result<TermInfo, ScrapeError>> = Vec::new();
        let mut i: usize = 0;
        while i < containers.len()
            invariant
                i <= containers.len(),
                terms.len() == i,
                base == self.gradescope_base_url,
                containers@ == all_matches(course_list, term_courses()),
                forall|j: int|
                    0 <= j < i ==> term_view(#[trigger] terms[j]) == term_of(base, containers[j]),
            decreases containers.len() - i,
        {
            let term = self.parse_term(selectors, containers[i]);
            terms.push(term);
            i += 1;
        }
        assert(terms_view(terms@) =~= terms_in(base, course_list));
        terms
    }

    /// Whether a course list is read: the element before it is a heading
    /// whose text is not exactly `Instructor Courses`.
    pub fn reads_course_list(&self, course_list: ElementRef<'_>) -> (read: bool)
        ensures
            read == is_student_list(course_list),
    {
        match prev_sibling_element(course_list) {
            Some(heading) => read_text(heading) != String::from_str("Instructor Courses"),
            None => false,
        }
    }

    /// Reads the terms of the landing page and keeps those that the
    /// configured policy asks for. The terms come from every course list
    /// that directly follows a page heading, but for a list under the heading
    /// `Instructor Courses`, which is left out whole under every policy.
    pub fn parse_home_page(&self, selectors: &Selectors, page: Html) -> (r: Vec<
        Result<TermInfo, ScrapeError>,
    >)
        ensures
            terms_view(r@) == selected(
                terms_on(self.gradescope_base_url, &page),
                self.which_terms@,
            ),
    {
        proof {
            use_type_invariant(selectors);
        }
        let lists = select_in_page(&page, &selectors.course_lists);
        let ghost base = self.gradescope_base_url;
        let ghost from = |list: ElementRef| terms_from(base, list);
        let mut terms: Vec<Result<TermInfo, ScrapeError>> = Vec::new();
        let mut i: usize = 0;
        assert(lists@.take(0).flat_map(from) =~= terms_view(terms@)) by {
            assert(lists@.take(0) =~= Seq::empty());
        }
        while i < lists.len()
            invariant
                i <= lists.len(),
                base == self.gradescope_base_url,
                from == (|list: ElementRef| terms_from(base, list)),
                terms_view(terms@) == lists@.take(i as int).flat_map(from),
            decreases lists.len() - i,
        {
            let ghost before = terms@;
            proof {
                assert(lists@.take(i + 1) =~= lists@.take(i as int).push(lists[i as int]));
                lists@.take(i as int).lemma_flat_map_push(from, lists[i as int]);
            }
            if self.reads_course_list(lists[i]) {
                let mut found = self.parse_course_list(selectors, lists[i]);
                let ghost added = found@;
                terms.append(&mut found);
                assert(terms_view(before + added) =~= terms_view(before) + terms_view(added));
            } else {
                assert(terms_view(before) + Seq::empty() =~= terms_view(before));
            }
            i += 1;
        }
        assert(lists@.take(lists.len() as int) =~= lists@);
        select_terms(terms, &self.which_terms)
    }
}

} // verus!
