use crate::config::Config;
use crate::error::ScrapeError;
use crate::gradescope::{
    all_matches, assignment_table, complete_marker, due_marker, first_attribute, first_markup,
    first_match, primary_link, read_attribute, read_markup, release_marker, score_marker,
    select_first, table_rows, warning_marker, Selectors,
};
use crate::markup::{
    first_of, page_matches, select_in_element, select_in_page, selector_for, text_nodes, texts,
};
use crate::outcome::{gather, lemma_gather_failure, lemma_gather_values};
use crate::text::text_of;
use crate::timestamp::{parse_datetime, timestamp_of, Timestamp};
use scraper::{ElementRef, Html};
use vstd::prelude::*;

verus! {

/// How a submission stands, with the short text that the page shows for it.
#[derive(Debug, Clone, PartialEq, Eq)]
pub enum SubmissionStatus {
    /// A score, or any other plain status.
    Score(String),
    /// A status that asks for attention.
    Warning(String),
    /// A submission that is complete.
    Complete(String),
}

/// A submission status as contracts see it.
pub enum StatusView {
    Score(Seq<char>),
    Warning(Seq<char>),
    Complete(Seq<char>),
}

impl View for SubmissionStatus {
    type V = StatusView;

    open spec fn view(&self) -> StatusView {
        match self {
            SubmissionStatus::Score(text) => StatusView::Score(text@),
            SubmissionStatus::Warning(text) => StatusView::Warning(text@),
            SubmissionStatus::Complete(text) => StatusView::Complete(text@),
        }
    }
}

/// The text that a status is shown with: a score as it is, a warning behind
/// a warning sign, a complete submission behind a check mark.
pub open spec fn rendered(status: StatusView) -> Seq<char> {
    match status {
        StatusView::Score(text) => text,
        StatusView::Warning(text) => "\u{26A0} "@ + text,
        StatusView::Complete(text) => "\u{2713} "@ + text,
    }
}

impl SubmissionStatus {
    /// The text that this status is shown with.
    pub fn to_string(&self) -> (text: String)
        ensures
            text@ == rendered(self@),
    {
        match self {
            SubmissionStatus::Score(text) => text.clone(),
            SubmissionStatus::Warning(text) => String::from_str("\u{26A0} ").concat(text.as_str()),
            SubmissionStatus::Complete(text) => String::from_str("\u{2713} ").concat(
                text.as_str(),
            ),
        }
    }
}

/// One assignment of a course.
#[derive(Debug, Clone, PartialEq, Eq)]
pub struct Assignment {
    pub name: String,
    pub status: SubmissionStatus,
    pub release_date: Timestamp,
    pub due_date: Timestamp,
}

/// An assignment as contracts see it.
pub struct AssignmentView {
    pub name: Seq<char>,
    pub status: StatusView,
    pub release_date: Timestamp,
    pub due_date: Timestamp,
}

impl View for Assignment {
    type V = AssignmentView;

    open spec fn view(&self) -> AssignmentView {
        AssignmentView {
            name: self.name@,
            status: self.status@,
            release_date: self.release_date,
            due_date: self.due_date,
        }
    }
}

impl DeepView for Assignment {
    type V = AssignmentView;

    open spec fn deep_view(&self) -> AssignmentView {
        self@
    }
}

/// What a row of the assignment table holds, as far as an assignment is read
/// from it: each field is the text found for it, or none where the row has
/// no such element.
#[derive(Debug, Clone, PartialEq, Eq)]
pub struct AssignmentRow {
    /// The first text of the row's primary link.
    pub name: Option<String>,
    /// The status text under a complete marker.
    pub complete: Option<String>,
    /// The status text under a warning marker.
    pub warning: Option<String>,
    /// The text of a score marker.
    pub score: Option<String>,
    /// The timestamp attribute of the release marker.
    pub release_date: Option<String>,
    /// The timestamp attribute of the due marker.
    pub due_date: Option<String>,
}

/// A row as contracts see it.
pub struct AssignmentRowView {
    pub name: Option<Seq<char>>,
    pub complete: Option<Seq<char>>,
    pub warning: Option<Seq<char>>,
    pub score: Option<Seq<char>>,
    pub release_date: Option<Seq<char>>,
    pub due_date: Option<Seq<char>>,
}

impl View for AssignmentRow {
    type V = AssignmentRowView;

    open spec fn view(&self) -> AssignmentRowView {
        AssignmentRowView {
            name: text_of(self.name),
            complete: text_of(self.complete),
            warning: text_of(self.warning),
            score: text_of(self.score),
            release_date: text_of(self.release_date),
            due_date: text_of(self.due_date),
        }
    }
}

/// The status that three markers give: the complete marker where there is
/// one, else the warning marker, else the score.
pub open spec fn status_of(
    complete: Option<Seq<char>>,
    warning: Option<Seq<char>>,
    score: Option<Seq<char>>,
) -> Option<StatusView> {
    match complete {
        Some(text) => Some(StatusView::Complete(text)),
        None => match warning {
            Some(text) => Some(StatusView::Warning(text)),
            None => match score {
                Some(text) => Some(StatusView::Score(text)),
                None => None,
            },
        },
    }
}

/// The assignment that a row gives, or the first of its fields that fails:
/// the name, the status, the release timestamp, the due timestamp, in that
/// order.
pub open spec fn assignment_of(row: AssignmentRowView) -> Result<AssignmentView, ScrapeError> {
    if row.name is None {
        Err(ScrapeError::MissingAssignmentName)
    } else if status_of(row.complete, row.warning, row.score) is None {
        Err(ScrapeError::MissingAssignmentStatus)
    } else if row.release_date is None {
        Err(ScrapeError::MissingReleaseDate)
    } else if timestamp_of(row.release_date->0) is Err {
        Err(ScrapeError::InvalidReleaseDate)
    } else if row.due_date is None {
        Err(ScrapeError::MissingDueDate)
    } else if timestamp_of(row.due_date->0) is Err {
        Err(ScrapeError::InvalidDueDate)
    } else {
        Ok(
            AssignmentView {
                name: row.name->0,
                status: status_of(row.complete, row.warning, row.score)->0,
                release_date: timestamp_of(row.release_date->0)->Ok_0,
                due_date: timestamp_of(row.due_date->0)->Ok_0,
            },
        )
    }
}

/// A row with a complete marker has the status `Complete`, whatever its
/// other two markers hold, and so has the assignment that the row gives.
pub proof fn lemma_complete_marker_wins(row: AssignmentRowView)
    requires
        row.complete is Some,
    ensures
        status_of(row.complete, row.warning, row.score) == Some(
            StatusView::Complete(row.complete->0),
        ),
        assignment_of(row) matches Ok(assignment) ==> assignment.status == StatusView::Complete(
            row.complete->0,
        ),
{
}

/// The status of an optional status, as contracts see it.
pub open spec fn status_view(status: Option<SubmissionStatus>) -> Option<StatusView> {
    match status {
        Some(s) => Some(s@),
        None => None,
    }
}

/// The outcome of reading one assignment, as contracts see it.
pub open spec fn assignment_view(r: Result<Assignment, ScrapeError>) -> Result<
    AssignmentView,
    ScrapeError,
> {
    match r {
        Ok(a) => Ok(a@),
        Err(e) => Err(e),
    }
}

/// The outcome of reading a list of assignments, as contracts see it.
pub open spec fn assignments_view(r: Result<Vec<Assignment>, ScrapeError>) -> Result<
    Seq<AssignmentView>,
    ScrapeError,
> {
    match r {
        Ok(all) => Ok(all.deep_view()),
        Err(e) => Err(e),
    }
}

/// Picks the status of a row from its three markers, in the fixed order
/// complete, warning, score: the first that is there wins.
pub fn resolve_status(
    complete: Option<String>,
    warning: Option<String>,
    score: Option<String>,
) -> (status: Option<SubmissionStatus>)
    ensures
        status_view(status) == status_of(text_of(complete), text_of(warning), text_of(score)),
        complete is Some ==> status matches Some(SubmissionStatus::Complete(_)),
{
    match complete {
        Some(text) => Some(SubmissionStatus::Complete(text)),
        None => match warning {
            Some(text) => Some(SubmissionStatus::Warning(text)),
            None => match score {
                Some(text) => Some(SubmissionStatus::Score(text)),
                None => None,
            },
        },
    }
}

/// Builds the assignment of a row: its name, its status by the fixed order
/// of the markers, and its two timestamps. The first field that is absent or
/// does not parse fails the row.
pub fn assignment_from_row(row: AssignmentRow) -> (r: Result<Assignment, ScrapeError>)
    ensures
        assignment_view(r) == assignment_of(row@),
        r matches Ok(a) ==> a.release_date.valid() && a.due_date.valid(),
        row.complete is Some ==> (r matches Ok(a) ==> a.status matches SubmissionStatus::Complete(
            _,
        )),
{
    let name = match row.name {
        Some(name) => name,
        None => return Err(ScrapeError::MissingAssignmentName),
    };
    let status = match resolve_status(row.complete, row.warning, row.score) {
        Some(status) => status,
        None => return Err(ScrapeError::MissingAssignmentStatus),
    };
    let release_text = match row.release_date {
        Some(text) => text,
        None => return Err(ScrapeError::MissingReleaseDate),
    };
    let release_date = match parse_datetime(release_text.as_str()) {
        Ok(timestamp) => timestamp,
        Err(_) => return Err(ScrapeError::InvalidReleaseDate),
    };
    let due_text = match row.due_date {
        Some(text) => text,
        None => return Err(ScrapeError::MissingDueDate),
    };
    let due_date = match parse_datetime(due_text.as_str()) {
        Ok(timestamp) => timestamp,
        Err(_) => return Err(ScrapeError::InvalidDueDate),
    };
    Ok(Assignment { name, status, release_date, due_date })
}

/// What the row `element` holds.
pub open spec fn row_of(element: ElementRef) -> AssignmentRowView {
    AssignmentRowView {
        name: match first_match(element, primary_link()) {
            Some(link) => first_of(text_nodes(link)),
            None => None,
        },
        complete: first_markup(element, complete_marker()),
        warning: first_markup(element, warning_marker()),
        score: first_markup(element, score_marker()),
        release_date: first_attribute(element, release_marker(), "datetime"@),
        due_date: first_attribute(element, due_marker(), "datetime"@),
    }
}

/// The assignments of the rows of `table`, or the failure of the first row
/// that fails.
pub open spec fn assignments_in(table: ElementRef) -> Result<Seq<AssignmentView>, ScrapeError> {
    gather(
        all_matches(table, table_rows()).map_values(|row: ElementRef| assignment_of(row_of(row))),
    )
}

/// The assignments of a course page, or why there are none: the page has no
/// assignment table, or a row of its first table fails.
pub open spec fn assignments_on(page: &Html) -> Result<Seq<AssignmentView>, ScrapeError> {
    match first_of(page_matches(page, selector_for(assignment_table()))) {
        Some(table) => assignments_in(table),
        None => Err(ScrapeError::MissingAssignmentTable),
    }
}

/// Reads from a row of the assignment table what an assignment is made of.
pub fn read_assignment_row(selectors: &Selectors, element: ElementRef<'_>) -> (row: AssignmentRow)
    ensures
        row@ == row_of(element),
{
    proof {
        use_type_invariant(selectors);
    }
    let name = match select_first(element, &selectors.primary_link) {
        Some(link) => {
            let nodes = texts(link);
            if nodes.len() > 0 {
                assert(nodes.deep_view()[0] == nodes[0]@);
                Some(nodes[0].clone())
            } else {
                None
            }
        },
        None => None,
    };
    let complete = read_markup(element, &selectors.complete_marker);
    let warning = read_markup(element, &selectors.warning_marker);
    let score = read_markup(element, &selectors.score_marker);
    let release_date = read_attribute(element, &selectors.release_marker, "datetime");
    let due_date = read_attribute(element, &selectors.due_marker, "datetime");
    AssignmentRow { name, complete, warning, score, release_date, due_date }
}

impl Config {
    /// Reads the assignment of one row of the assignment table. A row with
    /// a complete marker gives the status `Complete`, whatever else it holds.
    pub fn parse_assignment(&self, selectors: &Selectors, assignment: ElementRef<'_>) -> (r: Result<
        Assignment,
        ScrapeError,
    >)
        ensures
            assignment_view(r) == assignment_of(row_of(assignment)),
            first_match(assignment, complete_marker()) is Some ==> (r matches Ok(a)
                ==> a.status matches SubmissionStatus::Complete(_)),
    {
        assignment_from_row(read_assignment_row(selectors, assignment))
    }

    /// Reads the assignments of the rows of the assignment table, in the
    /// order of the rows. One row that fails fails the table.
    pub fn parse_assignment_table(
        &self,
        selectors: &Selectors,
        assignment_table: ElementRef<'_>,
    ) -> (r: Result<Vec<Assignment>, ScrapeError>)
        ensures
            assignments_view(r) == assignments_in(assignment_table),
    {
        proof {
            use_type_invariant(selectors);
        }
        let rows = select_in_element(assignment_table, &selectors.table_rows);
        let ghost outcomes = rows@.map_values(|row: ElementRef| assignment_of(row_of(row)));
        let mut assignments: Vec<Assignment> = Vec::new();
        let mut i: usize = 0;
        while i < rows.len()
            invariant
                i <= rows.len(),
                assignments.len() == i,
                rows@ == all_matches(assignment_table, table_rows()),
                outcomes == rows@.map_values(|row: ElementRef| assignment_of(row_of(row))),
                forall|j: int|
                    0 <= j < i ==> #[trigger] outcomes[j] == Ok::<AssignmentView, ScrapeError>(
                        assignments[j]@,
                    ),
            decreases rows.len() - i,
        {
            match self.parse_assignment(selectors, rows[i]) {
                Ok(assignment) => {
                    assignments.push(assignment);
                },
                Err(e) => {
                    proof {
                        assert(outcomes[i as int] == Err::<AssignmentView, ScrapeError>(e));
                        lemma_gather_failure(outcomes, i as int);
                    }
                    return Err(e);
                },
            }
            i += 1;
        }
        proof {
            let values = assignments.deep_view();
            assert forall|j: int| 0 <= j < outcomes.len() implies outcomes[j] == Ok::<
                AssignmentView,
                ScrapeError,
            >(values[j]) by {
                assert(values[j] == assignments[j]@);
            }
            lemma_gather_values(outcomes, values);
        }
        Ok(assignments)
    }

    /// Reads the assignments of a course page, in the order of the rows of
    /// its assignment table. A page without that table is a failure, not an
    /// empty list, and so is a page with a row that fails.
    pub fn parse_course_page(&self, selectors: &Selectors, page: Html) -> (r: Result<
        Vec<Assignment>,
        ScrapeError,
    >)
        ensures
            assignments_view(r) == assignments_on(&page),
            first_of(page_matches(&page, selector_for(assignment_table()))) is None ==> r == Err::<
                Vec<Assignment>,
                ScrapeError,
            >(ScrapeError::MissingAssignmentTable),
    {
        proof {
            use_type_invariant(selectors);
        }
        let tables = select_in_page(&page, &selectors.assignment_table);
        if tables.len() > 0 {
            self.parse_assignment_table(selectors, tables[0])
        } else {
            Err(ScrapeError::MissingAssignmentTable)
        }
    }
}

} // verus!
