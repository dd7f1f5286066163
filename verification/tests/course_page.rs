use gradescope_calendar::config::{Config, CreateEventsFor, WhichTerms};
use gradescope_calendar::error::ScrapeError;
use gradescope_calendar::gradescope::course::{
    assignment_from_row, read_assignment_row, resolve_status, Assignment, AssignmentRow,
    SubmissionStatus,
};
use gradescope_calendar::gradescope::Selectors;
use gradescope_calendar::timestamp::{parse_datetime, Timestamp};
use scraper::{Html, Selector};
use url::Url;

fn config() -> Config {
    Config {
        gradescope_cookie: String::new(),
        gradescope_base_url: Url::parse("https://www.gradescope.com").unwrap(),
        which_terms: WhichTerms::All,
        create_events_for: CreateEventsFor::DueDateOnly,
    }
}

fn stamp(text: &str) -> Timestamp {
    parse_datetime(text).unwrap()
}

fn row(status: &str, release: &str, due: &str) -> String {
    format!(
        "<tr><th class=\"table--primaryLink\"><a href=\"/courses/1/assignments/2\">Homework 1</a></th>\
         <td class=\"submissionStatus\">{status}</td>\
         <td><div class=\"submissionTimeChart\">{release}{due}</div></td></tr>"
    )
}

fn release_marker(value: &str) -> String {
    format!("<time class=\"submissionTimeChart--releaseDate\" datetime=\"{value}\">r</time>")
}

fn due_marker(value: &str) -> String {
    format!("<time class=\"submissionTimeChart--dueDate\" datetime=\"{value}\">d</time>")
}

fn page_of(rows: &[String]) -> Html {
    Html::parse_document(&format!(
        "<html><body><table id=\"assignments-student-table\"><thead><tr><th>Name</th></tr></thead>\
         <tbody>{}</tbody></table></body></html>",
        rows.concat()
    ))
}

const COMPLETE: &str =
    "<div class=\"submissionStatus-complete\"><div class=\"submissionStatus--text\">Submitted</div></div>";
const WARNING: &str =
    "<div class=\"submissionStatus-warning\"><div class=\"submissionStatus--text\">No Submission</div></div>";
const SCORE: &str = "<div class=\"submissionStatus--score\">9.5 / 10.0</div>";
const RELEASE: &str = "2023-09-01 00:00:00 -0400";
const DUE: &str = "2023-09-15 23:59:00 -0400";

fn full_row(status: &str) -> String {
    row(status, &release_marker(RELEASE), &due_marker(DUE))
}

fn plain_row() -> AssignmentRow {
    AssignmentRow {
        name: Some("Homework 1".to_string()),
        complete: None,
        warning: None,
        score: Some("9.5 / 10.0".to_string()),
        release_date: Some(RELEASE.to_string()),
        due_date: Some(DUE.to_string()),
    }
}

#[test]
fn selectors_compile() {
    assert!(Selectors::compile().is_some());
}

#[test]
fn course_page_gives_its_assignments_in_row_order() {
    let selectors = Selectors::compile().unwrap();
    let second = full_row(WARNING).replace("Homework 1", "Homework 2");
    let third = full_row(SCORE).replace("Homework 1", "Quiz");
    let page = page_of(&[full_row(COMPLETE), second, third]);
    let assignments = config().parse_course_page(&selectors, page).unwrap();
    assert_eq!(
        assignments,
        vec![
            Assignment {
                name: "Homework 1".to_string(),
                status: SubmissionStatus::Complete("Submitted".to_string()),
                release_date: stamp(RELEASE),
                due_date: stamp(DUE),
            },
            Assignment {
                name: "Homework 2".to_string(),
                status: SubmissionStatus::Warning("No Submission".to_string()),
                release_date: stamp(RELEASE),
                due_date: stamp(DUE),
            },
            Assignment {
                name: "Quiz".to_string(),
                status: SubmissionStatus::Score("9.5 / 10.0".to_string()),
                release_date: stamp(RELEASE),
                due_date: stamp(DUE),
            },
        ]
    );
}

#[test]
fn course_page_without_table_is_a_failure() {
    let selectors = Selectors::compile().unwrap();
    let page = Html::parse_document("<html><body><p>Nothing here</p></body></html>");
    assert_eq!(
        config().parse_course_page(&selectors, page),
        Err(ScrapeError::MissingAssignmentTable)
    );
}

#[test]
fn course_page_with_empty_table_has_no_assignments() {
    let selectors = Selectors::compile().unwrap();
    assert_eq!(config().parse_course_page(&selectors, page_of(&[])), Ok(vec![]));
}

#[test]
fn one_bad_row_fails_the_whole_course() {
    let selectors = Selectors::compile().unwrap();
    let bad = row(COMPLETE, &release_marker(RELEASE), "");
    let page = page_of(&[full_row(COMPLETE), bad, full_row(SCORE)]);
    assert_eq!(config().parse_course_page(&selectors, page), Err(ScrapeError::MissingDueDate));
}

#[test]
fn first_bad_row_decides_the_failure() {
    let selectors = Selectors::compile().unwrap();
    let no_status = row("", &release_marker(RELEASE), &due_marker(DUE));
    let no_due = row(COMPLETE, &release_marker(RELEASE), "");
    let page = page_of(&[no_status, no_due]);
    assert_eq!(
        config().parse_course_page(&selectors, page),
        Err(ScrapeError::MissingAssignmentStatus)
    );
}

#[test]
fn complete_marker_wins_over_the_others() {
    let selectors = Selectors::compile().unwrap();
    let all_three = format!("{SCORE}{WARNING}{COMPLETE}");
    let page = page_of(&[full_row(&all_three)]);
    let assignments = config().parse_course_page(&selectors, page).unwrap();
    assert_eq!(assignments[0].status, SubmissionStatus::Complete("Submitted".to_string()));
}

#[test]
fn warning_marker_wins_over_the_score() {
    let selectors = Selectors::compile().unwrap();
    let both = format!("{SCORE}{WARNING}");
    let page = page_of(&[full_row(&both)]);
    let assignments = config().parse_course_page(&selectors, page).unwrap();
    assert_eq!(assignments[0].status, SubmissionStatus::Warning("No Submission".to_string()));
}

#[test]
fn status_order_is_complete_warning_score() {
    let c = Some("c".to_string());
    let w = Some("w".to_string());
    let s = Some("s".to_string());
    assert_eq!(
        resolve_status(c.clone(), w.clone(), s.clone()),
        Some(SubmissionStatus::Complete("c".to_string()))
    );
    assert_eq!(
        resolve_status(c.clone(), None, s.clone()),
        Some(SubmissionStatus::Complete("c".to_string()))
    );
    assert_eq!(
        resolve_status(c.clone(), None, None),
        Some(SubmissionStatus::Complete("c".to_string()))
    );
    assert_eq!(
        resolve_status(None, w.clone(), s.clone()),
        Some(SubmissionStatus::Warning("w".to_string()))
    );
    assert_eq!(
        resolve_status(None, w.clone(), None),
        Some(SubmissionStatus::Warning("w".to_string()))
    );
    assert_eq!(
        resolve_status(None, None, s.clone()),
        Some(SubmissionStatus::Score("s".to_string()))
    );
    assert_eq!(resolve_status(None, None, None), None);
}

#[test]
fn status_is_shown_with_its_sign() {
    assert_eq!(SubmissionStatus::Score("9 / 10".to_string()).to_string(), "9 / 10");
    assert_eq!(
        SubmissionStatus::Warning("No Submission".to_string()).to_string(),
        "\u{26A0} No Submission"
    );
    assert_eq!(
        SubmissionStatus::Complete("Submitted".to_string()).to_string(),
        "\u{2713} Submitted"
    );
}

#[test]
fn row_is_read_field_by_field() {
    let selectors = Selectors::compile().unwrap();
    let page = page_of(&[full_row(&format!("{WARNING}{SCORE}"))]);
    let rows = Selector::parse("tbody > tr").unwrap();
    let element = page.select(&rows).next().unwrap();
    assert_eq!(
        read_assignment_row(&selectors, element),
        AssignmentRow {
            name: Some("Homework 1".to_string()),
            complete: None,
            warning: Some("No Submission".to_string()),
            score: Some("9.5 / 10.0".to_string()),
            release_date: Some(RELEASE.to_string()),
            due_date: Some(DUE.to_string()),
        }
    );
}

#[test]
fn row_keeps_the_markup_of_its_status() {
    let selectors = Selectors::compile().unwrap();
    let score = "<div class=\"submissionStatus--score\"><b>9</b> / 10</div>";
    let page = page_of(&[full_row(score)]);
    let rows = Selector::parse("tbody > tr").unwrap();
    let element = page.select(&rows).next().unwrap();
    let row = read_assignment_row(&selectors, element);
    assert_eq!(row.score, Some("<b>9</b> / 10".to_string()));
}

#[test]
fn name_is_the_first_text_of_the_first_primary_link() {
    let selectors = Selectors::compile().unwrap();
    let text = "<tr><th class=\"table--primaryLink\"><span></span><a>First</a><a>Second</a></th>\
                <td class=\"table--primaryLink\">Other</td></tr>";
    let page = page_of(&[text.to_string()]);
    let rows = Selector::parse("tbody > tr").unwrap();
    let element = page.select(&rows).next().unwrap();
    assert_eq!(read_assignment_row(&selectors, element).name, Some("First".to_string()));
}

#[test]
fn primary_link_without_text_gives_no_name() {
    let selectors = Selectors::compile().unwrap();
    let text = "<tr><th class=\"table--primaryLink\"></th><td class=\"table--primaryLink\">Other</td></tr>";
    let page = page_of(&[text.to_string()]);
    let rows = Selector::parse("tbody > tr").unwrap();
    let element = page.select(&rows).next().unwrap();
    assert_eq!(read_assignment_row(&selectors, element).name, None);
    assert_eq!(
        config().parse_assignment(&selectors, element),
        Err(ScrapeError::MissingAssignmentName)
    );
}

#[test]
fn marker_without_timestamp_attribute_is_missing() {
    let selectors = Selectors::compile().unwrap();
    let release = "<time class=\"submissionTimeChart--releaseDate\">r</time>";
    let page = page_of(&[row(COMPLETE, release, &due_marker(DUE))]);
    assert_eq!(config().parse_course_page(&selectors, page), Err(ScrapeError::MissingReleaseDate));
}

#[test]
fn each_field_of_a_row_can_fail() {
    let mut row = plain_row();
    row.name = None;
    assert_eq!(assignment_from_row(row), Err(ScrapeError::MissingAssignmentName));
    let mut row = plain_row();
    row.score = None;
    assert_eq!(assignment_from_row(row), Err(ScrapeError::MissingAssignmentStatus));
    let mut row = plain_row();
    row.release_date = None;
    assert_eq!(assignment_from_row(row), Err(ScrapeError::MissingReleaseDate));
    let mut row = plain_row();
    row.release_date = Some("yesterday".to_string());
    assert_eq!(assignment_from_row(row), Err(ScrapeError::InvalidReleaseDate));
    let mut row = plain_row();
    row.due_date = None;
    assert_eq!(assignment_from_row(row), Err(ScrapeError::MissingDueDate));
    let mut row = plain_row();
    row.due_date = Some("2023-02-30 00:00:00 +0000".to_string());
    assert_eq!(assignment_from_row(row), Err(ScrapeError::InvalidDueDate));
}

#[test]
fn failures_come_in_the_order_of_the_fields() {
    let row = AssignmentRow {
        name: None,
        complete: None,
        warning: None,
        score: None,
        release_date: None,
        due_date: None,
    };
    assert_eq!(assignment_from_row(row), Err(ScrapeError::MissingAssignmentName));
    let row = AssignmentRow {
        name: Some("n".to_string()),
        complete: None,
        warning: None,
        score: None,
        release_date: Some("bad".to_string()),
        due_date: None,
    };
    assert_eq!(assignment_from_row(row), Err(ScrapeError::MissingAssignmentStatus));
    let row = AssignmentRow {
        name: Some("n".to_string()),
        complete: Some("done".to_string()),
        warning: None,
        score: None,
        release_date: Some("bad".to_string()),
        due_date: None,
    };
    assert_eq!(assignment_from_row(row), Err(ScrapeError::InvalidReleaseDate));
}

#[test]
fn plain_row_gives_its_assignment() {
    assert_eq!(
        assignment_from_row(plain_row()),
        Ok(Assignment {
            name: "Homework 1".to_string(),
            status: SubmissionStatus::Score("9.5 / 10.0".to_string()),
            release_date: stamp(RELEASE),
            due_date: stamp(DUE),
        })
    );
}

#[test]
fn failures_describe_the_field() {
    assert_eq!(ScrapeError::MissingAssignmentTable.message(), "Failed to find assignment table");
    assert_eq!(ScrapeError::MissingAssignmentName.message(), "Failed to find assignment name");
    assert_eq!(ScrapeError::MissingAssignmentStatus.message(), "Failed to find assignment status");
    assert_eq!(
        ScrapeError::MissingReleaseDate.message(),
        "Failed to find assignment release date"
    );
    assert_eq!(
        ScrapeError::InvalidReleaseDate.message(),
        "Failed to parse assignment release date"
    );
    assert_eq!(ScrapeError::MissingDueDate.message(), "Failed to find assignment due date");
    assert_eq!(ScrapeError::InvalidDueDate.message(), "Failed to parse assignment due date");
    assert_eq!(ScrapeError::MissingCourseShortname.message(), "Failed to find course shortname");
    assert_eq!(ScrapeError::MissingCourseName.message(), "Failed to find course name");
    assert_eq!(ScrapeError::MissingCourseUrl.message(), "Failed to find course URL");
    assert_eq!(ScrapeError::InvalidCourseUrl.message(), "Failed to parse course URL");
    assert_eq!(ScrapeError::MissingCourseId.message(), "Failed to find course ID in URL");
    assert_eq!(ScrapeError::InvalidCourseId.message(), "Failed to parse course ID from URL");
    assert_eq!(ScrapeError::MissingTermName.message(), "Failed to find term name");
    assert_eq!(
        ScrapeError::UnrepresentableInstant.message(),
        "Failed to convert timestamp to iCal format"
    );
}
