use gradescope_calendar::config::{Config, CreateEventsFor, WhichTerms};
use gradescope_calendar::gradescope::course::{Assignment, SubmissionStatus};
use gradescope_calendar::gradescope::home::CourseInfo;
use gradescope_calendar::ical::{build_event, CalendarEvent};
use gradescope_calendar::timestamp::{parse_datetime, Timestamp};
use icalendar::{CalendarDateTime, Component, DatePerhapsTime};
use url::Url;

fn config(create_events_for: CreateEventsFor) -> Config {
    Config {
        gradescope_cookie: String::new(),
        gradescope_base_url: Url::parse("https://www.gradescope.com").unwrap(),
        which_terms: WhichTerms::All,
        create_events_for,
    }
}

fn release() -> Timestamp {
    parse_datetime("2023-09-01 09:00:00 -0400").unwrap()
}

fn due() -> Timestamp {
    parse_datetime("2023-09-15 23:59:00 -0400").unwrap()
}

fn homework() -> Assignment {
    Assignment {
        name: "Homework 1".to_string(),
        status: SubmissionStatus::Warning("No Submission".to_string()),
        release_date: release(),
        due_date: due(),
    }
}

fn quiz() -> Assignment {
    Assignment {
        name: "Quiz".to_string(),
        status: SubmissionStatus::Complete("Submitted".to_string()),
        release_date: due(),
        due_date: due(),
    }
}

fn course() -> CourseInfo {
    CourseInfo {
        id: 101,
        name: "Intro to Computing".to_string(),
        shortname: "CS 101".to_string(),
        url: Url::parse("https://www.gradescope.com/courses/101").unwrap(),
    }
}

fn utc(event: &icalendar::Event, start: bool) -> i64 {
    let at = if start { event.get_start() } else { event.get_end() };
    match at {
        Some(DatePerhapsTime::DateTime(CalendarDateTime::Utc(at))) => at.timestamp(),
        other => panic!("no date and time in UTC: {other:?}"),
    }
}

#[test]
fn due_date_only_gives_one_point_at_the_due_moment() {
    let events = config(CreateEventsFor::DueDateOnly).assignment_to_events(&homework());
    assert_eq!(
        events,
        vec![CalendarEvent {
            summary: "Homework 1 Due".to_string(),
            description: "\u{26A0} No Submission".to_string(),
            start: due(),
            end: due(),
        }]
    );
}

#[test]
fn release_and_due_dates_give_two_points() {
    let events = config(CreateEventsFor::ReleaseAndDueDates).assignment_to_events(&homework());
    assert_eq!(
        events,
        vec![
            CalendarEvent {
                summary: "Homework 1 Released".to_string(),
                description: "\u{26A0} No Submission".to_string(),
                start: release(),
                end: release(),
            },
            CalendarEvent {
                summary: "Homework 1 Due".to_string(),
                description: "\u{26A0} No Submission".to_string(),
                start: due(),
                end: due(),
            },
        ]
    );
}

#[test]
fn duration_gives_one_event_from_release_to_due() {
    let events =
        config(CreateEventsFor::DurationAssignmentIsActive).assignment_to_events(&homework());
    assert_eq!(
        events,
        vec![CalendarEvent {
            summary: "Homework 1".to_string(),
            description: "\u{26A0} No Submission".to_string(),
            start: release(),
            end: due(),
        }]
    );
}

#[test]
fn description_is_the_status_as_it_is_shown() {
    let mut assignment = homework();
    assignment.status = SubmissionStatus::Score("9 / 10".to_string());
    let events = config(CreateEventsFor::DueDateOnly).assignment_to_events(&assignment);
    assert_eq!(events[0].description, "9 / 10");
    let events = config(CreateEventsFor::DueDateOnly).assignment_to_events(&quiz());
    assert_eq!(events[0].description, "\u{2713} Submitted");
}

#[test]
fn built_event_bears_its_four_properties() {
    let event = CalendarEvent {
        summary: "Homework 1".to_string(),
        description: "9 / 10".to_string(),
        start: release(),
        end: due(),
    };
    let built = build_event(&event).unwrap();
    assert_eq!(built.get_summary(), Some("Homework 1"));
    assert_eq!(built.get_description(), Some("9 / 10"));
    assert_eq!(built.property_value("DTSTART"), Some("20230901T130000Z"));
    assert_eq!(built.property_value("DTEND"), Some("20230916T035900Z"));
    assert_eq!(built.properties().len(), 4);
    assert_eq!(utc(&built, true), release().unix_seconds());
    assert_eq!(utc(&built, false), due().unix_seconds());
}

#[test]
fn ical_events_follow_the_mode() {
    let events =
        config(CreateEventsFor::DueDateOnly).assignment_to_ical_events(&homework()).unwrap();
    assert_eq!(events.len(), 1);
    assert_eq!(events[0].get_summary(), Some("Homework 1 Due"));
    assert_eq!(events[0].get_description(), Some("\u{26A0} No Submission"));
    assert_eq!(utc(&events[0], true), 1694836740);
    assert_eq!(utc(&events[0], false), 1694836740);

    let events = config(CreateEventsFor::ReleaseAndDueDates)
        .assignment_to_ical_events(&homework())
        .unwrap();
    assert_eq!(events.len(), 2);
    assert_eq!(events[0].get_summary(), Some("Homework 1 Released"));
    assert_eq!(utc(&events[0], true), release().unix_seconds());
    assert_eq!(utc(&events[0], false), release().unix_seconds());
    assert_eq!(events[1].get_summary(), Some("Homework 1 Due"));
    assert_eq!(utc(&events[1], true), due().unix_seconds());
    assert_eq!(utc(&events[1], false), due().unix_seconds());

    let events = config(CreateEventsFor::DurationAssignmentIsActive)
        .assignment_to_ical_events(&homework())
        .unwrap();
    assert_eq!(events.len(), 1);
    assert_eq!(events[0].get_summary(), Some("Homework 1"));
    assert_eq!(utc(&events[0], true), release().unix_seconds());
    assert_eq!(utc(&events[0], false), due().unix_seconds());
}

#[test]
fn calendar_holds_the_events_of_each_assignment_in_turn() {
    let calendar = config(CreateEventsFor::ReleaseAndDueDates)
        .course_to_ical_calendar(&course(), &[homework(), quiz()])
        .unwrap();
    assert_eq!(calendar.get_name(), Some("CS 101"));
    assert_eq!(calendar.get_description(), Some("Intro to Computing"));
    let summaries: Vec<String> = calendar
        .components
        .iter()
        .map(|component| component.as_event().unwrap().get_summary().unwrap().to_string())
        .collect();
    assert_eq!(summaries, ["Homework 1 Released", "Homework 1 Due", "Quiz Released", "Quiz Due"]);
    let keys: Vec<(&str, &str)> =
        calendar.properties.iter().map(|property| (property.key(), property.value())).collect();
    assert_eq!(
        keys,
        [
            ("VERSION", "2.0"),
            ("PRODID", "ICALENDAR-RS"),
            ("CALSCALE", "GREGORIAN"),
            ("NAME", "CS 101"),
            ("X-WR-CALNAME", "CS 101"),
            ("DESCRIPTION", "Intro to Computing"),
            ("X-WR-CALDESC", "Intro to Computing"),
        ]
    );
}

#[test]
fn calendar_of_a_course_without_assignments_is_empty() {
    let calendar =
        config(CreateEventsFor::DueDateOnly).course_to_ical_calendar(&course(), &[]).unwrap();
    assert_eq!(calendar.components.len(), 0);
    assert_eq!(calendar.get_name(), Some("CS 101"));
}

#[test]
fn calendar_is_written_as_text() {
    let calendar = config(CreateEventsFor::DurationAssignmentIsActive)
        .course_to_ical_calendar(&course(), &[homework()])
        .unwrap();
    let text = calendar.to_string();
    assert!(text.starts_with("BEGIN:VCALENDAR"));
    assert!(text.contains("SUMMARY:Homework 1\r\n"));
    assert!(text.contains("DTSTART:20230901T130000Z\r\n"));
    assert!(text.contains("DTEND:20230916T035900Z\r\n"));
}

#[test]
fn moments_far_from_today_are_written_too() {
    let far = parse_datetime("9999-12-31 23:59:59 +0000").unwrap();
    let early = parse_datetime("0001-01-01 00:00:00 +0000").unwrap();
    let event = CalendarEvent {
        summary: "Long".to_string(),
        description: String::new(),
        start: early,
        end: far,
    };
    let built = build_event(&event).unwrap();
    assert_eq!(built.property_value("DTSTART"), Some("00010101T000000Z"));
    assert_eq!(built.property_value("DTEND"), Some("99991231T235959Z"));
    let edge = Timestamp {
        year: 9999,
        month: 12,
        day: 31,
        hour: 23,
        minute: 59,
        second: 59,
        offset_seconds: -86340,
    };
    let event = CalendarEvent {
        summary: "Edge".to_string(),
        description: String::new(),
        start: edge,
        end: edge,
    };
    assert!(build_event(&event).is_ok());
}
