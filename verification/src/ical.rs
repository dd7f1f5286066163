use crate::config::{Config, CreateEventsFor};
use crate::error::ScrapeError;
use crate::gradescope::course::{rendered, Assignment, AssignmentView};
use crate::gradescope::home::CourseInfo;
use crate::timestamp::Timestamp;
use icalendar::{Calendar, CalendarComponent, CalendarDateTime, Component, Event, EventLike};
use vstd::prelude::*;

verus! {

/// An event of `icalendar`, held as it is.
#[verifier::external_type_specification]
#[verifier::external_body]
pub struct ExEvent(Event);

/// A calendar of `icalendar`, held as it is.
#[verifier::external_type_specification]
#[verifier::external_body]
pub struct ExCalendar(Calendar);

/// A component of a calendar of `icalendar`. A calendar is read as the
/// slice of its components, so the type has to be known.
#[verifier::external_type_specification]
#[verifier::external_body]
pub struct ExCalendarComponent(CalendarComponent);

/// A date and time of `icalendar`, held as it is.
#[verifier::external_type_specification]
#[verifier::external_body]
pub struct ExCalendarDateTime(CalendarDateTime);

/// The properties of an event that occur at most once, each key with its
/// value.
pub uninterp spec fn event_properties(event: Event) -> Map<Seq<char>, Seq<char>>;

/// For each component of a calendar, in order, the properties of it that
/// occur at most once.
pub uninterp spec fn calendar_events(calendar: Calendar) -> Seq<Map<Seq<char>, Seq<char>>>;

/// The properties of a calendar itself, each key with its value, in order.
pub uninterp spec fn calendar_properties(calendar: Calendar) -> Seq<(Seq<char>, Seq<char>)>;

/// The date and time in UTC that `chrono` makes of a number of seconds since
/// the start of 1970, or none where it has no such date.
pub uninterp spec fn utc_date_time(seconds: int) -> Option<CalendarDateTime>;

/// The text that `icalendar` writes a date and time with in a property.
pub uninterp spec fn date_time_text(at: CalendarDateTime) -> Seq<char>;

/// The properties of an event that has none.
pub open spec fn no_properties() -> Map<Seq<char>, Seq<char>> {
    Map::empty()
}

/// The events of a calendar that has none.
pub open spec fn no_events() -> Seq<Map<Seq<char>, Seq<char>>> {
    Seq::empty()
}

/// Calls `chrono::DateTime::from_timestamp` with no nanoseconds, and turns
/// what it finds into a `CalendarDateTime` in UTC. The contract claims only
/// that the outcome is a function of the seconds.
#[verifier::external_body]
pub(crate) fn utc_from_seconds(seconds: i64) -> (at: Option<CalendarDateTime>)
    ensures
        at == utc_date_time(seconds as int),
{
    chrono::DateTime::from_timestamp(seconds, 0).map(CalendarDateTime::from)
}

/// Calls `Event::new`, which makes an event without properties.
#[verifier::external_body]
pub(crate) fn new_event() -> (event: Event)
    ensures
        event_properties(event) == no_properties(),
{
    Event::new()
}

/// Calls `Component::summary`, which sets the property `SUMMARY` and leaves
/// the others as they are.
#[verifier::external_body]
pub(crate) fn set_summary(event: &mut Event, text: &str)
    ensures
        event_properties(*final(event)) == event_properties(*old(event)).insert(
            "SUMMARY"@,
            text@,
        ),
{
    event.summary(text);
}

/// Calls `Component::description`, which sets the property `DESCRIPTION` and
/// leaves the others as they are.
#[verifier::external_body]
pub(crate) fn set_description(event: &mut Event, text: &str)
    ensures
        event_properties(*final(event)) == event_properties(*old(event)).insert(
            "DESCRIPTION"@,
            text@,
        ),
{
    event.description(text);
}

/// Calls `EventLike::starts`, which sets the property `DTSTART` to the text
/// of the date and time and leaves the others as they are.
#[verifier::external_body]
pub(crate) fn set_starts(event: &mut Event, at: CalendarDateTime)
    ensures
        event_properties(*final(event)) == event_properties(*old(event)).insert(
            "DTSTART"@,
            date_time_text(at),
        ),
{
    event.starts(at);
}

/// Calls `EventLike::ends`, which sets the property `DTEND` to the text of
/// the date and time and leaves the others as they are.
#[verifier::external_body]
pub(crate) fn set_ends(event: &mut Event, at: CalendarDateTime)
    ensures
        event_properties(*final(event)) == event_properties(*old(event)).insert(
            "DTEND"@,
            date_time_text(at),
        ),
{
    event.ends(at);
}

/// Calls `Event::done`, which moves the properties into a new event and
/// leaves none behind.
#[verifier::external_body]
pub(crate) fn finish_event(event: &mut Event) -> (built: Event)
    ensures
        event_properties(built) == event_properties(*old(event)),
        event_properties(*final(event)) == no_properties(),
{
    event.done()
}

/// The properties that `Calendar::new` gives every calendar.
pub open spec fn standard_properties() -> Seq<(Seq<char>, Seq<char>)> {
    seq![("VERSION"@, "2.0"@), ("PRODID"@, "ICALENDAR-RS"@), ("CALSCALE"@, "GREGORIAN"@)]
}

/// Calls `Calendar::new`, which makes a calendar without components that
/// bears the version, the product and the scale.
#[verifier::external_body]
pub(crate) fn new_calendar() -> (calendar: Calendar)
    ensures
        calendar_events(calendar) == no_events(),
        calendar_properties(calendar) == standard_properties(),
{
    Calendar::new()
}

/// Calls `Calendar::push`, which appends the event to the components and
/// leaves the calendar's properties as they are.
#[verifier::external_body]
pub(crate) fn push_event(calendar: &mut Calendar, event: Event)
    ensures
        calendar_events(*final(calendar)) == calendar_events(*old(calendar)).push(
            event_properties(event),
        ),
        calendar_properties(*final(calendar)) == calendar_properties(*old(calendar)),
{
    calendar.push(event);
}

/// Calls `Calendar::name`, which appends the properties `NAME` and
/// `X-WR-CALNAME` and leaves the components as they are.
#[verifier::external_body]
pub(crate) fn set_calendar_name(calendar: &mut Calendar, name: &str)
    ensures
        calendar_properties(*final(calendar)) == calendar_properties(*old(calendar)).push(
            ("NAME"@, name@),
        ).push(("X-WR-CALNAME"@, name@)),
        calendar_events(*final(calendar)) == calendar_events(*old(calendar)),
{
    calendar.name(name);
}

/// Calls `Calendar::description`, which appends the properties `DESCRIPTION`
/// and `X-WR-CALDESC` and leaves the components as they are.
#[verifier::external_body]
pub(crate) fn set_calendar_description(calendar: &mut Calendar, description: &str)
    ensures
        calendar_properties(*final(calendar)) == calendar_properties(*old(calendar)).push(
            ("DESCRIPTION"@, description@),
        ).push(("X-WR-CALDESC"@, description@)),
        calendar_events(*final(calendar)) == calendar_events(*old(calendar)),
{
    calendar.description(description);
}

/// Calls `Calendar::done`, which moves the properties and the components
/// into a new calendar.
#[verifier::external_body]
pub(crate) fn finish_calendar(calendar: &mut Calendar) -> (built: Calendar)
    ensures
        calendar_events(built) == calendar_events(*old(calendar)),
        calendar_properties(built) == calendar_properties(*old(calendar)),
{
    calendar.done()
}

/// One event of a calendar: what it is called, what it says, and the two
/// moments between which it lasts. An event whose two moments are the same
/// marks a point in time.
#[derive(Debug, Clone, PartialEq, Eq)]
pub struct CalendarEvent {
    pub summary: String,
    /// The status of the submission, as it is shown.
    pub description: String,
    pub start: Timestamp,
    pub end: Timestamp,
}

/// An event as contracts see it.
pub struct CalendarEventView {
    pub summary: Seq<char>,
    pub description: Seq<char>,
    pub start: Timestamp,
    pub end: Timestamp,
}

impl View for CalendarEvent {
    type V = CalendarEventView;

    open spec fn view(&self) -> CalendarEventView {
        CalendarEventView {
            summary: self.summary@,
            description: self.description@,
            start: self.start,
            end: self.end,
        }
    }
}

impl DeepView for CalendarEvent {
    type V = CalendarEventView;

    open spec fn deep_view(&self) -> CalendarEventView {
        self@
    }
}

/// The event that marks the release of an assignment.
pub open spec fn release_event(assignment: AssignmentView) -> CalendarEventView {
    CalendarEventView {
        summary: assignment.name + " Released"@,
        description: rendered(assignment.status),
        start: assignment.release_date,
        end: assignment.release_date,
    }
}

/// The event that marks the moment an assignment is due.
pub open spec fn due_event(assignment: AssignmentView) -> CalendarEventView {
    CalendarEventView {
        summary: assignment.name + " Due"@,
        description: rendered(assignment.status),
        start: assignment.due_date,
        end: assignment.due_date,
    }
}

/// The event that lasts from the release of an assignment until it is due.
pub open spec fn active_event(assignment: AssignmentView) -> CalendarEventView {
    CalendarEventView {
        summary: assignment.name,
        description: rendered(assignment.status),
        start: assignment.release_date,
        end: assignment.due_date,
    }
}

/// The events that stand for an assignment under a mode.
pub open spec fn events_of(assignment: AssignmentView, mode: CreateEventsFor) -> Seq<
    CalendarEventView,
> {
    match mode {
        CreateEventsFor::DueDateOnly => seq![due_event(assignment)],
        CreateEventsFor::ReleaseAndDueDates => seq![
            release_event(assignment),
            due_event(assignment),
        ],
        CreateEventsFor::DurationAssignmentIsActive => seq![active_event(assignment)],
    }
}

/// Whether the instant of a timestamp can be written as a date and time of
/// a calendar.
pub open spec fn representable(at: Timestamp) -> bool {
    utc_date_time(at.instant()) is Some
}

/// The date and time in UTC of a timestamp, as a calendar writes it.
pub open spec fn written_instant(at: Timestamp) -> Seq<char> {
    date_time_text(utc_date_time(at.instant())->0)
}

/// The properties of the `icalendar` event that stands for an event.
pub open spec fn ical_properties(event: CalendarEventView) -> Map<Seq<char>, Seq<char>> {
    no_properties().insert("SUMMARY"@, event.summary).insert(
        "DESCRIPTION"@,
        event.description,
    ).insert("DTSTART"@, written_instant(event.start)).insert(
        "DTEND"@,
        written_instant(event.end),
    )
}

/// The properties of each of the events that stand for an assignment.
pub open spec fn ical_events_of(assignment: AssignmentView, mode: CreateEventsFor) -> Seq<
    Map<Seq<char>, Seq<char>>,
> {
    events_of(assignment, mode).map_values(|event: CalendarEventView| ical_properties(event))
}

/// Whether both moments of an assignment can be written in a calendar.
pub open spec fn is_convertible(assignment: AssignmentView) -> bool {
    representable(assignment.release_date) && representable(assignment.due_date)
}

/// The assignments of a slice, as contracts see them.
pub open spec fn assignment_views(assignments: Seq<Assignment>) -> Seq<AssignmentView> {
    assignments.map_values(|assignment: Assignment| assignment@)
}

/// The properties of the events of a course's calendar: those of each
/// assignment in turn.
pub open spec fn calendar_events_of(assignments: Seq<AssignmentView>, mode: CreateEventsFor) -> Seq<
    Map<Seq<char>, Seq<char>>,
> {
    assignments.flat_map(|assignment: AssignmentView| ical_events_of(assignment, mode))
}

/// The properties of a course's calendar: the standard ones, then the short
/// name of the course as the calendar's name and its full name as the
/// calendar's description.
pub open spec fn calendar_properties_of(shortname: Seq<char>, name: Seq<char>) -> Seq<
    (Seq<char>, Seq<char>),
> {
    standard_properties().push(("NAME"@, shortname)).push(("X-WR-CALNAME"@, shortname)).push(
        ("DESCRIPTION"@, name),
    ).push(("X-WR-CALDESC"@, name))
}

/// The properties of each of some `icalendar` events.
pub open spec fn properties_of(events: Seq<Event>) -> Seq<Map<Seq<char>, Seq<char>>> {
    events.map_values(|event: Event| event_properties(event))
}

/// Under every mode an assignment gives events at its own two moments:
/// one event from the release until the due moment; or one at the release
/// and one at the due moment, each without duration; or one at the due
/// moment, without duration.
pub proof fn lemma_event_moments(assignment: AssignmentView)
    ensures
        events_of(assignment, CreateEventsFor::DurationAssignmentIsActive).len() == 1,
        events_of(assignment, CreateEventsFor::DurationAssignmentIsActive)[0].start
            == assignment.release_date,
        events_of(assignment, CreateEventsFor::DurationAssignmentIsActive)[0].end
            == assignment.due_date,
        events_of(assignment, CreateEventsFor::ReleaseAndDueDates).len() == 2,
        events_of(assignment, CreateEventsFor::ReleaseAndDueDates)[0].start
            == assignment.release_date,
        events_of(assignment, CreateEventsFor::ReleaseAndDueDates)[0].end
            == assignment.release_date,
        events_of(assignment, CreateEventsFor::ReleaseAndDueDates)[1].start == assignment.due_date,
        events_of(assignment, CreateEventsFor::ReleaseAndDueDates)[1].end == assignment.due_date,
        events_of(assignment, CreateEventsFor::DueDateOnly).len() == 1,
        events_of(assignment, CreateEventsFor::DueDateOnly)[0].start == assignment.due_date,
        events_of(assignment, CreateEventsFor::DueDateOnly)[0].end == assignment.due_date,
{
}

/// Builds the `icalendar` event that stands for an event: its summary, its
/// description, and its two moments as dates and times in UTC. It fails
/// exactly if one of the two moments cannot be written so.
pub fn build_event(event: &CalendarEvent) -> (r: Result<Event, ScrapeError>)
    ensures
        (match r {
            Ok(built) => representable(event.start) && representable(event.end)
                && event_properties(built) == ical_properties(event@),
            Err(e) => e == ScrapeError::UnrepresentableInstant && !(representable(event.start)
                && representable(event.end)),
        }),
{
    let starts = match utc_from_seconds(event.start.unix_seconds()) {
        Some(at) => at,
        None => return Err(ScrapeError::UnrepresentableInstant),
    };
    let ends = match utc_from_seconds(event.end.unix_seconds()) {
        Some(at) => at,
        None => return Err(ScrapeError::UnrepresentableInstant),
    };
    let mut building = new_event();
    set_summary(&mut building, event.summary.as_str());
    set_description(&mut building, event.description.as_str());
    set_starts(&mut building, starts);
    set_ends(&mut building, ends);
    Ok(finish_event(&mut building))
}

impl Config {
    /// The events that stand for an assignment under the configured mode:
    /// one at the due moment, called `<name> Due`; or one at the release,
    /// called `<name> Released`, and one at the due moment; or one from the
    /// release until the due moment, called by the assignment's name. Each
    /// is described by the status of the submission.
    pub fn assignment_to_events(&self, assignment: &Assignment) -> (events: Vec<CalendarEvent>)
        ensures
            events.deep_view() == events_of(assignment@, self.create_events_for),
    {
        let description = assignment.status.to_string();
        let mut events: Vec<CalendarEvent> = Vec::new();
        match self.create_events_for {
            CreateEventsFor::DueDateOnly => {
                events.push(
                    CalendarEvent {
                        summary: assignment.name.clone().concat(" Due"),
                        description,
                        start: assignment.due_date,
                        end: assignment.due_date,
                    },
                );
            },
            CreateEventsFor::ReleaseAndDueDates => {
                events.push(
                    CalendarEvent {
                        summary: assignment.name.clone().concat(" Released"),
                        description: description.clone(),
                        start: assignment.release_date,
                        end: assignment.release_date,
                    },
                );
                events.push(
                    CalendarEvent {
                        summary: assignment.name.clone().concat(" Due"),
                        description,
                        start: assignment.due_date,
                        end: assignment.due_date,
                    },
                );
            },
            CreateEventsFor::DurationAssignmentIsActive => {
                events.push(
                    CalendarEvent {
                        summary: assignment.name.clone(),
                        description,
                        start: assignment.release_date,
                        end: assignment.due_date,
                    },
                );
            },
        }
        assert(events.deep_view() =~= events_of(assignment@, self.create_events_for));
        events
    }

    /// The `icalendar` events that stand for an assignment under the
    /// configured mode. It fails exactly if the release or the due moment
    /// cannot be written as a date and time in UTC, whichever of the two the
    /// mode asks for.
    pub fn assignment_to_ical_events(&self, assignment: &Assignment) -> (r: Result<
        Vec<Event>,
        ScrapeError,
    >)
        ensures
            (match r {
                Ok(events) => is_convertible(assignment@) && properties_of(events@)
                    == ical_events_of(assignment@, self.create_events_for),
                Err(e) => e == ScrapeError::UnrepresentableInstant && !is_convertible(
                    assignment@,
                ),
            }),
    {
        if utc_from_seconds(assignment.release_date.unix_seconds()).is_none() {
            return Err(ScrapeError::UnrepresentableInstant);
        }
        if utc_from_seconds(assignment.due_date.unix_seconds()).is_none() {
            return Err(ScrapeError::UnrepresentableInstant);
        }
        let plain = self.assignment_to_events(assignment);
        let ghost wanted = events_of(assignment@, self.create_events_for);
        let mut events: Vec<Event> = Vec::new();
        let mut i: usize = 0;
        while i < plain.len()
            invariant
                i <= plain.len(),
                is_convertible(assignment@),
                plain.deep_view() == wanted,
                wanted == events_of(assignment@, self.create_events_for),
                events.len() == i,
                forall|j: int|
                    0 <= j < i ==> event_properties(#[trigger] events[j]) == ical_properties(
                        wanted[j],
                    ),
            decreases plain.len() - i,
        {
            proof {
                lemma_event_moments(assignment@);
                assert(plain.deep_view()[i as int] == plain[i as int]@);
                assert(wanted.len() == plain.len());
            }
            match build_event(&plain[i]) {
                Ok(built) => {
                    events.push(built);
                },
                Err(e) => {
                    return Err(e);
                },
            }
            i += 1;
        }
        assert(properties_of(events@) =~= ical_events_of(assignment@, self.create_events_for));
        Ok(events)
    }

    /// The calendar of a course: the events of each of its assignments in
    /// turn, under the short name of the course as its name and the full
    /// name of the course as its description. It fails exactly if a moment
    /// of one of the assignments cannot be written as a date and time in
    /// UTC.
    pub fn course_to_ical_calendar(&self, course: &CourseInfo, assignments: &[Assignment]) -> (r:
        Result<Calendar, ScrapeError>)
        ensures
            (match r {
                Ok(calendar) => {
                    &&& forall|i: int|
                        0 <= i < assignments@.len() ==> is_convertible(#[trigger] assignments@[i]@)
                    &&& calendar_events(calendar) == calendar_events_of(
                        assignment_views(assignments@),
                        self.create_events_for,
                    )
                    &&& calendar_properties(calendar) == calendar_properties_of(
                        course.shortname@,
                        course.name@,
                    )
                },
                Err(e) => {
                    &&& e == ScrapeError::UnrepresentableInstant
                    &&& exists|i: int|
                        0 <= i < assignments@.len() && !is_convertible(#[trigger] assignments@[i]@)
                },
            }),
    {
        let mut calendar = new_calendar();
        let ghost mode = self.create_events_for;
        let ghost all = assignment_views(assignments@);
        let ghost per = |assignment: AssignmentView| ical_events_of(assignment, mode);
        let mut i: usize = 0;
        assert(all.take(0).flat_map(per) =~= no_events()) by {
            assert(all.take(0) =~= Seq::empty());
        }
        while i < assignments.len()
            invariant
                i <= assignments.len(),
                mode == self.create_events_for,
                all == assignment_views(assignments@),
                per == (|assignment: AssignmentView| ical_events_of(assignment, mode)),
                forall|j: int| 0 <= j < i ==> is_convertible(#[trigger] assignments@[j]@),
                calendar_events(calendar) == all.take(i as int).flat_map(per),
                calendar_properties(calendar) == standard_properties(),
            decreases assignments.len() - i,
        {
            let ghost before = calendar_events(calendar);
            let mut events = match self.assignment_to_ical_events(&assignments[i]) {
                Ok(events) => events,
                Err(e) => {
                    return Err(e);
                },
            };
            let ghost added = properties_of(events@);
            proof {
                assert(all[i as int] == assignments@[i as int]@);
                assert(all.take(i + 1) =~= all.take(i as int).push(all[i as int]));
                all.take(i as int).lemma_flat_map_push(per, all[i as int]);
            }
            let ghost mut k: int = 0;
            let ghost pending = events@;
            while events.len() > 0
                invariant
                    0 <= k <= pending.len(),
                    events@ == pending.skip(k),
                    calendar_events(calendar) == before + properties_of(pending).take(k),
                    calendar_properties(calendar) == standard_properties(),
                decreases events.len(),
            {
                let event = events.remove(0);
                proof {
                    assert(event == pending[k]);
                    assert(events@ =~= pending.skip(k + 1));
                    assert(properties_of(pending).take(k + 1) =~= properties_of(pending).take(
                        k,
                    ).push(event_properties(event)));
                }
                push_event(&mut calendar, event);
                proof {
                    k = k + 1;
                }
            }
            assert(properties_of(pending).take(pending.len() as int) =~= properties_of(pending));
            i += 1;
        }
        assert(all.take(all.len() as int) =~= all);
        set_calendar_name(&mut calendar, course.shortname.as_str());
        set_calendar_description(&mut calendar, course.name.as_str());
        Ok(finish_calendar(&mut calendar))
    }
}

} // verus!
