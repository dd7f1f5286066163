use url::Url;
use vstd::prelude::*;

verus! {

/// Which of the terms of the landing page are read.
#[derive(Debug, Clone, PartialEq, Eq)]
pub enum WhichTerms {
    /// Every term.
    All,
    /// The first term of the page only. The page lists the newest term first.
    MostRecentOnly,
    /// The terms that bear one of these names.
    These(Vec<String>),
}

/// A term selection policy as contracts see it.
pub enum WhichTermsView {
    All,
    MostRecentOnly,
    These(Seq<Seq<char>>),
}

impl View for WhichTerms {
    type V = WhichTermsView;

    open spec fn view(&self) -> WhichTermsView {
        match self {
            WhichTerms::All => WhichTermsView::All,
            WhichTerms::MostRecentOnly => WhichTermsView::MostRecentOnly,
            WhichTerms::These(names) => WhichTermsView::These(names.deep_view()),
        }
    }
}

impl Default for WhichTerms {
    fn default() -> (policy: WhichTerms)
        ensures
            policy@ == WhichTermsView::All,
    {
        WhichTerms::All
    }
}

/// Which calendar events stand for an assignment.
#[derive(Debug, Clone, Copy, PartialEq, Eq, Structural)]
pub enum CreateEventsFor {
    /// One event at the moment the assignment is due.
    DueDateOnly,
    /// One event at the release and one at the moment the assignment is due.
    ReleaseAndDueDates,
    /// One event that lasts from the release until the assignment is due.
    DurationAssignmentIsActive,
}

impl Default for CreateEventsFor {
    fn default() -> (mode: CreateEventsFor)
        ensures
            mode == CreateEventsFor::DueDateOnly,
    {
        CreateEventsFor::DueDateOnly
    }
}

/// What the scraper and the calendar projector are configured with.
#[derive(Debug, Clone)]
pub struct Config {
    /// The session cookie that the portal is asked with.
    pub gradescope_cookie: String,
    /// The URL against which the links of course boxes are resolved.
    pub gradescope_base_url: Url,
    pub which_terms: WhichTerms,
    pub create_events_for: CreateEventsFor,
}

} // verus!
