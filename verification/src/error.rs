use vstd::prelude::*;

verus! {

/// Why a page, a term, a course or an assignment could not be read. Each
/// variant names the field whose element was absent or whose value did not
/// parse.
#[derive(Debug, Clone, Copy, PartialEq, Eq, Structural)]
pub enum ScrapeError {
    /// A course box has no short-name element.
    MissingCourseShortname,
    /// A course box has no name element.
    MissingCourseName,
    /// A course box carries no link attribute.
    MissingCourseUrl,
    /// The link of a course box does not resolve against the base URL.
    InvalidCourseUrl,
    /// The path of a course URL holds no `/`.
    MissingCourseId,
    /// The last path segment of a course URL is not an unsigned integer.
    InvalidCourseId,
    /// No element stands before a term's course container.
    MissingTermName,
    /// A course page holds no assignment table.
    MissingAssignmentTable,
    /// An assignment row has no primary link with text.
    MissingAssignmentName,
    /// An assignment row has none of the three status markers.
    MissingAssignmentStatus,
    /// An assignment row has no release marker with a timestamp attribute.
    MissingReleaseDate,
    /// The release timestamp of an assignment row does not parse.
    InvalidReleaseDate,
    /// An assignment row has no due marker with a timestamp attribute.
    MissingDueDate,
    /// The due timestamp of an assignment row does not parse.
    InvalidDueDate,
    /// An instant cannot be written as a calendar date-time.
    UnrepresentableInstant,
}

impl ScrapeError {
    /// The description of this failure, as a sequence of characters.
    pub open spec fn description(self) -> Seq<char> {
        match self {
            ScrapeError::MissingCourseShortname => "Failed to find course shortname"@,
            ScrapeError::MissingCourseName => "Failed to find course name"@,
            ScrapeError::MissingCourseUrl => "Failed to find course URL"@,
            ScrapeError::InvalidCourseUrl => "Failed to parse course URL"@,
            ScrapeError::MissingCourseId => "Failed to find course ID in URL"@,
            ScrapeError::InvalidCourseId => "Failed to parse course ID from URL"@,
            ScrapeError::MissingTermName => "Failed to find term name"@,
            ScrapeError::MissingAssignmentTable => "Failed to find assignment table"@,
            ScrapeError::MissingAssignmentName => "Failed to find assignment name"@,
            ScrapeError::MissingAssignmentStatus => "Failed to find assignment status"@,
            ScrapeError::MissingReleaseDate => "Failed to find assignment release date"@,
            ScrapeError::InvalidReleaseDate => "Failed to parse assignment release date"@,
            ScrapeError::MissingDueDate => "Failed to find assignment due date"@,
            ScrapeError::InvalidDueDate => "Failed to parse assignment due date"@,
            ScrapeError::UnrepresentableInstant => "Failed to convert timestamp to iCal format"@,
        }
    }

    /// A human-readable sentence that says which field failed.
    pub fn message(&self) -> (text: &'static str)
        ensures
            text@ == self.description(),
    {
        match self {
            ScrapeError::MissingCourseShortname => "Failed to find course shortname",
            ScrapeError::MissingCourseName => "Failed to find course name",
            ScrapeError::MissingCourseUrl => "Failed to find course URL",
            ScrapeError::InvalidCourseUrl => "Failed to parse course URL",
            ScrapeError::MissingCourseId => "Failed to find course ID in URL",
            ScrapeError::InvalidCourseId => "Failed to parse course ID from URL",
            ScrapeError::MissingTermName => "Failed to find term name",
            ScrapeError::MissingAssignmentTable => "Failed to find assignment table",
            ScrapeError::MissingAssignmentName => "Failed to find assignment name",
            ScrapeError::MissingAssignmentStatus => "Failed to find assignment status",
            ScrapeError::MissingReleaseDate => "Failed to find assignment release date",
            ScrapeError::InvalidReleaseDate => "Failed to parse assignment release date",
            ScrapeError::MissingDueDate => "Failed to find assignment due date",
            ScrapeError::InvalidDueDate => "Failed to parse assignment due date",
            ScrapeError::UnrepresentableInstant => "Failed to convert timestamp to iCal format",
        }
    }
}

} // verus!
