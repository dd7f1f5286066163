//! Reads terms, courses and assignments off the pages of a course portal and
//! turns the assignments of a course into the events of a calendar.
//!
//! The pages are parsed by `scraper`, links are resolved by `url`, and the
//! calendar is built with `icalendar`. What is read off an element, which
//! terms a policy keeps, what a timestamp means and which events stand for
//! an assignment is decided here, and stated in the contracts of the
//! functions that decide it.

pub mod config;
pub mod error;
pub mod gradescope;
pub mod ical;
pub mod interval;
pub mod links;
pub mod markup;
pub mod outcome;
pub mod text;
pub mod timestamp;
