//! Decoding of a university department's weekly class schedule.
//!
//! A published page links one spreadsheet per academic year; inside the
//! spreadsheet a fixed, position-encoded grid holds five days of eight time
//! slots, each with up to two parallel subgroup sessions.  The modules below
//! resolve the year links, extract the cell grid from the worksheet, and
//! decode the grid into a well-typed timetable.

use vstd::prelude::*;

pub mod errors;
pub mod faculties;
pub mod links;
pub mod sheet;
pub mod timetable;

verus! {

/// An inbound request: a department code and an academic-year index.
#[derive(Debug)]
pub struct Request {
    pub spec: String,
    pub year: usize,
}

} // verus!
