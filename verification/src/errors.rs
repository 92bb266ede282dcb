//! The error taxonomy of a schedule request.

use vstd::prelude::*;

verus! {

/// Everything that can go wrong between a request and a decoded timetable.
///
/// The variants keep "your input was invalid" (the first two) apart from
/// "the upstream source changed shape" (the rest); no variant is ever
/// swallowed and no partial timetable is returned alongside one.
#[derive(Debug, Clone, PartialEq, Eq)]
pub enum Error {
    /// The requested department code is not configured; carries every code
    /// that is, so the caller can correct the request.
    UnknownDepartment(Vec<String>),
    /// The requested year index is beyond the resolved year links.
    UnknownYear,
    /// The schedule page's markup no longer matches the expected structure.
    Resolution,
    /// The workbook has no worksheet under the expected name.
    MissingWorksheet,
    /// The spreadsheet bytes are not a readable workbook.
    CorruptSource,
    /// The worksheet holds fewer rows than a full five-day schedule needs.
    EmptyGrid,
    /// The grid is too short or too narrow for the fixed slot layout.
    InsufficientData,
}

/// The error reported when the upstream workbook cannot be read at all.
pub fn corrupt_server() -> (e: Error)
    ensures
        e == Error::CorruptSource,
{
    Error::CorruptSource
}

} // verus!
