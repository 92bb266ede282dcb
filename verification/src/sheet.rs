//! The grid extractor: the rectangular sub-grid of rendered cells that holds
//! the timetable, taken out of a worksheet's cell range.
//!
//! Opening the workbook itself is the spreadsheet library's work and stands
//! outside this crate's verified code: its reader can abort on crafted or
//! truncated bytes instead of returning an error, so the shell around the
//! library parses the bytes, confines such an abort, and hands the cell
//! range in.  What is verified here is the selection of the sub-rectangle:
//! rows from [`GRID_START_ROW`], columns from [`GRID_START_COL`], through
//! one past the range's reported end on both axes (the upstream range-end
//! convention is exclusive on one axis and inclusive on the other, so the
//! end is widened by one on each).

use vstd::prelude::*;

use crate::errors::Error;

verus! {

/// The worksheet row where the timetable data starts (the rows above are
/// headers).
pub const GRID_START_ROW: u32 = 15;

/// The worksheet column where the timetable data starts.
pub const GRID_START_COL: u32 = 3;

/// The fixed name of the worksheet holding the timetable.
pub const WORKSHEET_NAME: &'static str = "Worksheet";

#[verifier::external_type_specification]
#[verifier::external_body]
#[verifier::reject_recursive_types(T)]
pub struct ExRange<T>(calamine::Range<T>);

#[verifier::external_type_specification]
#[verifier::external_body]
pub struct ExData(calamine::Data);

/// What a worksheet cell range holds: the rendered text of the cell at every
/// absolute position inside the range's populated rectangle (an empty cell
/// inside the rectangle renders as the empty string; positions outside are
/// not in the domain).
pub uninterp spec fn range_cells(r: calamine::Range<calamine::Data>) -> Map<(u32, u32), Seq<char>>;

/// The absolute position of the range's bottom-right cell; `None` exactly
/// when the range is empty.
pub uninterp spec fn range_extent(r: calamine::Range<calamine::Data>) -> Option<(u32, u32)>;

/// Relies on `calamine::Range::end`: the bottom-right position of the range,
/// `None` when the range is empty.
#[verifier::external_body]
fn range_end(r: &calamine::Range<calamine::Data>) -> (e: Option<(u32, u32)>)
    ensures
        e == range_extent(*r),
{
    r.end()
}

/// Relies on `calamine::Range::get_value` and the display rendering of
/// `calamine::Data`: the rendered text of the cell at an absolute position,
/// `None` outside the range's rectangle.
#[verifier::external_body]
fn cell_text(r: &calamine::Range<calamine::Data>, row: u32, col: u32) -> (t: Option<String>)
    ensures
        t matches Some(s) ==> range_cells(*r).dom().contains((row, col)) && s@ == range_cells(
            *r,
        )[(row, col)],
        t is None ==> !range_cells(*r).dom().contains((row, col)),
{
    r.get_value((row, col)).map(|data| data.to_string())
}

/// One past the reported end coordinate, saturating at the type's limit so
/// that the widened rectangle stays addressable.
pub open spec fn widened(x: u32) -> u32 {
    if x == u32::MAX {
        x
    } else {
        (x + 1) as u32
    }
}

/// The rendered text at an absolute position: what the cell map holds inside
/// the populated rectangle, the empty string outside it.
pub open spec fn cell_or_empty(cells: Map<(u32, u32), Seq<char>>, row: u32, col: u32) -> Seq<
    char,
> {
    if cells.dom().contains((row, col)) {
        cells[(row, col)]
    } else {
        Seq::<char>::empty()
    }
}

/// Rows of the extracted sub-rectangle, given the range's reported end row.
pub open spec fn extracted_height(end_row: u32) -> int {
    if widened(end_row) >= 15 {
        widened(end_row) - 15 + 1
    } else {
        0
    }
}

/// Columns of the extracted sub-rectangle, given the range's reported end
/// column.
pub open spec fn extracted_width(end_col: u32) -> int {
    if widened(end_col) >= 3 {
        widened(end_col) - 3 + 1
    } else {
        0
    }
}

/// The sub-rectangle of rendered cells that holds the timetable: rows from
/// [`GRID_START_ROW`] and columns from [`GRID_START_COL`], through one past
/// the reported end on both axes.
pub open spec fn grid_of_cells(cells: Map<(u32, u32), Seq<char>>, end: (u32, u32)) -> Seq<
    Seq<Seq<char>>,
> {
    Seq::new(
        extracted_height(end.0) as nat,
        |i: int|
            Seq::new(
                extracted_width(end.1) as nat,
                |j: int| cell_or_empty(cells, (15 + i) as u32, (3 + j) as u32),
            ),
    )
}

/// Extracts the timetable sub-rectangle out of a worksheet's cell range.
///
/// Succeeds exactly when the widened sub-rectangle holds the rows a five-day
/// schedule needs; the result is then exactly the rendered sub-rectangle,
/// row by row, rectangular.  Fails with [`Error::EmptyGrid`] when the range
/// is empty or too short — never a partial grid.
#[verifier::loop_isolation(false)]
pub fn extract_from_range(r: &calamine::Range<calamine::Data>) -> (g: Result<
    Vec<Vec<String>>,
    Error,
>)
    ensures
        g is Ok <==> (range_extent(*r) matches Some(end) && extracted_height(end.0) >= 140),
        g matches Ok(grid) ==> {
            &&& range_extent(*r) matches Some(end) && grid.deep_view() == grid_of_cells(
                range_cells(*r),
                end,
            )
            &&& grid@.len() >= 140
            &&& forall|i: int|
                0 <= i < grid@.len() ==> (#[trigger] grid@[i])@.len() == grid@[0]@.len()
        },
        g matches Err(e) ==> e == Error::EmptyGrid,
{
    let end: (u32, u32) = match range_end(r) {
        Some(e) => e,
        None => {
            return Err(Error::EmptyGrid);
        },
    };
    let last_row: u32 = if end.0 == u32::MAX {
        end.0
    } else {
        end.0 + 1
    };
    let last_col: u32 = if end.1 == u32::MAX {
        end.1
    } else {
        end.1 + 1
    };
    if last_row < GRID_START_ROW {
        return Err(Error::EmptyGrid);
    }
    let height: u32 = last_row - GRID_START_ROW + 1;
    if height < 140 {
        return Err(Error::EmptyGrid);
    }
    let width: u32 = if last_col < GRID_START_COL {
        0
    } else {
        last_col - GRID_START_COL + 1
    };
    let mut grid: Vec<Vec<String>> = Vec::new();
    let mut i: u32 = 0;
    while i < height
        invariant
            i <= height,
            grid@.len() == i as int,
            forall|a: int|
                0 <= a < i as int ==> (#[trigger] grid@[a]).deep_view() == grid_of_cells(
                    range_cells(*r),
                    end,
                )[a],
        decreases height - i,
    {
        let mut row_cells: Vec<String> = Vec::new();
        let mut j: u32 = 0;
        while j < width
            invariant
                j <= width,
                row_cells@.len() == j as int,
                forall|b: int|
                    0 <= b < j as int ==> (#[trigger] row_cells@[b])@ == cell_or_empty(
                        range_cells(*r),
                        (15 + i) as u32,
                        (3 + b) as u32,
                    ),
            decreases width - j,
        {
            let text: String = match cell_text(r, GRID_START_ROW + i, GRID_START_COL + j) {
                Some(s) => s,
                None => String::new(),
            };
            row_cells.push(text);
            j += 1;
        }
        proof {
            assert(row_cells.deep_view() =~= grid_of_cells(range_cells(*r), end)[i as int]);
        }
        grid.push(row_cells);
        i += 1;
    }
    proof {
        assert(grid.deep_view() =~= grid_of_cells(range_cells(*r), end));
        assert forall|i2: int| 0 <= i2 < grid@.len() implies (#[trigger] grid@[i2])@.len()
            == grid@[0]@.len() by {
            assert(grid.deep_view()[i2].len() == extracted_width(end.1));
            assert(grid.deep_view()[0].len() == extracted_width(end.1));
            assert(grid.deep_view()[i2] == grid@[i2].deep_view());
            assert(grid.deep_view()[0] == grid@[0].deep_view());
        }
    }
    Ok(grid)
}

} // verus!
