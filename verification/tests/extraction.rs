use calamine::{Data, Range};
use raspisanie::errors::Error;
use raspisanie::sheet::extract_from_range;

#[test]
fn extraction_takes_the_widened_subrectangle() {
    let mut range: Range<Data> = Range::new((0, 0), (160, 10));
    range.set_value((15, 3), Data::String("Math".to_string()));
    range.set_value((20, 5), Data::String("Physics".to_string()));
    let grid = extract_from_range(&range).unwrap();
    // Rows 15 through 161, columns 3 through 11 (one past the end on each axis).
    assert_eq!(grid.len(), 147);
    assert_eq!(grid[0].len(), 9);
    assert_eq!(grid[0][0], "Math");
    assert_eq!(grid[5][2], "Physics");
    assert_eq!(grid[0][1], "");
    assert_eq!(grid[146][8], "");
}

#[test]
fn extraction_renders_typed_cells_as_text() {
    let mut range: Range<Data> = Range::new((0, 0), (160, 10));
    range.set_value((15, 3), Data::Int(42));
    range.set_value((15, 4), Data::Bool(true));
    let grid = extract_from_range(&range).unwrap();
    assert_eq!(grid[0][0], "42");
    assert_eq!(grid[0][1], "true");
}

#[test]
fn extraction_of_a_short_sheet_is_an_empty_grid_error() {
    let range: Range<Data> = Range::new((0, 0), (100, 5));
    assert_eq!(extract_from_range(&range), Err(Error::EmptyGrid));
}

#[test]
fn extraction_of_a_sheet_above_the_start_row_is_an_empty_grid_error() {
    let range: Range<Data> = Range::new((0, 0), (10, 5));
    assert_eq!(extract_from_range(&range), Err(Error::EmptyGrid));
}
