use raspisanie::errors::Error;
use raspisanie::timetable::{collapse, decode, Pair, SlotEntry};

fn s(text: &str) -> String {
    text.to_string()
}

fn empty_grid(rows: usize, cols: usize) -> Vec<Vec<String>> {
    (0..rows).map(|_| (0..cols).map(|_| String::new()).collect()).collect()
}

fn pair(name: &str, tutor: &str, place: &str) -> Pair {
    Pair::new(s(name), s(tutor), s(place))
}

#[test]
fn decode_full_grid_shape() {
    let grid = empty_grid(140, 4);
    let timetable = decode(&grid, 0).unwrap();
    assert_eq!(timetable.days.len(), 5);
    for day in &timetable.days {
        assert_eq!(day.slots.len(), 8);
        for slot in &day.slots {
            assert_eq!(*slot, SlotEntry::Absent);
        }
    }
}

#[test]
fn decode_short_grid_fails() {
    let grid = empty_grid(139, 4);
    assert_eq!(decode(&grid, 0), Err(Error::InsufficientData));
}

#[test]
fn decode_empty_grid_fails() {
    let grid: Vec<Vec<String>> = Vec::new();
    assert_eq!(decode(&grid, 0), Err(Error::InsufficientData));
}

#[test]
fn decode_narrow_grid_fails() {
    let grid = empty_grid(140, 1);
    assert_eq!(decode(&grid, 0), Err(Error::InsufficientData));
}

#[test]
fn decode_offset_beyond_columns_fails() {
    let grid = empty_grid(140, 4);
    assert_eq!(decode(&grid, 2), Err(Error::InsufficientData));
}

#[test]
fn decode_is_deterministic() {
    let mut grid = empty_grid(140, 4);
    grid[9][0] = s("Math");
    grid[10][0] = s("Smith");
    grid[11][0] = s("101");
    let first = decode(&grid, 0).unwrap();
    let second = decode(&grid, 0).unwrap();
    assert_eq!(first, second);
}

#[test]
fn slot_three_offset_zero_collapses_to_singleton() {
    let mut grid = empty_grid(140, 4);
    // Day 0, slot 3 occupies rows 9..12: a name row, a tutor row, a place row.
    grid[9] = vec![s("Math"), s(""), s("Physics"), s("")];
    grid[10] = vec![s("Smith"), s(""), s("Jones"), s("")];
    grid[11] = vec![s("101"), s(""), s("202"), s("")];
    let timetable = decode(&grid, 0).unwrap();
    assert_eq!(
        timetable.days[0].slots[3],
        SlotEntry::Single(pair("Math", "Smith", "101"))
    );
    assert_eq!(timetable.days[0].slots[2], SlotEntry::Absent);
    assert_eq!(timetable.days[1].slots[3], SlotEntry::Absent);
}

#[test]
fn slot_three_offset_one_selects_other_columns() {
    let mut grid = empty_grid(140, 4);
    grid[9] = vec![s("Math"), s(""), s("Physics"), s("")];
    grid[10] = vec![s("Smith"), s(""), s("Jones"), s("")];
    grid[11] = vec![s("101"), s(""), s("202"), s("")];
    let timetable = decode(&grid, 1).unwrap();
    assert_eq!(
        timetable.days[0].slots[3],
        SlotEntry::Single(pair("Physics", "Jones", "202"))
    );
}

#[test]
fn day_of_known_triples_decodes_back_in_slot_order() {
    let names = ["Alg", "Geo", "Ana", "Log", "Prog", "Net", "DB", "OS"];
    let mut grid = empty_grid(140, 2);
    for slot in 0..8 {
        grid[slot * 3][0] = s(names[slot]);
        grid[slot * 3 + 1][0] = format!("tutor{slot}");
        grid[slot * 3 + 2][0] = format!("room{slot}");
    }
    let timetable = decode(&grid, 0).unwrap();
    for slot in 0..8 {
        assert_eq!(
            timetable.days[0].slots[slot],
            SlotEntry::Single(pair(
                names[slot],
                &format!("tutor{slot}"),
                &format!("room{slot}")
            ))
        );
    }
}

#[test]
fn parallel_subgroups_decode_to_a_pair() {
    let mut grid = empty_grid(140, 2);
    grid[0] = vec![s("Math"), s("Physics")];
    grid[1] = vec![s("Smith"), s("Jones")];
    grid[2] = vec![s("101"), s("202")];
    let timetable = decode(&grid, 0).unwrap();
    assert_eq!(
        timetable.days[0].slots[0],
        SlotEntry::Double(pair("Math", "Smith", "101"), pair("Physics", "Jones", "202"))
    );
}

#[test]
fn collapse_two_empty_records_is_absent() {
    let entry = collapse(pair("", "", ""), pair("", "", ""));
    assert_eq!(entry, SlotEntry::Absent);
}

#[test]
fn collapse_empty_second_record_is_singleton() {
    let entry = collapse(pair("Math", "Smith", "101"), pair("", "", ""));
    assert_eq!(entry, SlotEntry::Single(pair("Math", "Smith", "101")));
}

#[test]
fn collapse_empty_first_record_is_singleton_of_second() {
    let entry = collapse(pair("", "", ""), pair("Physics", "Jones", "202"));
    assert_eq!(entry, SlotEntry::Single(pair("Physics", "Jones", "202")));
}

#[test]
fn collapse_two_records_is_a_pair() {
    let entry = collapse(pair("Math", "Smith", "101"), pair("Physics", "Jones", "202"));
    assert_eq!(
        entry,
        SlotEntry::Double(pair("Math", "Smith", "101"), pair("Physics", "Jones", "202"))
    );
}

#[test]
fn pair_is_empty_needs_all_three_fields_empty() {
    assert!(pair("", "", "").is_empty());
    assert!(!pair("Math", "", "").is_empty());
    assert!(!pair("", "Smith", "").is_empty());
    assert!(!pair("", "", "101").is_empty());
}
