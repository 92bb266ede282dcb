//! The schedule decoder: turning a rectangular grid of rendered cells into a
//! five-day, eight-slot timetable.
//!
//! The grid layout is position-encoded: each day owns [`DAY_ROWS`] consecutive
//! rows, of which the first [`DATA_ROWS`] carry data and the trailing ones are
//! padding.  Within a day, every [`ROWS_PER_SLOT`] consecutive data rows form
//! one time slot: a name row, a tutor row and a place row.  A department's
//! subgroup offset selects the two columns (`2 * offset` and `2 * offset + 1`)
//! holding its two parallel subgroup sessions.

use vstd::prelude::*;

use crate::errors::Error;

verus! {

/// Rows of the source grid that one calendar day occupies.
pub const DAY_ROWS: usize = 28;

/// Leading rows of a day chunk that carry slot data; the rest are padding.
pub const DATA_ROWS: usize = 24;

/// Rows that make up one time slot: name, tutor and place.
pub const ROWS_PER_SLOT: usize = 3;

/// Time slots per day.
pub const SLOTS_PER_DAY: usize = 8;

/// Days per timetable (Monday to Friday).
pub const DAYS_PER_WEEK: usize = 5;

/// Rows a grid must hold for a full five-day schedule.
pub const GRID_MIN_ROWS: usize = 140;

/// One session: what is taught, by whom, and where.  The record is empty
/// exactly when all three fields render as empty strings.
#[derive(Debug, Clone, PartialEq, Eq)]
pub struct Pair {
    pub name: String,
    pub tutor: String,
    pub place: String,
}

/// The mathematical value of a [`Pair`]: its three fields as character
/// sequences.
pub struct PairView {
    pub name: Seq<char>,
    pub tutor: Seq<char>,
    pub place: Seq<char>,
}

impl PairView {
    /// A record is empty when all three of its fields are empty.
    pub open spec fn is_empty(self) -> bool {
        self.name.len() == 0 && self.tutor.len() == 0 && self.place.len() == 0
    }
}

impl View for Pair {
    type V = PairView;

    open spec fn view(&self) -> PairView {
        PairView { name: self.name@, tutor: self.tutor@, place: self.place@ }
    }
}

impl Pair {
    /// Builds a session record from the rendered name, tutor and place cells.
    pub fn new(name: String, tutor: String, place: String) -> (p: Pair)
        ensures
            p@ == (PairView { name: name@, tutor: tutor@, place: place@ }),
    {
        Pair { name, tutor, place }
    }

    /// Whether all three fields of the record are empty strings.
    pub fn is_empty(&self) -> (r: bool)
        ensures
            r == self@.is_empty(),
    {
        self.name.as_str().is_empty() && self.tutor.as_str().is_empty()
            && self.place.as_str().is_empty()
    }
}

/// What one time slot of one day holds: nothing, one session, or two
/// parallel subgroup sessions.
#[derive(Debug, Clone, PartialEq, Eq)]
pub enum SlotEntry {
    Absent,
    Single(Pair),
    Double(Pair, Pair),
}

/// The mathematical value of a [`SlotEntry`].
pub enum SlotView {
    Absent,
    Single(PairView),
    Double(PairView, PairView),
}

impl SlotView {
    /// The slot-entry invariant: a singleton is never empty and a pair never
    /// holds an empty record on either side.
    pub open spec fn wf(self) -> bool {
        match self {
            SlotView::Absent => true,
            SlotView::Single(p) => !p.is_empty(),
            SlotView::Double(a, b) => !a.is_empty() && !b.is_empty(),
        }
    }
}

impl View for SlotEntry {
    type V = SlotView;

    open spec fn view(&self) -> SlotView {
        match self {
            SlotEntry::Absent => SlotView::Absent,
            SlotEntry::Single(p) => SlotView::Single(p@),
            SlotEntry::Double(a, b) => SlotView::Double(a@, b@),
        }
    }
}

/// How two subgroup records of one slot collapse into a slot entry: two
/// empty records vanish, a single empty record demotes the pair to a
/// singleton of the other, and two non-empty records stand as a pair.
pub open spec fn collapse_spec(first: PairView, second: PairView) -> SlotView {
    if first.is_empty() && second.is_empty() {
        SlotView::Absent
    } else if second.is_empty() {
        SlotView::Single(first)
    } else if first.is_empty() {
        SlotView::Single(second)
    } else {
        SlotView::Double(first, second)
    }
}

/// Collapses the two subgroup records of one slot per [`collapse_spec`].
pub fn collapse(first: Pair, second: Pair) -> (r: SlotEntry)
    ensures
        r@ == collapse_spec(first@, second@),
        first@.is_empty() && second@.is_empty() ==> r == SlotEntry::Absent,
        !first@.is_empty() && second@.is_empty() ==> r == SlotEntry::Single(first),
        !first@.is_empty() && !second@.is_empty() ==> r == SlotEntry::Double(first, second),
{
    match (first.is_empty(), second.is_empty()) {
        (true, true) => SlotEntry::Absent,
        (false, true) => SlotEntry::Single(first),
        (true, false) => SlotEntry::Single(second),
        (false, false) => SlotEntry::Double(first, second),
    }
}

/// One day's schedule: exactly [`SLOTS_PER_DAY`] slot entries.
#[derive(Debug, Clone, PartialEq, Eq)]
pub struct DaySchedule {
    pub slots: Vec<SlotEntry>,
}

impl View for DaySchedule {
    type V = Seq<SlotView>;

    open spec fn view(&self) -> Seq<SlotView> {
        self.slots@.map_values(|e: SlotEntry| e@)
    }
}

/// The decoded weekly timetable: exactly [`DAYS_PER_WEEK`] day schedules.
#[derive(Debug, Clone, PartialEq, Eq)]
pub struct Timetable {
    pub days: Vec<DaySchedule>,
}

impl View for Timetable {
    type V = Seq<Seq<SlotView>>;

    open spec fn view(&self) -> Seq<Seq<SlotView>> {
        self.days@.map_values(|d: DaySchedule| d@)
    }
}

/// The grid row holding the given field (0 name, 1 tutor, 2 place) of the
/// given slot of the given day.
pub open spec fn used_row(day: int, slot: int, field: int) -> int {
    day * 28 + slot * 3 + field
}

/// The record read from the given subgroup column of one slot's three rows.
pub open spec fn pair_at(g: Seq<Seq<Seq<char>>>, day: int, slot: int, col: int) -> PairView {
    PairView {
        name: g[used_row(day, slot, 0)][col],
        tutor: g[used_row(day, slot, 1)][col],
        place: g[used_row(day, slot, 2)][col],
    }
}

/// The entry one slot decodes to under the given subgroup offset.
pub open spec fn slot_at(g: Seq<Seq<Seq<char>>>, day: int, slot: int, off: nat) -> SlotView {
    collapse_spec(pair_at(g, day, slot, 2 * (off as int)), pair_at(g, day, slot, 2 * (off as int) + 1))
}

/// The eight entries one day decodes to.
pub open spec fn day_at(g: Seq<Seq<Seq<char>>>, day: int, off: nat) -> Seq<SlotView> {
    Seq::new(8, |slot: int| slot_at(g, day, slot, off))
}

/// The full five-day timetable a grid decodes to.
pub open spec fn timetable_at(g: Seq<Seq<Seq<char>>>, off: nat) -> Seq<Seq<SlotView>> {
    Seq::new(5, |day: int| day_at(g, day, off))
}

/// Whether the grid is large enough for the fixed layout under the given
/// offset: five full day chunks of rows, and every data row wide enough to
/// hold both subgroup columns (which must also be addressable on this
/// machine).
pub open spec fn decodable(g: Seq<Seq<Seq<char>>>, off: nat) -> bool {
    &&& g.len() >= 140
    &&& 2 * off + 2 <= usize::MAX
    &&& forall|d: int, s: int, f: int|
        0 <= d < 5 && 0 <= s < 8 && 0 <= f < 3 ==> g[#[trigger] used_row(d, s, f)].len() >= 2
            * off + 2
}

/// Decodes the extracted cell grid into a timetable.
///
/// Succeeds exactly on [`decodable`] grids and then returns exactly
/// [`timetable_at`]; every structural shortfall is a fatal
/// [`Error::InsufficientData`] — no partial timetable is ever returned.
#[verifier::loop_isolation(false)]
pub fn decode(grid: &Vec<Vec<String>>, subgroup_row_offset: usize) -> (r: Result<
    Timetable,
    Error,
>)
    ensures
        r is Ok <==> decodable(grid.deep_view(), subgroup_row_offset as nat),
        r matches Ok(t) ==> {
            &&& t@ == timetable_at(grid.deep_view(), subgroup_row_offset as nat)
            &&& t.days@.len() == 5
            &&& forall|d: int| 0 <= d < 5 ==> (#[trigger] t.days@[d]).slots@.len() == 8
        },
        r matches Err(e) ==> e == Error::InsufficientData,
        grid.deep_view().len() < 140 ==> r == Result::<Timetable, Error>::Err(
            Error::InsufficientData,
        ),
{
    let ghost gv = grid.deep_view();
    if grid.len() < GRID_MIN_ROWS {
        return Err(Error::InsufficientData);
    }
    if subgroup_row_offset > (usize::MAX - 2) / 2 {
        assert(!decodable(gv, subgroup_row_offset as nat));
        return Err(Error::InsufficientData);
    }
    let needed: usize = 2 * subgroup_row_offset + 2;
    let col: usize = 2 * subgroup_row_offset;
    let ghost off = subgroup_row_offset as nat;
    let mut days: Vec<DaySchedule> = Vec::new();
    let mut day: usize = 0;
    while day < DAYS_PER_WEEK
        invariant
            day <= 5,
            days@.len() == day as int,
            forall|d: int| 0 <= d < day as int ==> (#[trigger] days@[d])@ == day_at(gv, d, off),
            forall|d: int| 0 <= d < day as int ==> (#[trigger] days@[d]).slots@.len() == 8,
            forall|d: int, s: int, f: int|
                0 <= d < day as int && 0 <= s < 8 && 0 <= f < 3 ==> gv[#[trigger] used_row(
                    d,
                    s,
                    f,
                )].len() >= needed as int,
        decreases 5 - day,
    {
        let mut slots: Vec<SlotEntry> = Vec::new();
        let mut slot: usize = 0;
        while slot < SLOTS_PER_DAY
            invariant
                slot <= 8,
                slots@.len() == slot as int,
                forall|s: int|
                    0 <= s < slot as int ==> (#[trigger] slots@[s])@ == slot_at(
                        gv,
                        day as int,
                        s,
                        off,
                    ),
                forall|s: int, f: int|
                    0 <= s < slot as int && 0 <= f < 3 ==> gv[#[trigger] used_row(
                        day as int,
                        s,
                        f,
                    )].len() >= needed as int,
            decreases 8 - slot,
        {
            let base = day * DAY_ROWS + slot * ROWS_PER_SLOT;
            let name_row = &grid[base];
            let tutor_row = &grid[base + 1];
            let place_row = &grid[base + 2];
            if name_row.len() < needed || tutor_row.len() < needed || place_row.len() < needed {
                assert(!decodable(gv, off)) by {
                    if name_row.len() < needed {
                        assert(gv[used_row(day as int, slot as int, 0)].len() < 2 * off + 2);
                    } else if tutor_row.len() < needed {
                        assert(gv[used_row(day as int, slot as int, 1)].len() < 2 * off + 2);
                    } else {
                        assert(gv[used_row(day as int, slot as int, 2)].len() < 2 * off + 2);
                    }
                }
                return Err(Error::InsufficientData);
            }
            let first = Pair::new(
                name_row[col].clone(),
                tutor_row[col].clone(),
                place_row[col].clone(),
            );
            let second = Pair::new(
                name_row[col + 1].clone(),
                tutor_row[col + 1].clone(),
                place_row[col + 1].clone(),
            );
            assert(first@ == pair_at(gv, day as int, slot as int, 2 * (off as int)));
            assert(second@ == pair_at(gv, day as int, slot as int, 2 * (off as int) + 1));
            let entry = collapse(first, second);
            slots.push(entry);
            slot += 1;
        }
        let day_schedule = DaySchedule { slots };
        assert(day_schedule@ =~= day_at(gv, day as int, off));
        days.push(day_schedule);
        day += 1;
    }
    let timetable = Timetable { days };
    assert(timetable@ =~= timetable_at(gv, off));
    assert(decodable(gv, off));
    Ok(timetable)
}

/// No slot entry ever holds an empty record: collapsing demotes an empty
/// record to a singleton of the other, and two empty records to an absent
/// entry.
pub proof fn lemma_collapse_wf(first: PairView, second: PairView)
    ensures
        collapse_spec(first, second).wf(),
{
}

/// Every decoded timetable has exactly five days of exactly eight slots, and
/// every slot satisfies the slot-entry invariant.
pub proof fn lemma_timetable_wf(g: Seq<Seq<Seq<char>>>, off: nat)
    ensures
        timetable_at(g, off).len() == 5,
        forall|d: int| 0 <= d < 5 ==> (#[trigger] timetable_at(g, off)[d]).len() == 8,
        forall|d: int, s: int|
            0 <= d < 5 && 0 <= s < 8 ==> (#[trigger] timetable_at(g, off)[d][s]).wf(),
{
}

/// Decoding is pure: the timetable is a function of the grid and the offset
/// alone, so identical inputs always decode to the identical timetable.
pub proof fn lemma_decode_deterministic(
    g1: Seq<Seq<Seq<char>>>,
    off1: nat,
    g2: Seq<Seq<Seq<char>>>,
    off2: nat,
)
    requires
        g1 == g2,
        off1 == off2,
    ensures
        timetable_at(g1, off1) == timetable_at(g2, off2),
{
}

/// The field of a record selected by row position within a slot: 0 the name,
/// 1 the tutor, 2 the place.
pub open spec fn triple_field(p: PairView, f: int) -> Seq<char> {
    if f == 0 {
        p.name
    } else if f == 1 {
        p.tutor
    } else {
        p.place
    }
}

/// A one-day grid chunk with the given record placed at each slot's first
/// subgroup column and empty cells everywhere else.
pub open spec fn day_chunk_of(triples: Seq<PairView>, off: nat) -> Seq<Seq<Seq<char>>> {
    Seq::new(
        28,
        |r: int|
            if r < 24 {
                Seq::new(
                    2 * off + 2,
                    |c: int|
                        if c == 2 * off {
                            triple_field(triples[r / 3], r % 3)
                        } else {
                            Seq::<char>::empty()
                        },
                )
            } else {
                Seq::<Seq<char>>::empty()
            },
    )
}

/// Round trip: a day chunk built by placing a known non-empty record at each
/// slot's position decodes back to exactly those records, as singletons, in
/// slot order.
pub proof fn lemma_day_roundtrip(triples: Seq<PairView>, off: nat)
    requires
        triples.len() == 8,
        forall|s: int| 0 <= s < 8 ==> !(#[trigger] triples[s]).is_empty(),
    ensures
        day_at(day_chunk_of(triples, off), 0, off).len() == 8,
        forall|s: int|
            0 <= s < 8 ==> day_at(day_chunk_of(triples, off), 0, off)[s] == SlotView::Single(
                triples[s],
            ),
{
    let g = day_chunk_of(triples, off);
    assert forall|s: int| 0 <= s < 8 implies day_at(g, 0, off)[s] == SlotView::Single(
        triples[s],
    ) by {
        vstd::arithmetic::div_mod::lemma_fundamental_div_mod_converse(s * 3, 3, s, 0);
        vstd::arithmetic::div_mod::lemma_fundamental_div_mod_converse(s * 3 + 1, 3, s, 1);
        vstd::arithmetic::div_mod::lemma_fundamental_div_mod_converse(s * 3 + 2, 3, s, 2);
        assert(pair_at(g, 0, s, 2 * (off as int)) == triples[s]);
        assert(pair_at(g, 0, s, 2 * (off as int) + 1).is_empty());
    }
}

} // verus!
