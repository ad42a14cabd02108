//! The heat map: the calendar grid of a habit as a block of glyphs, one
//! column of the block for each week, two columns of the terminal for each
//! day: the glyph of the day and a blank after it.

use crate::calendar::{Date, MAX_YEAR, MIN_YEAR};
use crate::habit::Habit;
use crate::show::grid::{CalendarGrid, DayCell, GRID_CELLS};
use crate::show::layout::{centre, is_centre_of, Direction, Rect};
use crate::show::viz::{CellStyle, Picture, StyledCell, Tone};
use vstd::prelude::*;

verus! {

/// The width of the heat map, in columns of the terminal.
pub const HEAT_MAP_WIDTH: u16 = 106;

/// The height of the heat map, in rows of the terminal.
pub const HEAT_MAP_HEIGHT: u16 = 7;

/// The heat map of a habit.
pub struct HeatMap<'a> {
    pub habit: &'a Habit,
}

/// The glyph of a cell of the grid.
pub open spec fn glyph(cell: DayCell) -> char {
    match cell {
        DayCell::NotInYear => '~',
        DayCell::ToCome => '?',
        DayCell::ShouldNotHabit => '_',
        DayCell::ShouldHabit(true) => '1',
        DayCell::ShouldHabit(false) => '0',
    }
}

/// How the glyph of a cell of the grid is drawn: padding and days off are
/// dim, days on which the habit was due are bold, in the colour of what was
/// done or of what was missed, and today has its background whatever it is.
pub open spec fn glyph_style(cell: DayCell, today: bool) -> CellStyle {
    match cell {
        DayCell::NotInYear => CellStyle {
            tone: Tone::Plain,
            bold: false,
            dim: true,
            highlighted: today,
        },
        DayCell::ToCome => CellStyle {
            tone: Tone::Plain,
            bold: false,
            dim: false,
            highlighted: today,
        },
        DayCell::ShouldNotHabit => CellStyle {
            tone: Tone::Plain,
            bold: false,
            dim: true,
            highlighted: today,
        },
        DayCell::ShouldHabit(true) => CellStyle {
            tone: Tone::Affirmative,
            bold: true,
            dim: false,
            highlighted: today,
        },
        DayCell::ShouldHabit(false) => CellStyle {
            tone: Tone::Negative,
            bold: true,
            dim: false,
            highlighted: today,
        },
    }
}

/// How the blank after a glyph is drawn.
pub open spec fn blank_style() -> CellStyle {
    CellStyle { tone: Tone::Plain, bold: false, dim: false, highlighted: false }
}

/// The column of the terminal in which the glyph of cell `index` stands,
/// for a heat map whose top left corner is that of `frame`.
pub open spec fn glyph_column(frame: Rect, index: int) -> int {
    frame.x + 2 * (index / 7)
}

/// The row of the terminal in which the glyph of cell `index` stands.
pub open spec fn glyph_row(frame: Rect, index: int) -> int {
    frame.y + index % 7
}

/// Whether the cell of the terminal in `column` and `row` lies within
/// `frame` and on a terminal at all.
pub open spec fn visible(frame: Rect, column: int, row: int) -> bool {
    frame.holds(column, row) && column <= u16::MAX && row <= u16::MAX
}

/// What is drawn for cell `index` of `grid`: the glyph, then the blank, each
/// where it lies within `frame`.
pub open spec fn painted_cell(grid: CalendarGrid, frame: Rect, index: int) -> Seq<StyledCell> {
    let column = glyph_column(frame, index);
    let row = glyph_row(frame, index);
    let glyph_part = if visible(frame, column, row) {
        seq![
            StyledCell {
                column: column as u16,
                row: row as u16,
                symbol: glyph(grid.cells@[index]),
                style: glyph_style(grid.cells@[index], grid.today == Some(index as usize)),
            },
        ]
    } else {
        Seq::empty()
    };
    let blank_part = if visible(frame, column + 1, row) {
        seq![
            StyledCell {
                column: (column + 1) as u16,
                row: row as u16,
                symbol: ' ',
                style: blank_style(),
            },
        ]
    } else {
        Seq::empty()
    };
    glyph_part + blank_part
}

/// What is drawn for the first `count` cells of `grid`.
pub open spec fn painted_upto(grid: CalendarGrid, frame: Rect, count: nat) -> Seq<StyledCell>
    decreases count,
{
    if count == 0 {
        Seq::empty()
    } else {
        painted_upto(grid, frame, (count - 1) as nat) + painted_cell(grid, frame, count - 1)
    }
}

/// What is drawn for `grid` as a whole.
pub open spec fn painted(grid: CalendarGrid, frame: Rect) -> Seq<StyledCell> {
    painted_upto(grid, frame, GRID_CELLS as nat)
}

/// Every cell that is drawn for the first `count` cells of a grid lies
/// within the frame.
pub proof fn lemma_painted_within(grid: CalendarGrid, frame: Rect, count: nat)
    ensures
        forall|k: int|
            0 <= k < painted_upto(grid, frame, count).len() ==> frame.holds(
                (#[trigger] painted_upto(grid, frame, count)[k]).column as int,
                painted_upto(grid, frame, count)[k].row as int,
            ),
        painted_upto(grid, frame, count).len() <= 2 * count,
    decreases count,
{
    if count > 0 {
        lemma_painted_within(grid, frame, (count - 1) as nat);
        let before = painted_upto(grid, frame, (count - 1) as nat);
        let added = painted_cell(grid, frame, count - 1);
        let all = painted_upto(grid, frame, count);
        assert(all == before + added);
        assert forall|k: int| 0 <= k < all.len() implies frame.holds(
            (#[trigger] all[k]).column as int,
            all[k].row as int,
        ) by {
            if k < before.len() {
                assert(all[k] == before[k]);
            } else {
                assert(all[k] == added[k - before.len()]);
            }
        }
    }
}

/// Whether `picture` is the heat map of `grid` on `canvas`: the cells of
/// the grid in a frame of 106 columns and 7 rows in the middle of the
/// canvas, as far as the canvas has room for it; all 742 of them where it
/// has.
pub open spec fn is_heat_map(picture: Picture, grid: CalendarGrid, canvas: Rect) -> bool {
    &&& picture matches Picture::Cells { frame, cells }
    &&& is_centre_of(canvas, frame, HEAT_MAP_WIDTH as int, HEAT_MAP_HEIGHT as int)
    &&& cells@ == painted(grid, frame)
    &&& canvas.extent(Direction::Horizontal) >= HEAT_MAP_WIDTH && canvas.extent(
        Direction::Vertical,
    ) >= HEAT_MAP_HEIGHT ==> frame.width == HEAT_MAP_WIDTH && frame.height == HEAT_MAP_HEIGHT
        && cells@.len() == 2 * GRID_CELLS
}

/// Whether `frame` has room for the whole heat map on a terminal.
pub open spec fn has_room(frame: Rect) -> bool {
    &&& frame.width >= HEAT_MAP_WIDTH
    &&& frame.height >= HEAT_MAP_HEIGHT
    &&& frame.x + HEAT_MAP_WIDTH <= u16::MAX + 1
    &&& frame.y + HEAT_MAP_HEIGHT <= u16::MAX + 1
}

/// In a frame with room for the whole heat map, two cells are drawn for
/// each cell of the grid.
pub proof fn lemma_painted_in_full(grid: CalendarGrid, frame: Rect, count: nat)
    requires
        has_room(frame),
        count <= GRID_CELLS,
    ensures
        painted_upto(grid, frame, count).len() == 2 * count,
    decreases count,
{
    if count > 0 {
        lemma_painted_in_full(grid, frame, (count - 1) as nat);
        let index = count - 1;
        assert(visible(frame, glyph_column(frame, index), glyph_row(frame, index)));
        assert(visible(frame, glyph_column(frame, index) + 1, glyph_row(frame, index)));
    }
}

impl<'a> HeatMap<'a> {
    /// The heat map of `habit`.
    pub fn new(habit: &'a Habit) -> (map: Self)
        ensures
            map.habit == habit,
    {
        HeatMap { habit }
    }

    /// The grid of `year` for the habit, with the logs of `logs`, as it
    /// stands on the day `today`.
    pub fn grid(&self, year: i32, today: &Date, logs: &Vec<Date>) -> (grid: CalendarGrid)
        requires
            MIN_YEAR <= year <= MAX_YEAR,
            today.valid(),
            forall|j: int| 0 <= j < logs@.len() ==> (#[trigger] logs@[j]).valid(),
        ensures
            grid.is_grid_of(year as int, *today, self.habit.days@, logs@),
            grid.wf(),
    {
        CalendarGrid::build(year, today, &self.habit.days, logs)
    }

    /// The glyph of a cell of the grid.
    pub fn symbol(cell: DayCell) -> (symbol: char)
        ensures
            symbol == glyph(cell),
    {
        match cell {
            DayCell::NotInYear => '~',
            DayCell::ToCome => '?',
            DayCell::ShouldNotHabit => '_',
            DayCell::ShouldHabit(done) => if done {
                '1'
            } else {
                '0'
            },
        }
    }

    /// How the glyph of a cell of the grid is drawn, for today's cell and
    /// for any other.
    pub fn style(cell: DayCell, today: bool) -> (style: CellStyle)
        ensures
            style == glyph_style(cell, today),
    {
        match cell {
            DayCell::NotInYear => CellStyle {
                tone: Tone::Plain,
                bold: false,
                dim: true,
                highlighted: today,
            },
            DayCell::ToCome => CellStyle {
                tone: Tone::Plain,
                bold: false,
                dim: false,
                highlighted: today,
            },
            DayCell::ShouldNotHabit => CellStyle {
                tone: Tone::Plain,
                bold: false,
                dim: true,
                highlighted: today,
            },
            DayCell::ShouldHabit(done) => CellStyle {
                tone: if done {
                    Tone::Affirmative
                } else {
                    Tone::Negative
                },
                bold: true,
                dim: false,
                highlighted: today,
            },
        }
    }

    /// The cells of the terminal that show `grid` with its top left corner
    /// in that of `frame`: for each cell of the grid, week after week, its
    /// glyph and a blank to the right of it. What would lie outside `frame`
    /// is left out.
    pub fn paint(grid: &CalendarGrid, frame: &Rect) -> (cells: Vec<StyledCell>)
        requires
            grid.wf(),
        ensures
            cells@ == painted(*grid, *frame),
            forall|k: int|
                0 <= k < cells@.len() ==> frame.holds(
                    (#[trigger] cells@[k]).column as int,
                    cells@[k].row as int,
                ),
            has_room(*frame) ==> cells@.len() == 2 * GRID_CELLS,
    {
        let mut cells: Vec<StyledCell> = Vec::new();
        let mut index: usize = 0;
        while index < GRID_CELLS
            invariant
                index <= GRID_CELLS,
                grid.wf(),
                cells@ == painted_upto(*grid, *frame, index as nat),
            decreases GRID_CELLS - index,
        {
            let column: u32 = frame.x as u32 + 2 * ((index / 7) as u32);
            let row: u32 = frame.y as u32 + (index % 7) as u32;
            let is_today = match grid.today {
                Some(today) => today == index,
                None => false,
            };
            let ghost before = cells@;
            if column <= 65535 && row <= 65535 && frame.contains(column as u16, row as u16) {
                cells.push(
                    StyledCell {
                        column: column as u16,
                        row: row as u16,
                        symbol: Self::symbol(grid.cells[index]),
                        style: Self::style(grid.cells[index], is_today),
                    },
                );
            }
            if column + 1 <= 65535 && row <= 65535 && frame.contains(
                (column + 1) as u16,
                row as u16,
            ) {
                cells.push(
                    StyledCell {
                        column: (column + 1) as u16,
                        row: row as u16,
                        symbol: ' ',
                        style: CellStyle {
                            tone: Tone::Plain,
                            bold: false,
                            dim: false,
                            highlighted: false,
                        },
                    },
                );
            }
            proof {
                let added = painted_cell(*grid, *frame, index as int);
                assert(glyph_column(*frame, index as int) == column);
                assert(glyph_row(*frame, index as int) == row);
                assert(is_today == (grid.today == Some(index)));
                assert(cells@ =~= before + added);
            }
            index += 1;
        }
        proof {
            lemma_painted_within(*grid, *frame, GRID_CELLS as nat);
            if has_room(*frame) {
                lemma_painted_in_full(*grid, *frame, GRID_CELLS as nat);
            }
        }
        cells
    }

    /// The picture of `grid` on `canvas`: the heat map, in a frame of 106
    /// columns and 7 rows in the middle of the canvas as far as the canvas
    /// has room for it, cut at the edges of that frame. A canvas of 106
    /// columns and 7 rows on the terminal shows it whole, in 742 cells.
    pub fn render(&self, grid: &CalendarGrid, canvas: &Rect) -> (picture: Picture)
        requires
            grid.wf(),
        ensures
            is_heat_map(picture, *grid, *canvas),
    {
        let frame = centre(canvas, HEAT_MAP_WIDTH, HEAT_MAP_HEIGHT);
        let cells = Self::paint(grid, &frame);
        Picture::Cells { frame, cells }
    }
}

} // verus!
