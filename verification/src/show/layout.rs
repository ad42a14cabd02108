//! Regions of the terminal: rectangles of character cells, and the three in
//! which a session draws.

use ratatui::layout::{Constraint as Rule, Layout, Rect as Area};
use vstd::prelude::*;

verus! {

/// The height of the bar of tabs, in rows.
pub const TAB_BAR_HEIGHT: u16 = 3;

/// The width of the list of habits, in columns.
pub const HABIT_LIST_WIDTH: u16 = 10;

/// The direction in which an area is cut into parts.
#[derive(Debug, Clone, Copy, PartialEq, Eq, Structural)]
pub enum Direction {
    /// The parts lie side by side.
    Horizontal,
    /// The parts lie one below the other.
    Vertical,
}

/// What is asked of the size of one part of an area.
#[derive(Debug, Clone, Copy, PartialEq, Eq, Structural)]
pub enum Constraint {
    /// So many rows or columns.
    Length(u16),
    /// So many hundredths of the area.
    Percentage(u16),
    /// A share of what the other parts leave, in proportion to the number.
    Fill(u16),
}

/// A rectangle of character cells. Column `x` and row `y` are its top left
/// corner.
#[derive(Debug, Clone, Copy, PartialEq, Eq, Structural)]
pub struct Rect {
    pub x: u16,
    pub y: u16,
    pub width: u16,
    pub height: u16,
}

impl Rect {
    /// The first column of the rectangle, or its first row: where it begins
    /// along `direction`.
    pub open spec fn start(self, direction: Direction) -> int {
        match direction {
            Direction::Horizontal => self.x as int,
            Direction::Vertical => self.y as int,
        }
    }

    /// The width of the rectangle, or its height: how far it goes along
    /// `direction`.
    pub open spec fn length(self, direction: Direction) -> int {
        match direction {
            Direction::Horizontal => self.width as int,
            Direction::Vertical => self.height as int,
        }
    }

    /// One past the last column or row of the rectangle that a terminal can
    /// have: columns and rows are numbered up to 65535.
    pub open spec fn limit(self, direction: Direction) -> int {
        if self.start(direction) + self.length(direction) > u16::MAX {
            u16::MAX as int
        } else {
            self.start(direction) + self.length(direction)
        }
    }

    /// The number of columns or rows of the rectangle that a terminal can
    /// have.
    pub open spec fn extent(self, direction: Direction) -> int {
        self.limit(direction) - self.start(direction)
    }

    /// Whether `inner` lies in the rectangle, as far as a terminal can have
    /// it.
    pub open spec fn encloses(self, inner: Rect) -> bool {
        &&& self.x <= inner.x
        &&& inner.x + inner.width <= self.limit(Direction::Horizontal)
        &&& self.y <= inner.y
        &&& inner.y + inner.height <= self.limit(Direction::Vertical)
    }

    /// Whether the cell in `column` and `row` lies in the rectangle.
    pub open spec fn holds(self, column: int, row: int) -> bool {
        &&& self.x <= column < self.x + self.width
        &&& self.y <= row < self.y + self.height
    }

    /// Whether the cell in `column` and `row` lies in the rectangle.
    pub fn contains(&self, column: u16, row: u16) -> (inside: bool)
        ensures
            inside == self.holds(column as int, row as int),
    {
        let column: u32 = column as u32;
        let row: u32 = row as u32;
        self.x as u32 <= column && column < self.x as u32 + self.width as u32 && self.y as u32
            <= row && row < self.y as u32 + self.height as u32
    }
}

/// The three regions of the screen of a session.
#[derive(Debug, Clone, Copy, PartialEq, Eq, Structural)]
pub struct Regions {
    /// The bar of tabs, one for each visualizer.
    pub tabs: Rect,
    /// The list of habits.
    pub list: Rect,
    /// The canvas that the selected visualizer draws on.
    pub canvas: Rect,
}

/// Whether `part` reaches from one edge of `area` to the other, across the
/// direction in which the area is cut.
pub open spec fn spans(area: Rect, direction: Direction, part: Rect) -> bool {
    match direction {
        Direction::Horizontal => part.y == area.y && part.height == area.height,
        Direction::Vertical => part.x == area.x && part.width == area.width,
    }
}

/// Whether the parts lie in the area along the direction, one after the
/// other, none reaching into the next.
pub open spec fn in_a_row(area: Rect, direction: Direction, parts: Seq<Rect>) -> bool {
    &&& forall|i: int|
        0 <= i < parts.len() ==> area.start(direction) <= (#[trigger] parts[i]).start(direction)
            && parts[i].start(direction) + parts[i].length(direction) <= area.limit(direction)
    &&& forall|i: int|
        0 <= i < parts.len() - 1 ==> (#[trigger] parts[i]).start(direction) + parts[i].length(
            direction,
        ) <= parts[i + 1].start(direction)
}

/// Whether the first `count` of `parts` are packed from where the area
/// begins: the first begins there, and each next one where the one before
/// it ends.
pub open spec fn is_packed(area: Rect, direction: Direction, parts: Seq<Rect>, count: int) -> bool {
    &&& parts[0].start(direction) == area.start(direction)
    &&& forall|i: int|
        0 <= i < count - 1 ==> (#[trigger] parts[i]).start(direction) + parts[i].length(
            direction,
        ) == parts[i + 1].start(direction)
}

/// Whether `parts` are a part of `length` and a part that takes the rest of
/// the area: they are packed and end where the area does, and the first has
/// its length where the area has room for it.
pub open spec fn is_leading_cut(
    area: Rect,
    direction: Direction,
    parts: Seq<Rect>,
    length: int,
) -> bool {
    &&& is_packed(area, direction, parts, 2)
    &&& parts[1].start(direction) + parts[1].length(direction) == area.limit(direction)
    &&& area.extent(direction) >= length ==> parts[0].length(direction) == length
}

/// Whether `parts` are a part of `length` between two parts that share the
/// rest of the area alike: they are packed and end where the area does, the
/// middle one has its length where the area has room for it, and the outer
/// two differ by one row or column at most.
pub open spec fn is_centred_cut(
    area: Rect,
    direction: Direction,
    parts: Seq<Rect>,
    length: int,
) -> bool {
    &&& is_packed(area, direction, parts, 3)
    &&& parts[2].start(direction) + parts[2].length(direction) == area.limit(direction)
    &&& area.extent(direction) >= length ==> parts[1].length(direction) == length
    &&& -1 <= parts[0].length(direction) - parts[2].length(direction) <= 1
}

/// Whether the first two of `parts` are packed and take `side` and
/// `percent` hundredths of the area, each to the row or column that
/// rounding allows.
pub open spec fn is_percent_cut(
    area: Rect,
    direction: Direction,
    parts: Seq<Rect>,
    side: int,
    percent: int,
) -> bool {
    &&& is_packed(area, direction, parts, 2)
    &&& -100 <= 100 * parts[0].length(direction) - side * area.extent(direction) <= 100
    &&& -100 <= 100 * parts[1].length(direction) - percent * area.extent(direction) <= 100
}

/// The parts into which `ratatui::layout::Layout::split` cuts `area`, for a
/// layout without margin or spacing that packs its parts from the start.
///
/// Trusted, of every list of constraints: there is one part for each
/// constraint; each part reaches across the area; and the parts lie in the
/// area along the direction, in their order and none reaching into the
/// next, as the solver is required to place them.
///
/// Trusted, of the three lists that this library makes (`leading`,
/// `centred`, `centred_percent`): the parts are packed from where the area
/// begins, since the gaps before and between them are held at no width; a
/// `Length` beside parts that `Fill` has its amount where the area has room
/// for it, and the parts that `Fill` take what is left, two of the same
/// weight alike to the cell; a `Percentage` is its hundredths of the area,
/// rounded at either end.
///
/// Where the parts fall on other lists is left to the solver, and nothing
/// more is claimed of it.
#[verifier::external_body]
fn split(area: &Rect, direction: Direction, constraints: &Vec<Constraint>) -> (parts: Vec<Rect>)
    ensures
        parts@.len() == constraints@.len(),
        forall|i: int| 0 <= i < parts@.len() ==> spans(*area, direction, #[trigger] parts@[i]),
        in_a_row(*area, direction, parts@),
        forall|length: u16|
            constraints@ == seq![Constraint::Length(length), Constraint::Fill(1)]
                ==> #[trigger] is_leading_cut(*area, direction, parts@, length as int),
        forall|length: u16|
            constraints@ == seq![
                Constraint::Fill(1),
                Constraint::Length(length),
                Constraint::Fill(1),
            ] ==> #[trigger] is_centred_cut(*area, direction, parts@, length as int),
        forall|side: u16, percent: u16|
            percent <= 100 && side == (100 - percent) / 2 && constraints@ == seq![
                Constraint::Percentage(side),
                Constraint::Percentage(percent),
                Constraint::Percentage(side),
            ] ==> #[trigger] is_percent_cut(*area, direction, parts@, side as int, percent as int),
{
    let rules = constraints.iter().map(|c| match *c {
        Constraint::Length(n) => Rule::Length(n),
        Constraint::Percentage(n) => Rule::Percentage(n),
        Constraint::Fill(n) => Rule::Fill(n),
    });
    let layout = match direction {
        Direction::Horizontal => Layout::horizontal(rules),
        Direction::Vertical => Layout::vertical(rules),
    };
    let area = Area { x: area.x, y: area.y, width: area.width, height: area.height };
    layout.split(area).iter().map(|r| Rect { x: r.x, y: r.y, width: r.width, height: r.height }).collect()
}

/// The constraints that put a part of `length` rows or columns between two
/// parts that share the rest alike.
pub fn centred(length: u16) -> (constraints: Vec<Constraint>)
    ensures
        constraints@ == seq![Constraint::Fill(1), Constraint::Length(length), Constraint::Fill(1)],
{
    vec![Constraint::Fill(1), Constraint::Length(length), Constraint::Fill(1)]
}

/// The constraints that put a part of `percent` hundredths between two parts
/// of half the rest each.
pub fn centred_percent(percent: u16) -> (constraints: Vec<Constraint>)
    requires
        percent <= 100,
    ensures
        constraints@ == seq![
            Constraint::Percentage(((100 - percent) / 2) as u16),
            Constraint::Percentage(percent),
            Constraint::Percentage(((100 - percent) / 2) as u16),
        ],
{
    let side: u16 = (100 - percent) / 2;
    vec![Constraint::Percentage(side), Constraint::Percentage(percent), Constraint::Percentage(side)]
}

/// The constraints that put a part of `length` rows or columns before a part
/// that takes the rest.
pub fn leading(length: u16) -> (constraints: Vec<Constraint>)
    ensures
        constraints@ == seq![Constraint::Length(length), Constraint::Fill(1)],
{
    vec![Constraint::Length(length), Constraint::Fill(1)]
}

/// Whether `part` has `length` rows or columns in the middle of `area`: it
/// lies in the area, has its length where the area has room for it, and
/// what the area has before it and after it differs by one at most.
pub open spec fn is_centred_part(area: Rect, direction: Direction, part: Rect, length: int) -> bool {
    let before = part.start(direction) - area.start(direction);
    let after = area.limit(direction) - part.start(direction) - part.length(direction);
    &&& before >= 0
    &&& after >= 0
    &&& area.extent(direction) >= length ==> part.length(direction) == length
    &&& -1 <= before - after <= 1
}

/// Whether `part` has `percent` hundredths of `area` after half the rest of
/// them: it lies in the area, and both what the area has before it and its
/// own length are those hundredths to the row or column that rounding
/// allows.
pub open spec fn is_percent_part(area: Rect, direction: Direction, part: Rect, percent: int) -> bool {
    let before = part.start(direction) - area.start(direction);
    let after = area.limit(direction) - part.start(direction) - part.length(direction);
    &&& before >= 0
    &&& after >= 0
    &&& -100 <= 100 * before - ((100 - percent) / 2) * area.extent(direction) <= 100
    &&& -100 <= 100 * part.length(direction) - percent * area.extent(direction) <= 100
}

/// The middle one of the three parts into which `constraints` cut `area`.
/// It reaches across the area and lies in it. Where the constraints ask for
/// a length between two parts that fill, or for hundredths between two
/// halves of the rest, it is that length or those hundredths in the middle
/// of the area.
pub fn middle_part(area: &Rect, direction: Direction, constraints: &Vec<Constraint>) -> (part: Rect)
    requires
        constraints@.len() == 3,
    ensures
        spans(*area, direction, part),
        area.start(direction) <= part.start(direction),
        part.start(direction) + part.length(direction) <= area.limit(direction),
        forall|length: u16|
            constraints@ == seq![
                Constraint::Fill(1),
                Constraint::Length(length),
                Constraint::Fill(1),
            ] ==> #[trigger] is_centred_part(*area, direction, part, length as int),
        forall|side: u16, percent: u16|
            percent <= 100 && side == (100 - percent) / 2 && constraints@ == seq![
                Constraint::Percentage(side),
                Constraint::Percentage(percent),
                Constraint::Percentage(side),
            ] ==> is_percent_part(*area, direction, part, percent as int),
{
    let parts = split(area, direction, constraints);
    proof {
        assert forall|length: u16|
            constraints@ == seq![
                Constraint::Fill(1),
                Constraint::Length(length),
                Constraint::Fill(1),
            ] implies #[trigger] is_centred_part(*area, direction, parts@[1], length as int) by {
            assert(is_centred_cut(*area, direction, parts@, length as int));
            assert(parts@[0].start(direction) + parts@[0].length(direction) == parts@[1].start(
                direction,
            ));
            assert(parts@[1].start(direction) + parts@[1].length(direction) == parts@[2].start(
                direction,
            ));
        }
        assert forall|side: u16, percent: u16|
            percent <= 100 && side == (100 - percent) / 2 && constraints@ == seq![
                Constraint::Percentage(side),
                Constraint::Percentage(percent),
                Constraint::Percentage(side),
            ] implies is_percent_part(*area, direction, parts@[1], percent as int) by {
            assert(is_percent_cut(*area, direction, parts@, side as int, percent as int));
            assert(parts@[0].start(direction) + parts@[0].length(direction) == parts@[1].start(
                direction,
            ));
        }
    }
    parts[1]
}

/// Whether `frame` is the rectangle of `width` columns and `height` rows
/// in the middle of `area`, as far as the area has room for it.
pub open spec fn is_centre_of(area: Rect, frame: Rect, width: int, height: int) -> bool {
    &&& area.encloses(frame)
    &&& is_centred_part(area, Direction::Horizontal, frame, width)
    &&& is_centred_part(area, Direction::Vertical, frame, height)
}

/// The rectangle of `width` columns and `height` rows in the middle of
/// `area`, as far as the area has room for it. It is the middle column of the
/// middle row of the area.
pub fn centre(area: &Rect, width: u16, height: u16) -> (frame: Rect)
    ensures
        is_centre_of(*area, frame, width as int, height as int),
{
    let row = middle_part(area, Direction::Vertical, &centred(height));
    let frame = middle_part(&row, Direction::Horizontal, &centred(width));
    proof {
        assert(is_centred_part(*area, Direction::Vertical, row, height as int));
        assert(is_centred_part(row, Direction::Horizontal, frame, width as int));
    }
    frame
}

impl Regions {
    /// Whether the regions are those of a session on `area`. The bar of
    /// tabs lies on top, from the left edge of the area to the right, three
    /// rows high where the area has three rows. The list and the canvas
    /// take the rows below it, side by side from the left edge of the area
    /// to the right; the list is ten columns wide where the area has ten
    /// columns, and the canvas takes the rest.
    pub open spec fn arranged_in(self, area: Rect) -> bool {
        let rows = area.extent(Direction::Vertical);
        let columns = area.extent(Direction::Horizontal);
        &&& self.tabs.x == area.x
        &&& self.tabs.y == area.y
        &&& self.tabs.width == area.width
        &&& self.tabs.height <= rows
        &&& rows >= TAB_BAR_HEIGHT ==> self.tabs.height == TAB_BAR_HEIGHT
        &&& self.list.x == area.x
        &&& self.list.y == self.tabs.y + self.tabs.height
        &&& self.list.height == rows - self.tabs.height
        &&& self.list.width <= columns
        &&& columns >= HABIT_LIST_WIDTH ==> self.list.width == HABIT_LIST_WIDTH
        &&& self.canvas.x == self.list.x + self.list.width
        &&& self.canvas.y == self.list.y
        &&& self.canvas.width == columns - self.list.width
        &&& self.canvas.height == self.list.height
    }

    /// The regions of a session, from the two rows into which its area was
    /// cut and the two columns into which the second row was.
    pub fn assemble(rows: &Vec<Rect>, columns: &Vec<Rect>) -> (regions: Regions)
        requires
            rows@.len() == 2,
            columns@.len() == 2,
        ensures
            regions == (Regions { tabs: rows@[0], list: columns@[0], canvas: columns@[1] }),
    {
        Regions { tabs: rows[0], list: columns[0], canvas: columns[1] }
    }

    /// The regions of a session that has `area` to draw on: a bar of tabs of
    /// three rows on top, and below it the list of habits, ten columns wide,
    /// to the left of the canvas. On an area with fewer rows or columns the
    /// regions still lie in it in this order and fill it.
    pub fn compose(area: &Rect) -> (regions: Regions)
        ensures
            regions.arranged_in(*area),
    {
        let rows = split(area, Direction::Vertical, &leading(TAB_BAR_HEIGHT));
        let body = rows[1];
        let columns = split(&body, Direction::Horizontal, &leading(HABIT_LIST_WIDTH));
        proof {
            assert(is_leading_cut(*area, Direction::Vertical, rows@, TAB_BAR_HEIGHT as int));
            assert(is_leading_cut(body, Direction::Horizontal, columns@, HABIT_LIST_WIDTH as int));
            assert(spans(*area, Direction::Vertical, rows@[0]));
            assert(spans(*area, Direction::Vertical, rows@[1]));
            assert(spans(body, Direction::Horizontal, columns@[0]));
            assert(spans(body, Direction::Horizontal, columns@[1]));
            assert(rows@[0].start(Direction::Vertical) + rows@[0].length(Direction::Vertical)
                == rows@[1].start(Direction::Vertical));
            assert(columns@[0].start(Direction::Horizontal) + columns@[0].length(
                Direction::Horizontal,
            ) == columns@[1].start(Direction::Horizontal));
        }
        Regions::assemble(&rows, &columns)
    }
}

} // verus!
