//! Where on the screen things stand.

use ratatui::layout;
use ratatui::layout::{Layout, Rect};
use ratatui::widgets::{Block, Borders};
use vstd::prelude::*;

verus! {

/// A rectangle of the screen, in cells.
#[derive(Debug, Clone, Copy, PartialEq, Eq, Structural)]
pub struct Area {
    pub x: u16,
    pub y: u16,
    pub width: u16,
    pub height: u16,
}

/// How much of an area a part of it wants.
#[derive(Debug, Clone, Copy, PartialEq, Eq, Structural)]
pub enum Constraint {
    /// So many cells.
    Length(u16),
    /// At least so many cells.
    Min(u16),
    /// So much of a hundred.
    Percentage(u16),
}

/// Which way an area is divided.
#[derive(Debug, Clone, Copy, PartialEq, Eq, Structural)]
pub enum Direction {
    Vertical,
    Horizontal,
}

/// Whether an area may be divided into these parts. Which parts come out where the wants
/// cannot all be met is left to the solver, and may differ from run to run.
pub uninterp spec fn may_split(
    direction: Direction,
    constraints: Seq<Constraint>,
    area: Area,
    parts: Seq<Area>,
) -> bool;

/// Whether a part reaches across an area: side to side where the area is divided from top
/// to bottom, top to bottom where it is divided from side to side.
pub open spec fn reaches_across(direction: Direction, area: Area, part: Area) -> bool {
    match direction {
        Direction::Vertical => part.x == area.x && part.width == area.width,
        Direction::Horizontal => part.y == area.y && part.height == area.height,
    }
}

/// Calls `ratatui::layout::Layout::split`: divides an area, one part for each constraint.
/// Across the direction of the division every part reaches as far as the area. How long
/// the parts are is not said.
#[verifier::external_body]
pub(crate) fn split(direction: Direction, constraints: &Vec<Constraint>, area: Area) -> (r: Vec<
    Area,
>)
    ensures
        may_split(direction, constraints@, area, r@),
        r@.len() == constraints@.len(),
        forall|i: int| 0 <= i < r@.len() ==> reaches_across(direction, area, #[trigger] r@[i]),
{
    let direction = match direction {
        Direction::Vertical => layout::Direction::Vertical,
        Direction::Horizontal => layout::Direction::Horizontal,
    };
    let wants = constraints.iter().map(|c| match c {
        Constraint::Length(n) => layout::Constraint::Length(*n),
        Constraint::Min(n) => layout::Constraint::Min(*n),
        Constraint::Percentage(n) => layout::Constraint::Percentage(*n),
    });
    let whole = Rect { x: area.x, y: area.y, width: area.width, height: area.height };
    let parts = Layout::new(direction, wants).split(whole);
    parts.iter().map(|p| Area { x: p.x, y: p.y, width: p.width, height: p.height }).collect()
}

/// A number of cells, at most as many as can be counted.
pub open spec fn capped(n: int) -> int {
    if n > u16::MAX {
        u16::MAX as int
    } else {
        n
    }
}

/// The lesser of two numbers.
pub open spec fn lesser(a: int, b: int) -> int {
    if a < b {
        a
    } else {
        b
    }
}

/// A number of cells without some of them.
pub open spec fn without(n: u16, less: int) -> u16 {
    if n < less {
        0
    } else {
        (n - less) as u16
    }
}

/// The area inside a frame of one cell on each side.
pub open spec fn inside(area: Area) -> Area {
    Area {
        x: lesser(capped(area.x + 1), capped(area.x + area.width)) as u16,
        y: lesser(capped(area.y + 1), capped(area.y + area.height)) as u16,
        width: without(area.width, 2),
        height: without(area.height, 2),
    }
}

/// Calls `ratatui::widgets::Block::inner` on a block with a border on each side and with
/// neither title nor padding: the area inside the frame.
#[verifier::external_body]
pub(crate) fn inner(area: Area) -> (r: Area)
    ensures
        r == inside(area),
{
    let block = Block::default().borders(Borders::ALL);
    let whole = Rect { x: area.x, y: area.y, width: area.width, height: area.height };
    let p = block.inner(whole);
    Area { x: p.x, y: p.y, width: p.width, height: p.height }
}

/// What the rows of the screen want: the tabs one, the footer three, or four where
/// something is typed or picked, and what is between them the rest.
pub open spec fn screen_constraints(normal: bool) -> Seq<Constraint> {
    seq![
        Constraint::Length(1),
        Constraint::Min(1),
        Constraint::Length(
            if normal {
                3
            } else {
                4
            },
        ),
    ]
}

/// Divides the screen into the tabs, what is between, and the footer.
pub fn screen_rows(area: Area, normal: bool) -> (r: (Area, Area, Area))
    ensures
        may_split(
            Direction::Vertical,
            screen_constraints(normal),
            area,
            seq![r.0, r.1, r.2],
        ),
        reaches_across(Direction::Vertical, area, r.0),
        reaches_across(Direction::Vertical, area, r.1),
        reaches_across(Direction::Vertical, area, r.2),
{
    let footer: u16 = if normal {
        3
    } else {
        4
    };
    let constraints = vec![Constraint::Length(1), Constraint::Min(1), Constraint::Length(footer)];
    assert(constraints@ =~= screen_constraints(normal));
    let rows = split(Direction::Vertical, &constraints, area);
    assert(rows@ =~= seq![rows@[0], rows@[1], rows@[2]]);
    (rows[0], rows[1], rows[2])
}

/// What the rows of the footer want: one line, and another where something is typed or
/// picked.
pub open spec fn footer_constraints(normal: bool) -> Seq<Constraint> {
    if normal {
        seq![Constraint::Length(1)]
    } else {
        seq![Constraint::Length(1), Constraint::Length(1)]
    }
}

/// What the columns of the footer's first line want: what is said as much as it is long,
/// and what plays the rest.
pub open spec fn status_constraints(width: u16) -> Seq<Constraint> {
    seq![Constraint::Min(1), Constraint::Length(width)]
}

/// Divides the inside of the footer into its rows.
pub fn footer_rows(area: Area, normal: bool) -> (r: (Area, Option<Area>))
    ensures
        r.1 is None <==> normal,
        may_split(
            Direction::Vertical,
            footer_constraints(normal),
            inside(area),
            if normal {
                seq![r.0]
            } else {
                seq![r.0, r.1->0]
            },
        ),
        reaches_across(Direction::Vertical, inside(area), r.0),
        !normal ==> reaches_across(Direction::Vertical, inside(area), r.1->0),
{
    let mut constraints = vec![Constraint::Length(1)];
    if !normal {
        constraints.push(Constraint::Length(1));
    }
    assert(constraints@ =~= footer_constraints(normal));
    let rows = split(Direction::Vertical, &constraints, inner(area));
    if normal {
        assert(rows@ =~= seq![rows@[0]]);
        (rows[0], None)
    } else {
        assert(rows@ =~= seq![rows@[0], rows@[1]]);
        (rows[0], Some(rows[1]))
    }
}

/// Divides the first row of the footer into what plays and what is said.
pub fn status_columns(row: Area, width: u16) -> (r: (Area, Area))
    ensures
        may_split(Direction::Horizontal, status_constraints(width), row, seq![r.0, r.1]),
        reaches_across(Direction::Horizontal, row, r.0),
        reaches_across(Direction::Horizontal, row, r.1),
{
    let constraints = vec![Constraint::Min(1), Constraint::Length(width)];
    assert(constraints@ =~= status_constraints(width));
    let columns = split(Direction::Horizontal, &constraints, row);
    assert(columns@ =~= seq![columns@[0], columns@[1]]);
    (columns[0], columns[1])
}

/// What the two panes of the playlists tab want.
pub open spec fn panes_constraints() -> Seq<Constraint> {
    seq![Constraint::Percentage(35), Constraint::Percentage(65)]
}

/// Divides an area into the pane of the playlists and the pane of their tracks.
pub fn playlist_panes(area: Area) -> (r: (Area, Area))
    ensures
        may_split(Direction::Horizontal, panes_constraints(), area, seq![r.0, r.1]),
        reaches_across(Direction::Horizontal, area, r.0),
        reaches_across(Direction::Horizontal, area, r.1),
{
    let constraints = vec![Constraint::Percentage(35), Constraint::Percentage(65)];
    assert(constraints@ =~= panes_constraints());
    let panes = split(Direction::Horizontal, &constraints, area);
    assert(panes@ =~= seq![panes@[0], panes@[1]]);
    (panes[0], panes[1])
}

/// What a part in the middle wants, and what is on its two sides.
pub open spec fn middle_constraints(percent: u16) -> Seq<Constraint> {
    seq![
        Constraint::Percentage(((100 - percent) / 2) as u16),
        Constraint::Percentage(percent),
        Constraint::Percentage(((100 - percent) / 2) as u16),
    ]
}

/// Whether an area may stand in the middle of another: in the middle of its columns, inside
/// the middle of its rows. The rows reach from side to side of the area, and the columns from
/// top to bottom of the middle row.
pub open spec fn may_center(percent_x: u16, percent_y: u16, area: Area, r: Area) -> bool {
    exists|rows: Seq<Area>, columns: Seq<Area>|
        {
            &&& rows.len() == 3
            &&& columns.len() == 3
            &&& #[trigger] may_split(
                Direction::Vertical,
                middle_constraints(percent_y),
                area,
                rows,
            )
            &&& #[trigger] may_split(
                Direction::Horizontal,
                middle_constraints(percent_x),
                rows[1],
                columns,
            )
            &&& r == columns[1]
            &&& reaches_across(Direction::Vertical, area, rows[1])
            &&& reaches_across(Direction::Horizontal, rows[1], r)
        }
}

/// The middle of three parts.
fn middle(direction: Direction, percent: u16, area: Area) -> (r: (Ghost<Seq<Area>>, Area))
    requires
        percent <= 100,
    ensures
        r.0@.len() == 3,
        r.1 == r.0@[1],
        may_split(direction, middle_constraints(percent), area, r.0@),
        reaches_across(direction, area, r.1),
{
    let side: u16 = (100 - percent) / 2;
    let constraints = vec![
        Constraint::Percentage(side),
        Constraint::Percentage(percent),
        Constraint::Percentage(side),
    ];
    assert(constraints@ =~= middle_constraints(percent));
    let parts = split(direction, &constraints, area);
    (Ghost(parts@), parts[1])
}

/// An area in the middle of another, so many percent of it wide and high.
pub fn centered_rect(percent_x: u16, percent_y: u16, area: Area) -> (r: Area)
    requires
        percent_x <= 100,
        percent_y <= 100,
    ensures
        may_center(percent_x, percent_y, area, r),
{
    let (rows, row) = middle(Direction::Vertical, percent_y, area);
    let (columns, column) = middle(Direction::Horizontal, percent_x, row);
    assert(may_split(Direction::Horizontal, middle_constraints(percent_x), rows@[1], columns@));
    column
}

} // verus!
