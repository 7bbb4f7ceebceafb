use vstd::prelude::*;

use crate::panes::Area;
use ratatui::layout::{Constraint, Direction, Layout, Rect};

verus! {

/// The direction in which an area is divided.
#[derive(Debug, Clone, Copy, PartialEq, Eq, Structural)]
pub enum Axis {
    Horizontal,
    Vertical,
}

/// How much of an area one of its parts asks for: a percentage of it, at
/// least a number of cells, or exactly a number of cells.
#[derive(Debug, Clone, Copy, PartialEq, Eq, Structural)]
pub enum Extent {
    Percentage(u16),
    Min(u16),
    Length(u16),
}

/// The column just past the right edge of `area`, as ratatui counts it:
/// no further than the last column of the terminal.
pub open spec fn right_of(area: Area) -> int {
    if area.x + area.width <= u16::MAX {
        area.x + area.width
    } else {
        u16::MAX as int
    }
}

/// The row just past the bottom edge of `area`, as ratatui counts it: no
/// further than the last row of the terminal.
pub open spec fn bottom_of(area: Area) -> int {
    if area.y + area.height <= u16::MAX {
        area.y + area.height
    } else {
        u16::MAX as int
    }
}

/// Whether `part` is a part of `area` cut along `axis`: across the axis it
/// spans the area exactly, and along it lies within the area.
pub open spec fn part_of(part: Area, area: Area, axis: Axis) -> bool {
    match axis {
        Axis::Horizontal => {
            &&& part.y == area.y
            &&& part.height == area.height
            &&& area.x <= part.x
            &&& part.x + part.width <= right_of(area)
        },
        Axis::Vertical => {
            &&& part.x == area.x
            &&& part.width == area.width
            &&& area.y <= part.y
            &&& part.y + part.height <= bottom_of(area)
        },
    }
}

/// Whether `parts` is an outcome of ratatui's constraint solver dividing
/// `area` along `axis` into a first part asking for `first` and a second
/// part asking for `second`. The solver walks randomly seeded hash maps, so
/// the same request may have more than one outcome; this relation ties an
/// outcome to the request that produced it and claims nothing more.
pub uninterp spec fn solved_split(
    area: Area,
    axis: Axis,
    first: Extent,
    second: Extent,
    parts: (Area, Area),
) -> bool;

/// `Layout::areas` of ratatui, on a layout of two constraints along `axis`:
/// the two parts into which its constraint solver divides `area`.
///
/// Where the solver puts the cut depends on how it weighs the constraints,
/// and ratatui calls some such results indeterminate, so the contract says
/// only what holds of every outcome. Every part is made by `changes_to_rects`
/// with the position and size across the axis copied from the area (the
/// margin being zero), and with its start and end along the axis rounded
/// from solver variables that the required constraints of `try_split` keep
/// between the area's start and end, the end no less than the start.
///
/// The source panics only when the solver reports an error. The solver
/// reports one for a required constraint that cannot be met, or for an
/// unbounded objective; the required constraints here (the area's two ends,
/// every variable within them, every part's start before its end) can all
/// be met at once, and they bound every variable, so the constraints these
/// layouts ask for are never refused.
#[verifier::external_body]
fn split_area(area: Area, axis: Axis, first: Extent, second: Extent) -> (parts: (Area, Area))
    ensures
        solved_split(area, axis, first, second, parts),
        part_of(parts.0, area, axis),
        part_of(parts.1, area, axis),
{
    let c = |e: Extent| match e {
        Extent::Percentage(p) => Constraint::Percentage(p),
        Extent::Min(m) => Constraint::Min(m),
        Extent::Length(l) => Constraint::Length(l),
    };
    let d = match axis {
        Axis::Horizontal => Direction::Horizontal,
        Axis::Vertical => Direction::Vertical,
    };
    let r = Rect { x: area.x, y: area.y, width: area.width, height: area.height };
    let [a, b] = Layout::new(d, [c(first), c(second)]).areas(r);
    (Area { x: a.x, y: a.y, width: a.width, height: a.height }, Area { x: b.x, y: b.y, width: b.width, height: b.height })
}

/// The places of the panes on the screen.
#[derive(Debug, Clone, Copy, PartialEq, Eq, Structural)]
pub struct ScreenAreas {
    /// The gutter that marks the line cursor, left of the file view.
    pub gutter: Area,
    /// The file view.
    pub text: Area,
    /// The fuzzy search box, below the file view.
    pub search: Area,
    /// The chat view.
    pub chat: Area,
    /// The prompt box, below the chat view.
    pub prompt: Area,
}

/// The whole screen of `width` by `height` cells.
pub open spec fn screen(width: u16, height: u16) -> Area {
    Area { x: 0, y: 0, width, height }
}

/// Whether `a` is a division of the screen of `width` by `height` cells as
/// chap makes it, each cut being an outcome of the layout solver for what
/// chap asks of it: the screen into two columns side by side, asking for
/// 60 and 40 percent; each column into a text part above, asking for at
/// least 3 rows, and an input box below, asking for exactly 2; the left
/// column's text part into the gutter and the file view side by side, and
/// its input row into a cell and the search box, each asking for exactly
/// 1 column and then all of it; the right column's parts being the chat
/// view and the prompt box.
pub open spec fn divides_screen(
    width: u16,
    height: u16,
    a: ScreenAreas,
    columns: (Area, Area),
    left: (Area, Area),
    right: (Area, Area),
    corner: Area,
) -> bool {
    &&& solved_split(
        screen(width, height),
        Axis::Horizontal,
        Extent::Percentage(60),
        Extent::Percentage(40),
        columns,
    )
    &&& solved_split(columns.0, Axis::Vertical, Extent::Min(3), Extent::Length(2), left)
    &&& solved_split(columns.1, Axis::Vertical, Extent::Min(3), Extent::Length(2), right)
    &&& solved_split(
        left.0,
        Axis::Horizontal,
        Extent::Length(1),
        Extent::Percentage(100),
        (a.gutter, a.text),
    )
    &&& solved_split(
        left.1,
        Axis::Horizontal,
        Extent::Length(1),
        Extent::Percentage(100),
        (corner, a.search),
    )
    &&& part_of(columns.0, screen(width, height), Axis::Horizontal)
    &&& part_of(columns.1, screen(width, height), Axis::Horizontal)
    &&& part_of(left.0, columns.0, Axis::Vertical)
    &&& part_of(left.1, columns.0, Axis::Vertical)
    &&& part_of(right.0, columns.1, Axis::Vertical)
    &&& part_of(right.1, columns.1, Axis::Vertical)
    &&& part_of(a.gutter, left.0, Axis::Horizontal)
    &&& part_of(a.text, left.0, Axis::Horizontal)
    &&& part_of(corner, left.1, Axis::Horizontal)
    &&& part_of(a.search, left.1, Axis::Horizontal)
    &&& a.chat == right.0
    &&& a.prompt == right.1
}

/// Whether `a` is some division of the screen as chap makes it.
pub open spec fn screen_division(width: u16, height: u16, a: ScreenAreas) -> bool {
    exists|columns: (Area, Area), left: (Area, Area), right: (Area, Area), corner: Area|
        divides_screen(width, height, a, columns, left, right, corner)
}

/// Whether `inner` lies within `outer`.
pub open spec fn within(inner: Area, outer: Area) -> bool {
    &&& outer.x <= inner.x
    &&& inner.x + inner.width <= outer.x + outer.width
    &&& outer.y <= inner.y
    &&& inner.y + inner.height <= outer.y + outer.height
}

proof fn lemma_part_within(part: Area, area: Area, axis: Axis)
    requires
        part_of(part, area, axis),
        area.x + area.width <= u16::MAX,
        area.y + area.height <= u16::MAX,
    ensures
        within(part, area),
{
}

/// However the solver places the cuts, every pane lies within the screen,
/// the gutter and the file view share their rows, the search box lies on
/// rows below them, and the chat view and the prompt box span the same
/// columns.
pub proof fn lemma_panes_on_screen(width: u16, height: u16, a: ScreenAreas)
    requires
        screen_division(width, height, a),
    ensures
        within(a.gutter, screen(width, height)),
        within(a.text, screen(width, height)),
        within(a.search, screen(width, height)),
        within(a.chat, screen(width, height)),
        within(a.prompt, screen(width, height)),
        a.gutter.y == a.text.y && a.gutter.height == a.text.height,
        a.chat.x == a.prompt.x && a.chat.width == a.prompt.width,
{
    let (columns, left, right, corner) = choose|
        columns: (Area, Area),
        left: (Area, Area),
        right: (Area, Area),
        corner: Area,
    | divides_screen(width, height, a, columns, left, right, corner);
    let s = screen(width, height);
    lemma_part_within(columns.0, s, Axis::Horizontal);
    lemma_part_within(columns.1, s, Axis::Horizontal);
    lemma_part_within(left.0, columns.0, Axis::Vertical);
    lemma_part_within(left.1, columns.0, Axis::Vertical);
    lemma_part_within(right.0, columns.1, Axis::Vertical);
    lemma_part_within(right.1, columns.1, Axis::Vertical);
    lemma_part_within(a.gutter, left.0, Axis::Horizontal);
    lemma_part_within(a.text, left.0, Axis::Horizontal);
    lemma_part_within(a.search, left.1, Axis::Horizontal);
}

/// Divides a screen of `width` by `height` cells into the places of the
/// panes.
pub fn screen_areas(width: u16, height: u16) -> (a: ScreenAreas)
    ensures
        screen_division(width, height, a),
{
    let rect = Area { x: 0, y: 0, width, height };
    let chunks = split_area(rect, Axis::Horizontal, Extent::Percentage(60), Extent::Percentage(40));
    let left_chunks = split_area(chunks.0, Axis::Vertical, Extent::Min(3), Extent::Length(2));
    let right_chunks = split_area(chunks.1, Axis::Vertical, Extent::Min(3), Extent::Length(2));
    let nav_text_chunks = split_area(
        left_chunks.0,
        Axis::Horizontal,
        Extent::Length(1),
        Extent::Percentage(100),
    );
    let search_chunks = split_area(
        left_chunks.1,
        Axis::Horizontal,
        Extent::Length(1),
        Extent::Percentage(100),
    );
    let a = ScreenAreas {
        gutter: nav_text_chunks.0,
        text: nav_text_chunks.1,
        search: search_chunks.1,
        chat: right_chunks.0,
        prompt: right_chunks.1,
    };
    assert(divides_screen(width, height, a, chunks, left_chunks, right_chunks, search_chunks.0));
    a
}

/// The rows of text that the file view and the chat view show on a screen
/// `height` rows high: all but two.
pub open spec fn text_rows(height: u16) -> usize {
    (height - 2) as usize
}

/// The columns of text that the file view shows on a screen `width`
/// columns wide: three fifths of them, rounded down, less three.
pub open spec fn text_columns(width: u16) -> usize {
    (width * 3 / 5 - 3) as usize
}

/// The columns of text that the chat view shows on a screen `width`
/// columns wide: two fifths of them, rounded down, less three.
pub open spec fn chat_columns(width: u16) -> usize {
    (width * 2 / 5 - 3) as usize
}

/// The last row that the line cursor can reach on a screen `height` rows
/// high, counted from zero.
pub open spec fn last_row(height: u16) -> usize {
    (height - 3) as usize
}

/// Whether a screen is large enough for the panes: eight columns and three
/// rows at least.
pub open spec fn screen_fits(width: u16, height: u16) -> bool {
    width >= 8 && height >= 3
}

} // verus!
