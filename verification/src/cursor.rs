use vstd::prelude::*;

use crate::panes::Area;
use unicode_width::UnicodeWidthStr;

verus! {

/// The number of terminal columns that a string takes when shown, as
/// `UnicodeWidthStr::width` measures it.
pub uninterp spec fn display_width(s: Seq<char>) -> usize;

/// `UnicodeWidthStr::width`: the displayed width of `s` in columns. Its
/// rules fill pages of the crate's documentation, so the result is given the
/// name `display_width`; the source sums over the chars of the string, so an
/// empty string has width zero.
#[verifier::external_body]
fn str_width(s: &str) -> (w: usize)
    ensures
        w == display_width(s@),
        s@.len() == 0 ==> w == 0,
{
    s.width()
}

/// A cell of the terminal.
#[derive(Debug, Clone, Copy, PartialEq, Eq, Structural)]
pub struct CursorPos {
    pub x: u16,
    pub y: u16,
}

/// Where the cursor stands in an input box at `rect` that holds text
/// `width` columns wide: on the row below the box's top border, two columns
/// in when the box is empty, and one column past the text otherwise (the
/// width being taken in 16 bits).
pub open spec fn cursor_spot(rect: Area, width: usize) -> CursorPos {
    CursorPos {
        x: if width == 0 {
            (rect.x + 2) as u16
        } else {
            (rect.x + (width as u16) + 1) as u16
        },
        y: (rect.y + 1) as u16,
    }
}

/// Whether the cursor spot of a box at `rect` holding text `width` columns
/// wide lies within the 16-bit coordinates of the terminal.
pub open spec fn cursor_fits(rect: Area, width: usize) -> bool {
    &&& rect.y + 1 <= u16::MAX
    &&& width == 0 ==> rect.x + 2 <= u16::MAX
    &&& width != 0 ==> rect.x + (width as u16) + 1 <= u16::MAX
}

/// The cursor stands one row below the box's top; two columns right of
/// the box's left edge when the box is empty, and otherwise one column
/// past the text, counted from the left edge.
pub proof fn lemma_cursor_spot(rect: Area, width: usize)
    requires
        cursor_fits(rect, width),
    ensures
        cursor_spot(rect, width).y == rect.y + 1,
        width == 0 ==> cursor_spot(rect, width).x == rect.x + 2,
        0 < width <= u16::MAX ==> cursor_spot(rect, width).x == rect.x + width + 1,
{
    if 0 < width <= u16::MAX {
        assert((width as u16) == width);
    }
}

/// The cursor spot of an input box at `rect` holding text `width` columns
/// wide.
pub fn cursor_position(rect: Area, width: usize) -> (p: CursorPos)
    requires
        cursor_fits(rect, width),
    ensures
        p == cursor_spot(rect, width),
{
    let x = if width == 0 {
        rect.x + 2
    } else {
        rect.x + width as u16 + 1
    };
    let y = rect.y + 1;
    CursorPos { x, y }
}

/// The cursor spot of an input box at `rect` holding `input`, or `None`
/// when it would lie beyond the 16-bit coordinates of the terminal.
pub fn input_cursor(rect: Area, input: &str) -> (p: Option<CursorPos>)
    ensures
        p == if cursor_fits(rect, display_width(input@)) {
            Some(cursor_spot(rect, display_width(input@)))
        } else {
            None::<CursorPos>
        },
        input@.len() == 0 && rect.x + 2 <= u16::MAX && rect.y + 1 <= u16::MAX ==> p == Some(
            CursorPos { x: (rect.x + 2) as u16, y: (rect.y + 1) as u16 },
        ),
{
    let w = str_width(input);
    if rect.y < u16::MAX && ((w == 0 && rect.x <= u16::MAX - 2) || (w != 0 && (w as u16) < u16::MAX
        && rect.x <= u16::MAX - 1 - (w as u16))) {
        Some(cursor_position(rect, w))
    } else {
        None
    }
}

} // verus!
