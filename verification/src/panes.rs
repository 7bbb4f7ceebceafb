use vstd::prelude::*;

verus! {

/// A rectangle of terminal cells: its top-left corner and its size.
#[derive(Debug, Clone, Copy, PartialEq, Eq, Structural)]
pub struct Area {
    pub x: u16,
    pub y: u16,
    pub width: u16,
    pub height: u16,
}

/// The gutter beside the file view: the row of the line cursor, the rows it
/// may move between, and the range of file lines selected for a prompt.
#[derive(Debug, Clone, Copy)]
pub struct Navigation {
    pub min_line: usize,
    pub max_line: usize,
    pub cur_line: usize,
    pub select_line: Option<(usize, usize)>,
    pub rect: Area,
}

impl Navigation {
    /// The line cursor lies between the first and the last row.
    pub open spec fn within_rows(self) -> bool {
        self.min_line <= self.cur_line <= self.max_line
    }

    /// The same gutter with the cursor on row `row`.
    pub open spec fn at_row(self, row: usize) -> Navigation {
        Navigation { cur_line: row, ..self }
    }

    /// The gutter after moving the cursor one row down, unless it is on the
    /// last row.
    pub open spec fn row_below(self) -> Navigation {
        if self.cur_line < self.max_line {
            self.at_row((self.cur_line + 1) as usize)
        } else {
            self
        }
    }

    /// The gutter after moving the cursor one row up, unless it is on the
    /// first row.
    pub open spec fn row_above(self) -> Navigation {
        if self.cur_line > self.min_line {
            self.at_row((self.cur_line - 1) as usize)
        } else {
            self
        }
    }

    pub fn get_rect(&self) -> (r: Area)
        ensures
            r == self.rect,
    {
        self.rect
    }

    /// Whether the cursor is on the first row.
    pub fn is_top(&self) -> (b: bool)
        ensures
            b == (self.cur_line == self.min_line),
    {
        self.cur_line == self.min_line
    }

    /// Whether the cursor is on the last row.
    pub fn is_bottom(&self) -> (b: bool)
        ensures
            b == (self.cur_line == self.max_line),
    {
        self.cur_line == self.max_line
    }

    /// Moves the cursor one row down, unless it is on the last row.
    pub fn down_line(&mut self)
        ensures
            *final(self) == old(self).row_below(),
    {
        if self.cur_line < self.max_line {
            self.cur_line += 1;
        }
    }

    /// Moves the cursor one row up, unless it is on the first row.
    pub fn up_line(&mut self)
        ensures
            *final(self) == old(self).row_above(),
    {
        if self.cur_line > self.min_line {
            self.cur_line -= 1;
        }
    }

    pub fn get_cur_line(&self) -> (l: usize)
        ensures
            l == self.cur_line,
    {
        self.cur_line
    }

    /// Moves the cursor to the first row.
    pub fn to_min_line(&mut self)
        ensures
            *final(self) == old(self).at_row(old(self).min_line),
    {
        self.cur_line = self.min_line
    }

    /// Moves the cursor to the last row.
    pub fn to_max_line(&mut self)
        ensures
            *final(self) == old(self).at_row(old(self).max_line),
    {
        self.cur_line = self.max_line
    }

    pub fn set_cur_line(&mut self, cur_line: usize)
        ensures
            *final(self) == old(self).at_row(cur_line),
    {
        self.cur_line = cur_line
    }
}

/// A cursor that starts between the first and the last row stays there
/// whichever way it is moved; moving down from above the last row and then
/// up again, or up from below the first row and then down again, brings it
/// back to the row it left.
pub proof fn lemma_navigation_rows(n: Navigation)
    requires
        n.within_rows(),
    ensures
        n.row_below().within_rows(),
        n.row_above().within_rows(),
        n.at_row(n.min_line).within_rows(),
        n.at_row(n.max_line).within_rows(),
        n.cur_line < n.max_line ==> n.row_below().row_above() == n,
        n.cur_line > n.min_line ==> n.row_above().row_below() == n,
{
}

/// The gutter after the cursor is moved `k` rows down, one at a time.
pub open spec fn rows_below(n: Navigation, k: nat) -> Navigation
    decreases k,
{
    if k == 0 {
        n
    } else {
        rows_below(n, (k - 1) as nat).row_below()
    }
}

/// The gutter after the cursor is moved `k` rows up, one at a time.
pub open spec fn rows_above(n: Navigation, k: nat) -> Navigation
    decreases k,
{
    if k == 0 {
        n
    } else {
        rows_above(n, (k - 1) as nat).row_above()
    }
}

/// Moving the cursor down `k` times from a row not past the last takes it
/// `k` rows down, but no further than the last row; moving it up `k` times
/// from a row not before the first takes it `k` rows up, but no further
/// than the first row. Nothing else changes.
pub proof fn lemma_navigation_moves(n: Navigation, k: nat)
    ensures
        n.cur_line <= n.max_line ==> rows_below(n, k) == n.at_row(
            smaller(n.cur_line + k, n.max_line as int) as usize,
        ),
        n.cur_line >= n.min_line ==> rows_above(n, k) == n.at_row(
            larger(n.cur_line - k, n.min_line as int) as usize,
        ),
    decreases k,
{
    if k > 0 {
        lemma_navigation_moves(n, (k - 1) as nat);
    }
}

/// The larger of two numbers.
pub open spec fn larger(a: int, b: int) -> int {
    if a > b {
        a
    } else {
        b
    }
}

/// The smaller of two numbers.
pub open spec fn smaller(a: int, b: int) -> int {
    if a < b {
        a
    } else {
        b
    }
}

/// The scroll position one line up: one less, but never below the first line.
pub open spec fn scroll_up_line(scroll: usize) -> usize {
    larger(scroll - 1, 1) as usize
}

/// The scroll position one line down: one more, unless a limit is known and
/// the position is already past it.
pub open spec fn scroll_down_line(scroll: usize, max_num: Option<usize>) -> usize {
    match max_num {
        Some(m) => if scroll <= m {
            (scroll + 1) as usize
        } else {
            scroll
        },
        None => (scroll + 1) as usize,
    }
}

/// Whether moving one line down from `scroll` stays within `usize`.
pub open spec fn can_scroll_down_line(scroll: usize, max_num: Option<usize>) -> bool {
    match max_num {
        Some(m) => scroll <= m ==> scroll < usize::MAX,
        None => scroll < usize::MAX,
    }
}

/// The scroll position one page of `height` lines up, never above the first
/// line.
pub open spec fn scroll_up_page(scroll: usize, height: usize) -> usize {
    if scroll > height {
        larger(scroll - height, 1) as usize
    } else {
        1
    }
}

/// The scroll position of the file view one page of `height` lines down:
/// when a limit is known, no further than the limit and never above the
/// first line.
pub open spec fn scroll_down_page(scroll: usize, height: usize, max_num: Option<usize>) -> usize {
    match max_num {
        Some(m) => larger(smaller(scroll + height, m as int), 1) as usize,
        None => (scroll + height) as usize,
    }
}

/// The view of a text: the size of the space it is shown in and the number
/// of the first line shown, counted from one.
#[derive(Debug, Clone, Copy)]
pub struct TextView {
    pub height: usize,
    pub width: usize,
    pub scroll: usize,
    pub rect: Area,
}

impl TextView {
    /// The same view scrolled to `scroll`.
    pub open spec fn scrolled_to(self, scroll: usize) -> TextView {
        TextView { scroll, ..self }
    }

    pub fn get_rect(&self) -> (r: Area)
        ensures
            r == self.rect,
    {
        self.rect
    }

    pub fn get_height(&self) -> (h: usize)
        ensures
            h == self.height,
    {
        self.height
    }

    pub fn get_width(&self) -> (w: usize)
        ensures
            w == self.width,
    {
        self.width
    }

    pub fn get_scroll(&self) -> (s: usize)
        ensures
            s == self.scroll,
    {
        self.scroll
    }

    pub fn set_scroll(&mut self, scroll: usize)
        ensures
            *final(self) == old(self).scrolled_to(scroll),
    {
        self.scroll = scroll
    }

    /// Scrolls one line up, never above the first line.
    pub fn up_line(&mut self)
        requires
            old(self).scroll >= 1,
        ensures
            *final(self) == old(self).scrolled_to(scroll_up_line(old(self).scroll)),
    {
        let s = self.scroll - 1;
        self.scroll = if s > 1 { s } else { 1 };
    }

    /// Scrolls one line down; with a known limit `max_num`, only while the
    /// first line shown is not past it.
    pub fn down_line(&mut self, max_num: Option<usize>)
        requires
            can_scroll_down_line(old(self).scroll, max_num),
        ensures
            *final(self) == old(self).scrolled_to(scroll_down_line(old(self).scroll, max_num)),
    {
        if let Some(max_scroll_num) = max_num {
            if self.scroll <= max_scroll_num {
                self.scroll += 1;
            }
        } else {
            self.scroll += 1;
        }
    }

    /// Scrolls one page up, never above the first line.
    pub fn up_page(&mut self)
        ensures
            *final(self) == old(self).scrolled_to(scroll_up_page(old(self).scroll, old(self).height)),
    {
        if self.scroll > self.height {
            let s = self.scroll - self.height;
            self.scroll = if s > 1 { s } else { 1 };
        } else {
            self.scroll = 1;
        }
    }

    /// Scrolls one page down; with a known limit, to no further than the
    /// limit and never above the first line.
    pub fn down_page(&mut self, max_num: Option<usize>)
        requires
            old(self).scroll + old(self).height <= usize::MAX,
        ensures
            *final(self) == old(self).scrolled_to(
                scroll_down_page(old(self).scroll, old(self).height, max_num),
            ),
    {
        if let Some(max_scroll_num) = max_num {
            let s = self.scroll + self.height;
            let s = if s < max_scroll_num { s } else { max_scroll_num };
            self.scroll = if s > 1 { s } else { 1 };
        } else {
            self.scroll += self.height;
        }
    }
}

/// Scrolling the file view up by a line or a page, or down by a page to a
/// known limit, never leaves it above the first line; a page down to a known
/// limit of at least one line never goes past that limit.
pub proof fn lemma_scroll_stays_on_text(scroll: usize, height: usize, m: usize)
    requires
        scroll >= 1,
        scroll + height <= usize::MAX,
    ensures
        scroll_up_line(scroll) >= 1,
        scroll_up_page(scroll, height) >= 1,
        scroll_down_page(scroll, height, Some(m)) >= 1,
        m >= 1 ==> scroll_down_page(scroll, height, Some(m)) <= m,
        scroll_up_page(scroll, height) <= scroll,
        scroll_up_line(scroll) <= scroll,
{
}

/// What each scroll of the file view does to the first line shown: a line
/// up takes one off, but stops at line one; a line down adds one while the
/// known limit is not passed and stays put past it; a page up takes a page
/// off, but stops at line one; a page down with a known limit adds a page
/// but stops at the limit (and at line one), and without a limit adds a
/// page.
pub proof fn lemma_scroll_steps(scroll: usize, height: usize, m: usize)
    ensures
        scroll >= 2 ==> scroll_up_line(scroll) == scroll - 1,
        scroll <= 1 ==> scroll_up_line(scroll) == 1,
        scroll <= m && scroll < usize::MAX ==> scroll_down_line(scroll, Some(m)) == scroll + 1,
        scroll > m ==> scroll_down_line(scroll, Some(m)) == scroll,
        scroll < usize::MAX ==> scroll_down_line(scroll, None) == scroll + 1,
        scroll > height && scroll - height >= 1 ==> scroll_up_page(scroll, height) == scroll - height,
        scroll <= height + 1 ==> scroll_up_page(scroll, height) == 1,
        1 <= scroll + height <= usize::MAX && m >= 1 ==> scroll_down_page(scroll, height, Some(m)) == (
        if scroll + height <= m {
            scroll + height
        } else {
            m as int
        }),
        scroll + height <= usize::MAX && scroll + height >= 1 ==> scroll_down_page(scroll, height, Some(0)) == 1,
        scroll + height <= usize::MAX ==> scroll_down_page(scroll, height, None) == scroll + height,
{
}

/// The scroll position of the chat text one page of `height` lines down:
/// no further than a known limit; without one, a page less one line.
pub open spec fn chat_scroll_down_page(scroll: usize, height: usize, max_num: Option<usize>) -> usize {
    match max_num {
        Some(m) => smaller(scroll + height, m as int) as usize,
        None => (scroll + height - 1) as usize,
    }
}

/// The view of the chat text, with the same measures as a `TextView`.
#[derive(Debug, Clone, Copy)]
pub struct ChatText {
    pub height: usize,
    pub width: usize,
    pub scroll: usize,
    pub rect: Area,
}

impl ChatText {
    /// The same view scrolled to `scroll`.
    pub open spec fn scrolled_to(self, scroll: usize) -> ChatText {
        ChatText { scroll, ..self }
    }

    pub fn get_rect(&self) -> (r: Area)
        ensures
            r == self.rect,
    {
        self.rect
    }

    pub fn get_height(&self) -> (h: usize)
        ensures
            h == self.height,
    {
        self.height
    }

    pub fn get_width(&self) -> (w: usize)
        ensures
            w == self.width,
    {
        self.width
    }

    pub fn get_scroll(&self) -> (s: usize)
        ensures
            s == self.scroll,
    {
        self.scroll
    }

    pub fn set_scroll(&mut self, scroll: usize)
        ensures
            *final(self) == old(self).scrolled_to(scroll),
    {
        self.scroll = scroll
    }

    /// Scrolls one line up, never above the first line.
    pub fn up_line(&mut self)
        requires
            old(self).scroll >= 1,
        ensures
            *final(self) == old(self).scrolled_to(scroll_up_line(old(self).scroll)),
    {
        let s = self.scroll - 1;
        self.scroll = if s > 1 { s } else { 1 };
    }

    /// Scrolls one line down; with a known limit `max_num`, only while the
    /// first line shown is not past it.
    pub fn down_line(&mut self, max_num: Option<usize>)
        requires
            can_scroll_down_line(old(self).scroll, max_num),
        ensures
            *final(self) == old(self).scrolled_to(scroll_down_line(old(self).scroll, max_num)),
    {
        if let Some(max_scroll_num) = max_num {
            if self.scroll <= max_scroll_num {
                self.scroll += 1;
            }
        } else {
            self.scroll += 1;
        }
    }

    /// Scrolls one page up, never above the first line.
    pub fn up_page(&mut self)
        ensures
            *final(self) == old(self).scrolled_to(scroll_up_page(old(self).scroll, old(self).height)),
    {
        if self.scroll > self.height {
            let s = self.scroll - self.height;
            self.scroll = if s > 1 { s } else { 1 };
        } else {
            self.scroll = 1;
        }
    }

    /// Scrolls one page down: to no further than a known limit, or else by a
    /// page less one line.
    pub fn down_page(&mut self, max_num: Option<usize>)
        requires
            old(self).scroll + old(self).height <= usize::MAX,
            max_num is None ==> old(self).height >= 1,
        ensures
            *final(self) == old(self).scrolled_to(
                chat_scroll_down_page(old(self).scroll, old(self).height, max_num),
            ),
    {
        if let Some(max_scroll_num) = max_num {
            let s = self.scroll + self.height;
            self.scroll = if s < max_scroll_num { s } else { max_scroll_num };
        } else {
            self.scroll += self.height - 1;
        }
    }
}

/// What a page down does to the chat text's first line shown: with a known
/// limit, a page on but no further than the limit; without one, a page less
/// one line.
pub proof fn lemma_chat_page_down(scroll: usize, height: usize, m: usize)
    ensures
        scroll + height <= usize::MAX ==> chat_scroll_down_page(scroll, height, Some(m)) == (if scroll
            + height <= m {
            scroll + height
        } else {
            m as int
        }),
        scroll + height <= usize::MAX && height >= 1 ==> chat_scroll_down_page(scroll, height, None)
            == scroll + height - 1,
{
}

} // verus!
