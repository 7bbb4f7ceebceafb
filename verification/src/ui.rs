use vstd::prelude::*;

use crate::chat::{ChatItemIndex, ChatType};
use crate::focus::{Focus, FocusType};
use crate::input::{ChatInput, FuzzyInput};
use crate::layout::{
    chat_columns, last_row, screen_areas, screen_division, screen_fits, text_columns, text_rows,
    ScreenAreas,
};
use crate::panes::{
    can_scroll_down_line, larger, scroll_down_line, scroll_down_page, scroll_up_line,
    scroll_up_page, Area, Navigation, TextView,
};

verus! {

/// The key of a key press.
#[derive(Debug, Clone, Copy, PartialEq, Eq, Structural)]
pub enum KeyCode {
    Esc,
    Tab,
    Enter,
    Up,
    Down,
    Backspace,
    Char(char),
    /// Any other key.
    Other,
}

/// The modifier keys held during a key press: Shift alone, Control alone,
/// or any other combination, none included.
#[derive(Debug, Clone, Copy, PartialEq, Eq, Structural)]
pub enum Modifiers {
    Shift,
    Control,
    Other,
}

/// A key press.
#[derive(Debug, Clone, Copy, PartialEq, Eq, Structural)]
pub struct KeyPress {
    pub code: KeyCode,
    pub modifiers: Modifiers,
}

/// What the screen last drawn and the text engines tell about the texts when
/// a key is pressed: the file line number of each row of the file view, and
/// how far the file text and the chat text can scroll, when that is known.
#[derive(Debug)]
pub struct FrameInfo {
    pub line_nums: Vec<usize>,
    pub max_scroll: Option<usize>,
    pub chat_max_scroll: Option<usize>,
}

/// What is to happen after a key press.
#[derive(Debug, Clone, Copy, PartialEq, Eq, Structural)]
pub enum Step {
    /// Draw the screen again.
    Redraw,
    /// Keep waiting for the next event without drawing.
    Idle,
    /// Search the prompt store for what the prompt box and the selected
    /// lines ask, record each answer found, then draw again.
    Search,
    /// Compose the prompt from the prompt box and the selected lines and,
    /// unless it is blank, record and send it, then draw again.
    Prompt,
    /// Leave the screen, printing the chat entry given, if any.
    Exit(Option<ChatItemIndex>),
    /// Leave the screen.
    Quit,
}

/// The user interface: its panes, where the focus is, and which entry of
/// the chat the chat view follows.
pub struct ChapUI {
    pub navi: Navigation,
    pub tv: TextView,
    pub fuzzy_inp: FuzzyInput,
    pub chat_tv: TextView,
    pub chat_inp: ChatInput,
    pub focus: Focus,
    /// The chat entry that the chat view follows.
    pub chat_index: usize,
    /// The chat line that the chat view was last scrolled to by entry.
    pub chat_scroll: usize,
    /// The lines of each entry of the chat, in order.
    pub chat_item: Vec<ChatItemIndex>,
    pub chat_type: ChatType,
}

/// The user interface as a value.
pub struct UiState {
    pub navi: Navigation,
    pub tv: TextView,
    pub chat_tv: TextView,
    pub focus: FocusType,
    pub fuzzy: Seq<char>,
    pub fuzzy_rect: Area,
    pub chat_input: Seq<char>,
    pub chat_rect: Area,
    pub chat_index: usize,
    pub chat_scroll: usize,
    pub chat_item: Seq<ChatItemIndex>,
    pub chat_type: ChatType,
}

impl View for ChapUI {
    type V = UiState;

    open spec fn view(&self) -> UiState {
        UiState {
            navi: self.navi,
            tv: self.tv,
            chat_tv: self.chat_tv,
            focus: self.focus@,
            fuzzy: self.fuzzy_inp.input@,
            fuzzy_rect: self.fuzzy_inp.rect,
            chat_input: self.chat_inp.input@,
            chat_rect: self.chat_inp.rect,
            chat_index: self.chat_index,
            chat_scroll: self.chat_scroll,
            chat_item: self.chat_item@,
            chat_type: self.chat_type,
        }
    }
}

impl UiState {
    /// The entry that the chat view follows is one of the chat's entries,
    /// or the first to come while there are none.
    pub open spec fn wf(self) -> bool {
        if self.chat_item.len() > 0 {
            self.chat_index < self.chat_item.len()
        } else {
            self.chat_index == 0
        }
    }
}

/// `a - b`, or zero when `b` is larger.
pub open spec fn minus_or_zero(a: usize, b: usize) -> usize {
    if a >= b {
        (a - b) as usize
    } else {
        0
    }
}

/// The selection after the selection cursor moved down to file line `sel`:
/// a first selection starts on the line above; a selection ending on `sel`
/// is kept, or, when the file's scroll limit is unknown, shrinks to `sel`;
/// a selection that `sel` lies after grows to it; a selection that `sel`
/// lies inside loses the lines above `sel`.
pub open spec fn select_down(
    select: Option<(usize, usize)>,
    sel: usize,
    max_scroll: Option<usize>,
) -> Option<(usize, usize)> {
    match select {
        Some((st, en)) => if sel == en {
            match max_scroll {
                Some(m) => if sel == m {
                    Some((st, sel))
                } else {
                    select
                },
                None => Some((sel, sel)),
            }
        } else if sel > st && sel > en {
            Some((st, sel))
        } else if sel > st && sel < en {
            Some((sel, en))
        } else {
            select
        },
        None => Some(((sel - 1) as usize, (sel - 1) as usize)),
    }
}

/// The selection after the selection cursor moved up to file line `sel`:
/// a first selection starts on the line below; a selection starting on
/// `sel` shrinks to it unless `sel` is the first line; a selection that
/// `sel` lies inside loses the lines below `sel`; a selection that `sel`
/// lies before grows to it.
pub open spec fn select_up(select: Option<(usize, usize)>, sel: usize) -> Option<(usize, usize)> {
    match select {
        Some((st, en)) => if sel == st {
            if sel == 1 {
                select
            } else {
                Some((sel, sel))
            }
        } else if sel > st && sel < en {
            Some((st, sel))
        } else if sel < st {
            Some((sel, en))
        } else {
            select
        },
        None => Some(((sel + 1) as usize, (sel + 1) as usize)),
    }
}

impl UiState {
    pub open spec fn with_select(self, select: Option<(usize, usize)>) -> UiState {
        UiState { navi: Navigation { select_line: select, ..self.navi }, ..self }
    }

    pub open spec fn with_tv_scroll(self, scroll: usize) -> UiState {
        UiState { tv: self.tv.scrolled_to(scroll), ..self }
    }

    /// The chat view scrolled to chat line `scroll`, remembered as the
    /// scroll by entry.
    pub open spec fn with_chat_scroll(self, scroll: usize) -> UiState {
        UiState { chat_scroll: scroll, chat_tv: self.chat_tv.scrolled_to(scroll), ..self }
    }

    /// Esc: both input boxes emptied and the selection dropped.
    pub open spec fn escaped(self) -> UiState {
        UiState { fuzzy: Seq::empty(), chat_input: Seq::empty(), ..self }.with_select(None)
    }

    /// The file line that Shift with Down selects when the line cursor is
    /// on the last row: the line past the page after one line of scrolling.
    pub open spec fn page_end_after_scroll(self, max_scroll: Option<usize>) -> int {
        scroll_down_line(self.tv.scroll, max_scroll) + self.tv.height
    }

    /// Shift with Down on the file: the file scrolls a line when the line
    /// cursor is on the last row, the cursor moves a row down otherwise, and
    /// the selection follows the line reached.
    pub open spec fn select_line_down(self, info: FrameInfo) -> UiState {
        if self.navi.cur_line == self.navi.max_line {
            let moved = self.with_tv_scroll(scroll_down_line(self.tv.scroll, info.max_scroll));
            let sel = self.page_end_after_scroll(info.max_scroll) as usize;
            moved.with_select(select_down(self.navi.select_line, sel, info.max_scroll))
        } else {
            let moved = UiState { navi: self.navi.row_below(), ..self };
            let cur = moved.navi.cur_line;
            if cur >= info.line_nums@.len() {
                moved
            } else {
                moved.with_select(
                    select_down(self.navi.select_line, info.line_nums@[cur as int], info.max_scroll),
                )
            }
        }
    }

    /// Shift with Up on the file: the file scrolls a line up when the line
    /// cursor is on the first row, the cursor moves a row up otherwise, and
    /// the selection follows the line reached.
    pub open spec fn select_line_up(self, info: FrameInfo) -> UiState {
        if self.navi.cur_line == self.navi.min_line {
            let scroll = scroll_up_line(self.tv.scroll);
            let moved = self.with_tv_scroll(scroll);
            let sel = larger(scroll - 1, 1) as usize;
            moved.with_select(select_up(self.navi.select_line, sel))
        } else {
            let moved = UiState { navi: self.navi.row_above(), ..self };
            let cur = moved.navi.cur_line;
            if cur >= info.line_nums@.len() {
                moved
            } else {
                moved.with_select(select_up(self.navi.select_line, info.line_nums@[cur as int]))
            }
        }
    }

    /// Up on the chat: back a page within the followed entry, or to the
    /// start of the entry before when already at the start of this one.
    pub open spec fn chat_back(self) -> UiState {
        let start = self.chat_item[self.chat_index as int].0;
        let pre = larger(minus_or_zero(self.chat_scroll, self.chat_tv.height) as int, 1) as usize;
        if pre >= start {
            self.with_chat_scroll(pre)
        } else if self.chat_scroll <= start {
            let idx = minus_or_zero(self.chat_index, 1);
            UiState { chat_index: idx, ..self }.with_chat_scroll(self.chat_item[idx as int].0)
        } else {
            self.with_chat_scroll(start)
        }
    }

    /// Down on the chat: to the start of the followed entry when above it,
    /// on a page when the entry goes on for a page more, and else to the
    /// start of the next entry, if there is one.
    pub open spec fn chat_forward(self) -> UiState {
        let item = self.chat_item[self.chat_index as int];
        if self.chat_scroll < item.0 {
            self.with_chat_scroll(item.0)
        } else if self.chat_scroll + self.chat_tv.height <= item.1 {
            self.with_chat_scroll((self.chat_scroll + self.chat_tv.height) as usize)
        } else if self.chat_index + 1 <= self.chat_item.len() - 1 {
            let idx = (self.chat_index + 1) as usize;
            UiState { chat_index: idx, ..self }.with_chat_scroll(self.chat_item[idx as int].0)
        } else {
            self
        }
    }

    /// Enter on the file: with a selection made, the focus moves on three
    /// times; else the search box is emptied and the file view jumps to the
    /// line under the cursor, the cursor going to the first row.
    pub open spec fn enter_file(self, info: FrameInfo) -> UiState {
        if self.navi.select_line is Some {
            UiState { focus: self.focus.following().following().following(), ..self }
        } else {
            let cleared = UiState { fuzzy: Seq::empty(), ..self };
            let cur = self.navi.cur_line;
            if cur < info.line_nums@.len() {
                UiState {
                    navi: self.navi.at_row(self.navi.min_line),
                    ..cleared.with_tv_scroll(info.line_nums@[cur as int])
                }
            } else {
                cleared
            }
        }
    }

    /// The chat entry that Control with x prints, if the chat has any.
    pub open spec fn current_entry(self) -> Option<ChatItemIndex> {
        if self.chat_item.len() > 0 {
            Some(self.chat_item[self.chat_index as int])
        } else {
            None
        }
    }
}

/// Whether a key press can be handled without running outside the numbers
/// or outside the chat's entries.
pub open spec fn key_defined(s: UiState, p: KeyPress, info: FrameInfo) -> bool {
    let file = s.focus == FocusType::TxtFuzzy;
    match (p.code, p.modifiers) {
        (KeyCode::Down, Modifiers::Shift) => if file {
            if s.navi.cur_line == s.navi.max_line {
                &&& can_scroll_down_line(s.tv.scroll, info.max_scroll)
                &&& s.page_end_after_scroll(info.max_scroll) <= usize::MAX
                &&& s.navi.select_line is None ==> s.page_end_after_scroll(info.max_scroll) >= 1
            } else {
                let cur = s.navi.row_below().cur_line;
                cur < info.line_nums@.len() && s.navi.select_line is None ==> info.line_nums@[cur as int] >= 1
            }
        } else {
            can_scroll_down_line(s.chat_tv.scroll, info.chat_max_scroll)
        },
        (KeyCode::Up, Modifiers::Shift) => file ==> if s.navi.cur_line == s.navi.min_line {
            s.tv.scroll >= 1
        } else {
            let cur = s.navi.row_above().cur_line;
            cur < info.line_nums@.len() && s.navi.select_line is None ==> info.line_nums@[cur as int] < usize::MAX
        },
        (KeyCode::Down, Modifiers::Control) => file ==> s.tv.scroll + s.tv.height <= usize::MAX,
        (KeyCode::Up, Modifiers::Control) => true,
        (KeyCode::Up, _) => if file {
            s.navi.cur_line == s.navi.min_line ==> s.tv.scroll >= 1
        } else {
            s.chat_item.len() > 0
        },
        (KeyCode::Down, _) => if file {
            s.navi.cur_line == s.navi.max_line ==> can_scroll_down_line(s.tv.scroll, info.max_scroll)
        } else {
            s.chat_type == ChatType::ChatTv ==> {
                &&& s.chat_item.len() > 0
                &&& s.chat_scroll >= s.chat_item[s.chat_index as int].0 ==> s.chat_scroll + s.chat_tv.height <= usize::MAX
            }
        },
        _ => true,
    }
}

/// What a key press does: the interface after it and what is to happen
/// next.
pub open spec fn key_step(s: UiState, p: KeyPress, info: FrameInfo) -> (UiState, Step) {
    let file = s.focus == FocusType::TxtFuzzy;
    match (p.code, p.modifiers) {
        (KeyCode::Esc, _) => (s.escaped(), Step::Redraw),
        (KeyCode::Tab, _) => (UiState { focus: s.focus.following(), ..s }, Step::Redraw),
        (KeyCode::Char('s'), Modifiers::Control) => (
            s,
            if s.chat_input.len() == 0 {
                Step::Redraw
            } else {
                Step::Search
            },
        ),
        (KeyCode::Char('x'), Modifiers::Control) => (s, Step::Exit(s.current_entry())),
        (KeyCode::Char('c'), Modifiers::Control) => (s, Step::Quit),
        (KeyCode::Enter, _) => if file {
            (s.enter_file(info), Step::Redraw)
        } else {
            (
                s,
                if s.chat_input.len() == 0 {
                    Step::Redraw
                } else {
                    Step::Prompt
                },
            )
        },
        (KeyCode::Down, Modifiers::Shift) => if file {
            (s.select_line_down(info), Step::Redraw)
        } else {
            (
                UiState {
                    chat_tv: s.chat_tv.scrolled_to(scroll_down_line(s.chat_tv.scroll, info.chat_max_scroll)),
                    ..s
                },
                Step::Redraw,
            )
        },
        (KeyCode::Up, Modifiers::Shift) => if file {
            (s.select_line_up(info), Step::Redraw)
        } else {
            (s, Step::Redraw)
        },
        (KeyCode::Down, Modifiers::Control) => if file {
            (s.with_tv_scroll(scroll_down_page(s.tv.scroll, s.tv.height, info.max_scroll)), Step::Redraw)
        } else {
            (s, Step::Redraw)
        },
        (KeyCode::Up, Modifiers::Control) => if file {
            (s.with_tv_scroll(scroll_up_page(s.tv.scroll, s.tv.height)), Step::Redraw)
        } else {
            (s, Step::Redraw)
        },
        (KeyCode::Up, _) => if file {
            if s.navi.cur_line == s.navi.min_line {
                (s.with_tv_scroll(scroll_up_line(s.tv.scroll)), Step::Redraw)
            } else {
                (UiState { navi: s.navi.row_above(), ..s }, Step::Redraw)
            }
        } else {
            (s.chat_back(), Step::Redraw)
        },
        (KeyCode::Down, _) => if file {
            if s.navi.cur_line == s.navi.max_line {
                (s.with_tv_scroll(scroll_down_line(s.tv.scroll, info.max_scroll)), Step::Redraw)
            } else {
                (UiState { navi: s.navi.row_below(), ..s }, Step::Redraw)
            }
        } else if s.chat_type == ChatType::ChatTv {
            (s.chat_forward(), Step::Redraw)
        } else {
            (s, Step::Redraw)
        },
        (KeyCode::Char(c), _) => if file {
            (UiState { fuzzy: s.fuzzy.push(c), ..s }.with_tv_scroll(1), Step::Redraw)
        } else {
            (UiState { chat_input: s.chat_input.push(c), ..s }, Step::Redraw)
        },
        (KeyCode::Backspace, _) => if file {
            let fuzzy = if s.fuzzy.len() == 0 {
                s.fuzzy
            } else {
                s.fuzzy.drop_last()
            };
            (UiState { fuzzy, ..s }.with_tv_scroll(1), Step::Redraw)
        } else {
            let chat_input = if s.chat_input.len() == 0 {
                s.chat_input
            } else {
                s.chat_input.drop_last()
            };
            (UiState { chat_input, ..s }, Step::Redraw)
        },
        _ => (s, Step::Idle),
    }
}

/// The interface as it starts on a screen of `width` by `height` cells with
/// the panes placed at `areas`.
pub open spec fn initial_state(width: u16, height: u16, areas: ScreenAreas) -> UiState {
    UiState {
        navi: Navigation {
            min_line: 0,
            max_line: last_row(height),
            cur_line: 0,
            select_line: None,
            rect: areas.gutter,
        },
        tv: TextView { height: text_rows(height), width: text_columns(width), scroll: 1, rect: areas.text },
        chat_tv: TextView {
            height: text_rows(height),
            width: chat_columns(width),
            scroll: 1,
            rect: areas.chat,
        },
        focus: FocusType::TxtFuzzy,
        fuzzy: Seq::empty(),
        fuzzy_rect: areas.search,
        chat_input: Seq::empty(),
        chat_rect: areas.prompt,
        chat_index: 0,
        chat_scroll: 0,
        chat_item: Seq::empty(),
        chat_type: ChatType::ChatTv,
    }
}

/// The first line of the chat text that an entry added when the chat text
/// had `count` lines occupies: line `count`, but at least the first.
pub open spec fn entry_start(count: usize) -> usize {
    larger(count as int, 1) as usize
}

impl UiState {
    /// The chat after a reply of the language model was appended to the
    /// chat text when it had `before` lines, leaving it with `after`: a new
    /// entry from line `before` to line `after`, each at least the first.
    pub open spec fn with_reply(self, before: usize, after: usize) -> UiState {
        UiState {
            chat_item: self.chat_item.push(ChatItemIndex(entry_start(before), entry_start(after))),
            ..self
        }
    }

    /// The chat after an answer from the prompt store was appended to the
    /// chat text when it had `before` lines, leaving it with `after`: a new
    /// entry from line `before` to the line before `after`, the chat view
    /// showing its start and following it, the prompt box emptied.
    pub open spec fn with_answer(self, before: usize, after: usize) -> UiState {
        UiState {
            chat_tv: self.chat_tv.scrolled_to(entry_start(before)),
            chat_item: self.chat_item.push(
                ChatItemIndex(entry_start(before), (entry_start(after) - 1) as usize),
            ),
            chat_input: Seq::empty(),
            chat_index: self.chat_item.len() as usize,
            ..self
        }
    }

    /// The chat after a prompt was appended to the chat text as for an
    /// answer, the chat pane then showing the chat text.
    pub open spec fn with_prompt(self, before: usize, after: usize) -> UiState {
        UiState { chat_type: ChatType::ChatTv, ..self.with_answer(before, after) }
    }
}

impl ChapUI {
    /// Where the panes stand on the screen.
    pub open spec fn areas(&self) -> ScreenAreas {
        ScreenAreas {
            gutter: self.navi.rect,
            text: self.tv.rect,
            search: self.fuzzy_inp.rect,
            chat: self.chat_tv.rect,
            prompt: self.chat_inp.rect,
        }
    }

    /// The interface as it starts on a screen of `width` by `height` cells
    /// with the panes placed at `areas`.
    pub fn with_areas(width: u16, height: u16, areas: ScreenAreas) -> (ui: ChapUI)
        requires
            screen_fits(width, height),
        ensures
            ui@ == initial_state(width, height, areas),
            ui@.wf(),
    {
        let terminal_height = height as usize;
        let terminal_width = width as usize;
        let tv_heigth = terminal_height - 2;
        let tv_width = terminal_width * 3 / 5 - 3;
        let chat_tv_width = terminal_width * 2 / 5 - 3;
        let max_line = terminal_height - 3;
        let navi = Navigation {
            max_line: max_line,
            min_line: 0,
            cur_line: 0,
            rect: areas.gutter,
            select_line: None,
        };
        let tv = TextView { height: tv_heigth, width: tv_width, scroll: 1, rect: areas.text };
        let fuzzy_inp = FuzzyInput { input: String::new(), rect: areas.search };
        let chat_tv = TextView { height: tv_heigth, width: chat_tv_width, scroll: 1, rect: areas.chat };
        let chat_inp = ChatInput { input: String::new(), rect: areas.prompt };
        ChapUI {
            navi,
            tv,
            fuzzy_inp,
            chat_tv,
            chat_inp,
            focus: Focus::new(),
            chat_index: 0,
            chat_scroll: 0,
            chat_item: Vec::new(),
            chat_type: ChatType::default(),
        }
    }

    /// The interface as it starts on a screen of `width` by `height` cells.
    pub fn new(width: u16, height: u16) -> (ui: ChapUI)
        requires
            screen_fits(width, height),
        ensures
            ui@ == initial_state(width, height, ui.areas()),
            screen_division(width, height, ui.areas()),
            ui@.wf(),
            ui.navi.max_line + 1 == ui.tv.height,
            ui.tv.height == ui.chat_tv.height,
    {
        let areas = screen_areas(width, height);
        Self::with_areas(width, height, areas)
    }

    /// Whether `press` can be handled now without running outside the
    /// numbers or outside the chat's entries.
    pub fn accepts(&self, press: &KeyPress, info: &FrameInfo) -> (b: bool)
        requires
            self@.wf(),
        ensures
            b == key_defined(self@, *press, *info),
    {
        let file = match self.focus.current() {
            FocusType::TxtFuzzy => true,
            FocusType::Chat => false,
        };
        match (press.code, press.modifiers) {
            (KeyCode::Down, Modifiers::Shift) => if file {
                if self.navi.cur_line == self.navi.max_line {
                    match info.max_scroll {
                        Some(m) => if self.tv.scroll <= m {
                            if self.tv.scroll == usize::MAX {
                                return false;
                            }
                        },
                        None => if self.tv.scroll == usize::MAX {
                            return false;
                        },
                    }
                    let mut t = self.tv;
                    t.down_line(info.max_scroll);
                    if t.scroll > usize::MAX - t.height {
                        return false;
                    }
                    self.navi.select_line.is_some() || t.scroll + t.height >= 1
                } else {
                    let mut n = self.navi;
                    n.down_line();
                    let cur = n.cur_line;
                    !(cur < info.line_nums.len() && self.navi.select_line.is_none())
                        || info.line_nums[cur] >= 1
                }
            } else {
                match info.chat_max_scroll {
                    Some(m) => !(self.chat_tv.scroll <= m) || self.chat_tv.scroll < usize::MAX,
                    None => self.chat_tv.scroll < usize::MAX,
                }
            },
            (KeyCode::Up, Modifiers::Shift) => if !file {
                true
            } else if self.navi.cur_line == self.navi.min_line {
                self.tv.scroll >= 1
            } else {
                let mut n = self.navi;
                n.up_line();
                let cur = n.cur_line;
                !(cur < info.line_nums.len() && self.navi.select_line.is_none())
                    || info.line_nums[cur] < usize::MAX
            },
            (KeyCode::Down, Modifiers::Control) => !file || self.tv.scroll <= usize::MAX
                - self.tv.height,
            (KeyCode::Up, Modifiers::Control) => true,
            (KeyCode::Up, _) => if file {
                !(self.navi.cur_line == self.navi.min_line) || self.tv.scroll >= 1
            } else {
                self.chat_item.len() > 0
            },
            (KeyCode::Down, _) => if file {
                if self.navi.cur_line == self.navi.max_line {
                    match info.max_scroll {
                        Some(m) => !(self.tv.scroll <= m) || self.tv.scroll < usize::MAX,
                        None => self.tv.scroll < usize::MAX,
                    }
                } else {
                    true
                }
            } else {
                match self.chat_type {
                    ChatType::ChatTv => {
                        if self.chat_item.len() == 0 {
                            false
                        } else {
                            let start = self.chat_item[self.chat_index].start();
                            !(self.chat_scroll >= start) || self.chat_scroll <= usize::MAX
                                - self.chat_tv.height
                        }
                    },
                    _ => true,
                }
            },
            _ => true,
        }
    }
}


impl ChapUI {
    /// Shift with Down on the file.
    fn select_line_down(&mut self, info: &FrameInfo)
        requires
            old(self)@.focus == FocusType::TxtFuzzy,
            key_defined(
                old(self)@,
                (KeyPress { code: KeyCode::Down, modifiers: Modifiers::Shift }),
                *info,
            ),
        ensures
            final(self)@ == old(self)@.select_line_down(*info),
    {
        let sel_line = if self.navi.is_bottom() {
            self.tv.down_line(info.max_scroll);
            self.tv.scroll + self.tv.get_height()
        } else {
            self.navi.down_line();
            let cur_line = self.navi.get_cur_line();
            if cur_line >= info.line_nums.len() {
                return ;
            }
            info.line_nums[cur_line]
        };
        match self.navi.select_line {
            Some((st, en)) => {
                if sel_line == en {
                    if let Some(max_num) = info.max_scroll {
                        if sel_line == max_num {
                            self.navi.select_line = Some((st, sel_line));
                        }
                    } else {
                        self.navi.select_line = Some((sel_line, sel_line));
                    }
                } else if sel_line > st && sel_line > en {
                    self.navi.select_line = Some((st, sel_line));
                } else if sel_line > st && sel_line < en {
                    self.navi.select_line = Some((sel_line, en));
                }
            },
            None => {
                self.navi.select_line = Some((sel_line - 1, sel_line - 1));
            },
        }
    }

    /// Shift with Up on the file.
    fn select_line_up(&mut self, info: &FrameInfo)
        requires
            old(self)@.focus == FocusType::TxtFuzzy,
            key_defined(
                old(self)@,
                (KeyPress { code: KeyCode::Up, modifiers: Modifiers::Shift }),
                *info,
            ),
        ensures
            final(self)@ == old(self)@.select_line_up(*info),
    {
        let sel_line = if self.navi.is_top() {
            self.tv.up_line();
            let s = self.tv.scroll - 1;
            if s > 1 {
                s
            } else {
                1
            }
        } else {
            self.navi.up_line();
            let cur_line = self.navi.get_cur_line();
            if cur_line >= info.line_nums.len() {
                return ;
            }
            info.line_nums[cur_line]
        };
        match self.navi.select_line {
            Some((st, en)) => {
                if sel_line == st {
                    if sel_line == 1 {
                        self.navi.select_line = Some((st, en));
                    } else {
                        self.navi.select_line = Some((sel_line, sel_line));
                    }
                } else if sel_line > st && sel_line < en {
                    self.navi.select_line = Some((st, sel_line));
                } else if sel_line < st {
                    self.navi.select_line = Some((sel_line, en));
                }
            },
            None => {
                self.navi.select_line = Some((sel_line + 1, sel_line + 1));
            },
        }
    }

    /// Up on the chat.
    fn chat_back(&mut self)
        requires
            old(self)@.wf(),
            old(self)@.chat_item.len() > 0,
        ensures
            final(self)@ == old(self)@.chat_back(),
    {
        let start = self.chat_item[self.chat_index].start();
        let sub = self.chat_scroll.saturating_sub(self.chat_tv.get_height());
        let pre_scorll = if sub > 1 {
            sub
        } else {
            1
        };
        if pre_scorll >= start {
            self.chat_scroll = pre_scorll;
            self.chat_tv.set_scroll(self.chat_scroll);
        } else if self.chat_scroll <= start {
            self.chat_index = self.chat_index.saturating_sub(1);
            let pre_start = self.chat_item[self.chat_index].start();
            self.chat_scroll = pre_start;
            self.chat_tv.set_scroll(self.chat_scroll);
        } else if pre_scorll < start {
            self.chat_scroll = start;
            self.chat_tv.set_scroll(self.chat_scroll);
        }
    }

    /// Down on the chat.
    fn chat_forward(&mut self)
        requires
            old(self)@.wf(),
            old(self)@.chat_item.len() > 0,
            old(self)@.chat_scroll >= old(self)@.chat_item[old(self)@.chat_index as int].0
                ==> old(self)@.chat_scroll + old(self)@.chat_tv.height <= usize::MAX,
        ensures
            final(self)@ == old(self)@.chat_forward(),
    {
        assert(self.chat_index < self.chat_item.len());
        let start = self.chat_item[self.chat_index].start();
        let end = self.chat_item[self.chat_index].end();
        if self.chat_scroll < start {
            self.chat_scroll = start;
            self.chat_tv.set_scroll(self.chat_scroll);
        } else if self.chat_scroll + self.chat_tv.get_height() <= end {
            self.chat_scroll = self.chat_scroll + self.chat_tv.get_height();
            self.chat_tv.set_scroll(self.chat_scroll);
        } else if self.chat_scroll + self.chat_tv.get_height() > end {
            if self.chat_index + 1 <= self.chat_item.len() - 1 {
                self.chat_index += 1;
                let next_start = self.chat_item[self.chat_index].start();
                self.chat_scroll = next_start;
                self.chat_tv.set_scroll(self.chat_scroll);
            }
        }
    }

    /// Enter on the file.
    fn enter_file(&mut self, info: &FrameInfo)
        ensures
            final(self)@ == old(self)@.enter_file(*info),
    {
        if let Some((_, _)) = self.navi.select_line {
            self.focus.next();
            self.focus.next();
            self.focus.next();
        } else {
            self.fuzzy_inp.clear();
            let cur_line = self.navi.get_cur_line();
            if cur_line < info.line_nums.len() {
                self.tv.set_scroll(info.line_nums[cur_line]);
                self.navi.to_min_line();
            }
        }
    }

    /// The chat entry that the chat view follows, if the chat has any.
    fn current_entry(&self) -> (e: Option<ChatItemIndex>)
        requires
            self@.wf(),
        ensures
            e == self@.current_entry(),
    {
        if self.chat_item.len() > 0 {
            Some(self.chat_item[self.chat_index])
        } else {
            None
        }
    }

    /// Handles a key press: changes the interface as the key asks and says
    /// what is to happen next.
    pub fn handle_key(&mut self, press: &KeyPress, info: &FrameInfo) -> (step: Step)
        requires
            old(self)@.wf(),
            key_defined(old(self)@, *press, *info),
        ensures
            (final(self)@, step) == key_step(old(self)@, *press, *info),
            final(self)@.wf(),
    {
        let file = match self.focus.current() {
            FocusType::TxtFuzzy => true,
            FocusType::Chat => false,
        };
        match (press.code, press.modifiers) {
            (KeyCode::Esc, _) => {
                self.fuzzy_inp.clear();
                self.chat_inp.clear();
                self.navi.select_line = None;
                Step::Redraw
            },
            (KeyCode::Tab, _) => {
                self.focus.next();
                Step::Redraw
            },
            (KeyCode::Char('s'), Modifiers::Control) => {
                if self.chat_inp.get_inp().is_empty() {
                    Step::Redraw
                } else {
                    Step::Search
                }
            },
            (KeyCode::Char('x'), Modifiers::Control) => Step::Exit(self.current_entry()),
            (KeyCode::Char('c'), Modifiers::Control) => Step::Quit,
            (KeyCode::Enter, _) => {
                if file {
                    self.enter_file(info);
                    Step::Redraw
                } else if self.chat_inp.get_inp().is_empty() {
                    Step::Redraw
                } else {
                    Step::Prompt
                }
            },
            (KeyCode::Down, Modifiers::Shift) => {
                if file {
                    self.select_line_down(info);
                } else {
                    self.chat_tv.down_line(info.chat_max_scroll);
                }
                Step::Redraw
            },
            (KeyCode::Up, Modifiers::Shift) => {
                if file {
                    self.select_line_up(info);
                }
                Step::Redraw
            },
            (KeyCode::Down, Modifiers::Control) => {
                if file {
                    self.tv.down_page(info.max_scroll);
                }
                Step::Redraw
            },
            (KeyCode::Up, Modifiers::Control) => {
                if file {
                    self.tv.up_page();
                }
                Step::Redraw
            },
            (KeyCode::Up, _) => {
                if file {
                    if self.navi.is_top() {
                        self.tv.up_line();
                    } else {
                        self.navi.up_line();
                    }
                } else {
                    self.chat_back();
                }
                Step::Redraw
            },
            (KeyCode::Down, _) => {
                if file {
                    if self.navi.is_bottom() {
                        self.tv.down_line(info.max_scroll);
                    } else {
                        self.navi.down_line();
                    }
                } else {
                    match self.chat_type {
                        ChatType::ChatTv => self.chat_forward(),
                        ChatType::Promt => {},
                        ChatType::Pattern => {},
                    }
                }
                Step::Redraw
            },
            (KeyCode::Char(c), _) => {
                if file {
                    self.fuzzy_inp.push(c);
                    self.tv.set_scroll(1);
                } else {
                    self.chat_inp.push(c);
                }
                Step::Redraw
            },
            (KeyCode::Backspace, _) => {
                if file {
                    self.fuzzy_inp.pop();
                    self.tv.set_scroll(1);
                } else {
                    self.chat_inp.pop();
                }
                Step::Redraw
            },
            _ => Step::Idle,
        }
    }

    /// Records a reply of the language model that was appended to the chat
    /// text when it had `before` lines, leaving it with `after` lines.
    pub fn record_reply(&mut self, before: usize, after: usize)
        requires
            old(self)@.wf(),
        ensures
            final(self)@ == old(self)@.with_reply(before, after),
            final(self)@.wf(),
    {
        let chat_item_start = if before > 1 {
            before
        } else {
            1
        };
        let chat_item_end = if after > 1 {
            after
        } else {
            1
        };
        self.chat_item.push(ChatItemIndex(chat_item_start, chat_item_end));
    }

    /// Records an answer found in the prompt store and appended to the chat
    /// text when it had `before` lines, leaving it with `after` lines: the
    /// chat view shows its start and follows it, and the prompt box is
    /// emptied.
    pub fn record_answer(&mut self, before: usize, after: usize)
        requires
            old(self)@.wf(),
        ensures
            final(self)@ == old(self)@.with_answer(before, after),
            final(self)@.wf(),
    {
        let chat_item_start = if before > 1 {
            before
        } else {
            1
        };
        self.chat_tv.set_scroll(chat_item_start);
        let count = if after > 1 {
            after
        } else {
            1
        };
        let chat_item_end = count - 1;
        self.chat_item.push(ChatItemIndex(chat_item_start, chat_item_end));
        self.chat_inp.clear();
        self.chat_index = self.chat_item.len() - 1;
    }

    /// Records a prompt sent to the language model and appended to the chat
    /// text when it had `before` lines, leaving it with `after` lines: the
    /// chat view shows the chat text from the prompt's start and follows
    /// the prompt, and the prompt box is emptied.
    pub fn record_prompt(&mut self, before: usize, after: usize)
        requires
            old(self)@.wf(),
        ensures
            final(self)@ == old(self)@.with_prompt(before, after),
            final(self)@.wf(),
    {
        self.record_answer(before, after);
        self.chat_type = ChatType::ChatTv;
    }
}


/// Whether the pane places and sizes of two states agree.
pub open spec fn same_frame(a: UiState, b: UiState) -> bool {
    &&& a.navi.rect == b.navi.rect
    &&& a.navi.min_line == b.navi.min_line
    &&& a.navi.max_line == b.navi.max_line
    &&& a.tv.rect == b.tv.rect
    &&& a.tv.height == b.tv.height
    &&& a.tv.width == b.tv.width
    &&& a.chat_tv.rect == b.chat_tv.rect
    &&& a.chat_tv.height == b.chat_tv.height
    &&& a.chat_tv.width == b.chat_tv.width
    &&& a.fuzzy_rect == b.fuzzy_rect
    &&& a.chat_rect == b.chat_rect
}

/// No key press moves or resizes a pane, changes the rows the line cursor
/// may move between, or changes the chat's entries; and a line cursor that
/// lies between its first and last rows stays there.
pub proof fn lemma_key_keeps_frame(s: UiState, p: KeyPress, info: FrameInfo)
    ensures
        same_frame(s, key_step(s, p, info).0),
        key_step(s, p, info).0.chat_item == s.chat_item,
        s.navi.within_rows() ==> key_step(s, p, info).0.navi.within_rows(),
{
}

/// Pressing Tab twice gives the focus back to the pane that had it, and
/// leaves everything else as it was.
pub proof fn lemma_tab_twice(s: UiState, m1: Modifiers, m2: Modifiers, info: FrameInfo)
    ensures
        key_step(
            key_step(s, KeyPress { code: KeyCode::Tab, modifiers: m1 }, info).0,
            KeyPress { code: KeyCode::Tab, modifiers: m2 },
            info,
        ).0 == s,
        key_step(s, KeyPress { code: KeyCode::Tab, modifiers: m1 }, info).0.focus != s.focus,
{
}

/// Typing a char in the focused input box and deleting it with Backspace
/// gives the box back what it held; the other box is untouched.
pub proof fn lemma_type_then_erase(s: UiState, c: char, m1: Modifiers, m2: Modifiers, info: FrameInfo)
    requires
        m1 == Modifiers::Control ==> c != 's' && c != 'x' && c != 'c',
    ensures
        ({
            let typed = key_step(s, KeyPress { code: KeyCode::Char(c), modifiers: m1 }, info);
            let erased = key_step(typed.0, KeyPress { code: KeyCode::Backspace, modifiers: m2 }, info);
            &&& typed.1 == Step::Redraw
            &&& erased.1 == Step::Redraw
            &&& erased.0.fuzzy == s.fuzzy
            &&& erased.0.chat_input == s.chat_input
        }),
{
    assert(s.fuzzy.push(c).drop_last() =~= s.fuzzy);
    assert(s.chat_input.push(c).drop_last() =~= s.chat_input);
}

/// Esc empties both input boxes and drops the selection, whatever the focus.
pub proof fn lemma_escape_clears(s: UiState, m: Modifiers, info: FrameInfo)
    ensures
        ({
            let e = key_step(s, KeyPress { code: KeyCode::Esc, modifiers: m }, info);
            &&& e.0.fuzzy.len() == 0
            &&& e.0.chat_input.len() == 0
            &&& e.0.navi.select_line is None
            &&& e.1 == Step::Redraw
        }),
{
}

/// After an answer or a prompt is recorded, the chat view follows it as the
/// last entry and shows the chat text from its first line.
pub proof fn lemma_recorded_entry_followed(s: UiState, before: usize, after: usize)
    requires
        s.wf(),
        s.chat_item.len() < usize::MAX,
    ensures
        s.with_answer(before, after).wf(),
        s.with_answer(before, after).current_entry() == Some(
            s.with_answer(before, after).chat_item.last(),
        ),
        s.with_answer(before, after).chat_tv.scroll == s.with_answer(before, after).chat_item.last().0,
        s.with_prompt(before, after).current_entry() == s.with_answer(before, after).current_entry(),
        s.with_reply(before, after).current_entry() == (if s.chat_item.len() == 0 {
            Some(s.with_reply(before, after).chat_item.last())
        } else {
            s.current_entry()
        }),
{
}

/// While the text engine numbers the lines it shows from one, the file view
/// never scrolls above the first line of the file: a scroll position of at
/// least one stays at least one whatever key is pressed.
pub proof fn lemma_file_scroll_stays_positive(s: UiState, p: KeyPress, info: FrameInfo)
    requires
        s.tv.scroll >= 1,
        forall|i: int| 0 <= i < info.line_nums@.len() ==> #[trigger] info.line_nums@[i] >= 1,
        key_defined(s, p, info),
    ensures
        key_step(s, p, info).0.tv.scroll >= 1,
{
}

/// Shift with Up on the file, with the line cursor below its first row and
/// a file line `sel` shown on the row above: the cursor moves up to it and
/// the selection follows. A first selection starts on the line below
/// `sel`. A selection that starts on `sel` shrinks to `sel` alone, unless
/// `sel` is the file's first line. A selection that `sel` lies inside ends
/// at `sel`. A selection that starts after `sel` grows up to `sel`, keeping
/// its end.
pub proof fn lemma_shift_up_selects(s: UiState, m: Modifiers, info: FrameInfo)
    requires
        s.focus == FocusType::TxtFuzzy,
        m == Modifiers::Shift,
        s.navi.cur_line > s.navi.min_line,
        s.navi.cur_line - 1 < info.line_nums@.len(),
    ensures
        ({
            let sel = info.line_nums@[s.navi.cur_line - 1];
            let r = key_step(s, KeyPress { code: KeyCode::Up, modifiers: m }, info);
            &&& r.1 == Step::Redraw
            &&& r.0.navi.cur_line == s.navi.cur_line - 1
            &&& r.0.tv == s.tv
            &&& s.navi.select_line is None ==> r.0.navi.select_line == Some(
                ((sel + 1) as usize, (sel + 1) as usize),
            )
            &&& forall|st: usize, en: usize|
                s.navi.select_line == Some((st, en)) ==> {
                    &&& sel < st ==> r.0.navi.select_line == Some((sel, en))
                    &&& st < sel < en ==> r.0.navi.select_line == Some((st, sel))
                    &&& sel == st && sel != 1 ==> r.0.navi.select_line == Some((sel, sel))
                    &&& sel == st && sel == 1 ==> r.0.navi.select_line == Some((st, en))
                    &&& sel > st && sel >= en ==> r.0.navi.select_line == Some((st, en))
                }
        }),
{
}

/// Shift with Down on the file, with the line cursor above its last row and
/// a file line `sel` shown on the row below: the cursor moves down to it and
/// the selection follows. A first selection starts on the line above
/// `sel`. A selection that `sel` lies after grows down to `sel`, keeping its
/// start. A selection that `sel` lies inside starts at `sel`. A selection
/// ending on `sel` shrinks to `sel` alone when the file's scroll limit is
/// unknown, and is kept otherwise.
pub proof fn lemma_shift_down_selects(s: UiState, m: Modifiers, info: FrameInfo)
    requires
        s.focus == FocusType::TxtFuzzy,
        m == Modifiers::Shift,
        s.navi.cur_line < s.navi.max_line,
        s.navi.cur_line + 1 < info.line_nums@.len(),
    ensures
        ({
            let sel = info.line_nums@[s.navi.cur_line + 1];
            let r = key_step(s, KeyPress { code: KeyCode::Down, modifiers: m }, info);
            &&& r.1 == Step::Redraw
            &&& r.0.navi.cur_line == s.navi.cur_line + 1
            &&& r.0.tv == s.tv
            &&& s.navi.select_line is None ==> r.0.navi.select_line == Some(
                ((sel - 1) as usize, (sel - 1) as usize),
            )
            &&& forall|st: usize, en: usize|
                s.navi.select_line == Some((st, en)) ==> {
                    &&& sel > st && sel > en ==> r.0.navi.select_line == Some((st, sel))
                    &&& st < sel < en ==> r.0.navi.select_line == Some((sel, en))
                    &&& sel == en && info.max_scroll is None ==> r.0.navi.select_line == Some(
                        (sel, sel),
                    )
                    &&& sel == en && info.max_scroll is Some ==> r.0.navi.select_line == Some(
                        (st, en),
                    )
                    &&& sel <= st && sel != en ==> r.0.navi.select_line == Some((st, en))
                }
        }),
{
}

/// Down in the chat pane, which shows the chat text, follows the entries a
/// page at a time: from above the followed entry it goes to the entry's
/// first line; while a whole page more still ends within the entry it moves
/// exactly one page on, keeping to the entry; otherwise it goes to the first
/// line of the next entry and follows that one, or stays put after the last
/// entry.
pub proof fn lemma_chat_down_pages(s: UiState, m: Modifiers, info: FrameInfo)
    requires
        s.wf(),
        s.focus == FocusType::Chat,
        s.chat_type == ChatType::ChatTv,
        s.chat_item.len() > 0,
        s.chat_item.len() <= usize::MAX,
        m == Modifiers::Other,
    ensures
        ({
            let item = s.chat_item[s.chat_index as int];
            let h = s.chat_tv.height;
            let r = key_step(s, KeyPress { code: KeyCode::Down, modifiers: m }, info).0;
            &&& s.chat_scroll < item.0 ==> r.chat_index == s.chat_index && r.chat_scroll == item.0
                && r.chat_tv.scroll == item.0
            &&& item.0 <= s.chat_scroll && s.chat_scroll + h <= item.1 ==> r.chat_index
                == s.chat_index && r.chat_scroll == s.chat_scroll + h && r.chat_tv.scroll
                == s.chat_scroll + h
            &&& item.0 <= s.chat_scroll && s.chat_scroll + h > item.1 && s.chat_index + 1
                < s.chat_item.len() ==> r.chat_index == s.chat_index + 1 && r.chat_scroll
                == s.chat_item[s.chat_index + 1].0 && r.chat_tv.scroll == s.chat_item[s.chat_index
                + 1].0
            &&& item.0 <= s.chat_scroll && s.chat_scroll + h > item.1 && s.chat_index + 1
                == s.chat_item.len() ==> r == s
            &&& r.chat_item == s.chat_item && r.wf()
        }),
{
}

/// Up in the chat pane goes back a page within the followed entry, but not
/// before the entry's first line; from the entry's first line (or above it)
/// it goes to the first line of the entry before, and follows that one.
pub proof fn lemma_chat_up_pages(s: UiState, m: Modifiers, info: FrameInfo)
    requires
        s.wf(),
        s.focus == FocusType::Chat,
        s.chat_item.len() > 0,
        m == Modifiers::Other,
    ensures
        ({
            let start = s.chat_item[s.chat_index as int].0;
            let h = s.chat_tv.height;
            let r = key_step(s, KeyPress { code: KeyCode::Up, modifiers: m }, info).0;
            &&& s.chat_scroll >= h + 1 && s.chat_scroll - h >= start ==> r.chat_index == s.chat_index
                && r.chat_scroll == s.chat_scroll - h && r.chat_tv.scroll == s.chat_scroll - h
            &&& s.chat_scroll <= start && start > 1 && h > 0 && s.chat_index > 0 ==> r.chat_index
                == s.chat_index - 1 && r.chat_scroll == s.chat_item[s.chat_index - 1].0
                && r.chat_tv.scroll == s.chat_item[s.chat_index - 1].0
            &&& s.chat_scroll > start && (s.chat_scroll < h + 1 || s.chat_scroll - h < start) && start
                > 1 ==> r.chat_index == s.chat_index && r.chat_scroll == start && r.chat_tv.scroll
                == start
            &&& r.chat_item == s.chat_item && r.wf()
        }),
{
}

/// Enter in the file pane: with no selection, the search box is emptied and
/// the file view jumps to the file line shown under the line cursor, the
/// cursor going back to its first row; with a selection, the focus moves to
/// the chat pane and nothing else changes.
pub proof fn lemma_enter_jumps_to_line(s: UiState, m: Modifiers, info: FrameInfo)
    requires
        s.focus == FocusType::TxtFuzzy,
    ensures
        ({
            let r = key_step(s, KeyPress { code: KeyCode::Enter, modifiers: m }, info);
            &&& r.1 == Step::Redraw
            &&& s.navi.select_line is None && s.navi.cur_line < info.line_nums@.len() ==> {
                &&& r.0.tv.scroll == info.line_nums@[s.navi.cur_line as int]
                &&& r.0.navi.cur_line == s.navi.min_line
                &&& r.0.fuzzy.len() == 0
                &&& r.0.focus == s.focus
            }
            &&& s.navi.select_line is None && s.navi.cur_line >= info.line_nums@.len() ==> {
                &&& r.0.tv == s.tv
                &&& r.0.navi == s.navi
                &&& r.0.fuzzy.len() == 0
            }
            &&& s.navi.select_line is Some ==> r.0 == (UiState { focus: FocusType::Chat, ..s })
        }),
{
}

/// Typing a char in the file pane appends it to the search box and shows
/// the file from its first line; in the chat pane it appends it to the
/// prompt box and changes nothing else.
pub proof fn lemma_typing(s: UiState, c: char, m: Modifiers, info: FrameInfo)
    requires
        m != Modifiers::Control,
    ensures
        ({
            let r = key_step(s, KeyPress { code: KeyCode::Char(c), modifiers: m }, info);
            &&& r.1 == Step::Redraw
            &&& s.focus == FocusType::TxtFuzzy ==> r.0.fuzzy == s.fuzzy.push(c) && r.0.tv.scroll == 1
                && r.0.chat_input == s.chat_input
            &&& s.focus == FocusType::Chat ==> r.0 == (UiState { chat_input: s.chat_input.push(c), ..s })
        }),
{
}

/// The entry recorded for a reply runs from the line count before it to the
/// line count after it; the entry recorded for an answer or a prompt runs
/// from the count before it to the line before the count after it; counts
/// below one are taken as one. Earlier entries are kept.
pub proof fn lemma_recorded_bounds(s: UiState, before: usize, after: usize)
    ensures
        s.with_reply(before, after).chat_item.len() == s.chat_item.len() + 1,
        s.with_reply(before, after).chat_item.subrange(0, s.chat_item.len() as int) == s.chat_item,
        before >= 1 && after >= 1 ==> s.with_reply(before, after).chat_item.last() == ChatItemIndex(
            before,
            after,
        ),
        before == 0 && after == 0 ==> s.with_reply(before, after).chat_item.last() == ChatItemIndex(
            1,
            1,
        ),
        s.with_answer(before, after).chat_item.subrange(0, s.chat_item.len() as int) == s.chat_item,
        before >= 1 && after >= 1 ==> s.with_answer(before, after).chat_item.last() == ChatItemIndex(
            before,
            (after - 1) as usize,
        ),
        before >= 1 ==> s.with_answer(before, after).chat_tv.scroll == before,
        s.with_answer(before, after).chat_input.len() == 0,
        s.with_prompt(before, after).chat_item == s.with_answer(before, after).chat_item,
        s.with_prompt(before, after).chat_type == ChatType::ChatTv,
{
    assert(s.with_reply(before, after).chat_item.subrange(0, s.chat_item.len() as int)
        =~= s.chat_item);
    assert(s.with_answer(before, after).chat_item.subrange(0, s.chat_item.len() as int)
        =~= s.chat_item);
}

/// On a screen of `width` by `height` cells the interface starts with the
/// file view and the chat view two rows shorter than the screen, the file
/// view three fifths of the width wide less three, the chat view two fifths
/// less three, the line cursor on row 0 of rows 0 to `height - 3`, the file
/// and chat shown from line one, the focus on the file, both boxes empty,
/// no selection and no chat entries.
pub proof fn lemma_initial_sizes(width: u16, height: u16, areas: ScreenAreas)
    requires
        screen_fits(width, height),
    ensures
        ({
            let s = initial_state(width, height, areas);
            &&& s.tv.height == height - 2 && s.chat_tv.height == height - 2
            &&& s.tv.width == width * 3 / 5 - 3
            &&& s.chat_tv.width == width * 2 / 5 - 3
            &&& s.navi.min_line == 0 && s.navi.cur_line == 0 && s.navi.max_line == height - 3
            &&& s.tv.scroll == 1 && s.chat_tv.scroll == 1
            &&& s.focus == FocusType::TxtFuzzy
            &&& s.fuzzy.len() == 0 && s.chat_input.len() == 0
            &&& s.navi.select_line is None
            &&& s.chat_item.len() == 0
            &&& s.chat_type == ChatType::ChatTv
        }),
{
}

} // verus!
