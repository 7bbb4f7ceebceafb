use chap::chat::{compose_message, frame_prompt, is_blank, ChatItemIndex, ChatType, Prompt};
use chap::content::{
    get_chat_content, get_content, match_segments, ByteRange, GutterMark, LineMeta, Match, Segment,
};
use chap::cursor::{cursor_position, input_cursor, CursorPos};
use chap::focus::{Focus, FocusType};
use chap::style::Color;
use chap::input::{ChatInput, FuzzyInput};
use chap::layout::screen_areas;
use chap::panes::{Area, ChatText, Navigation, TextView};
use chap::ui::{ChapUI, FrameInfo, KeyCode, KeyPress, Modifiers, Step};

fn area(x: u16, y: u16, width: u16, height: u16) -> Area {
    Area { x, y, width, height }
}

fn key(code: KeyCode, modifiers: Modifiers) -> KeyPress {
    KeyPress { code, modifiers }
}

fn info(line_nums: Vec<usize>, max_scroll: Option<usize>, chat_max_scroll: Option<usize>) -> FrameInfo {
    FrameInfo { line_nums, max_scroll, chat_max_scroll }
}

#[test]
fn test_mmap() -> std::io::Result<()> {
    Ok(())
}

#[test]
fn focus_starts_on_file_and_cycles() {
    let mut f = Focus::new();
    assert_eq!(f.current(), FocusType::TxtFuzzy);
    assert_eq!(f.get_colors(), (Color::Yellow, Color::Yellow, Color::White, Color::White));
    f.next();
    assert_eq!(f.current(), FocusType::Chat);
    assert_eq!(f.get_colors(), (Color::White, Color::White, Color::Yellow, Color::Yellow));
    f.next();
    assert_eq!(f.current(), FocusType::TxtFuzzy);
}

#[test]
fn prompt_and_chat_item_getters() {
    let p = Prompt { prompt: "how are you".to_string(), _id: "id-7".to_string() };
    assert_eq!(p.prompt(), "how are you");
    assert_eq!(p._id(), "id-7");
    let item = ChatItemIndex(3, 9);
    assert_eq!(item.start(), 3);
    assert_eq!(item.end(), 9);
    assert_eq!(ChatType::default(), ChatType::ChatTv);
}

#[test]
fn navigation_stays_between_rows() {
    let mut n = Navigation { min_line: 0, max_line: 2, cur_line: 0, select_line: None, rect: area(0, 0, 1, 3) };
    assert!(n.is_top());
    n.up_line();
    assert_eq!(n.get_cur_line(), 0);
    n.down_line();
    n.down_line();
    assert!(n.is_bottom());
    n.down_line();
    assert_eq!(n.get_cur_line(), 2);
    n.up_line();
    assert_eq!(n.get_cur_line(), 1);
    n.to_min_line();
    assert_eq!(n.get_cur_line(), 0);
    n.to_max_line();
    assert_eq!(n.get_cur_line(), 2);
    n.set_cur_line(7);
    assert_eq!(n.get_cur_line(), 7);
    assert_eq!(n.get_rect(), area(0, 0, 1, 3));
}

#[test]
fn text_view_scrolls_by_line_and_page() {
    let mut tv = TextView { height: 10, width: 40, scroll: 1, rect: area(1, 0, 41, 10) };
    tv.up_line();
    assert_eq!(tv.get_scroll(), 1);
    tv.down_line(Some(3));
    assert_eq!(tv.get_scroll(), 2);
    tv.down_line(Some(3));
    tv.down_line(Some(3));
    assert_eq!(tv.get_scroll(), 4);
    tv.down_line(Some(3));
    assert_eq!(tv.get_scroll(), 4);
    tv.down_line(None);
    assert_eq!(tv.get_scroll(), 5);
    tv.down_page(Some(12));
    assert_eq!(tv.get_scroll(), 12);
    tv.down_page(None);
    assert_eq!(tv.get_scroll(), 22);
    tv.up_page();
    assert_eq!(tv.get_scroll(), 12);
    tv.up_page();
    assert_eq!(tv.get_scroll(), 2);
    tv.up_page();
    assert_eq!(tv.get_scroll(), 1);
    tv.down_page(Some(0));
    assert_eq!(tv.get_scroll(), 1);
    tv.set_scroll(9);
    tv.up_line();
    assert_eq!(tv.get_scroll(), 8);
    assert_eq!(tv.get_height(), 10);
    assert_eq!(tv.get_width(), 40);
    assert_eq!(tv.get_rect(), area(1, 0, 41, 10));
}

#[test]
fn chat_text_pages_down_a_page_less_one() {
    let mut ct = ChatText { height: 10, width: 30, scroll: 1, rect: area(60, 0, 40, 10) };
    ct.down_page(None);
    assert_eq!(ct.get_scroll(), 10);
    ct.down_page(Some(15));
    assert_eq!(ct.get_scroll(), 15);
    ct.set_scroll(0);
    ct.down_page(Some(0));
    assert_eq!(ct.get_scroll(), 0);
    ct.set_scroll(25);
    ct.up_page();
    assert_eq!(ct.get_scroll(), 15);
    ct.up_line();
    assert_eq!(ct.get_scroll(), 14);
    ct.down_line(Some(14));
    assert_eq!(ct.get_scroll(), 15);
    ct.down_line(Some(14));
    assert_eq!(ct.get_scroll(), 15);
    assert_eq!(ct.get_height(), 10);
    assert_eq!(ct.get_width(), 30);
}

#[test]
fn search_box_reads_exact_and_fuzzy_patterns() {
    let mut f = FuzzyInput { input: String::new(), rect: area(1, 28, 59, 2) };
    assert_eq!(f.get_inp_exact(), ("", true));
    for c in "/ needle  ".chars() {
        f.push(c);
    }
    assert_eq!(f.get_inp(), "/ needle  ");
    assert_eq!(f.get_inp_exact(), ("needle", false));
    f.clear();
    for c in "\t hay stack\n".chars() {
        f.push(c);
    }
    assert_eq!(f.get_inp_exact(), ("hay stack", true));
    f.clear();
    f.push('/');
    assert_eq!(f.get_inp_exact(), ("", false));
    f.push('x');
    f.pop();
    assert_eq!(f.get_inp(), "/");
    f.pop();
    f.pop();
    assert_eq!(f.get_inp(), "");
    assert_eq!(f.get_rect(), area(1, 28, 59, 2));
}

#[test]
fn prompt_box_edits() {
    let mut c = ChatInput { input: String::new(), rect: area(60, 28, 40, 2) };
    c.push('h');
    c.push('i');
    assert_eq!(c.get_inp(), "hi");
    c.pop();
    assert_eq!(c.get_inp(), "h");
    c.clear();
    assert_eq!(c.get_inp(), "");
    c.pop();
    assert_eq!(c.get_inp(), "");
    assert_eq!(c.get_rect(), area(60, 28, 40, 2));
}

#[test]
fn messages_are_composed_framed_and_checked() {
    let selected = vec!["fn main() {\n".to_string(), "}\n".to_string()];
    assert_eq!(compose_message(&selected, "explain"), "fn main() {\n}\n\nexplain");
    assert_eq!(compose_message(&Vec::new(), "hi"), "\nhi");
    assert_eq!(
        frame_prompt("hi"),
        "----------------------------\nhi\n----------------------------\n"
    );
    assert!(is_blank("\n  \t"));
    assert!(is_blank(""));
    assert!(!is_blank("\n x "));
}

fn seg(start: usize, end: usize, highlight: bool) -> Segment {
    Segment { start, end, background: if highlight { Some(Color::Green) } else { None } }
}

fn mark(on: bool) -> GutterMark {
    if on {
        GutterMark { glyph: '>', foreground: Some(Color::LightRed) }
    } else {
        GutterMark { glyph: ' ', foreground: None }
    }
}

fn selected(l: &chap::content::StyledLine) -> bool {
    l.background == Some(Color::LightRed)
}

#[test]
fn lines_are_cut_at_matches() {
    let ranges = vec![ByteRange { start: 2, end: 4 }, ByteRange { start: 6, end: 8 }];
    assert_eq!(
        match_segments(10, &ranges),
        vec![seg(0, 2, false), seg(2, 4, true), seg(4, 6, false), seg(6, 8, true), seg(8, 10, false)]
    );
    let edge = vec![ByteRange { start: 0, end: 3 }, ByteRange { start: 3, end: 5 }];
    assert_eq!(match_segments(5, &edge), vec![seg(0, 3, true), seg(3, 5, true)]);
    let beyond = vec![ByteRange { start: 4, end: 9 }];
    assert_eq!(match_segments(6, &beyond), vec![seg(0, 4, false)]);
    assert_eq!(match_segments(0, &Vec::new()), vec![]);
    assert_eq!(match_segments(3, &Vec::new()), vec![seg(0, 3, false)]);
}

#[test]
fn file_lines_are_styled() {
    let content = vec!["alpha", "beta", "gamma", "delta"];
    let meta = vec![
        LineMeta { line_num: 10, matched: None },
        LineMeta { line_num: 11, matched: Some(Match::Byte(vec![ByteRange { start: 1, end: 3 }])) },
        LineMeta { line_num: 12, matched: Some(Match::Byte(vec![ByteRange { start: 0, end: 2 }])) },
        LineMeta { line_num: 13, matched: None },
    ];
    let (nav, lines) = get_content(&content, &meta, 0, &None, 3);
    assert_eq!(nav, vec![mark(true), mark(false), mark(false)]);
    assert!(selected(&lines[0]));
    assert!(!selected(&lines[1]));
    assert_eq!(lines[1].segments, vec![seg(0, 1, false), seg(1, 3, true), seg(3, 4, false)]);
    assert_eq!(lines[2].segments, vec![seg(0, 2, true), seg(2, 5, false)]);
    assert!(!selected(&lines[3]) && lines[3].segments.is_empty());

    let (nav, lines) = get_content(&content, &meta, 3, &Some((11, 12)), 2);
    assert_eq!(nav, vec![mark(false), mark(false)]);
    assert!(!selected(&lines[0]));
    assert!(selected(&lines[1]) && lines[1].segments.is_empty());
    assert!(selected(&lines[2]));
    assert!(selected(&lines[3]));
}

#[test]
fn chat_lines_of_the_followed_entry_are_marked() {
    let content = vec!["a", "b", "c", "d"];
    let meta: Vec<LineMeta> = (4..8).map(|n| LineMeta { line_num: n, matched: None }).collect();
    assert_eq!(get_chat_content(&content, &meta, &ChatItemIndex(5, 6)), vec![None, Some(Color::Green), Some(Color::Green), None]);
}

#[test]
fn cursor_stands_after_the_text() {
    let r = area(1, 28, 59, 2);
    assert_eq!(cursor_position(r, 0), CursorPos { x: 3, y: 29 });
    assert_eq!(cursor_position(r, 5), CursorPos { x: 7, y: 29 });
    assert_eq!(input_cursor(r, ""), Some(CursorPos { x: 3, y: 29 }));
    assert_eq!(input_cursor(r, "abc"), Some(CursorPos { x: 5, y: 29 }));
    assert_eq!(input_cursor(r, "日本"), Some(CursorPos { x: 6, y: 29 }));
    assert_eq!(input_cursor(area(u16::MAX - 1, 0, 1, 1), ""), None);
    assert_eq!(input_cursor(area(0, u16::MAX, 1, 1), "a"), None);
}

#[test]
fn column_shares_match_the_float_percentages() {
    for w in 0..=u16::MAX {
        assert_eq!((w as f32 * 0.6) as usize, w as usize * 3 / 5);
        assert_eq!((w as f32 * 0.4) as usize, w as usize * 2 / 5);
    }
}

#[test]
fn screen_is_divided_into_panes() {
    let a = screen_areas(100, 30);
    assert_eq!(a.gutter, area(0, 0, 1, 28));
    assert_eq!(a.text, area(1, 0, 59, 28));
    assert_eq!(a.search, area(1, 28, 59, 2));
    assert_eq!(a.chat, area(60, 0, 40, 28));
    assert_eq!(a.prompt, area(60, 28, 40, 2));
}

#[test]
fn interface_starts_with_sized_panes() {
    let ui = ChapUI::new(100, 30);
    assert_eq!(ui.navi.max_line, 27);
    assert_eq!(ui.navi.cur_line, 0);
    assert_eq!(ui.tv.height, 28);
    assert_eq!(ui.tv.width, 57);
    assert_eq!(ui.tv.scroll, 1);
    assert_eq!(ui.chat_tv.width, 37);
    assert_eq!(ui.chat_tv.height, 28);
    assert_eq!(ui.tv.rect, area(1, 0, 59, 28));
    assert_eq!(ui.focus.current(), FocusType::TxtFuzzy);
    assert!(ui.chat_item.is_empty());
    assert_eq!(ui.chat_type, ChatType::ChatTv);
}

fn nums() -> Vec<usize> {
    (1..=28).collect()
}

#[test]
fn keys_move_focus_and_edit_boxes() {
    let mut ui = ChapUI::new(100, 30);
    let fi = info(nums(), Some(50), None);
    for c in "ab".chars() {
        assert_eq!(ui.handle_key(&key(KeyCode::Char(c), Modifiers::Other), &fi), Step::Redraw);
    }
    assert_eq!(ui.fuzzy_inp.get_inp(), "ab");
    assert_eq!(ui.handle_key(&key(KeyCode::Backspace, Modifiers::Other), &fi), Step::Redraw);
    assert_eq!(ui.fuzzy_inp.get_inp(), "a");
    assert_eq!(ui.handle_key(&key(KeyCode::Tab, Modifiers::Other), &fi), Step::Redraw);
    assert_eq!(ui.focus.current(), FocusType::Chat);
    assert_eq!(ui.handle_key(&key(KeyCode::Enter, Modifiers::Other), &fi), Step::Redraw);
    ui.handle_key(&key(KeyCode::Char('q'), Modifiers::Shift), &fi);
    assert_eq!(ui.chat_inp.get_inp(), "q");
    assert_eq!(ui.handle_key(&key(KeyCode::Enter, Modifiers::Other), &fi), Step::Prompt);
    assert_eq!(ui.handle_key(&key(KeyCode::Char('s'), Modifiers::Control), &fi), Step::Search);
    assert_eq!(ui.handle_key(&key(KeyCode::Other, Modifiers::Other), &fi), Step::Idle);
    assert_eq!(ui.handle_key(&key(KeyCode::Esc, Modifiers::Other), &fi), Step::Redraw);
    assert_eq!(ui.fuzzy_inp.get_inp(), "");
    assert_eq!(ui.chat_inp.get_inp(), "");
    assert_eq!(ui.handle_key(&key(KeyCode::Char('s'), Modifiers::Control), &fi), Step::Redraw);
    assert_eq!(ui.handle_key(&key(KeyCode::Char('x'), Modifiers::Control), &fi), Step::Exit(None));
    assert_eq!(ui.handle_key(&key(KeyCode::Char('c'), Modifiers::Control), &fi), Step::Quit);
}

#[test]
fn keys_move_the_line_cursor_and_select() {
    let mut ui = ChapUI::new(100, 30);
    let fi = info(nums(), Some(50), None);
    ui.handle_key(&key(KeyCode::Down, Modifiers::Shift), &fi);
    assert_eq!(ui.navi.cur_line, 1);
    assert_eq!(ui.navi.select_line, Some((1, 1)));
    ui.handle_key(&key(KeyCode::Down, Modifiers::Shift), &fi);
    assert_eq!(ui.navi.select_line, Some((1, 3)));
    ui.handle_key(&key(KeyCode::Up, Modifiers::Shift), &fi);
    assert_eq!(ui.navi.cur_line, 1);
    assert_eq!(ui.navi.select_line, Some((1, 2)));
    assert_eq!(ui.handle_key(&key(KeyCode::Enter, Modifiers::Other), &fi), Step::Redraw);
    assert_eq!(ui.focus.current(), FocusType::Chat);
    ui.handle_key(&key(KeyCode::Tab, Modifiers::Other), &fi);
    ui.handle_key(&key(KeyCode::Esc, Modifiers::Other), &fi);
    ui.handle_key(&key(KeyCode::Down, Modifiers::Other), &fi);
    assert_eq!(ui.navi.cur_line, 2);
    ui.handle_key(&key(KeyCode::Enter, Modifiers::Other), &fi);
    assert_eq!(ui.tv.scroll, 3);
    assert_eq!(ui.navi.cur_line, 0);
    ui.handle_key(&key(KeyCode::Up, Modifiers::Other), &fi);
    assert_eq!(ui.tv.scroll, 2);
    ui.handle_key(&key(KeyCode::Down, Modifiers::Control), &fi);
    assert_eq!(ui.tv.scroll, 30);
    ui.handle_key(&key(KeyCode::Up, Modifiers::Control), &fi);
    assert_eq!(ui.tv.scroll, 2);
}

#[test]
fn selection_at_the_last_row_scrolls_the_file() {
    let mut ui = ChapUI::new(100, 30);
    let fi = info(nums(), Some(50), None);
    ui.navi.to_max_line();
    ui.handle_key(&key(KeyCode::Down, Modifiers::Shift), &fi);
    assert_eq!(ui.tv.scroll, 2);
    assert_eq!(ui.navi.select_line, Some((29, 29)));
    ui.handle_key(&key(KeyCode::Down, Modifiers::Other), &fi);
    assert_eq!(ui.tv.scroll, 3);
}

#[test]
fn chat_keys_walk_through_entries() {
    let mut ui = ChapUI::new(100, 30);
    let fi = info(nums(), Some(50), Some(40));
    ui.record_prompt(0, 4);
    assert_eq!(ui.chat_item, vec![ChatItemIndex(1, 3)]);
    assert_eq!(ui.chat_tv.scroll, 1);
    assert_eq!(ui.chat_index, 0);
    ui.record_reply(5, 9);
    assert_eq!(ui.chat_item[1], ChatItemIndex(5, 9));
    assert_eq!(ui.chat_index, 0);
    ui.handle_key(&key(KeyCode::Tab, Modifiers::Other), &fi);
    ui.handle_key(&key(KeyCode::Down, Modifiers::Other), &fi);
    assert_eq!((ui.chat_index, ui.chat_scroll, ui.chat_tv.scroll), (0, 1, 1));
    ui.handle_key(&key(KeyCode::Down, Modifiers::Other), &fi);
    assert_eq!((ui.chat_index, ui.chat_scroll, ui.chat_tv.scroll), (1, 5, 5));
    ui.handle_key(&key(KeyCode::Down, Modifiers::Other), &fi);
    assert_eq!((ui.chat_index, ui.chat_scroll), (1, 5));
    assert_eq!(
        ui.handle_key(&key(KeyCode::Char('x'), Modifiers::Control), &fi),
        Step::Exit(Some(ChatItemIndex(5, 9)))
    );
    ui.handle_key(&key(KeyCode::Up, Modifiers::Other), &fi);
    assert_eq!((ui.chat_index, ui.chat_scroll, ui.chat_tv.scroll), (0, 1, 1));
    ui.handle_key(&key(KeyCode::Down, Modifiers::Shift), &fi);
    assert_eq!(ui.chat_tv.scroll, 2);
    ui.chat_inp.push('z');
    ui.record_answer(12, 20);
    assert_eq!(ui.chat_item[2], ChatItemIndex(12, 19));
    assert_eq!((ui.chat_index, ui.chat_tv.scroll), (2, 12));
    assert_eq!(ui.chat_inp.get_inp(), "");
}

#[test]
fn tab_twice_and_keys_keep_the_frame() {
    let mut ui = ChapUI::new(80, 24);
    let fi = info((1..=22).collect(), None, None);
    let before = (ui.tv.rect, ui.tv.height, ui.chat_tv.rect, ui.navi.max_line, ui.fuzzy_inp.rect);
    ui.handle_key(&key(KeyCode::Tab, Modifiers::Other), &fi);
    ui.handle_key(&key(KeyCode::Tab, Modifiers::Control), &fi);
    assert_eq!(ui.focus.current(), FocusType::TxtFuzzy);
    for k in [KeyCode::Down, KeyCode::Up, KeyCode::Enter, KeyCode::Char('a'), KeyCode::Backspace] {
        for m in [Modifiers::Shift, Modifiers::Control, Modifiers::Other] {
            ui.handle_key(&key(k, m), &fi);
            assert!(ui.navi.min_line <= ui.navi.cur_line && ui.navi.cur_line <= ui.navi.max_line);
        }
    }
    let after = (ui.tv.rect, ui.tv.height, ui.chat_tv.rect, ui.navi.max_line, ui.fuzzy_inp.rect);
    assert_eq!(before, after);
    assert!(ui.chat_item.is_empty());
}

#[test]
fn replies_start_at_the_first_line_at_least() {
    let mut ui = ChapUI::new(80, 24);
    ui.record_reply(0, 0);
    assert_eq!(ui.chat_item, vec![ChatItemIndex(1, 1)]);
    ui.record_answer(0, 0);
    assert_eq!(ui.chat_item[1], ChatItemIndex(1, 0));
    assert_eq!(ui.chat_index, 1);
}

#[test]
fn undefined_keys_are_refused_up_front() {
    let mut ui = ChapUI::new(80, 24);
    let fi = info(vec![], None, None);
    ui.handle_key(&key(KeyCode::Tab, Modifiers::Other), &fi);
    assert!(!ui.accepts(&key(KeyCode::Up, Modifiers::Other), &fi));
    assert!(!ui.accepts(&key(KeyCode::Down, Modifiers::Other), &fi));
    assert!(ui.accepts(&key(KeyCode::Up, Modifiers::Shift), &fi));
    ui.record_reply(3, 7);
    assert!(ui.accepts(&key(KeyCode::Down, Modifiers::Other), &fi));
    ui.handle_key(&key(KeyCode::Tab, Modifiers::Other), &fi);
    ui.tv.set_scroll(usize::MAX);
    ui.navi.to_max_line();
    assert!(!ui.accepts(&key(KeyCode::Down, Modifiers::Other), &fi));
    assert!(!ui.accepts(&key(KeyCode::Down, Modifiers::Control), &fi));
    ui.tv.set_scroll(0);
    ui.navi.to_min_line();
    assert!(!ui.accepts(&key(KeyCode::Up, Modifiers::Other), &fi));
}

#[test]
fn unicode_white_space_is_trimmed() {
    let mut f = FuzzyInput { input: String::new(), rect: area(1, 28, 59, 2) };
    for c in "\u{3000}\u{a0}x y\u{2029}\u{85}".chars() {
        f.push(c);
    }
    assert_eq!(f.get_inp_exact(), ("x y", true));
    assert!(is_blank("\u{2003}\u{85}\u{1680}\u{202f}"));
    assert!(!is_blank("\u{200b}"));
}

#[test]
fn many_moves_of_cursor_and_focus() {
    let mut n = Navigation { min_line: 2, max_line: 6, cur_line: 3, select_line: None, rect: area(0, 0, 1, 7) };
    for _ in 0..10 {
        n.down_line();
    }
    assert_eq!(n.cur_line, 6);
    for _ in 0..2 {
        n.up_line();
    }
    assert_eq!(n.cur_line, 4);
    for _ in 0..10 {
        n.up_line();
    }
    assert_eq!(n.cur_line, 2);
    let mut f = Focus::new();
    for _ in 0..3 {
        f.next();
    }
    assert_eq!(f.current(), FocusType::Chat);
}
