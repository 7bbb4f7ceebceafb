use vstd::prelude::*;

use crate::style::Color;

verus! {

/// A range of bytes of a line that the fuzzy search matched.
#[derive(Debug, Clone, Copy, PartialEq, Eq, Structural)]
pub struct ByteRange {
    pub start: usize,
    pub end: usize,
}

/// Where the search pattern matched a line: by the positions of the matched
/// chars, or by ranges of bytes.
#[derive(Debug)]
pub enum Match {
    Char(Vec<usize>),
    Byte(Vec<ByteRange>),
}

/// What the text engine knows of a line that it shows: its number in the
/// file, counted from one, and where the search matched it.
#[derive(Debug)]
pub struct LineMeta {
    pub line_num: usize,
    pub matched: Option<Match>,
}

/// A part of a line, by byte offsets, shown plain (no background) or, as
/// matched, on a green background.
#[derive(Debug, Clone, Copy, PartialEq, Eq, Structural)]
pub struct Segment {
    pub start: usize,
    pub end: usize,
    pub background: Option<Color>,
}

/// How a line of the file view is shown: wholly on a light red background
/// when selected, or else cut into the parts of `segments`, or, when there
/// are none, plain.
#[derive(Debug)]
pub struct StyledLine {
    pub background: Option<Color>,
    pub segments: Vec<Segment>,
}

/// The mark in one row of the gutter beside the file view.
#[derive(Debug, Clone, Copy, PartialEq, Eq, Structural)]
pub struct GutterMark {
    pub glyph: char,
    pub foreground: Option<Color>,
}

/// The gutter mark of row `row` with the line cursor on row `cur_line`: a
/// light red `>` on the cursor's row, a blank elsewhere.
pub open spec fn gutter_mark(row: int, cur_line: usize) -> GutterMark {
    if row == cur_line {
        GutterMark { glyph: '>', foreground: Some(Color::LightRed) }
    } else {
        GutterMark { glyph: ' ', foreground: None }
    }
}

/// The parts contributed by one matched range `r` when the line up to byte
/// `cur` has been laid out: the plain stretch before the match, when the
/// match starts after `cur` and within the line, then the match itself,
/// when it starts and ends within the line.
pub open spec fn segments_at(len: usize, cur: usize, r: ByteRange) -> Seq<Segment> {
    let plain = if cur < r.start && r.start <= len {
        seq![Segment { start: cur, end: r.start, background: None }]
    } else {
        Seq::empty()
    };
    let matched = if r.start < len && r.end <= len {
        seq![Segment { start: r.start, end: r.end, background: Some(Color::Green) }]
    } else {
        Seq::empty()
    };
    plain + matched
}

/// The parts of a line of `len` bytes from byte `cur` on, given the matched
/// ranges still to lay out: those of each range in turn, each range moving
/// `cur` to its end, then the plain rest of the line.
pub open spec fn segments_from(len: usize, ranges: Seq<ByteRange>, cur: usize) -> Seq<Segment>
    decreases ranges.len(),
{
    if ranges.len() == 0 {
        if cur < len {
            seq![Segment { start: cur, end: len, background: None }]
        } else {
            Seq::empty()
        }
    } else {
        segments_at(len, cur, ranges[0]) + segments_from(len, ranges.drop_first(), ranges[0].end)
    }
}

/// The parts of a whole line of `len` bytes with the matched ranges `ranges`.
pub open spec fn line_segments(len: usize, ranges: Seq<ByteRange>) -> Seq<Segment> {
    segments_from(len, ranges, 0)
}

/// Whether cutting a line of `len` bytes at the matched `ranges` can be done:
/// a range that lies within the line does not end before it starts.
pub open spec fn ranges_fit(len: usize, ranges: Seq<ByteRange>) -> bool {
    forall|k: int|
        0 <= k < ranges.len() && #[trigger] ranges[k].start < len && ranges[k].end <= len
            ==> ranges[k].start <= ranges[k].end
}

/// Cuts a line of `len` bytes into its plain and highlighted parts.
pub fn match_segments(len: usize, ranges: &Vec<ByteRange>) -> (segs: Vec<Segment>)
    ensures
        segs@ == line_segments(len, ranges@),
{
    let mut segs: Vec<Segment> = Vec::new();
    let mut cur: usize = 0;
    let mut i: usize = 0;
    assert(ranges@.skip(0) =~= ranges@);
    assert(segs@ + line_segments(len, ranges@) =~= line_segments(len, ranges@));
    while i < ranges.len()
        invariant
            i <= ranges.len(),
            segs@ + segments_from(len, ranges@.skip(i as int), cur) == line_segments(len, ranges@),
        decreases ranges.len() - i,
    {
        let r = ranges[i];
        let ghost before = segs@;
        let ghost rest = ranges@.skip(i as int);
        assert(rest[0] == r);
        assert(rest.drop_first() =~= ranges@.skip(i + 1));
        if cur < r.start && r.start <= len {
            segs.push(Segment { start: cur, end: r.start, background: None });
        }
        if r.start < len && r.end <= len {
            segs.push(Segment { start: r.start, end: r.end, background: Some(Color::Green) });
        }
        assert(segs@ =~= before + segments_at(len, cur, r));
        assert(segs@ + segments_from(len, ranges@.skip(i + 1), r.end) =~= before + segments_from(
            len,
            rest,
            cur,
        ));
        cur = r.end;
        i += 1;
    }
    let ghost before = segs@;
    if cur < len {
        segs.push(Segment { start: cur, end: len, background: None });
    }
    assert(segs@ =~= before + segments_from(len, ranges@.skip(ranges.len() as int), cur));
    segs
}

/// Whether `segs`, read in order, cover the bytes from `from` to `to` with
/// neither gap nor overlap.
pub open spec fn tiles(segs: Seq<Segment>, from: int, to: int) -> bool
    decreases segs.len(),
{
    if segs.len() == 0 {
        from == to
    } else {
        segs[0].start == from && segs[0].start <= segs[0].end && tiles(
            segs.drop_first(),
            segs[0].end as int,
            to,
        )
    }
}

/// Whether `ranges` lie within a line of `len` bytes, in order and without
/// overlapping.
pub open spec fn ranges_ordered(len: usize, ranges: Seq<ByteRange>) -> bool {
    &&& forall|k: int| 0 <= k < ranges.len() ==> #[trigger] ranges[k].start <= ranges[k].end <= len
    &&& forall|j: int, k: int|
        0 <= j < k < ranges.len() ==> #[trigger] ranges[j].end <= #[trigger] ranges[k].start
}

proof fn lemma_tiles_append(s1: Seq<Segment>, s2: Seq<Segment>, a: int, m: int, b: int)
    requires
        tiles(s1, a, m),
        tiles(s2, m, b),
    ensures
        tiles(s1 + s2, a, b),
    decreases s1.len(),
{
    if s1.len() > 0 {
        lemma_tiles_append(s1.drop_first(), s2, s1[0].end as int, m, b);
        assert((s1 + s2).drop_first() =~= s1.drop_first() + s2);
    } else {
        assert(s1 + s2 =~= s2);
    }
}

proof fn lemma_segments_from_tile(len: usize, ranges: Seq<ByteRange>, cur: usize)
    requires
        ranges_ordered(len, ranges),
        cur <= len,
        ranges.len() > 0 ==> cur <= ranges[0].start,
    ensures
        tiles(segments_from(len, ranges, cur), cur as int, len as int),
    decreases ranges.len(),
{
    if ranges.len() == 0 {
        if cur < len {
            let s = seq![Segment { start: cur, end: len, background: None }];
            assert(tiles(s.drop_first(), len as int, len as int));
        }
    } else {
        let r = ranges[0];
        let rest = ranges.drop_first();
        assert(r.start <= r.end <= len);
        assert forall|j: int, k: int| 0 <= j < k < rest.len() implies #[trigger] rest[j].end
            <= #[trigger] rest[k].start by {
            assert(ranges[j + 1].end <= ranges[k + 1].start);
        }
        if rest.len() > 0 {
            assert(ranges[0].end <= ranges[1].start);
        }
        lemma_segments_from_tile(len, rest, r.end);
        let plain = if cur < r.start && r.start <= len {
            seq![Segment { start: cur, end: r.start, background: None }]
        } else {
            Seq::empty()
        };
        let matched = if r.start < len && r.end <= len {
            seq![Segment { start: r.start, end: r.end, background: Some(Color::Green) }]
        } else {
            Seq::empty()
        };
        assert(segments_at(len, cur, r) == plain + matched);
        if cur < r.start {
            assert(tiles(plain.drop_first(), r.start as int, r.start as int));
            assert(tiles(plain, cur as int, r.start as int));
        } else {
            assert(tiles(plain, cur as int, r.start as int));
        }
        if r.start < len {
            assert(tiles(matched.drop_first(), r.end as int, r.end as int));
            assert(tiles(matched, r.start as int, r.end as int));
        } else {
            assert(tiles(matched, r.start as int, r.end as int));
        }
        lemma_tiles_append(plain, matched, cur as int, r.start as int, r.end as int);
        lemma_tiles_append(
            plain + matched,
            segments_from(len, rest, r.end),
            cur as int,
            r.end as int,
            len as int,
        );
    }
}

/// When the matched ranges lie within the line, in order and without
/// overlapping, the plain and highlighted parts that a line is cut into
/// cover the whole line, from its first byte to its last, in order, with
/// neither gap nor overlap.
pub proof fn lemma_segments_cover_line(len: usize, ranges: Seq<ByteRange>)
    requires
        ranges_ordered(len, ranges),
    ensures
        tiles(line_segments(len, ranges), 0, len as int),
{
    lemma_segments_from_tile(len, ranges, 0);
}

/// The green segment that marks the matched range `r`.
pub open spec fn green_part(r: ByteRange) -> Segment {
    Segment { start: r.start, end: r.end, background: Some(Color::Green) }
}

proof fn lemma_concat_contains(a: Seq<Segment>, b: Seq<Segment>, x: Segment)
    requires
        a.contains(x) || b.contains(x),
    ensures
        (a + b).contains(x),
{
    if a.contains(x) {
        let i = choose|i: int| 0 <= i < a.len() && a[i] == x;
        assert((a + b)[i] == x);
    } else {
        let i = choose|i: int| 0 <= i < b.len() && b[i] == x;
        assert((a + b)[a.len() + i] == x);
    }
}

proof fn lemma_from_marks_every_match(len: usize, ranges: Seq<ByteRange>, cur: usize, k: int)
    requires
        0 <= k < ranges.len(),
        ranges[k].start < len,
        ranges[k].end <= len,
    ensures
        segments_from(len, ranges, cur).contains(green_part(ranges[k])),
    decreases ranges.len(),
{
    let r = ranges[0];
    let plain = if cur < r.start && r.start <= len {
        seq![Segment { start: cur, end: r.start, background: None }]
    } else {
        Seq::empty()
    };
    let matched = if r.start < len && r.end <= len {
        seq![green_part(r)]
    } else {
        Seq::empty()
    };
    assert(segments_at(len, cur, r) == plain + matched);
    if k == 0 {
        assert(matched[0] == green_part(r));
        lemma_concat_contains(plain, matched, green_part(r));
        lemma_concat_contains(plain + matched, segments_from(len, ranges.drop_first(), r.end), green_part(r));
    } else {
        assert(ranges.drop_first()[k - 1] == ranges[k]);
        lemma_from_marks_every_match(len, ranges.drop_first(), r.end, k - 1);
        lemma_concat_contains(plain + matched, segments_from(len, ranges.drop_first(), r.end), green_part(ranges[k]));
    }
}

proof fn lemma_from_green_only_matches(len: usize, ranges: Seq<ByteRange>, cur: usize, j: int)
    requires
        0 <= j < segments_from(len, ranges, cur).len(),
    ensures
        segments_from(len, ranges, cur)[j].background is None
            || exists|k: int|
            0 <= k < ranges.len() && ranges[k].start < len && ranges[k].end <= len
                && segments_from(len, ranges, cur)[j] == #[trigger] green_part(ranges[k]),
    decreases ranges.len(),
{
    if ranges.len() > 0 {
        let r = ranges[0];
        let rest = ranges.drop_first();
        let head = segments_at(len, cur, r);
        let tail = segments_from(len, rest, r.end);
        let all = segments_from(len, ranges, cur);
        assert(all == head + tail);
        if j >= head.len() {
            lemma_from_green_only_matches(len, rest, r.end, j - head.len());
            assert(all[j] == tail[j - head.len()]);
            if tail[j - head.len()].background is Some {
                let k = choose|k: int|
                    0 <= k < rest.len() && rest[k].start < len && rest[k].end <= len && tail[j
                        - head.len()] == #[trigger] green_part(rest[k]);
                assert(ranges[k + 1] == rest[k]);
                assert(all[j] == green_part(ranges[k + 1]));
            }
        } else {
            assert(all[j] == head[j]);
            if head[j].background is Some {
                assert(all[j] == green_part(ranges[0]));
            }
        }
    }
}

/// Every matched range that lies within the line is shown as a green
/// segment with exactly its bounds, and every other segment is plain: a
/// green segment is always the very range of some match within the line.
pub proof fn lemma_matches_are_green(len: usize, ranges: Seq<ByteRange>)
    ensures
        forall|k: int|
            0 <= k < ranges.len() && ranges[k].start < len && ranges[k].end <= len
                ==> line_segments(len, ranges).contains(
                (Segment { start: ranges[k].start, end: ranges[k].end, background: Some(Color::Green) }),
            ),
        forall|j: int|
            0 <= j < line_segments(len, ranges).len() ==> ((#[trigger] line_segments(len, ranges)[j]).background
                is None) || (exists|k: int|
                0 <= k < ranges.len() && ranges[k].start < len && ranges[k].end <= len
                    && line_segments(len, ranges)[j] == (Segment {
                    start: ranges[k].start,
                    end: ranges[k].end,
                    background: Some(Color::Green),
                })),
{
    assert forall|k: int|
        0 <= k < ranges.len() && ranges[k].start < len && ranges[k].end <= len implies line_segments(
            len,
            ranges,
        ).contains(green_part(ranges[k])) by {
        lemma_from_marks_every_match(len, ranges, 0, k);
    }
    assert forall|j: int| 0 <= j < line_segments(len, ranges).len() implies ((#[trigger] line_segments(
        len,
        ranges,
    )[j]).background is None) || (exists|k: int|
        0 <= k < ranges.len() && ranges[k].start < len && ranges[k].end <= len
            && line_segments(len, ranges)[j] == green_part(ranges[k])) by {
        lemma_from_green_only_matches(len, ranges, 0, j);
        if line_segments(len, ranges)[j].background is Some {
            let k = choose|k: int|
                0 <= k < ranges.len() && ranges[k].start < len && ranges[k].end <= len
                    && line_segments(len, ranges)[j] == #[trigger] green_part(ranges[k]);
            assert(line_segments(len, ranges)[j] == green_part(ranges[k]));
        }
    }
}

/// Whether the line shown at row `row`, numbered `line_num` in the file, is
/// marked as selected: it is the row of the line cursor, or a selection is
/// made and the line lies within it.
pub open spec fn is_selected_line(
    row: int,
    line_num: usize,
    cur_line: usize,
    select_line: Option<(usize, usize)>,
) -> bool {
    match select_line {
        Some((st, en)) => (st <= line_num && line_num <= en) || row == cur_line,
        None => row == cur_line,
    }
}

/// How the line at row `row`, of `len` bytes, is shown: its background and
/// its parts.
pub open spec fn styled_line(
    row: int,
    len: usize,
    meta: LineMeta,
    cur_line: usize,
    select_line: Option<(usize, usize)>,
) -> (Option<Color>, Seq<Segment>) {
    if is_selected_line(row, meta.line_num, cur_line, select_line) {
        (Some(Color::LightRed), Seq::empty())
    } else {
        match meta.matched {
            Some(Match::Byte(v)) => (None, line_segments(len, v@)),
            _ => (None, Seq::empty()),
        }
    }
}

/// The cursor's row is always on the selection background. Another row is
/// on it exactly when a selection is made and the row's file line lies
/// between the selection's first and last lines, both included; with no
/// selection, no other row is.
pub proof fn lemma_selection_background(
    row: int,
    len: usize,
    meta: LineMeta,
    cur_line: usize,
    select_line: Option<(usize, usize)>,
)
    ensures
        row == cur_line ==> styled_line(row, len, meta, cur_line, select_line).0 == Some(
            Color::LightRed,
        ),
        row != cur_line ==> match select_line {
            Some((st, en)) => (styled_line(row, len, meta, cur_line, select_line).0 == Some(
                Color::LightRed,
            )) == (st <= meta.line_num && meta.line_num <= en),
            None => styled_line(row, len, meta, cur_line, select_line).0 is None,
        },
        styled_line(row, len, meta, cur_line, select_line).0 is Some ==> styled_line(
            row,
            len,
            meta,
            cur_line,
            select_line,
        ).1.len() == 0,
{
}

/// Whether the lines shown can be styled: each has what the text engine
/// knows of it, none was matched by char positions, and the byte ranges of
/// each fit it.
pub open spec fn content_fits(content: Seq<&str>, line_meta: Seq<LineMeta>) -> bool {
    &&& content.len() == line_meta.len()
    &&& forall|i: int|
        0 <= i < line_meta.len() ==> match #[trigger] line_meta[i].matched {
            Some(Match::Char(_)) => false,
            Some(Match::Byte(v)) => ranges_fit(content[i].len(), v@),
            None => true,
        }
}

/// The look of the file view: the gutter, with a marker on the row of the
/// line cursor out of `height` rows, and how each line shown is styled.
pub fn get_content(
    content: &Vec<&str>,
    line_meta: &Vec<LineMeta>,
    cur_line: usize,
    select_line: &Option<(usize, usize)>,
    height: usize,
) -> (r: (Vec<GutterMark>, Vec<StyledLine>))
    requires
        content_fits(content@, line_meta@),
    ensures
        r.0@.len() == height,
        forall|i: int| 0 <= i < height ==> r.0@[i] == gutter_mark(i, cur_line),
        r.1@.len() == content@.len(),
        forall|i: int|
            0 <= i < content@.len() ==> (#[trigger] r.1@[i].background, r.1@[i].segments@)
                == styled_line(
                i,
                content@[i].len(),
                line_meta@[i],
                cur_line,
                *select_line,
            ),
{
    let mut lines: Vec<StyledLine> = Vec::new();
    let mut i: usize = 0;
    while i < content.len()
        invariant
            i <= content.len(),
            content_fits(content@, line_meta@),
            lines@.len() == i,
            forall|k: int|
                0 <= k < i ==> (#[trigger] lines@[k].background, lines@[k].segments@) == styled_line(
                    k,
                    content@[k].len(),
                    line_meta@[k],
                    cur_line,
                    *select_line,
                ),
        decreases content.len() - i,
    {
        let text = content[i];
        let len = text.len();
        let meta = &line_meta[i];
        let line_num = meta.line_num;
        let spans: Vec<Segment> = match &meta.matched {
            Some(Match::Byte(v)) => match_segments(len, v),
            _ => Vec::new(),
        };
        let selected = match select_line {
            Some((st, en)) => (line_num >= *st && line_num <= *en) || i == cur_line,
            None => i == cur_line,
        };
        if selected {
            lines.push(StyledLine { background: Some(Color::LightRed), segments: Vec::new() });
        } else {
            lines.push(StyledLine { background: None, segments: spans });
        }
        i += 1;
    }
    let mut nav: Vec<GutterMark> = Vec::new();
    let mut j: usize = 0;
    while j < height
        invariant
            j <= height,
            nav@.len() == j,
            forall|k: int| 0 <= k < j ==> nav@[k] == gutter_mark(k, cur_line),
        decreases height - j,
    {
        if j == cur_line {
            nav.push(GutterMark { glyph: '>', foreground: Some(Color::LightRed) });
        } else {
            nav.push(GutterMark { glyph: ' ', foreground: None });
        }
        j += 1;
    }
    (nav, lines)
}

/// The gutter marks the row of the line cursor and no other: exactly one
/// row when the cursor is among the rows shown, none otherwise.
pub proof fn lemma_one_marker(nav: Seq<GutterMark>, height: usize, cur_line: usize)
    requires
        nav.len() == height,
        forall|i: int| 0 <= i < height ==> nav[i] == gutter_mark(i, cur_line),
    ensures
        cur_line < height ==> nav[cur_line as int].glyph == '>' && forall|i: int|
            0 <= i < height && i != cur_line ==> nav[i].glyph != '>',
        cur_line >= height ==> forall|i: int| 0 <= i < height ==> nav[i].glyph != '>',
{
}

/// The text colour of each line of the chat view: green for the lines of
/// the chat entry `chat_item`, the pane's own colour (none) for the others.
pub fn get_chat_content(
    content: &Vec<&str>,
    line_meta: &Vec<LineMeta>,
    chat_item: &crate::chat::ChatItemIndex,
) -> (marked: Vec<Option<Color>>)
    requires
        content@.len() == line_meta@.len(),
    ensures
        marked@.len() == content@.len(),
        forall|i: int|
            0 <= i < content@.len() ==> #[trigger] marked@[i] == (if chat_item.0
                <= line_meta@[i].line_num <= chat_item.1 {
                Some(Color::Green)
            } else {
                None
            }),
{
    let mut marked: Vec<Option<Color>> = Vec::new();
    let mut i: usize = 0;
    while i < content.len()
        invariant
            i <= content.len(),
            content@.len() == line_meta@.len(),
            marked@.len() == i,
            forall|k: int|
                0 <= k < i ==> #[trigger] marked@[k] == (if chat_item.0 <= line_meta@[k].line_num
                    <= chat_item.1 {
                    Some(Color::Green)
                } else {
                    None
                }),
        decreases content.len() - i,
    {
        let line_num = line_meta[i].line_num;
        if line_num >= chat_item.start() && line_num <= chat_item.end() {
            marked.push(Some(Color::Green));
        } else {
            marked.push(None);
        }
        i += 1;
    }
    marked
}

} // verus!
