//! Visual rows of an EDIT control: wrapping, the text area, hit testing.
use vstd::prelude::*;

use crate::font::FontEngine;
use crate::lines;

verus! {

/// Left margin of the text in pixels.
pub const TEXT_MARGIN: i32 = 2;

/// Left and right margin together.
pub const TEXT_MARGINS: i32 = 4;

/// Thickness of a scroll bar in pixels.
pub const SCROLL_BAR_SIZE: i32 = 17;

/// Style bit: the control holds more than one line.
pub const ES_MULTILINE: u32 = 0x0004;

/// Style bit: centred text.
pub const ES_CENTER: u32 = 0x0001;

/// Style bit: right-aligned text.
pub const ES_RIGHT: u32 = 0x0002;

/// Style bit: a vertical scroll bar.
pub const WS_VSCROLL: u32 = 0x0020_0000;

/// Style bit: a horizontal scroll bar.
pub const WS_HSCROLL: u32 = 0x0010_0000;

/// The pixels that characters `start..end` take.
pub open spec fn span_width(text: Seq<char>, start: int, end: int, font: FontEngine) -> nat
    decreases end - start,
{
    if end <= start {
        0
    } else {
        span_width(text, start, end - 1, font) + font.advance(text[end - 1])
    }
}

/// Where a wrapped row that starts at `start` and holds at least `start..end`
/// ends: it takes characters up to `limit` as long as they fit in `width`.
pub open spec fn grow_row(text: Seq<char>, start: int, end: int, limit: int, width: int, font: FontEngine) -> int
    decreases limit - end,
{
    if end < limit && span_width(text, start, end + 1, font) <= width {
        grow_row(text, start, end + 1, limit, width, font)
    } else {
        end
    }
}

/// Where the row that starts at `start` ends: at the end of its line, or, where
/// rows wrap, before the first character that does not fit. A row of a line that
/// is not empty holds at least one character.
pub open spec fn row_end(text: Seq<char>, start: int, width: int, wrap: bool, font: FontEngine) -> int {
    let limit = lines::line_end(text, start);
    if wrap && start < limit {
        grow_row(text, start, start + 1, limit, width, font)
    } else {
        limit
    }
}

/// The rows from the row that starts at `start` on, as half-open character spans.
pub open spec fn rows_from(text: Seq<char>, start: int, width: int, wrap: bool, font: FontEngine) -> Seq<(int, int)>
    decreases text.len() - start,
    when 0 <= start <= text.len()
    via rows_from_decreases
{
    let end = row_end(text, start, width, wrap, font);
    let row = seq![(start, end)];
    if end < lines::line_end(text, start) {
        row + rows_from(text, end, width, wrap, font)
    } else if end < text.len() {
        row + rows_from(text, end + 1, width, wrap, font)
    } else {
        row
    }
}

#[via_fn]
proof fn rows_from_decreases(text: Seq<char>, start: int, width: int, wrap: bool, font: FontEngine) {
    lemma_row_end(text, start, width, wrap, font);
}

/// The visual rows of a text.
pub open spec fn rows(text: Seq<char>, width: int, wrap: bool, font: FontEngine) -> Seq<(int, int)> {
    rows_from(text, 0, width, wrap, font)
}

/// The last of `rows` (in text order) that starts at or before `index`, among the
/// first `n`.
pub open spec fn row_of(rows: Seq<(int, int)>, index: int, n: nat) -> int
    decreases n,
{
    if n <= 1 || rows[n - 1].0 <= index {
        n - 1
    } else {
        row_of(rows, index, (n - 1) as nat)
    }
}

proof fn lemma_grow_row(text: Seq<char>, start: int, end: int, limit: int, width: int, font: FontEngine)
    requires
        end <= limit,
    ensures
        end <= grow_row(text, start, end, limit, width, font) <= limit,
    decreases limit - end,
{
    if end < limit && span_width(text, start, end + 1, font) <= width {
        lemma_grow_row(text, start, end + 1, limit, width, font);
    }
}

pub(crate) proof fn lemma_row_end(text: Seq<char>, start: int, width: int, wrap: bool, font: FontEngine)
    requires
        0 <= start <= text.len(),
    ensures
        start <= row_end(text, start, width, wrap, font) <= lines::line_end(text, start) <= text.len(),
        start < lines::line_end(text, start) ==> start < row_end(text, start, width, wrap, font),
{
    lines::line_bounds(text, start);
    let limit = lines::line_end(text, start);
    if wrap && start < limit {
        lemma_grow_row(text, start, start + 1, limit, width, font);
    }
}

/// A text has at least one row, its first row starts at its beginning, its last
/// row ends at its end, and each row starts where the row before ended, past the
/// `'\n'` where there is one: no character is lost or shown twice.
pub proof fn rows_cover(text: Seq<char>, width: int, wrap: bool, font: FontEngine)
    ensures
        rows_cover_from(text, 0, rows(text, width, wrap, font)),
{
    lemma_rows_cover(text, 0, width, wrap, font);
}

/// What `rows_cover` says, for the rows from position `start` on.
pub open spec fn rows_cover_from(text: Seq<char>, start: int, rows: Seq<(int, int)>) -> bool {
    &&& rows.len() >= 1
    &&& rows.len() <= text.len() - start + 1
    &&& rows[0].0 == start
    &&& rows.last().1 == text.len()
    &&& forall|i: int| 0 <= i < rows.len() ==> start <= (#[trigger] rows[i]).0 <= rows[i].1 <= text.len()
    &&& forall|i: int|
        0 <= i < rows.len() - 1 ==> (#[trigger] rows[i]).1 < text.len() && rows[i + 1].0 == if text[rows[i].1]
            == '\n' {
            rows[i].1 + 1
        } else {
            rows[i].1
        }
    &&& forall|i: int, j: int| 0 <= i < j < rows.len() ==> (#[trigger] rows[i]).0 < (#[trigger] rows[j]).0
    &&& forall|i: int, k: int|
        #![trigger rows[i], text[k]]
        0 <= i < rows.len() && rows[i].0 <= k < rows[i].1 ==> text[k] != '\n'
}

proof fn lemma_rows_cover(text: Seq<char>, start: int, width: int, wrap: bool, font: FontEngine)
    requires
        0 <= start <= text.len(),
    ensures
        rows_cover_from(text, start, rows_from(text, start, width, wrap, font)),
    decreases text.len() - start,
{
    lemma_row_end(text, start, width, wrap, font);
    lines::line_bounds(text, start);
    let end = row_end(text, start, width, wrap, font);
    let all = rows_from(text, start, width, wrap, font);
    let limit = lines::line_end(text, start);
    if end < text.len() {
        let next = if end < limit {
            end
        } else {
            end + 1
        };
        lemma_rows_cover(text, next, width, wrap, font);
        let rest = rows_from(text, next, width, wrap, font);
        assert(all == seq![(start, end)] + rest);
        assert forall|i: int| 0 <= i < all.len() implies start <= (#[trigger] all[i]).0 <= all[i].1 <= text.len() by {
            if i > 0 {
                assert(all[i] == rest[i - 1]);
            }
        }
        assert forall|i: int| 0 <= i < all.len() - 1 implies (#[trigger] all[i]).1 < text.len() && all[i + 1].0
            == if text[all[i].1] == '\n' {
            all[i].1 + 1
        } else {
            all[i].1
        } by {
            if i > 0 {
                assert(all[i] == rest[i - 1]);
                assert(all[i + 1] == rest[i]);
            } else {
                assert(all[1] == rest[0]);
            }
        }
        assert forall|i: int, j: int| 0 <= i < j < all.len() implies (#[trigger] all[i]).0 < (#[trigger] all[j]).0 by {
            assert(all[j] == rest[j - 1]);
            if i > 0 {
                assert(all[i] == rest[i - 1]);
            }
        }
        assert forall|i: int, k: int|
            #![trigger all[i], text[k]]
            0 <= i < all.len() && all[i].0 <= k < all[i].1 implies text[k] != '\n' by {
            if i > 0 {
                assert(all[i] == rest[i - 1]);
            }
        }
        assert(all.last() == rest.last());
    } else {
        assert(all =~= seq![(start, end)]);
    }
}

/// Rows that wrap fit in the width, save a row of a single character.
pub proof fn wrapped_rows_fit(text: Seq<char>, start: int, width: int, font: FontEngine)
    requires
        0 <= start <= text.len(),
    ensures
        ({
            let end = row_end(text, start, width, true, font);
            end <= start + 1 || span_width(text, start, end, font) <= width
        }),
{
    let limit = lines::line_end(text, start);
    if start < limit {
        lemma_grow_fits(text, start, start + 1, limit, width, font);
    } else {
        lines::line_bounds(text, start);
    }
}

proof fn lemma_grow_fits(text: Seq<char>, start: int, end: int, limit: int, width: int, font: FontEngine)
    requires
        end <= limit,
    ensures
        ({
            let grown = grow_row(text, start, end, limit, width, font);
            grown == end || span_width(text, start, grown, font) <= width
        }),
    decreases limit - end,
{
    if end < limit && span_width(text, start, end + 1, font) <= width {
        lemma_grow_fits(text, start, end + 1, limit, width, font);
    }
}

proof fn lemma_width_bound(text: Seq<char>, start: int, end: int, font: FontEngine)
    requires
        0 <= start <= end <= text.len(),
    ensures
        span_width(text, start, end, font) <= (end - start) * 0x7FFF_FFFF,
    decreases end - start,
{
    if start < end {
        lemma_width_bound(text, start, end - 1, font);
        assert((end - 1 - start) * 0x7FFF_FFFF + 0x7FFF_FFFF == (end - start) * 0x7FFF_FFFF) by (nonlinear_arith);
    }
}

/// The pixels that characters `start..end` take.
pub fn text_width(text: &[char], start: usize, end: usize, font: &FontEngine) -> (width: u128)
    requires
        start <= end <= text@.len(),
    ensures
        width == span_width(text@, start as int, end as int, *font),
{
    let mut width: u128 = 0;
    let mut i: usize = start;
    while i < end
        invariant
            start <= i <= end <= text@.len(),
            width == span_width(text@, start as int, i as int, *font),
        decreases end - i,
    {
        proof {
            lemma_width_bound(text@, start as int, i as int, *font);
            assert((i - start) * 0x7FFF_FFFF <= 0xFFFF_FFFF_FFFF_FFFF * 0x7FFF_FFFF) by (nonlinear_arith)
                requires
                    0 <= i - start <= 0xFFFF_FFFF_FFFF_FFFF,
            ;
        }
        width = width + font.char_advance(text[i]) as u128;
        i = i + 1;
    }
    width
}

/// A visual row: characters `start..end` of the text.
#[derive(Debug, Clone, Copy, PartialEq, Eq, Structural)]
pub struct Row {
    pub start: usize,
    pub end: usize,
}

/// Rows as character spans.
pub open spec fn spans(rows: Seq<Row>) -> Seq<(int, int)> {
    rows.map_values(|row: Row| (row.start as int, row.end as int))
}

fn find_row_end(text: &[char], start: usize, width: i32, wrap: bool, font: &FontEngine) -> (end: usize)
    requires
        start <= text@.len(),
    ensures
        end == row_end(text@, start as int, width as int, wrap, *font),
        start <= end <= text@.len(),
{
    proof {
        lemma_row_end(text@, start as int, width as int, wrap, *font);
    }
    let limit: usize = lines::end_of_line(text, start);
    if !wrap || start >= limit {
        return limit;
    }
    let mut end: usize = start + 1;
    let mut used: i64 = font.char_advance(text[start]) as i64;
    let ghost whole = grow_row(text@, start as int, end as int, limit as int, width as int, *font);
    assert(span_width(text@, start as int, start + 1, *font) == font.advance(text@[start as int])) by {
        reveal_with_fuel(span_width, 2);
    }
    while end < limit
        invariant
            start < end <= limit <= text@.len(),
            used == span_width(text@, start as int, end as int, *font),
            0 <= used <= 0x7FFF_FFFF,
            whole == grow_row(text@, start as int, end as int, limit as int, width as int, *font),
        ensures
            start < end <= limit,
            end == whole,
        decreases limit - end,
    {
        let wider: i64 = used + font.char_advance(text[end]) as i64;
        if wider > width as i64 {
            break;
        }
        used = wider;
        end = end + 1;
    }
    end
}

/// Lay the whole text out in rows.
pub fn lay_out(text: &[char], width: i32, wrap: bool, font: &FontEngine) -> (result: Vec<Row>)
    ensures
        spans(result@) == rows(text@, width as int, wrap, *font),
        result@.len() >= 1,
        forall|i: int| 0 <= i < result@.len() ==> (#[trigger] result@[i]).start <= result@[i].end <= text@.len(),
{
    let mut result: Vec<Row> = Vec::new();
    let mut start: usize = 0;
    let ghost all = rows(text@, width as int, wrap, *font);
    proof {
        rows_cover(text@, width as int, wrap, *font);
        assert(spans(result@) + rows_from(text@, 0, width as int, wrap, *font) =~= all);
    }
    loop
        invariant_except_break
            all == spans(result@) + rows_from(text@, start as int, width as int, wrap, *font),
        invariant
            start <= text@.len(),
            forall|i: int| 0 <= i < result@.len() ==> (#[trigger] result@[i]).start <= result@[i].end <= text@.len(),
        ensures
            all == spans(result@),
            result@.len() >= 1,
            forall|i: int| 0 <= i < result@.len() ==> (#[trigger] result@[i]).start <= result@[i].end <= text@.len(),
        decreases text@.len() + 1 - start,
    {
        let end: usize = find_row_end(text, start, width, wrap, font);
        proof {
            lemma_row_end(text@, start as int, width as int, wrap, *font);
            lines::line_bounds(text@, start as int);
        }
        let ghost before = spans(result@);
        result.push(Row { start, end });
        assert(spans(result@) =~= before + seq![(start as int, end as int)]);
        if end >= text.len() {
            assert(all =~= spans(result@));
            break;
        }
        let next: usize = if text[end] == '\n' {
            end + 1
        } else {
            end
        };
        assert(all =~= spans(result@) + rows_from(text@, next as int, width as int, wrap, *font));
        start = next;
    }
    result
}

/// `value` in the range of `i32`.
pub open spec fn saturated(value: int) -> int {
    if value > i32::MAX {
        i32::MAX as int
    } else if value < i32::MIN {
        i32::MIN as int
    } else {
        value
    }
}

/// Bring a number into the range of pixel counts.
pub fn saturate(value: i128) -> (clamped: i32)
    ensures
        clamped == saturated(value as int),
{
    if value > 0x7FFF_FFFF {
        0x7FFF_FFFF
    } else if value < -0x8000_0000 {
        -0x8000_0000
    } else {
        value as i32
    }
}

/// A count times a measure, kept within 32 bits.
pub fn saturating_product(count: usize, measure: i32) -> (product: i32)
    ensures
        product == saturated(count * measure),
{
    proof {
        assert(-0x8000_0000_0000_0000_0000_0000 <= count as int * measure as int
            <= 0x8000_0000_0000_0000_0000_0000) by (nonlinear_arith)
            requires
                0 <= count <= 0xFFFF_FFFF_FFFF_FFFF,
                -0x8000_0000 <= measure <= 0x7FFF_FFFF,
        ;
    }
    saturate(count as i128 * measure as i128)
}

/// How many rows a text has, and on which of them `caret` is.
pub fn visual_rows(text: &[char], width: i32, wrap: bool, caret: usize, font: &FontEngine) -> (result: (
    usize,
    usize,
))
    ensures
        ({
            let all = rows(text@, width as int, wrap, *font);
            result.0 == all.len() && result.1 == row_of(all, caret as int, all.len())
        }),
        result.1 < result.0,
{
    let all = lay_out(text, width, wrap, font);
    let total: usize = all.len();
    let ghost all_spans = rows(text@, width as int, wrap, *font);
    let mut n: usize = total;
    while n > 1 && all[n - 1].start > caret
        invariant
            1 <= n <= total,
            total == all@.len(),
            all_spans == spans(all@),
            row_of(all_spans, caret as int, n as nat) == row_of(all_spans, caret as int, total as nat),
        decreases n,
    {
        assert(all_spans[n - 1].0 == all@[n - 1].start);
        n = n - 1;
    }
    assert(n >= 1 ==> all_spans[n - 1].0 == all@[n - 1].start);
    (total, n - 1)
}

/// How many full rows a client of `height` pixels shows, at least one.
pub open spec fn visible_rows(height: int, line_height: int) -> nat {
    if line_height <= 0 || height < line_height {
        1
    } else {
        (height / line_height) as nat
    }
}

/// How many full rows a client of `height` pixels shows. A partial row at the
/// bottom is clipped; degenerate metrics still show one row, so that the caret
/// stays reachable.
pub fn visible_line_count(height: i32, line_height: i32) -> (count: usize)
    ensures
        count == visible_rows(height as int, line_height as int),
        1 <= count <= i32::MAX,
{
    if line_height <= 0 || height < line_height {
        1
    } else {
        proof {
            assert(height as int / line_height as int >= 1) by (nonlinear_arith)
                requires
                    height >= line_height,
                    line_height > 0,
            ;
            assert(height as int / line_height as int <= height) by (nonlinear_arith)
                requires
                    height >= line_height,
                    line_height > 0,
            ;
        }
        (height as u32 / line_height as u32) as usize
    }
}

/// The last scroll offset that still shows a full page, or 0.
pub open spec fn max_offset(total: int, visible: int) -> int {
    if total > visible {
        total - visible
    } else {
        0
    }
}

/// A scroll offset within the text.
pub open spec fn clamped_offset(offset: int, total: int, visible: int) -> int {
    if offset > max_offset(total, visible) {
        max_offset(total, visible)
    } else if offset < 0 {
        0
    } else {
        offset
    }
}

/// Keep a scroll offset within `[0, total - visible]`, 0 when the text fits.
pub fn clamp_scroll_offset(offset: usize, total: usize, visible: usize) -> (clamped: usize)
    ensures
        clamped == clamped_offset(offset as int, total as int, visible as int),
{
    let last: usize = if total > visible {
        total - visible
    } else {
        0
    };
    if offset > last {
        last
    } else {
        offset
    }
}

/// The offset nearest to `first` at which row `row` is among the `visible` rows
/// shown.
pub open spec fn scrolled_to(first: int, row: int, visible: int) -> int {
    if row < first {
        row
    } else if row >= first + visible {
        row - visible + 1
    } else {
        first
    }
}

/// Scroll as little as possible to show `row`.
pub fn scroll_to_row(first: usize, row: usize, visible: usize) -> (offset: usize)
    requires
        visible >= 1,
    ensures
        offset == scrolled_to(first as int, row as int, visible as int),
{
    if row < first {
        row
    } else if row - first >= visible {
        row - visible + 1
    } else {
        first
    }
}

/// Scrolling to a row shows it, moves nothing if it was shown already, and keeps
/// a full page where there was one.
pub proof fn scrolling_shows_the_row(first: int, row: int, visible: int, total: int)
    requires
        0 <= first,
        0 <= row < total,
        1 <= visible,
    ensures
        ({
            let offset = scrolled_to(first, row, visible);
            &&& offset <= row < offset + visible
            &&& first <= row < first + visible ==> offset == first
            &&& first <= max_offset(total, visible) ==> offset <= max_offset(total, visible) || offset == row
        }),
{
}

/// Whether a control with this style shows its vertical scroll bar.
pub open spec fn v_bar_shown(style: u32, total: int, visible: int) -> bool {
    style & WS_VSCROLL != 0 && total > visible
}

/// Whether a control with this style shows its vertical scroll bar: it has one
/// and the text overflows.
pub fn scrollbar_visible(style: u32, total: usize, visible: usize) -> (shown: bool)
    ensures
        shown == v_bar_shown(style, total as int, visible as int),
{
    style & WS_VSCROLL != 0 && total > visible
}

/// The width of the widest of the first `n` rows.
pub open spec fn widest_of(text: Seq<char>, rows: Seq<(int, int)>, n: nat, font: FontEngine) -> nat
    decreases n,
{
    if n == 0 {
        0
    } else {
        let before = widest_of(text, rows, (n - 1) as nat, font);
        let last = span_width(text, rows[n - 1].0, rows[n - 1].1, font);
        if last > before {
            last
        } else {
            before
        }
    }
}

/// The width of the widest logical line.
pub open spec fn widest(text: Seq<char>, font: FontEngine) -> nat {
    let all = rows(text, 0, false, font);
    widest_of(text, all, all.len(), font)
}

/// The width of the widest logical line.
pub fn widest_line(text: &[char], font: &FontEngine) -> (width: u128)
    ensures
        width == widest(text@, *font),
{
    let all = lay_out(text, 0, false, font);
    let ghost all_spans = rows(text@, 0, false, *font);
    let mut width: u128 = 0;
    let mut i: usize = 0;
    while i < all.len()
        invariant
            i <= all@.len(),
            all_spans == spans(all@),
            forall|k: int| 0 <= k < all@.len() ==> (#[trigger] all@[k]).start <= all@[k].end <= text@.len(),
            width == widest_of(text@, all_spans, i as nat, *font),
        decreases all@.len() - i,
    {
        let row = all[i];
        let row_width: u128 = text_width(text, row.start, row.end, font);
        assert(all_spans[i as int] == (row.start as int, row.end as int));
        if row_width > width {
            width = row_width;
        }
        i = i + 1;
    }
    width
}

/// Whether a control with this style wraps its text: several lines and no
/// horizontal scroll bar.
pub open spec fn wraps(style: u32) -> bool {
    style & ES_MULTILINE != 0 && style & WS_HSCROLL == 0
}

/// Geometry of the text in an EDIT control.
#[derive(Debug, Clone, Copy, PartialEq, Eq, Structural)]
pub struct TextArea {
    /// Whether long lines wrap.
    pub wrap: bool,
    /// Width that rows are laid out in.
    pub wrap_width: i32,
    /// Number of visual rows.
    pub total: usize,
    /// Row of the caret.
    pub caret_row: usize,
    /// Number of full rows that are shown.
    pub visible: usize,
    /// Whether the vertical scroll bar takes its gutter.
    pub v_scroll_visible: bool,
    /// Whether the horizontal scroll bar takes its strip.
    pub h_scroll_visible: bool,
    /// Height of the vertical scroll bar's track.
    pub track: i32,
}

/// The width between the margins.
pub open spec fn full_width(width: int) -> int {
    saturated(width - TEXT_MARGINS)
}

/// Whether the horizontal scroll bar shows: the control has one and its widest
/// line overflows.
pub open spec fn h_bar_shown(text: Seq<char>, width: int, style: u32, font: FontEngine) -> bool {
    !wraps(style) && style & WS_HSCROLL != 0 && widest(text, font) > full_width(width)
}

/// How many rows the client shows, above the horizontal scroll bar where there is
/// one.
pub open spec fn page_rows(
    text: Seq<char>,
    width: int,
    height: int,
    line_height: int,
    style: u32,
    font: FontEngine,
) -> nat {
    if h_bar_shown(text, width, style, font) {
        visible_rows(saturated(height - SCROLL_BAR_SIZE), line_height)
    } else {
        visible_rows(height, line_height)
    }
}

/// Whether the vertical scroll bar takes its gutter: the control has one and the
/// rows at full width overflow.
pub open spec fn v_gutter(
    text: Seq<char>,
    width: int,
    height: int,
    line_height: int,
    style: u32,
    font: FontEngine,
) -> bool {
    v_bar_shown(
        style,
        rows(text, full_width(width), wraps(style), font).len() as int,
        page_rows(text, width, height, line_height, style, font) as int,
    )
}

/// The width that rows are laid out in.
pub open spec fn column_width(
    text: Seq<char>,
    width: int,
    height: int,
    line_height: int,
    style: u32,
    font: FontEngine,
) -> int {
    if v_gutter(text, width, height, line_height, style, font) {
        saturated(full_width(width) - SCROLL_BAR_SIZE)
    } else {
        full_width(width)
    }
}

/// The rows of a control's text.
pub open spec fn control_rows(
    text: Seq<char>,
    width: int,
    height: int,
    line_height: int,
    style: u32,
    font: FontEngine,
) -> Seq<(int, int)> {
    rows(text, column_width(text, width, height, line_height, style, font), wraps(style), font)
}

/// Whether `area` describes the text of a control.
pub open spec fn is_text_area(
    area: TextArea,
    text: Seq<char>,
    width: int,
    height: int,
    line_height: int,
    style: u32,
    caret: int,
    font: FontEngine,
) -> bool {
    let shown = control_rows(text, width, height, line_height, style, font);
    &&& area.wrap == wraps(style)
    &&& area.h_scroll_visible == h_bar_shown(text, width, style, font)
    &&& area.visible == page_rows(text, width, height, line_height, style, font)
    &&& area.track == if h_bar_shown(text, width, style, font) {
        saturated(height - SCROLL_BAR_SIZE)
    } else {
        height
    }
    &&& area.v_scroll_visible == v_gutter(text, width, height, line_height, style, font)
    &&& area.wrap_width == column_width(text, width, height, line_height, style, font)
    &&& area.total == shown.len()
    &&& area.caret_row == row_of(shown, caret, shown.len())
}

/// Resolve the geometry of the text in an EDIT control. Painting, scrolling and
/// hit testing share it, so that they agree on the rows.
pub fn edit_text_area(
    text: &[char],
    width: i32,
    height: i32,
    line_height: i32,
    style: u32,
    caret: usize,
    font: &FontEngine,
) -> (area: TextArea)
    ensures
        is_text_area(area, text@, width as int, height as int, line_height as int, style, caret as int, *font),
        1 <= area.visible <= i32::MAX,
        area.caret_row < area.total,
{
    let wrap = style & ES_MULTILINE != 0 && style & WS_HSCROLL == 0;
    let full: i32 = saturate(width as i128 - TEXT_MARGINS as i128);
    let h_scroll_visible = if wrap || style & WS_HSCROLL == 0 {
        false
    } else {
        let line_width: u128 = widest_line(text, font);
        full < 0 || line_width > full as u128
    };
    let rows_height: i32 = if h_scroll_visible {
        saturate(height as i128 - SCROLL_BAR_SIZE as i128)
    } else {
        height
    };
    let visible: usize = visible_line_count(rows_height, line_height);
    let at_full: (usize, usize) = visual_rows(text, full, wrap, caret, font);
    if scrollbar_visible(style, at_full.0, visible) {
        let wrap_width: i32 = saturate(full as i128 - SCROLL_BAR_SIZE as i128);
        let shown: (usize, usize) = visual_rows(text, wrap_width, wrap, caret, font);
        TextArea {
            wrap,
            wrap_width,
            total: shown.0,
            caret_row: shown.1,
            visible,
            v_scroll_visible: true,
            h_scroll_visible,
            track: rows_height,
        }
    } else {
        TextArea {
            wrap,
            wrap_width: full,
            total: at_full.0,
            caret_row: at_full.1,
            visible,
            v_scroll_visible: false,
            h_scroll_visible,
            track: rows_height,
        }
    }
}

/// Where a row of `used` pixels starts in a column of `width` pixels.
pub open spec fn aligned_x(width: int, used: int, alignment: u32) -> int {
    if used >= width {
        0
    } else if alignment & ES_RIGHT != 0 {
        width - used
    } else if alignment & ES_CENTER != 0 {
        (width - used) / 2
    } else {
        0
    }
}

fn row_x(width: i32, used: u128, alignment: u32) -> (x: i32)
    ensures
        x == aligned_x(width as int, used as int, alignment),
        x >= 0,
{
    if width < 0 || used >= width as u128 {
        0
    } else if alignment & ES_RIGHT != 0 {
        width - used as i32
    } else if alignment & ES_CENTER != 0 {
        (width - used as i32) / 2
    } else {
        0
    }
}

/// One row as it is painted.
#[derive(Debug, Clone)]
pub struct VisibleSegment {
    /// The characters of the row.
    pub text: Vec<char>,
    /// Left edge in the text column.
    pub x: i32,
    /// Top edge in the client.
    pub y: i32,
    /// Position of the first character.
    pub char_start: usize,
    /// Position past the last character.
    pub char_end: usize,
}

/// The first row shown at a scroll offset: never past the last row.
pub open spec fn first_row(first_visible: int, total: int) -> int {
    if first_visible >= total {
        total - 1
    } else {
        first_visible
    }
}

/// Whether segments are the rows of a text as they are painted.
pub open spec fn is_painting(
    segments: Seq<VisibleSegment>,
    text: Seq<char>,
    layout: HitTestLayout,
    font: FontEngine,
) -> bool {
    let all = rows(text, layout.wrap_width as int, layout.wrap, font);
    let first = first_row(layout.first_visible as int, all.len() as int);
    &&& segments.len() == all.len() - first
    &&& forall|k: int|
        0 <= k < segments.len() ==> {
            let row = all[first + k];
            let segment = #[trigger] segments[k];
            &&& segment.char_start == row.0
            &&& segment.char_end == row.1
            &&& segment.text@ == text.subrange(row.0, row.1)
            &&& segment.y == saturated(k * layout.line_height)
            &&& segment.x == aligned_x(
                layout.wrap_width as int,
                span_width(text, row.0, row.1, font) as int,
                layout.alignment,
            )
        }
}

/// Lay out the rows from row `first_visible` on, top to bottom.
pub fn layout_visible_lines(
    text: &[char],
    width: i32,
    line_height: i32,
    first_visible: usize,
    wrap: bool,
    alignment: u32,
    font: &FontEngine,
) -> (segments: Vec<VisibleSegment>)
    ensures
        is_painting(
            segments@,
            text@,
            HitTestLayout { wrap_width: width, line_height, first_visible, wrap, alignment },
            *font,
        ),
        ({
            let all = rows(text@, width as int, wrap, *font);
            let first = first_row(first_visible as int, all.len() as int);
            &&& segments@.len() == all.len() - first
            &&& forall|k: int|
                0 <= k < segments@.len() ==> {
                    let row = all[first + k];
                    let segment = #[trigger] segments@[k];
                    &&& segment.char_start == row.0
                    &&& segment.char_end == row.1
                    &&& segment.text@ == text@.subrange(row.0, row.1)
                    &&& segment.y == saturated(k * line_height)
                    &&& segment.x == aligned_x(
                        width as int,
                        span_width(text@, row.0, row.1, *font) as int,
                        alignment,
                    )
                }
        }),
{
    let all = lay_out(text, width, wrap, font);
    let ghost all_spans = rows(text@, width as int, wrap, *font);
    let first: usize = if first_visible >= all.len() {
        all.len() - 1
    } else {
        first_visible
    };
    let mut segments: Vec<VisibleSegment> = Vec::new();
    let mut i: usize = first;
    while i < all.len()
        invariant
            first <= i <= all@.len(),
            all_spans == spans(all@),
            segments@.len() == i - first,
            forall|k: int| 0 <= k < all@.len() ==> (#[trigger] all@[k]).start <= all@[k].end <= text@.len(),
            forall|k: int|
                0 <= k < segments@.len() ==> {
                    let row = all_spans[first + k];
                    let segment = #[trigger] segments@[k];
                    &&& segment.char_start == row.0
                    &&& segment.char_end == row.1
                    &&& segment.text@ == text@.subrange(row.0, row.1)
                    &&& segment.y == saturated(k * line_height)
                    &&& segment.x == aligned_x(
                        width as int,
                        span_width(text@, row.0, row.1, *font) as int,
                        alignment,
                    )
                },
        decreases all@.len() - i,
    {
        let row = all[i];
        assert(all_spans[i as int] == (row.start as int, row.end as int));
        let used: u128 = text_width(text, row.start, row.end, font);
        let k: usize = i - first;
        proof {
            assert(-0x8000_0000_0000_0000_0000_0000 <= k * line_height <= 0x8000_0000_0000_0000_0000_0000)
                by (nonlinear_arith)
                requires
                    0 <= k <= 0xFFFF_FFFF_FFFF_FFFF,
                    -0x8000_0000 <= line_height <= 0x7FFF_FFFF,
            ;
        }
        let y: i32 = saturate((k as i128) * (line_height as i128));
        let chars = copy_range(text, row.start, row.end);
        segments.push(
            VisibleSegment {
                text: chars,
                x: row_x(width, used, alignment),
                y,
                char_start: row.start,
                char_end: row.end,
            },
        );
        i = i + 1;
    }
    segments
}

/// Copy characters `start..end`.
pub fn copy_range(text: &[char], start: usize, end: usize) -> (chars: Vec<char>)
    requires
        start <= end <= text@.len(),
    ensures
        chars@ == text@.subrange(start as int, end as int),
{
    let mut chars: Vec<char> = Vec::new();
    let mut i: usize = start;
    while i < end
        invariant
            start <= i <= end <= text@.len(),
            chars@ == text@.subrange(start as int, i as int),
        decreases end - i,
    {
        chars.push(text[i]);
        i = i + 1;
        assert(chars@ =~= text@.subrange(start as int, i as int));
    }
    chars
}

/// What a hit test needs to know of a control's layout.
#[derive(Debug, Clone, Copy, PartialEq, Eq, Structural)]
pub struct HitTestLayout {
    pub wrap_width: i32,
    pub line_height: i32,
    pub first_visible: usize,
    pub wrap: bool,
    pub alignment: u32,
}

/// The row at height `y`: above the text the first row shown, below it the last.
pub open spec fn row_at(layout: HitTestLayout, total: int, y: int) -> int {
    let first = first_row(layout.first_visible as int, total);
    if y < 0 || layout.line_height <= 0 {
        first
    } else if first + y / layout.line_height as int >= total {
        total - 1
    } else {
        first + y / layout.line_height as int
    }
}

/// The caret position for a point `x` pixels into a row, from position `k` on:
/// before the first character whose right half starts past the point.
pub open spec fn hit_from(text: Seq<char>, start: int, k: int, end: int, x: int, font: FontEngine) -> int
    decreases end - k,
{
    if k >= end {
        end
    } else if 2 * (x - span_width(text, start, k, font)) < font.advance(text[k]) {
        k
    } else {
        hit_from(text, start, k + 1, end, x, font)
    }
}

/// The caret position for a client point.
pub open spec fn hit(text: Seq<char>, x: int, y: int, layout: HitTestLayout, font: FontEngine) -> int {
    let all = rows(text, layout.wrap_width as int, layout.wrap, font);
    let row = all[row_at(layout, all.len() as int, y)];
    let used = span_width(text, row.0, row.1, font) as int;
    hit_from(
        text,
        row.0,
        row.0,
        row.1,
        x - TEXT_MARGIN - aligned_x(layout.wrap_width as int, used, layout.alignment),
        font,
    )
}

/// The caret position for a client point: the inverse of where the caret is
/// painted, with the boundary in the middle of each character.
pub fn edit_char_index_at_point(text: &[char], x: i64, y: i32, layout: &HitTestLayout, font: &FontEngine) -> (index:
    usize)
    ensures
        index == hit(text@, x as int, y as int, *layout, *font),
        index <= text@.len(),
{
    let all = lay_out(text, layout.wrap_width, layout.wrap, font);
    let ghost all_spans = rows(text@, layout.wrap_width as int, layout.wrap, *font);
    let total: usize = all.len();
    let first: usize = if layout.first_visible >= total {
        total - 1
    } else {
        layout.first_visible
    };
    let down: usize = if y < 0 || layout.line_height <= 0 {
        0
    } else {
        proof {
            assert(0 <= y as int / layout.line_height as int <= y) by (nonlinear_arith)
                requires
                    y >= 0,
                    layout.line_height > 0,
            ;
        }
        (y as u32 / layout.line_height as u32) as usize
    };
    let at: usize = if down >= total - first {
        total - 1
    } else {
        first + down
    };
    let row = all[at];
    proof {
        assert(all_spans[at as int] == (row.start as int, row.end as int));
        assert(at == row_at(*layout, total as int, y as int));
        lemma_width_limit(text@, row.start as int, row.end as int, *font);
    }
    let used: u128 = text_width(text, row.start, row.end, font);
    let target: i128 = x as i128 - TEXT_MARGIN as i128 - row_x(layout.wrap_width, used, layout.alignment) as i128;
    let mut k: usize = row.start;
    let mut left: i128 = 0;
    while k < row.end
        invariant
            row.start <= k <= row.end <= text@.len(),
            left == span_width(text@, row.start as int, k as int, *font),
            -0x1_0000_0000_0000_0000 <= target <= 0x1_0000_0000_0000_0000,
            hit_from(text@, row.start as int, k as int, row.end as int, target as int, *font) == hit_from(
                text@,
                row.start as int,
                row.start as int,
                row.end as int,
                target as int,
                *font,
            ),
        ensures
            row.start <= k <= row.end,
            k == hit_from(text@, row.start as int, row.start as int, row.end as int, target as int, *font),
        decreases row.end - k,
    {
        proof {
            lemma_width_limit(text@, row.start as int, k as int, *font);
        }
        let advance: i128 = font.char_advance(text[k]) as i128;
        if 2 * (target - left) < advance {
            break;
        }
        left = left + advance;
        k = k + 1;
    }
    k
}

proof fn lemma_width_limit(text: Seq<char>, start: int, end: int, font: FontEngine)
    requires
        0 <= start <= end <= text.len(),
        end <= usize::MAX,
    ensures
        span_width(text, start, end, font) <= 0x1_0000_0000_0000_0000_0000_0000,
{
    lemma_width_bound(text, start, end, font);
    assert((end - start) * 0x7FFF_FFFF <= 0xFFFF_FFFF_FFFF_FFFF * 0x7FFF_FFFF) by (nonlinear_arith)
        requires
            0 <= end - start <= 0xFFFF_FFFF_FFFF_FFFF,
    ;
}

/// A hit at the place where the caret is painted gives the caret back, in a row
/// whose characters all have a width.
pub proof fn hit_inverts_caret(text: Seq<char>, start: int, caret: int, end: int, font: FontEngine)
    requires
        0 <= start <= caret <= end <= text.len(),
        forall|k: int| start <= k < end ==> font.advance(#[trigger] text[k]) > 0,
    ensures
        hit_from(text, start, start, end, span_width(text, start, caret, font) as int, font) == caret,
{
    lemma_hit_reaches(text, start, start, caret, end, font);
}

proof fn lemma_hit_reaches(text: Seq<char>, start: int, k: int, caret: int, end: int, font: FontEngine)
    requires
        0 <= start <= k <= caret <= end <= text.len(),
        forall|j: int| start <= j < end ==> font.advance(#[trigger] text[j]) > 0,
    ensures
        hit_from(text, start, k, end, span_width(text, start, caret, font) as int, font) == caret,
    decreases caret - k,
{
    if k < caret {
        lemma_span_grows(text, start, k + 1, caret, font);
        assert(font.advance(text[k]) > 0);
        lemma_hit_reaches(text, start, k + 1, caret, end, font);
    } else if k < end {
        assert(font.advance(text[k]) > 0);
    }
}

proof fn lemma_span_grows(text: Seq<char>, start: int, i: int, j: int, font: FontEngine)
    requires
        start <= i <= j,
    ensures
        span_width(text, start, i, font) <= span_width(text, start, j, font),
    decreases j - i,
{
    if i < j {
        lemma_span_grows(text, start, i, j - 1, font);
    }
}

} // verus!
