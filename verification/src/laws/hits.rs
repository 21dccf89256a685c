//! A click lands where the text is painted, and the text is painted row by row.
use vstd::prelude::*;

use crate::edit;
use crate::edit::EditFrame;
use crate::font::FontEngine;
use crate::layout;
use crate::layout::{HitTestLayout, VisibleSegment};
use crate::lines;

verus! {

/// What is painted at the top is the first visible row, and the rows below follow
/// without a gap: one line height further down, up to the end of the text. Each shows
/// exactly its own characters, and no character between two rows is left out but the
/// line break that ends the upper one.
pub proof fn painting_starts_at_the_first_visible_row(
    segments: Seq<VisibleSegment>,
    text: Seq<char>,
    layout: HitTestLayout,
    font: FontEngine,
    k: int,
)
    requires
        layout::is_painting(segments, text, layout, font),
        0 <= k < segments.len(),
    ensures
        ({
            let all = layout::rows(text, layout.wrap_width as int, layout.wrap, font);
            &&& segments.len() >= 1
            &&& layout.first_visible < all.len() ==> segments.len() == all.len() - layout.first_visible
                && segments[k].char_start == all[layout.first_visible + k].0 && segments[k].char_end
                == all[layout.first_visible + k].1
            &&& layout.first_visible >= all.len() ==> segments.len() == 1 && segments[0].char_end == text.len()
        }),
        layout.first_visible == 0 ==> segments[0].char_start == 0,
        segments.last().char_end == text.len(),
        segments[k].char_start <= segments[k].char_end <= text.len(),
        segments[k].text@.len() == segments[k].char_end - segments[k].char_start,
        forall|i: int|
            0 <= i < segments[k].text@.len() ==> (#[trigger] segments[k].text@[i]) == text[segments[k].char_start + i]
                && segments[k].text@[i] != '\n',
        i32::MIN <= k * layout.line_height <= i32::MAX ==> segments[k].y == k * layout.line_height,
        k + 1 < segments.len() ==> {
            let end = segments[k].char_end as int;
            &&& end < text.len()
            &&& segments[k + 1].char_start == if text[end] == '\n' {
                end + 1
            } else {
                end
            }
        },
{
    layout::rows_cover(text, layout.wrap_width as int, layout.wrap, font);
    let all = layout::rows(text, layout.wrap_width as int, layout.wrap, font);
    let first = layout::first_row(layout.first_visible as int, all.len() as int);
    assert(segments[k].char_start == all[first + k].0);
    assert(segments[segments.len() - 1].char_end == all[first + segments.len() - 1].1);
    assert(segments[0].char_start == all[first].0);
    if k + 1 < segments.len() {
        assert(segments[k + 1].char_start == all[first + k + 1].0);
    }
    assert forall|i: int| 0 <= i < segments[k].text@.len() implies (#[trigger] segments[k].text@[i])
        == text[segments[k].char_start + i] && segments[k].text@[i] != '\n' by {
        assert(all[first + k].0 <= all[first + k].0 + i < all[first + k].1);
        assert(text[all[first + k].0 + i] != '\n');
    }
}

/// A row that is right-aligned ends at the right edge of the column, a centred one has
/// the same space on both sides, one pixel apart at most, and any other starts at the
/// left edge, as does a row that is too wide.
pub proof fn rows_are_aligned(
    segments: Seq<VisibleSegment>,
    text: Seq<char>,
    layout: HitTestLayout,
    font: FontEngine,
    k: int,
)
    requires
        layout::is_painting(segments, text, layout, font),
        0 <= k < segments.len(),
    ensures
        ({
            let x = segments[k].x as int;
            let used = layout::span_width(
                text,
                segments[k].char_start as int,
                segments[k].char_end as int,
                font,
            ) as int;
            let right = layout.wrap_width - used - x;
            &&& used >= layout.wrap_width ==> x == 0
            &&& used < layout.wrap_width && layout.alignment & 2 != 0 ==> right == 0
            &&& used < layout.wrap_width && layout.alignment & 2 == 0 && layout.alignment & 1 != 0 ==> x <= right
                <= x + 1
            &&& layout.alignment & 2 == 0 && layout.alignment & 1 == 0 ==> x == 0
        }),
{
}

/// Rows break where the text does: at a line break, at its end, and, where rows wrap,
/// before a character that no longer fits; a row is never broken early.
pub proof fn rows_break_only_where_they_must(text: Seq<char>, width: int, wrap: bool, font: FontEngine, i: int)
    requires
        0 <= i < layout::rows(text, width, wrap, font).len(),
    ensures
        ({
            let row = layout::rows(text, width, wrap, font)[i];
            &&& 0 <= row.0 <= row.1 <= text.len()
            &&& row.1 < text.len() && text[row.1] != '\n' ==> wrap && layout::span_width(text, row.0, row.1 + 1, font)
                > width
            &&& wrap ==> row.1 <= row.0 + 1 || layout::span_width(text, row.0, row.1, font) <= width
        }),
{
    lemma_rows_break(text, 0, width, wrap, font, i);
}

proof fn lemma_rows_break(text: Seq<char>, start: int, width: int, wrap: bool, font: FontEngine, i: int)
    requires
        0 <= start <= text.len(),
        0 <= i < layout::rows_from(text, start, width, wrap, font).len(),
    ensures
        ({
            let row = layout::rows_from(text, start, width, wrap, font)[i];
            &&& 0 <= row.0 <= row.1 <= text.len()
            &&& row.1 < text.len() && text[row.1] != '\n' ==> wrap && layout::span_width(text, row.0, row.1 + 1, font)
                > width
            &&& wrap ==> row.1 <= row.0 + 1 || layout::span_width(text, row.0, row.1, font) <= width
        }),
    decreases text.len() - start,
{
    layout::lemma_row_end(text, start, width, wrap, font);
    lines::line_bounds(text, start);
    let end = layout::row_end(text, start, width, wrap, font);
    let limit = lines::line_end(text, start);
    let all = layout::rows_from(text, start, width, wrap, font);
    if i == 0 {
        assert(all[0] == (start, end));
        if wrap {
            layout::wrapped_rows_fit(text, start, width, font);
            if start < limit {
                lemma_grown_until_full(text, start, start + 1, limit, width, font);
            }
        }
    } else {
        let next = if end < limit {
            end
        } else {
            end + 1
        };
        let rest = layout::rows_from(text, next, width, wrap, font);
        assert(all[i] == rest[i - 1]);
        lemma_rows_break(text, next, width, wrap, font, i - 1);
    }
}

proof fn lemma_grown_until_full(text: Seq<char>, start: int, end: int, limit: int, width: int, font: FontEngine)
    requires
        end <= limit,
    ensures
        ({
            let grown = layout::grow_row(text, start, end, limit, width, font);
            grown < limit ==> layout::span_width(text, start, grown + 1, font) > width
        }),
    decreases limit - end,
{
    if end < limit && layout::span_width(text, start, end + 1, font) <= width {
        lemma_grown_until_full(text, start, end + 1, limit, width, font);
    }
}

/// The width of a row is the sum of its characters' advances.
pub proof fn widths_add_up(text: Seq<char>, start: int, middle: int, end: int, font: FontEngine)
    requires
        0 <= start <= middle <= end <= text.len(),
    ensures
        layout::span_width(text, start, start, font) == 0,
        layout::span_width(text, start, end, font) == layout::span_width(text, start, middle, font)
            + layout::span_width(text, middle, end, font),
        middle < end ==> layout::span_width(text, middle, middle + 1, font) == font.advance(text[middle]),
    decreases end - middle,
{
    reveal_with_fuel(layout::span_width, 2);
    if middle < end {
        widths_add_up(text, start, middle, end - 1, font);
    }
}

/// A click on a painted row lands in that row, whatever is scrolled out of view: hit
/// testing inverts painting. Above the text it lands in the top row, below it in the
/// last.
pub proof fn clicks_land_in_the_row_painted_there(
    segments: Seq<VisibleSegment>,
    text: Seq<char>,
    x: int,
    y: int,
    layout: HitTestLayout,
    font: FontEngine,
    k: int,
)
    requires
        layout::is_painting(segments, text, layout, font),
        0 <= k < segments.len(),
        layout.line_height > 0,
        k * layout.line_height <= i32::MAX,
        y < 0 && k == 0 || segments[k].y <= y < segments[k].y + layout.line_height || y >= segments[k].y && k
            == segments.len() - 1,
    ensures
        segments[k].char_start <= layout::hit(text, x, y, layout, font) <= segments[k].char_end,
{
    layout::rows_cover(text, layout.wrap_width as int, layout.wrap, font);
    let all = layout::rows(text, layout.wrap_width as int, layout.wrap, font);
    let first = layout::first_row(layout.first_visible as int, all.len() as int);
    assert(segments[k].char_start == all[first + k].0);
    let h = layout.line_height as int;
    assert(0 <= k * h) by (nonlinear_arith)
        requires
            0 <= k,
            0 < h,
    ;
    assert(segments[k].y == k * h);
    if y >= 0 {
        assert(y / h >= k) by (nonlinear_arith)
            requires
                k * h <= y,
                0 < h,
        ;
        if y < k * h + h {
            assert(y / h <= k) by (nonlinear_arith)
                requires
                    y < k * h + h,
                    0 < h,
            ;
        }
    }
    assert(layout::row_at(layout, all.len() as int, y) == first + k);
    let row = all[first + k];
    let used = layout::span_width(text, row.0, row.1, font) as int;
    lemma_hit_in_row(
        text,
        row.0,
        row.0,
        row.1,
        x - 2 - layout::aligned_x(layout.wrap_width as int, used, layout.alignment),
        font,
    );
}

/// The row under a height, by the rows of the text alone: the one at the top of the
/// client is the first visible one, and each line height further down is the next.
pub proof fn clicks_count_rows_from_the_first_visible(
    text: Seq<char>,
    x: int,
    y: int,
    layout: HitTestLayout,
    font: FontEngine,
)
    requires
        layout.line_height > 0,
        0 <= y,
        layout.first_visible + y / (layout.line_height as int) < layout::rows(
            text,
            layout.wrap_width as int,
            layout.wrap,
            font,
        ).len(),
    ensures
        ({
            let all = layout::rows(text, layout.wrap_width as int, layout.wrap, font);
            let row = all[layout.first_visible + y / (layout.line_height as int)];
            row.0 <= layout::hit(text, x, y, layout, font) <= row.1
        }),
{
    let h = layout.line_height as int;
    assert(0 <= y / h) by (nonlinear_arith)
        requires
            0 <= y,
            0 < h,
    ;
    layout::rows_cover(text, layout.wrap_width as int, layout.wrap, font);
    let all = layout::rows(text, layout.wrap_width as int, layout.wrap, font);
    let row = all[layout.first_visible + y / h];
    let used = layout::span_width(text, row.0, row.1, font) as int;
    lemma_hit_in_row(
        text,
        row.0,
        row.0,
        row.1,
        x - 2 - layout::aligned_x(layout.wrap_width as int, used, layout.alignment),
        font,
    );
}

proof fn lemma_hit_in_row(text: Seq<char>, start: int, k: int, end: int, x: int, font: FontEngine)
    requires
        0 <= start <= k <= end <= text.len(),
    ensures
        ({
            let hit = layout::hit_from(text, start, k, end, x, font);
            &&& k <= hit <= end
            &&& hit < end ==> 2 * (x - layout::span_width(text, start, hit, font)) < font.advance(text[hit])
            &&& hit > k ==> 2 * (x - layout::span_width(text, start, hit - 1, font)) >= font.advance(text[hit - 1])
        }),
    decreases end - k,
{
    if k < end && !(2 * (x - layout::span_width(text, start, k, font)) < font.advance(text[k])) {
        lemma_hit_in_row(text, start, k + 1, end, x, font);
    }
}

/// Within a row a click lands at the nearest gap between two characters: left of the
/// middle of the character after it, and not left of the middle of the one before.
/// Rows start two pixels into the client, further in where they are aligned.
pub proof fn clicks_land_at_the_nearest_gap(
    segments: Seq<VisibleSegment>,
    text: Seq<char>,
    x: int,
    y: int,
    layout: HitTestLayout,
    font: FontEngine,
    k: int,
)
    requires
        layout::is_painting(segments, text, layout, font),
        0 <= k < segments.len(),
        layout.line_height > 0,
        k * layout.line_height <= i32::MAX,
        segments[k].y <= y < segments[k].y + layout.line_height,
    ensures
        ({
            let hit = layout::hit(text, x, y, layout, font);
            let start = segments[k].char_start as int;
            let inside = x - 2 - segments[k].x;
            &&& hit < segments[k].char_end ==> 2 * (inside - layout::span_width(text, start, hit, font)) < font.advance(
                text[hit],
            )
            &&& hit > start ==> 2 * (inside - layout::span_width(text, start, hit - 1, font)) >= font.advance(
                text[hit - 1],
            )
        }),
{
    clicks_land_in_the_row_painted_there(segments, text, x, y, layout, font, k);
    layout::rows_cover(text, layout.wrap_width as int, layout.wrap, font);
    let all = layout::rows(text, layout.wrap_width as int, layout.wrap, font);
    let first = layout::first_row(layout.first_visible as int, all.len() as int);
    let row = all[first + k];
    assert(segments[k].char_start == row.0);
    let h = layout.line_height as int;
    assert(0 <= k * h) by (nonlinear_arith)
        requires
            0 <= k,
            0 < h,
    ;
    assert(y / h == k) by (nonlinear_arith)
        requires
            k * h <= y < k * h + h,
            0 < h,
    ;
    assert(layout::row_at(layout, all.len() as int, y) == first + k);
    lemma_hit_in_row(text, row.0, row.0, row.1, x - 2 - segments[k].x, font);
}

/// A click where the caret is painted puts the caret back: the character positions of a
/// painted row and the pixels where they stand belong together, in a row whose
/// characters all have a width.
pub proof fn clicks_at_the_caret_find_it(
    segments: Seq<VisibleSegment>,
    text: Seq<char>,
    y: int,
    layout: HitTestLayout,
    font: FontEngine,
    k: int,
    caret: int,
)
    requires
        layout::is_painting(segments, text, layout, font),
        0 <= k < segments.len(),
        layout.line_height > 0,
        k * layout.line_height <= i32::MAX,
        segments[k].y <= y < segments[k].y + layout.line_height,
        segments[k].char_start <= caret <= segments[k].char_end,
        forall|j: int| 0 <= j < text.len() ==> font.advance(#[trigger] text[j]) > 0,
    ensures
        layout::hit(
            text,
            2 + segments[k].x + layout::span_width(text, segments[k].char_start as int, caret, font),
            y,
            layout,
            font,
        ) == caret,
{
    let x = 2 + segments[k].x + layout::span_width(text, segments[k].char_start as int, caret, font);
    clicks_land_in_the_row_painted_there(segments, text, x, y, layout, font, k);
    layout::rows_cover(text, layout.wrap_width as int, layout.wrap, font);
    let all = layout::rows(text, layout.wrap_width as int, layout.wrap, font);
    let first = layout::first_row(layout.first_visible as int, all.len() as int);
    let row = all[first + k];
    assert(segments[k].char_start == row.0);
    let h = layout.line_height as int;
    assert(0 <= k * h) by (nonlinear_arith)
        requires
            0 <= k,
            0 < h,
    ;
    assert(y / h == k) by (nonlinear_arith)
        requires
            k * h <= y < k * h + h,
            0 < h,
    ;
    assert(layout::row_at(layout, all.len() as int, y) == first + k);
    layout::hit_inverts_caret(text, row.0, caret, row.1, font);
}

/// A click in an EDIT control lands in the row that the control shows there: the rows
/// of its text counted from the scroll offset.
pub proof fn control_clicks_follow_the_scroll_offset(edit: edit::EditModel, frame: &EditFrame, x: int, y: int)
    requires
        edit.wf(),
        edit.first_line <= usize::MAX,
        frame.font.line_height > 0,
        0 <= y,
        edit.first_line + y / (frame.font.line_height as int) < frame.rows(edit.text).len(),
    ensures
        ({
            let row = frame.rows(edit.text)[edit.first_line + y / (frame.font.line_height as int)];
            row.0 <= frame.hit(edit, x, y) <= row.1
        }),
{
    let layout = HitTestLayout {
        wrap_width: frame.column(edit.text) as i32,
        line_height: frame.font.line_height,
        first_visible: edit.first_line as usize,
        wrap: layout::wraps(frame.style),
        alignment: frame.style & 3,
    };
    clicks_count_rows_from_the_first_visible(edit.text, x + edit.first_column, y, layout, *frame.font);
}

/// The row of a position is the one that holds it: the position lies between the start
/// of its row and the start of the next.
pub proof fn a_position_is_on_its_row(text: Seq<char>, width: int, wrap: bool, font: FontEngine, index: int)
    requires
        0 <= index <= text.len(),
    ensures
        ({
            let all = layout::rows(text, width, wrap, font);
            let row = layout::row_of(all, index, all.len());
            &&& 0 <= row < all.len()
            &&& all[row].0 <= index
            &&& row + 1 < all.len() ==> index < all[row + 1].0
        }),
{
    layout::rows_cover(text, width, wrap, font);
    lemma_row_of(layout::rows(text, width, wrap, font), index, layout::rows(text, width, wrap, font).len());
}

proof fn lemma_row_of(rows: Seq<(int, int)>, index: int, n: nat)
    requires
        1 <= n <= rows.len(),
        rows[0].0 <= index,
        n < rows.len() ==> index < rows[n as int].0,
    ensures
        ({
            let row = layout::row_of(rows, index, n);
            &&& 0 <= row < n
            &&& rows[row].0 <= index
            &&& row + 1 < rows.len() ==> index < rows[row + 1].0
        }),
    decreases n,
{
    if n > 1 && rows[n - 1].0 > index {
        lemma_row_of(rows, index, (n - 1) as nat);
    }
}

/// Text that is scrolled sideways is hit where it is shown: a click finds what it would
/// find as many pixels further right in text that is not. Alignment and wrapping are
/// those of the control's style.
pub proof fn control_clicks_follow_the_sideways_offset(edit: edit::EditModel, frame: &EditFrame, x: int, y: int)
    ensures
        frame.hit(edit, x, y) == frame.hit(edit::EditModel { first_column: 0, ..edit }, x + edit.first_column, y),
        frame.hit(edit::EditModel { first_column: 0, ..edit }, x, y) == layout::hit(
            edit.text,
            x,
            y,
            HitTestLayout {
                wrap_width: frame.column(edit.text) as i32,
                line_height: frame.font.line_height,
                first_visible: edit.first_line as usize,
                wrap: frame.style & 0x0004 != 0 && frame.style & 0x0010_0000 == 0,
                alignment: frame.style & 3,
            },
            *frame.font,
        ),
{
}

} // verus!
