//! How an EDIT control scrolls, and what of its text it shows.
use vstd::prelude::*;

use crate::edit;
use crate::edit::{EditFrame, Reply};
use crate::edit_proc;
use crate::font::FontEngine;
use crate::layout;

verus! {

/// Whether nothing but the scroll offsets may differ.
pub open spec fn only_scrolled(before: edit::EditModel, after: edit::EditModel) -> bool {
    &&& after.text == before.text
    &&& after.caret == before.caret
    &&& after.sel_start == before.sel_start
    &&& after.sel_end == before.sel_end
    &&& after.limit == before.limit
    &&& after.modified == before.modified
    &&& after.undo == before.undo
    &&& after.tab_stops == before.tab_stops
}

/// As many whole rows are shown as fit in the client, and at least one.
pub proof fn whole_rows_are_shown(height: int, line_height: int)
    ensures
        layout::visible_rows(height, line_height) >= 1,
        0 < line_height <= height ==> {
            let shown = layout::visible_rows(height, line_height);
            &&& shown * line_height <= height
            &&& (shown + 1) * line_height > height
        },
        !(0 < line_height <= height) ==> layout::visible_rows(height, line_height) == 1,
{
    if 0 < line_height <= height {
        let shown = height / line_height;
        assert(shown >= 1 && shown * line_height <= height && (shown + 1) * line_height > height) by (nonlinear_arith)
            requires
                shown == height / line_height,
                0 < line_height <= height,
        ;
    }
}

/// The text has two pixels of margin on either side. The vertical scroll bar takes
/// seventeen more, and is there exactly if the style asks for it and the rows at full
/// width do not all fit. The horizontal one takes as many from the height, and is there
/// exactly if the style asks for it and the widest line does not fit; text with it does
/// not wrap, other text wraps in a control with several lines.
pub proof fn scroll_bars_take_their_room(text: Seq<char>, frame: &EditFrame)
    requires
        i32::MIN + 21 <= frame.width,
        i32::MIN + 17 <= frame.height,
    ensures
        ({
            let several = frame.style & 0x0004 != 0;
            let v_style = frame.style & 0x0020_0000 != 0;
            let h_style = frame.style & 0x0010_0000 != 0;
            let font = *frame.font;
            let wrap = several && !h_style;
            let h_shown = h_style && layout::widest(text, font) > frame.width - 4;
            let rows_height = if h_shown {
                frame.height - 17
            } else {
                frame.height as int
            };
            let visible = layout::visible_rows(rows_height, font.line_height as int) as int;
            let v_shown = v_style && layout::rows(text, frame.width - 4, wrap, font).len() > visible;
            let column = if v_shown {
                frame.width - 21
            } else {
                frame.width - 4
            };
            &&& layout::wraps(frame.style) == wrap
            &&& frame.visible(text) == visible
            &&& frame.column(text) == column
            &&& frame.rows(text) == layout::rows(text, column, wrap, font)
            &&& frame.track(text) == rows_height
            &&& forall|x: int, y: int| #[trigger]
                frame.in_gutter(text, x, y) <==> v_shown && frame.width - 17 <= x < frame.width && 0 <= y < rows_height
        }),
{
}

/// The widest line is one of the lines, and none is wider.
pub proof fn the_widest_line_is_a_line(text: Seq<char>, font: FontEngine, i: int)
    requires
        0 <= i < layout::rows(text, 0, false, font).len(),
    ensures
        ({
            let row = layout::rows(text, 0, false, font)[i];
            layout::span_width(text, row.0, row.1, font) <= layout::widest(text, font)
        }),
        exists|k: int|
            0 <= k < layout::rows(text, 0, false, font).len() && layout::span_width(
                text,
                (#[trigger] layout::rows(text, 0, false, font)[k]).0,
                layout::rows(text, 0, false, font)[k].1,
                font,
            ) == layout::widest(text, font),
{
    let all = layout::rows(text, 0, false, font);
    layout::rows_cover(text, 0, false, font);
    lemma_widest(text, all, all.len(), font, i);
}

proof fn lemma_widest(text: Seq<char>, all: Seq<(int, int)>, n: nat, font: FontEngine, i: int)
    requires
        1 <= n <= all.len(),
        0 <= i < n,
    ensures
        layout::span_width(text, all[i].0, all[i].1, font) <= layout::widest_of(text, all, n, font),
        exists|k: int|
            0 <= k < n && layout::span_width(text, (#[trigger] all[k]).0, all[k].1, font) == layout::widest_of(
                text,
                all,
                n,
                font,
            ),
    decreases n,
{
    let last = layout::span_width(text, all[n - 1].0, all[n - 1].1, font);
    if n > 1 {
        if i < n - 1 {
            lemma_widest(text, all, (n - 1) as nat, font, i);
        } else {
            lemma_widest(text, all, (n - 1) as nat, font, 0);
        }
        let before = layout::widest_of(text, all, (n - 1) as nat, font);
        if last > before {
            assert(layout::span_width(text, all[n - 1].0, all[n - 1].1, font) == last);
        } else {
            let k = choose|k: int|
                0 <= k < n - 1 && layout::span_width(text, (#[trigger] all[k]).0, all[k].1, font) == before;
            assert(layout::span_width(text, all[k].0, all[k].1, font) == before);
        }
    } else {
        assert(layout::widest_of(text, all, 0, font) == 0);
        assert(layout::span_width(text, all[0].0, all[0].1, font) == last);
    }
}

/// Scrolling the caret into view shows its row, and moves nothing where it was shown;
/// else it moves as little as it can.
pub proof fn the_caret_is_scrolled_into_view(edit: edit::EditModel, frame: &EditFrame)
    requires
        edit.wf(),
    ensures
        ({
            let all = frame.rows(edit.text);
            let row = layout::row_of(all, edit.caret, all.len());
            let after = edit.revealed(frame);
            let visible = frame.visible(edit.text);
            &&& only_scrolled(edit, after)
            &&& after.first_column == edit.first_column
            &&& after.first_line <= row < after.first_line + visible
            &&& edit.first_line <= row < edit.first_line + visible ==> after.first_line == edit.first_line
            &&& row < edit.first_line ==> after.first_line == row
            &&& row >= edit.first_line + visible ==> after.first_line + visible == row + 1
        }),
{
    whole_rows_are_shown(frame.height as int, frame.font.line_height as int);
    whole_rows_are_shown(layout::saturated(frame.height - 17), frame.font.line_height as int);
}

/// What a scroll-bar code does to an offset between 0 and the last: a step or a page in
/// its direction as far as there is room, a place of its own, the start or the end.
/// Other codes do nothing.
pub proof fn scroll_codes_move_the_offset(code: u16, thumb: int, offset: int, line: int, page: int, last: int)
    requires
        0 <= offset <= last,
        0 <= line,
        0 <= page,
        0 <= thumb,
    ensures
        0 <= edit::scrolled(code, thumb, offset, line, page, last) <= last,
        offset >= line ==> edit::scrolled(0, thumb, offset, line, page, last) == offset - line,
        offset < line ==> edit::scrolled(0, thumb, offset, line, page, last) == 0,
        offset + line <= last ==> edit::scrolled(1, thumb, offset, line, page, last) == offset + line,
        offset + line > last ==> edit::scrolled(1, thumb, offset, line, page, last) == last,
        offset >= page ==> edit::scrolled(2, thumb, offset, line, page, last) == offset - page,
        offset < page ==> edit::scrolled(2, thumb, offset, line, page, last) == 0,
        offset + page <= last ==> edit::scrolled(3, thumb, offset, line, page, last) == offset + page,
        offset + page > last ==> edit::scrolled(3, thumb, offset, line, page, last) == last,
        thumb <= last ==> edit::scrolled(4, thumb, offset, line, page, last) == thumb && edit::scrolled(
            5,
            thumb,
            offset,
            line,
            page,
            last,
        ) == thumb,
        edit::scrolled(6, thumb, offset, line, page, last) == 0,
        edit::scrolled(7, thumb, offset, line, page, last) == last,
        code > 7 ==> edit::scrolled(code, thumb, offset, line, page, last) == offset,
{
}

/// Scrolling to the end shows the last row at the bottom, scrolling to the start the
/// first at the top; no code scrolls past either, and the text and the caret stay.
pub proof fn vertical_scrolling_stays_in_the_text(edit: edit::EditModel, code: u16, thumb: int, frame: &EditFrame)
    requires
        edit.wf(),
        0 <= thumb,
    ensures
        ({
            let total = frame.rows(edit.text).len() as int;
            let visible = frame.visible(edit.text);
            let after = edit.v_scrolled(code, thumb, frame);
            &&& only_scrolled(edit, after)
            &&& after.first_column == edit.first_column
            &&& code <= 7 ==> 0 <= after.first_line && (after.first_line + visible <= total || after.first_line == 0)
            &&& code > 7 ==> after.first_line == edit.first_line
            &&& edit.v_scrolled(6, thumb, frame).first_line == 0
            &&& total > visible ==> edit.v_scrolled(7, thumb, frame).first_line + visible == total
            &&& total <= visible ==> edit.v_scrolled(7, thumb, frame).first_line == 0
            &&& edit.first_line + 1 + visible <= total ==> edit.v_scrolled(1, thumb, frame).first_line
                == edit.first_line + 1
            &&& edit.first_line + visible + visible <= total ==> edit.v_scrolled(3, thumb, frame).first_line
                == edit.first_line + visible
            &&& 1 <= edit.first_line && edit.first_line + visible <= total ==> edit.v_scrolled(
                0,
                thumb,
                frame,
            ).first_line == edit.first_line - 1
            &&& visible <= edit.first_line && edit.first_line + visible <= total ==> edit.v_scrolled(
                2,
                thumb,
                frame,
            ).first_line == edit.first_line - visible
        }),
{
    whole_rows_are_shown(frame.height as int, frame.font.line_height as int);
    whole_rows_are_shown(layout::saturated(frame.height - 17), frame.font.line_height as int);
}

/// The wheel scrolls three lines per notch, up where it turns away from the user, and
/// stops at the ends of the text.
pub proof fn the_wheel_scrolls_three_lines_a_notch(edit: edit::EditModel, notches: int, frame: &EditFrame)
    requires
        edit.wf(),
        0 <= notches,
        edit.first_line <= layout::max_offset(frame.rows(edit.text).len() as int, frame.visible(edit.text)),
    ensures
        ({
            let total = frame.rows(edit.text).len() as int;
            let visible = frame.visible(edit.text);
            let down = edit.wheeled(-120 * notches, frame);
            let up = edit.wheeled(120 * notches, frame);
            &&& only_scrolled(edit, down) && only_scrolled(edit, up)
            &&& edit.first_line + 3 * notches + visible <= total ==> down.first_line == edit.first_line + 3 * notches
            &&& edit.first_line + 3 * notches + visible > total && total > visible ==> down.first_line + visible == total
            &&& edit.first_line >= 3 * notches ==> up.first_line == edit.first_line - 3 * notches
            &&& edit.first_line < 3 * notches ==> up.first_line == 0
        }),
{
    whole_rows_are_shown(frame.height as int, frame.font.line_height as int);
    whole_rows_are_shown(layout::saturated(frame.height - 17), frame.font.line_height as int);
    assert(120 * notches / 120 == notches) by (nonlinear_arith);
}

/// Scroll messages reach the offsets, and the parent hears of a vertical scroll that
/// moved and of every horizontal one.
pub proof fn scroll_messages_reach_the_offsets(
    edit: edit::EditModel,
    code: u16,
    place: u16,
    lparam: u64,
    world: edit_proc::EditWorld,
    frame: &EditFrame,
)
    requires
        edit.wf(),
    ensures
        edit_proc::edit_outcome(edit, 0x0115, (code + 0x1_0000 * place) as u64, lparam, world, frame) matches Some(v) && {
            &&& v.edit == edit.v_scrolled(code, place as int, frame)
            &&& v.edit.first_line != edit.first_line ==> v.reply == Reply::Notify(0x0602)
            &&& v.edit.first_line == edit.first_line ==> v.reply == Reply::Value(0)
            &&& v.clip == world.clip && v.memory == world.memory && v.capture is Keep
        },
        edit_proc::edit_outcome(edit, 0x0114, (code + 0x1_0000 * place) as u64, lparam, world, frame) matches Some(h) && {
            &&& h.edit == edit.h_scrolled(code, place as int, frame)
            &&& h.reply == Reply::Notify(0x0601)
            &&& h.clip == world.clip && h.memory == world.memory && h.capture is Keep
        },
{
}

/// Text that wraps does not scroll sideways. Other text scrolls by eight pixels or by
/// the width of the column, up to where its widest line ends.
pub proof fn horizontal_scrolling_ends_with_the_widest_line(
    edit: edit::EditModel,
    code: u16,
    thumb: int,
    frame: &EditFrame,
)
    requires
        edit.wf(),
        0 <= thumb,
    ensures
        ({
            let after = edit.h_scrolled(code, thumb, frame);
            let over = layout::widest(edit.text, *frame.font) - frame.column(edit.text);
            &&& only_scrolled(edit, after)
            &&& after.first_line == edit.first_line
            &&& layout::wraps(frame.style) ==> after == edit
            &&& !layout::wraps(frame.style) ==> {
                &&& edit.h_scrolled(6, thumb, frame).first_column == 0
                &&& 0 <= over <= 0x7FFF_FFFF ==> edit.h_scrolled(7, thumb, frame).first_column == over
                &&& over <= 0 ==> edit.h_scrolled(7, thumb, frame).first_column == 0
                &&& edit.first_column + 8 <= over <= 0x7FFF_FFFF ==> edit.h_scrolled(1, thumb, frame).first_column
                    == edit.first_column + 8
                &&& 8 <= edit.first_column <= over <= 0x7FFF_FFFF ==> edit.h_scrolled(0, thumb, frame).first_column
                    == edit.first_column - 8
                &&& 0 <= frame.column(edit.text) && edit.first_column + frame.column(edit.text) <= over
                    <= 0x7FFF_FFFF ==> edit.h_scrolled(3, thumb, frame).first_column == edit.first_column
                    + frame.column(edit.text)
            }
        }),
{
}

/// The thumb of the scroll bar covers the same share of the track as the view covers of
/// the text, and stands at the same share: at the top for the first row, at the bottom
/// for the last page. Above it a press pages up, below it down, on it the drag starts
/// where it was pressed.
pub proof fn presses_on_the_scroll_bar_page_or_drag(edit: edit::EditModel, y: int, frame: &EditFrame)
    requires
        edit.wf(),
        0 <= y < frame.track(edit.text),
    ensures
        ({
            let top = frame.thumb_top(edit.text, edit.first_line);
            let length = frame.thumb_length(edit.text);
            let after = edit.gutter_pressed(y, frame);
            &&& 1 <= length <= frame.track(edit.text)
            &&& edit.first_line == 0 ==> top == 0
            &&& edit.first_line == frame.last_offset(edit.text) && edit.first_line > 0 ==> top + length == frame.track(
                edit.text,
            )
            &&& only_scrolled(edit, after)
            &&& y < top ==> after.first_line == edit.v_scrolled(2, 0, frame).first_line && after.thumb is None
            &&& y >= top + length ==> after.first_line == edit.v_scrolled(3, 0, frame).first_line && after.thumb is None
            &&& top <= y < top + length ==> after.first_line == edit.first_line && after.thumb == Some(y - top)
        }),
{
    let last = frame.last_offset(edit.text);
    let travel = frame.travel(edit.text);
    if last > 0 {
        assert(travel * 0 / last == 0) by (nonlinear_arith)
            requires
                last > 0,
        ;
        assert(travel * last / last == travel) by (nonlinear_arith)
            requires
                last > 0,
        ;
    }
}

/// The thumb is as long as the share of the rows that is shown, to the pixel below, and
/// its place is the share that is scrolled past, to the pixel below; a place of the
/// thumb leads to the offset at the same share.
pub proof fn the_thumb_shows_the_share(text: Seq<char>, first: int, top: int, frame: &EditFrame)
    requires
        frame.track(text) > 0,
        frame.rows(text).len() >= 1,
        frame.visible(text) >= 0,
    ensures
        ({
            let rows = frame.rows(text).len() as int;
            let shown = frame.track(text) * frame.visible(text);
            let length = frame.thumb_length(text);
            &&& rows <= shown && frame.visible(text) <= rows ==> length * rows <= shown < (length + 1) * rows
            &&& shown < rows ==> length == 1
            &&& frame.visible(text) >= rows ==> length == frame.track(text)
        }),
        ({
            let travel = frame.track(text) - frame.thumb_length(text);
            let last = frame.rows(text).len() - frame.visible(text);
            &&& 0 <= first <= last && 0 < last ==> frame.thumb_top(text, first) * last <= travel * first
                < (frame.thumb_top(text, first) + 1) * last
            &&& 0 < top < travel && 0 <= last ==> frame.offset_at(text, top) * travel <= top * last
                < (frame.offset_at(text, top) + 1) * travel
            &&& top <= 0 ==> frame.offset_at(text, top) == 0
            &&& 0 < travel <= top && 0 <= last ==> frame.offset_at(text, top) == last
        }),
{
    let rows = frame.rows(text).len() as int;
    let track = frame.track(text);
    let visible = frame.visible(text);
    let shown = track * visible;
    let share = shown / rows;
    assert(share * rows <= shown < (share + 1) * rows) by (nonlinear_arith)
        requires
            share == shown / rows,
            rows >= 1,
    ;
    if rows <= shown {
        assert(share >= 1) by (nonlinear_arith)
            requires
                shown < (share + 1) * rows,
                rows <= shown,
                rows >= 1,
        ;
    } else {
        assert(share < 1) by (nonlinear_arith)
            requires
                share * rows <= shown,
                shown < rows,
                rows >= 1,
        ;
    }
    if visible <= rows {
        assert(shown <= track * rows) by (nonlinear_arith)
            requires
                shown == track * visible,
                0 <= visible <= rows,
                track > 0,
        ;
        assert(share <= track) by (nonlinear_arith)
            requires
                share * rows <= shown,
                shown <= track * rows,
                rows >= 1,
        ;
    }
    if visible >= rows {
        assert(track * rows <= shown) by (nonlinear_arith)
            requires
                shown == track * visible,
                rows <= visible,
                track > 0,
        ;
        assert(track <= share) by (nonlinear_arith)
            requires
                shown < (share + 1) * rows,
                track * rows <= shown,
                rows >= 1,
        ;
    }
    let travel = track - frame.thumb_length(text);
    let last = rows - visible;
    if 0 < last {
        let t = travel * first / last;
        assert(t * last <= travel * first < (t + 1) * last) by (nonlinear_arith)
            requires
                t == travel * first / last,
                last > 0,
        ;
    }
    if 0 < top < travel {
        let o = top * last / travel;
        assert(o * travel <= top * last < (o + 1) * travel) by (nonlinear_arith)
            requires
                o == top * last / travel,
                travel > 0,
        ;
    }
}

/// A page key moves by as many lines as whole rows fit in the client, at least one.
pub proof fn pages_are_as_long_as_the_client(frame: &EditFrame)
    ensures
        frame.page() >= 1,
        0 < frame.font.line_height <= frame.height ==> frame.page() * frame.font.line_height <= frame.height < (frame.page()
            + 1) * frame.font.line_height,
        !(0 < frame.font.line_height <= frame.height) ==> frame.page() == 1,
{
    whole_rows_are_shown(frame.height as int, frame.font.line_height as int);
}

} // verus!
