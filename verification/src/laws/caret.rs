//! The caret bar blinks while a control has the focus, and what changes is painted.
use vstd::prelude::*;

use crate::caret;
use crate::caret::EditInvalidation;
use crate::edit;
use crate::edit::{EditFrame, Reply};
use crate::edit_control;
use crate::edit_control::{Blink, Repaint};
use crate::edit_proc;
use crate::layout;
use crate::process::GuestHeap;

verus! {

/// Whether a row is among those that wait to be painted.
pub open spec fn waits(rows: EditInvalidation, row: int) -> bool {
    match rows {
        EditInvalidation::Clean => false,
        EditInvalidation::Band(band) => band.lo <= row && row <= band.hi,
        EditInvalidation::Full => true,
    }
}

/// Rows that are added wait, those that waited go on waiting, and nothing else is added
/// but what lies between.
pub proof fn added_rows_wait(rows: EditInvalidation, a: usize, b: usize, row: int)
    ensures
        (a <= row <= b || b <= row <= a) ==> waits(rows.with_rows(a, b), row),
        waits(rows, row) ==> waits(rows.with_rows(a, b), row),
        rows is Clean && waits(rows.with_rows(a, b), row) ==> (a <= row <= b || b <= row <= a),
        waits(rows, row) == rows.covers(row),
{
}

/// A paint covers as many rows as are both in view and waiting, and all in view where no
/// band is known.
pub proof fn paints_cover_waiting_rows_in_view(rows: EditInvalidation, first: int, count: int)
    requires
        0 <= first,
        0 <= count,
    ensures
        match rows {
            EditInvalidation::Band(band) => {
                let covered = rows.painted(first, count);
                &&& band.hi < first || first + count <= band.lo || band.hi < band.lo || count == 0 ==> covered == 0
                &&& first <= band.lo <= band.hi < first + count ==> covered == band.hi - band.lo + 1
                &&& band.lo < first <= band.hi < first + count ==> covered == band.hi - first + 1
                &&& first <= band.lo < first + count <= band.hi ==> covered == first + count - band.lo
                &&& band.lo <= first && first + count <= band.hi && 0 < count ==> covered == count
            },
            _ => rows.painted(first, count) == count,
        },
{
}

/// Where the caret is: the row that its position is on.
pub open spec fn row_of_caret(control: edit_control::EditControlModel, frame: &EditFrame) -> int {
    let all = frame.rows(control.edit.text);
    layout::row_of(all, control.edit.caret, all.len())
}

/// A control that gets the focus shows the bar at once and starts to blink; one that
/// loses it stops. Either way the row of the caret and the one where the bar was drawn
/// are painted, and the text stays as it is.
pub proof fn the_focus_starts_and_stops_the_blinking(
    control: edit_control::EditControlModel,
    wparam: u64,
    lparam: u64,
    world: edit_proc::EditWorld,
    heap: GuestHeap,
    frame: &EditFrame,
)
    requires
        0 <= row_of_caret(control, frame) <= usize::MAX,
    ensures
        edit_control::edit_control_outcome(control, 0x0007, wparam, lparam, world, heap, frame) matches Some(got) && {
            &&& got.control.caret.focused
            &&& got.control.caret.on
            &&& got.answer.blink == Blink::Arm
            &&& got.answer.reply == Reply::Value(0)
            &&& got.answer.repaint == Repaint::Request
            &&& got.control.edit == control.edit
            &&& got.control.buffer == control.buffer
            &&& got.clip == world.clip && got.memory == world.memory && got.answer.capture is Keep
            &&& waits(got.control.caret.invalid_rows, row_of_caret(control, frame))
            &&& control.caret.drawn_row matches Some(drawn) ==> waits(got.control.caret.invalid_rows, drawn as int)
        },
        edit_control::edit_control_outcome(control, 0x0008, wparam, lparam, world, heap, frame) matches Some(lost) && {
            &&& !lost.control.caret.focused
            &&& lost.answer.blink == Blink::Disarm
            &&& lost.answer.reply == Reply::Value(0)
            &&& lost.answer.repaint == Repaint::Request
            &&& lost.control.edit == control.edit
            &&& lost.control.buffer == control.buffer
            &&& lost.clip == world.clip && lost.memory == world.memory && lost.answer.capture is Keep
            &&& waits(lost.control.caret.invalid_rows, row_of_caret(control, frame))
            &&& control.caret.drawn_row matches Some(drawn) ==> waits(lost.control.caret.invalid_rows, drawn as int)
        },
{
}

/// Every tick of the caret's own timer turns the bar over and has its row painted; a
/// tick of another timer is not the control's.
pub proof fn ticks_turn_the_bar_over(
    control: edit_control::EditControlModel,
    timer: u64,
    lparam: u64,
    world: edit_proc::EditWorld,
    heap: GuestHeap,
    frame: &EditFrame,
)
    requires
        0 <= row_of_caret(control, frame) <= usize::MAX,
    ensures
        edit_control::edit_control_outcome(control, 0x0113, timer, lparam, world, heap, frame) matches Some(ticked) && {
            &&& timer == 1 ==> ticked.control.caret.on != control.caret.on && ticked.control.caret.focused
                == control.caret.focused && ticked.answer.reply == Reply::Value(0) && waits(
                ticked.control.caret.invalid_rows,
                row_of_caret(control, frame),
            ) && (control.caret.drawn_row matches Some(drawn) ==> waits(
                ticked.control.caret.invalid_rows,
                drawn as int,
            ))
            &&& timer != 1 ==> ticked.control.caret == control.caret && ticked.answer.reply is Unhandled
            &&& ticked.control.edit == control.edit
            &&& ticked.control.buffer == control.buffer
            &&& ticked.answer.blink == Blink::Keep
            &&& ticked.clip == world.clip && ticked.memory == world.memory
        },
{
}

/// A paint leaves no row waiting. It covers the rows in view that waited, all of them
/// the first time, and notes the row of a bar that shows: one in a window that is shown,
/// with the focus, in its phase and in view.
pub proof fn a_paint_leaves_nothing_waiting(
    control: edit_control::EditControlModel,
    wparam: u64,
    lparam: u64,
    world: edit_proc::EditWorld,
    heap: GuestHeap,
    frame: &EditFrame,
)
    requires
        0 <= row_of_caret(control, frame) <= usize::MAX,
        0 <= control.edit.first_line,
        frame.rows(control.edit.text).len() <= usize::MAX,
        control.edit.first_line <= frame.rows(control.edit.text).len(),
        frame.visible(control.edit.text) >= 1,
    ensures
        edit_control::edit_control_outcome(control, 0x000F, wparam, lparam, world, heap, frame) matches Some(painted) && {
            let row = row_of_caret(control, frame);
            let first = control.edit.first_line;
            let total = frame.rows(control.edit.text).len() as int;
            let visible = frame.visible(control.edit.text);
            let end = if first + visible < total {
                first + visible
            } else {
                total
            };
            let bar = control.caret.on && control.caret.focused && frame.shown && first <= row < end;
            &&& painted.control.caret.invalid_rows is Clean
            &&& painted.answer.repaint == Repaint::Done
            &&& painted.answer.reply == Reply::Value(0)
            &&& bar ==> painted.control.caret.drawn_row == Some(row as usize)
            &&& !bar ==> painted.control.caret.drawn_row == control.caret.drawn_row
            &&& !frame.shown ==> painted.control.caret.last_paint_rows == control.caret.last_paint_rows
            &&& frame.shown && (control.caret.last_paint_rows is None || control.caret.invalid_rows is Full)
                ==> painted.control.caret.last_paint_rows == Some((end - first) as usize)
            &&& frame.shown && control.caret.last_paint_rows is Some && (control.caret.invalid_rows
                matches EditInvalidation::Band(band) && first <= band.lo <= band.hi < end)
                ==> painted.control.caret.last_paint_rows == Some(
                (control.caret.invalid_rows->Band_0.hi - control.caret.invalid_rows->Band_0.lo + 1) as usize,
            )
            &&& painted.control.caret.on == control.caret.on && painted.control.caret.focused == control.caret.focused
            &&& painted.control.edit == control.edit
            &&& painted.control.buffer == control.buffer
            &&& painted.answer.blink == Blink::Keep && painted.answer.capture is Keep
            &&& painted.clip == world.clip && painted.memory == world.memory
        },
{
}

/// When the text, the selection or the view of a control changes, the rows that look
/// different wait to be painted, the control asks for it, and nothing that waited is
/// forgotten. The bar goes on as it was.
pub proof fn what_changes_gets_painted(
    control: edit_control::EditControlModel,
    after: edit::EditModel,
    frame: &EditFrame,
    row: int,
)
    requires
        frame.rows(control.edit.text).len() <= usize::MAX,
        frame.rows(after.text).len() <= usize::MAX,
        0 <= caret::row_at(frame, control.edit.text, control.edit.sel_start) <= usize::MAX,
        0 <= caret::row_at(frame, control.edit.text, control.edit.sel_end) <= usize::MAX,
        0 <= caret::row_at(frame, after.text, after.sel_start) <= usize::MAX,
        0 <= caret::row_at(frame, after.text, after.sel_end) <= usize::MAX,
    ensures
        ({
            let edited = control.edited(after, frame);
            let old_rows = frame.rows(control.edit.text);
            let new_rows = frame.rows(after.text);
            &&& edited.edit == after
            &&& edited.caret.on == control.caret.on && edited.caret.focused == control.caret.focused
            &&& edited.caret.drawn_row == control.caret.drawn_row
            &&& waits(control.caret.invalid_rows, row) ==> waits(edited.caret.invalid_rows, row)
            &&& 0 <= row < old_rows.len() && row < new_rows.len() && control.edit.text.subrange(
                old_rows[row].0,
                old_rows[row].1,
            ) != after.text.subrange(new_rows[row].0, new_rows[row].1) ==> waits(edited.caret.invalid_rows, row)
            &&& old_rows.len() <= row < new_rows.len() || new_rows.len() <= row < old_rows.len() && 0 <= row ==> waits(
                edited.caret.invalid_rows,
                row,
            )
            &&& after.first_line != control.edit.first_line || after.first_column != control.edit.first_column
                ==> edited.caret.invalid_rows is Full
            &&& after.caret != control.edit.caret || after.sel_start != control.edit.sel_start || after.sel_end
                != control.edit.sel_end ==> waits(
                edited.caret.invalid_rows,
                caret::row_at(frame, after.text, after.sel_start),
            ) && waits(edited.caret.invalid_rows, caret::row_at(frame, after.text, after.sel_end)) && waits(
                edited.caret.invalid_rows,
                caret::row_at(frame, control.edit.text, control.edit.sel_start),
            ) && waits(
                edited.caret.invalid_rows,
                caret::row_at(frame, control.edit.text, control.edit.sel_end),
            )
            &&& after.text != control.edit.text ==> edited.buffer is None
            &&& after.text == control.edit.text ==> edited.buffer == control.buffer
            &&& !(edited.caret.invalid_rows is Clean) ==> edited.repaint() == Repaint::Request
        }),
{
    let before = caret::picture(control.edit, frame);
    let now = caret::picture(after, frame);
    caret::changes_get_painted(control.caret.invalid_rows, before, now, row);
}

} // verus!
