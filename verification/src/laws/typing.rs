//! What keys and text messages do to the text of an EDIT control.
use vstd::prelude::*;

use crate::edit;
use crate::edit::{EditFrame, Reply};
use crate::edit_control;
use crate::edit_proc;
use crate::process::GuestHeap;

verus! {

/// Whether a character code stands for a character that can be seen or is a space:
/// ASCII from the space to the tilde, and every Unicode character from 0xA0 on.
pub open spec fn is_printable(code: u64) -> bool {
    ||| 0x20 <= code <= 0x7E
    ||| 0xA0 <= code <= 0xD7FF
    ||| 0xE000 <= code <= 0x10FFFF
}

/// Whether the selection lies in the text.
pub open spec fn in_text(edit: edit::EditModel) -> bool {
    0 <= edit.sel_start <= edit.sel_end <= edit.text.len() && 0 <= edit.limit
}

/// Whether one more character fits once the selection is gone.
pub open spec fn has_room(edit: edit::EditModel) -> bool {
    edit.text.len() - (edit.sel_end - edit.sel_start) < edit.limit
}

/// Whether `after` is `before` with characters `lo..hi` replaced: the rest of the text
/// is as it was, the caret stands behind what is new with nothing selected, and the
/// change can be undone.
pub open spec fn text_replaced(before: edit::EditModel, after: edit::EditModel, lo: int, hi: int, new: Seq<char>) -> bool {
    &&& after.text.len() == lo + new.len() + (before.text.len() - hi)
    &&& forall|i: int| 0 <= i < lo ==> #[trigger] after.text[i] == before.text[i]
    &&& forall|i: int| 0 <= i < new.len() ==> #[trigger] after.text[lo + i] == new[i]
    &&& forall|i: int| hi <= i < before.text.len() ==> after.text[lo + new.len() + (i - hi)] == #[trigger] before.text[i]
    &&& after.caret == lo + new.len()
    &&& after.sel_start == lo + new.len()
    &&& after.sel_end == lo + new.len()
    &&& after.modified
    &&& after.undo matches Some(snapshot) && snapshot.text == before.text && snapshot.caret == before.caret
        && snapshot.sel_start == before.sel_start && snapshot.sel_end == before.sel_end
    &&& after.limit == before.limit
    &&& after.tab_stops == before.tab_stops
}

/// Every printable character can be typed while there is room: it takes the place of
/// the selection, the caret goes behind it, and a change is reported.
pub proof fn printable_characters_are_typed(edit: edit::EditModel, code: u64, multiline: bool)
    requires
        edit.wf(),
        is_printable(code),
        has_room(edit),
    ensures
        text_replaced(edit, edit.typed(code, multiline), edit.sel_start, edit.sel_end, seq![code as char]),
        edit.typed(code, multiline).text == edit.text.take(edit.sel_start) + seq![code as char] + edit.text.skip(
            edit.sel_end,
        ),
        edit.typing_changes(code, multiline),
{
    assert(crate::text::is_scalar(code as int));
}

/// Enter breaks the line in a control with several lines, and does nothing in one with
/// a single line.
pub proof fn enter_breaks_the_line(edit: edit::EditModel, multiline: bool)
    requires
        edit.wf(),
    ensures
        multiline && has_room(edit) ==> text_replaced(
            edit,
            edit.typed(13, multiline),
            edit.sel_start,
            edit.sel_end,
            seq!['\n'],
        ) && edit.typing_changes(13, multiline),
        !multiline || !has_room(edit) ==> edit.typed(13, multiline) == edit && !edit.typing_changes(13, multiline),
{
}

/// Backspace deletes the selection, or the character before the caret where nothing is
/// selected, and at the start of the text nothing.
pub proof fn backspace_deletes_backwards(edit: edit::EditModel, multiline: bool)
    requires
        edit.wf(),
    ensures
        edit.sel_start < edit.sel_end ==> text_replaced(
            edit,
            edit.typed(8, multiline),
            edit.sel_start,
            edit.sel_end,
            Seq::empty(),
        ) && edit.typing_changes(8, multiline),
        edit.sel_start == edit.sel_end && edit.caret > 0 ==> text_replaced(
            edit,
            edit.typed(8, multiline),
            edit.caret - 1,
            edit.caret,
            Seq::empty(),
        ) && edit.typing_changes(8, multiline),
        edit.sel_start == edit.sel_end && edit.caret == 0 ==> edit.typed(8, multiline) == edit && !edit.typing_changes(
            8,
            multiline,
        ),
{
}

/// A code that is neither printable nor Enter nor Backspace types nothing, and neither
/// does any where the text is full.
pub proof fn nothing_else_is_typed(edit: edit::EditModel, code: u64, multiline: bool)
    requires
        edit.wf(),
        code != 8,
        code != 13,
        !is_printable(code) || !has_room(edit),
    ensures
        edit.typed(code, multiline) == edit,
        !edit.typing_changes(code, multiline),
{
}

/// The Delete key deletes the selection, or the character after the caret where nothing
/// is selected, and at the end of the text nothing.
pub proof fn delete_deletes_forwards(edit: edit::EditModel)
    requires
        edit.wf(),
    ensures
        edit.sel_start < edit.sel_end ==> text_replaced(
            edit,
            edit.with_delete(),
            edit.sel_start,
            edit.sel_end,
            Seq::empty(),
        ),
        edit.sel_start == edit.sel_end && edit.caret < edit.text.len() ==> text_replaced(
            edit,
            edit.with_delete(),
            edit.caret,
            edit.caret + 1,
            Seq::empty(),
        ),
        edit.sel_start == edit.sel_end && edit.caret == edit.text.len() ==> edit.with_delete() == edit,
{
}

/// What replaces the selection is cut where the text is full: a first part of it goes
/// in, all of it where it fits.
pub proof fn pasted_text_goes_in_as_far_as_it_fits(edit: edit::EditModel, chars: Seq<char>)
    requires
        in_text(edit),
        edit.sel_start < edit.sel_end || chars.len() > 0 && has_room(edit),
    ensures
        ({
            let kept = edit.text.len() - (edit.sel_end - edit.sel_start);
            let after = edit.with_selection_replaced(chars);
            let went_in = after.text.len() - kept;
            &&& 0 <= went_in <= chars.len()
            &&& text_replaced(edit, after, edit.sel_start, edit.sel_end, chars.take(went_in))
            &&& kept + chars.len() <= edit.limit ==> went_in == chars.len()
            &&& kept + chars.len() > edit.limit && kept <= edit.limit ==> kept + went_in == edit.limit
            &&& kept > edit.limit ==> went_in == 0
        }),
{
    let kept = edit.text.len() - (edit.sel_end - edit.sel_start);
    if chars.len() <= edit.room() {
        assert(chars.take(chars.len() as int) =~= chars);
    }
}

/// Undo takes back the last change whole: text, caret and selection are as before it,
/// and there is no more to undo.
pub proof fn undo_takes_back_the_last_change(
    before: edit::EditModel,
    after: edit::EditModel,
    lo: int,
    hi: int,
    new: Seq<char>,
)
    requires
        before.wf(),
        text_replaced(before, after, lo, hi, new),
    ensures
        after.undone().text == before.text,
        after.undone().caret == before.caret,
        after.undone().sel_start == before.sel_start,
        after.undone().sel_end == before.sel_end,
        after.undone().undo is None,
        after.undone().limit == before.limit,
{
}

/// A character that was just typed is gone again after a backspace.
pub proof fn backspace_takes_back_a_character(edit: edit::EditModel, code: u64, multiline: bool)
    requires
        edit.wf(),
        edit.sel_start == edit.sel_end,
        is_printable(code),
        has_room(edit),
    ensures
        edit.typed(code, multiline).typed(8, multiline).text == edit.text,
        edit.typed(code, multiline).typed(8, multiline).caret == edit.caret,
{
    printable_characters_are_typed(edit, code, multiline);
    let typed = edit.typed(code, multiline);
    backspace_deletes_backwards(typed, multiline);
    assert(typed.typed(8, multiline).text =~= edit.text);
}

/// A typed character reaches the text of the control, and the parent hears of the
/// change; nothing else in the guest is touched. The view scrolls to the caret.
pub proof fn typing_reaches_the_control(
    control: edit_control::EditControlModel,
    code: u64,
    lparam: u64,
    world: edit_proc::EditWorld,
    heap: GuestHeap,
    frame: &EditFrame,
)
    requires
        control.edit.wf(),
        is_printable(code),
        has_room(control.edit),
    ensures
        edit_control::edit_control_outcome(control, 0x0102, code, lparam, world, heap, frame) matches Some(outcome) && {
            &&& text_replaced(
                control.edit,
                outcome.control.edit,
                control.edit.sel_start,
                control.edit.sel_end,
                seq![code as char],
            )
            &&& outcome.answer.reply == Reply::Notify(0x0300)
            &&& outcome.answer.capture is Keep
            &&& outcome.answer.blink is Keep
            &&& outcome.clip == world.clip
            &&& outcome.memory == world.memory
            &&& outcome.control.caret.focused == control.caret.focused
        },
{
    printable_characters_are_typed(control.edit, code, frame.style & 4 != 0);
}

/// Backspace and Delete reach the text of the control, and the parent hears of a
/// change; a key that changes nothing is answered with 0.
pub proof fn deleting_reaches_the_control(
    control: edit_control::EditControlModel,
    lparam: u64,
    world: edit_proc::EditWorld,
    heap: GuestHeap,
    frame: &EditFrame,
)
    requires
        control.edit.wf(),
    ensures
        edit_control::edit_control_outcome(control, 0x0102, 8, lparam, world, heap, frame) matches Some(outcome) && {
            let edit = control.edit;
            if edit.sel_start < edit.sel_end {
                &&& text_replaced(edit, outcome.control.edit, edit.sel_start, edit.sel_end, Seq::empty())
                &&& outcome.answer.reply == Reply::Notify(0x0300)
            } else if edit.caret > 0 {
                &&& text_replaced(edit, outcome.control.edit, edit.caret - 1, edit.caret, Seq::empty())
                &&& outcome.answer.reply == Reply::Notify(0x0300)
            } else {
                outcome.control.edit == edit && outcome.answer.reply == Reply::Value(0)
            }
        },
        edit_control::edit_control_outcome(control, 0x0100, 0x2E, lparam, world, heap, frame) matches Some(outcome)
            && {
            let edit = control.edit;
            if edit.sel_start < edit.sel_end {
                &&& text_replaced(edit, outcome.control.edit, edit.sel_start, edit.sel_end, Seq::empty())
                &&& outcome.answer.reply == Reply::Notify(0x0300)
            } else if edit.caret < edit.text.len() {
                &&& text_replaced(edit, outcome.control.edit, edit.caret, edit.caret + 1, Seq::empty())
                &&& outcome.answer.reply == Reply::Notify(0x0300)
            } else {
                outcome.control.edit == edit && outcome.answer.reply == Reply::Value(0)
            }
        },
{
    backspace_deletes_backwards(control.edit, frame.style & 4 != 0);
    delete_deletes_forwards(control.edit);
}

/// Enter reaches the text of a control with several lines as a line break, and does
/// nothing in one with a single line.
pub proof fn enter_reaches_the_control(
    control: edit_control::EditControlModel,
    lparam: u64,
    world: edit_proc::EditWorld,
    heap: GuestHeap,
    frame: &EditFrame,
)
    requires
        control.edit.wf(),
        has_room(control.edit),
    ensures
        edit_control::edit_control_outcome(control, 0x0102, 13, lparam, world, heap, frame) matches Some(outcome) && {
            let edit = control.edit;
            if frame.style & 0x0004 != 0 {
                &&& text_replaced(edit, outcome.control.edit, edit.sel_start, edit.sel_end, seq!['\n'])
                &&& outcome.answer.reply == Reply::Notify(0x0300)
            } else {
                outcome.control.edit == edit && outcome.answer.reply == Reply::Value(0)
            }
        },
{
    enter_breaks_the_line(control.edit, frame.style & 0x0004 != 0);
}

/// What is typed where there is no room, or is no character, changes nothing and is
/// answered with 0.
pub proof fn what_cannot_be_typed_changes_nothing(
    control: edit_control::EditControlModel,
    code: u64,
    lparam: u64,
    world: edit_proc::EditWorld,
    heap: GuestHeap,
    frame: &EditFrame,
)
    requires
        control.edit.wf(),
        code != 8,
        code != 13,
        !is_printable(code) || !has_room(control.edit),
    ensures
        edit_control::edit_control_outcome(control, 0x0102, code, lparam, world, heap, frame) matches Some(outcome)
            && outcome.control.edit == control.edit && outcome.control.buffer == control.buffer && outcome.answer.reply
            == Reply::Value(0) && outcome.clip == world.clip && outcome.memory == world.memory,
{
    nothing_else_is_typed(control.edit, code, frame.style & 0x0004 != 0);
}

} // verus!
