//! What the text messages of an EDIT control do: clipboard, undo, replacing, limits.
use vstd::prelude::*;

use crate::edit;
use crate::edit::{EditFrame, Reply};
use crate::edit_control;
use crate::edit_proc;
use crate::laws::typing;
use crate::process::GuestHeap;
use crate::text;

verus! {

/// Whether a message left the whole control, the clipboard and guest memory as they
/// were.
pub open spec fn changes_nothing(
    control: edit_control::EditControlModel,
    world: edit_proc::EditWorld,
    outcome: edit_control::EditControlOutcome,
) -> bool {
    &&& outcome.control.edit == control.edit
    &&& outcome.control.buffer == control.buffer
    &&& outcome.answer.capture is Keep
    &&& outcome.clip == world.clip
    &&& outcome.memory == world.memory
}

/// Copying puts the selected characters on the clipboard and changes nothing in the
/// control; with nothing selected the clipboard stays as it is.
pub proof fn copying_takes_the_selection(
    control: edit_control::EditControlModel,
    wparam: u64,
    lparam: u64,
    world: edit_proc::EditWorld,
    heap: GuestHeap,
    frame: &EditFrame,
)
    requires
        control.edit.wf(),
    ensures
        edit_control::edit_control_outcome(control, 0x0301, wparam, lparam, world, heap, frame) matches Some(outcome) && {
            &&& control.edit.sel_start < control.edit.sel_end ==> outcome.clip == Some(
                control.edit.text.subrange(control.edit.sel_start, control.edit.sel_end),
            )
            &&& control.edit.sel_start == control.edit.sel_end ==> outcome.clip == world.clip
            &&& outcome.control.edit == control.edit
            &&& outcome.memory == world.memory
            &&& outcome.answer.reply == Reply::Value(0)
        },
{
}

/// Cutting puts the selected characters on the clipboard and takes them out of the
/// text; the parent hears of it.
pub proof fn cutting_moves_the_selection(
    control: edit_control::EditControlModel,
    wparam: u64,
    lparam: u64,
    world: edit_proc::EditWorld,
    heap: GuestHeap,
    frame: &EditFrame,
)
    requires
        control.edit.wf(),
    ensures
        edit_control::edit_control_outcome(control, 0x0300, wparam, lparam, world, heap, frame) matches Some(outcome) && {
            let edit = control.edit;
            &&& outcome.memory == world.memory
            &&& if edit.sel_start < edit.sel_end {
                &&& outcome.clip == Some(edit.text.subrange(edit.sel_start, edit.sel_end))
                &&& typing::text_replaced(edit, outcome.control.edit, edit.sel_start, edit.sel_end, Seq::empty())
                &&& outcome.answer.reply == Reply::Notify(0x0300)
            } else {
                changes_nothing(control, world, outcome) && outcome.answer.reply == Reply::Value(0)
            }
        },
{
}

/// Clearing takes the selection out of the text without keeping it, and empties the
/// clipboard; with nothing selected it does nothing.
pub proof fn clearing_drops_the_selection(
    control: edit_control::EditControlModel,
    wparam: u64,
    lparam: u64,
    world: edit_proc::EditWorld,
    heap: GuestHeap,
    frame: &EditFrame,
)
    requires
        control.edit.wf(),
    ensures
        edit_control::edit_control_outcome(control, 0x0303, wparam, lparam, world, heap, frame) matches Some(outcome) && {
            let edit = control.edit;
            &&& outcome.memory == world.memory
            &&& if edit.sel_start < edit.sel_end {
                &&& outcome.clip is None
                &&& typing::text_replaced(edit, outcome.control.edit, edit.sel_start, edit.sel_end, Seq::empty())
                &&& outcome.answer.reply == Reply::Notify(0x0300)
            } else {
                changes_nothing(control, world, outcome) && outcome.answer.reply == Reply::Value(0)
            }
        },
{
}

/// Pasting puts the clipboard in the place of the selection, as far as it fits; an empty
/// clipboard changes nothing. What is on the clipboard stays there.
pub proof fn pasting_puts_the_clipboard_in(
    control: edit_control::EditControlModel,
    wparam: u64,
    lparam: u64,
    world: edit_proc::EditWorld,
    heap: GuestHeap,
    frame: &EditFrame,
)
    requires
        typing::in_text(control.edit),
    ensures
        edit_control::edit_control_outcome(control, 0x0302, wparam, lparam, world, heap, frame) matches Some(outcome) && {
            let edit = control.edit;
            let kept = edit.text.len() - (edit.sel_end - edit.sel_start);
            &&& outcome.clip == world.clip
            &&& outcome.memory == world.memory
            &&& world.clip is None ==> changes_nothing(control, world, outcome) && outcome.answer.reply == Reply::Value(0)
            &&& (world.clip matches Some(chars) && chars.len() > 0 && kept + chars.len() <= edit.limit)
                ==> typing::text_replaced(edit, outcome.control.edit, edit.sel_start, edit.sel_end, world.clip->0)
                && outcome.answer.reply == Reply::Notify(0x0300)
            &&& (world.clip matches Some(chars) && chars.len() > 0) ==> outcome.control.edit.text
                == edit.with_selection_replaced(world.clip->0).text && outcome.control.edit.caret
                == edit.with_selection_replaced(world.clip->0).caret
            &&& (world.clip matches Some(chars) && chars.len() > 0) && edit.sel_start == edit.sel_end && edit.text.len()
                >= edit.limit ==> outcome.control.edit.text == edit.text && outcome.answer.reply == Reply::Value(0)
        },
{
    if let Some(chars) = world.clip {
        let edit = control.edit;
        let kept = edit.text.len() - (edit.sel_end - edit.sel_start);
        if chars.len() > 0 && kept + chars.len() <= edit.limit {
            typing::pasted_text_goes_in_as_far_as_it_fits(edit, chars);
            assert(chars.take(chars.len() as int) =~= chars);
        }
    }
}

/// What was cut comes back with a paste: the text is as before, the caret behind it.
pub proof fn pasting_brings_back_what_was_cut(
    control: edit_control::EditControlModel,
    world: edit_proc::EditWorld,
    heap: GuestHeap,
    frame: &EditFrame,
)
    requires
        control.edit.wf(),
        control.edit.sel_start < control.edit.sel_end,
        control.edit.text.len() <= control.edit.limit,
    ensures
        edit_control::edit_control_outcome(control, 0x0300, 0, 0, world, heap, frame) matches Some(cut)
            && edit_control::edit_control_outcome(
            cut.control,
            0x0302,
            0,
            0,
            edit_proc::EditWorld { clip: cut.clip, ..world },
            heap,
            frame,
        ) matches Some(pasted) && pasted.control.edit.text == control.edit.text && pasted.control.edit.caret
            == control.edit.sel_end,
{
    cutting_moves_the_selection(control, 0, 0, world, heap, frame);
    let cut = edit_control::edit_control_outcome(control, 0x0300, 0, 0, world, heap, frame)->0;
    let later = edit_proc::EditWorld { clip: cut.clip, ..world };
    pasting_puts_the_clipboard_in(cut.control, 0, 0, later, heap, frame);
    let pasted = edit_control::edit_control_outcome(cut.control, 0x0302, 0, 0, later, heap, frame)->0;
    let edit = control.edit;
    assert forall|i: int| 0 <= i < edit.text.len() implies pasted.control.edit.text[i] == edit.text[i] by {
        if i < edit.sel_start {
            assert(cut.control.edit.text[i] == edit.text[i]);
        } else if i < edit.sel_end {
            assert(pasted.control.edit.text[edit.sel_start + (i - edit.sel_start)] == cut.clip->0[i - edit.sel_start]);
        } else {
            let j = edit.sel_start + (i - edit.sel_end);
            assert(cut.control.edit.text[edit.sel_start + 0 + (i - edit.sel_end)] == edit.text[i]);
            assert(cut.control.edit.text[j] == edit.text[i]);
        }
    }
    assert(pasted.control.edit.text =~= edit.text);
}

/// Undo, asked for by either message, brings text, caret and selection back as they
/// were before the last change and reports a change; with nothing to undo it does
/// nothing.
pub proof fn undo_brings_the_text_back(
    control: edit_control::EditControlModel,
    message: u32,
    wparam: u64,
    lparam: u64,
    world: edit_proc::EditWorld,
    heap: GuestHeap,
    frame: &EditFrame,
)
    requires
        control.edit.wf(),
        message == 0x00C7 || message == 0x0304,
    ensures
        edit_control::edit_control_outcome(control, message, wparam, lparam, world, heap, frame) matches Some(outcome) && {
            &&& outcome.clip == world.clip
            &&& outcome.memory == world.memory
            &&& match control.edit.undo {
                Some(snapshot) => {
                    &&& outcome.control.edit.text == snapshot.text
                    &&& outcome.control.edit.caret == snapshot.caret
                    &&& outcome.control.edit.sel_start == snapshot.sel_start
                    &&& outcome.control.edit.sel_end == snapshot.sel_end
                    &&& outcome.control.edit.undo is None
                    &&& outcome.answer.reply == Reply::Notify(0x0300)
                },
                None => changes_nothing(control, world, outcome) && outcome.answer.reply == Reply::Value(0),
            }
        },
{
}

/// A text set by the program is the whole text: nothing is selected, nothing can be
/// undone, it counts as unmodified and is shown from its start.
pub proof fn a_set_text_is_the_text(
    control: edit_control::EditControlModel,
    wparam: u64,
    lparam: u64,
    world: edit_proc::EditWorld,
    heap: GuestHeap,
    frame: &EditFrame,
)
    ensures
        match text::pointed_name(world.memory, lparam, false) {
            Some(chars) => edit_control::edit_control_outcome(control, 0x000C, wparam, lparam, world, heap, frame)
                matches Some(outcome) && {
                &&& outcome.control.edit.text == chars
                &&& outcome.control.edit.caret == 0
                &&& outcome.control.edit.sel_start == 0
                &&& outcome.control.edit.sel_end == 0
                &&& !outcome.control.edit.modified
                &&& outcome.control.edit.undo is None
                &&& outcome.control.edit.first_line == 0
                &&& outcome.control.edit.first_column == 0
                &&& outcome.control.edit.limit == control.edit.limit
                &&& outcome.answer.reply == Reply::Value(1)
                &&& outcome.clip == world.clip
                &&& outcome.memory == world.memory
            },
            None => edit_control::edit_control_outcome(control, 0x000C, wparam, lparam, world, heap, frame) is None,
        },
{
}

/// A text that replaces the selection on the program's request is inserted like a
/// paste.
pub proof fn replacing_puts_a_text_in(
    control: edit_control::EditControlModel,
    wparam: u64,
    lparam: u64,
    world: edit_proc::EditWorld,
    heap: GuestHeap,
    frame: &EditFrame,
)
    requires
        control.edit.wf(),
    ensures
        match text::pointed_name(world.memory, lparam, false) {
            Some(chars) => edit_control::edit_control_outcome(control, 0x00C2, wparam, lparam, world, heap, frame)
                matches Some(outcome) && {
                let edit = control.edit;
                let kept = edit.text.len() - (edit.sel_end - edit.sel_start);
                &&& outcome.clip == world.clip
                &&& outcome.memory == world.memory
                &&& (chars.len() > 0 || edit.sel_start < edit.sel_end) && kept + chars.len() <= edit.limit
                    ==> typing::text_replaced(edit, outcome.control.edit, edit.sel_start, edit.sel_end, chars)
                    && outcome.answer.reply == Reply::Notify(0x0300)
                &&& chars.len() == 0 && edit.sel_start == edit.sel_end ==> outcome.control.edit == edit
                    && outcome.answer.reply == Reply::Value(0)
            },
            None => edit_control::edit_control_outcome(control, 0x00C2, wparam, lparam, world, heap, frame) is None,
        },
{
    if let Some(chars) = text::pointed_name(world.memory, lparam, false) {
        let edit = control.edit;
        let kept = edit.text.len() - (edit.sel_end - edit.sel_start);
        if (chars.len() > 0 || edit.sel_start < edit.sel_end) && kept + chars.len() <= edit.limit {
            typing::pasted_text_goes_in_as_far_as_it_fits(edit, chars);
            assert(chars.take(chars.len() as int) =~= chars);
        }
    }
}

/// The limit, the modify flag and what can be undone read back as they were set, and
/// setting one leaves everything else alone.
pub proof fn settings_are_read_back(
    control: edit_control::EditControlModel,
    value: u64,
    world: edit_proc::EditWorld,
    heap: GuestHeap,
    frame: &EditFrame,
)
    requires
        control.edit.wf(),
    ensures
        // A limit is kept; 0 and anything larger ask for the largest.
        edit_control::edit_control_outcome(control, 0x00C5, value, 0, world, heap, frame) matches Some(set) && {
            let limit: u64 = if value == 0 || value > 0x7FFF_FFFE {
                0x7FFF_FFFE
            } else {
                value
            };
            &&& set.control.edit == (edit::EditModel { limit: limit as int, ..control.edit })
            &&& edit_control::edit_control_outcome(set.control, 0x00D5, 0, 0, world, heap, frame) matches Some(read)
                && read.answer.reply == Reply::Value(limit) && changes_nothing(set.control, world, read)
        },
        // So is the modify flag.
        edit_control::edit_control_outcome(control, 0x00B9, value, 0, world, heap, frame) matches Some(set) && {
            &&& set.control.edit == (edit::EditModel { modified: value != 0, ..control.edit })
            &&& edit_control::edit_control_outcome(set.control, 0x00B8, 0, 0, world, heap, frame) matches Some(read)
                && read.answer.reply == Reply::Value(
                if value != 0 {
                    1
                } else {
                    0
                },
            ) && changes_nothing(set.control, world, read)
        },
        // Whether there is something to undo is answered, and can be dropped.
        edit_control::edit_control_outcome(control, 0x00C6, 0, 0, world, heap, frame) matches Some(read)
            && read.answer.reply == Reply::Value(
            if control.edit.undo is Some {
                1
            } else {
                0
            },
        ) && changes_nothing(control, world, read),
        edit_control::edit_control_outcome(control, 0x00CD, 0, 0, world, heap, frame) matches Some(dropped)
            && dropped.control.edit == (edit::EditModel { undo: None, ..control.edit }),
{
}

} // verus!
