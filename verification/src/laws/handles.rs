//! The text handle of an EDIT control, its tab stops, its wheel and its scroll bar.
use vstd::prelude::*;

use crate::cpu;
use crate::edit;
use crate::edit::{EditFrame, Reply};
use crate::edit_control;
use crate::edit_control::{Blink, Repaint};
use crate::edit_proc;
use crate::heap;
use crate::laws::memory;
use crate::laws::selection::is_point;
use crate::process::GuestHeap;
use crate::text;

verus! {

/// Asking for the text handle answers a guest address where the text stands as bytes
/// with a NUL behind it. Asked again, the answer is the same and nothing is copied.
pub proof fn the_text_handle_leads_to_the_text(
    control: edit_control::EditControlModel,
    wparam: u64,
    lparam: u64,
    world: edit_proc::EditWorld,
    heap: GuestHeap,
    frame: &EditFrame,
    start: int,
)
    ensures
        control.buffer matches Some(address) ==> (edit_control::edit_control_outcome(
            control,
            0x00BD,
            wparam,
            lparam,
            world,
            heap,
            frame,
        ) matches Some(same) && same.answer.reply == Reply::Value(control.buffer->0) && same.control == control
            && same.memory == world.memory && same.clip == world.clip),
        control.buffer is None && heap::allocation(world.memory, heap, control.edit.text.len() + 1) == Some(Some(start))
            ==> (edit_control::edit_control_outcome(control, 0x00BD, wparam, lparam, world, heap, frame)
            matches Some(made) && made.answer.reply == Reply::Value(start as u64) && made.control.buffer == Some(
            start as u64,
        ) && made.control.edit == control.edit && made.control.caret == control.caret && made.clip == world.clip && (
        forall|i: int|
            0 <= i < control.edit.text.len() ==> (#[trigger] made.memory[start + i]) == text::ansi_byte(
                control.edit.text[i],
            )) && made.memory[start + control.edit.text.len()] == 0),
        control.buffer is None && heap::allocation(world.memory, heap, control.edit.text.len() + 1) == Some(None::<int>)
            ==> (edit_control::edit_control_outcome(control, 0x00BD, wparam, lparam, world, heap, frame)
            matches Some(full) && full.answer.reply == Reply::Value(0) && full.control == control && full.memory
            == world.memory),
{
    let bytes = edit_proc::line_bytes(control.edit.text, control.edit.text.len() as int);
    assert(bytes.len() == control.edit.text.len() + 1);
    if control.buffer is None && heap::allocation(world.memory, heap, control.edit.text.len() + 1) == Some(Some(start)) {
        memory::heap_blocks_lie_behind_one_another(world.memory, heap, bytes, start, 0);
        let after = heap::with_block(world.memory, heap, bytes);
        let read = cpu::load(after, start, bytes.len());
        assert forall|i: int| 0 <= i < bytes.len() implies #[trigger] after[start + i] == bytes[i] by {
            assert(read[i] == bytes[i]);
        }
    }
}

/// A text handle that the program gives is read as the whole text, and is then the one
/// that is answered.
pub proof fn a_given_handle_becomes_the_text(
    control: edit_control::EditControlModel,
    wparam: u64,
    address: u64,
    world: edit_proc::EditWorld,
    heap: GuestHeap,
    frame: &EditFrame,
)
    requires
        address != 0,
    ensures
        match text::pointed_name(world.memory, address, false) {
            Some(chars) => edit_control::edit_control_outcome(control, 0x00BC, wparam, address, world, heap, frame)
                matches Some(set) && {
                &&& set.control.edit.text == chars
                &&& set.control.edit.caret == 0 && set.control.edit.sel_start == 0 && set.control.edit.sel_end == 0
                &&& set.control.edit.undo is None && !set.control.edit.modified
                &&& set.control.buffer == Some(address)
                &&& set.answer.reply == Reply::Value(1)
                &&& set.memory == world.memory && set.clip == world.clip
            },
            None => edit_control::edit_control_outcome(control, 0x00BC, wparam, address, world, heap, frame) is None,
        },
{
}

/// Tab stops are read from an array of 16-bit numbers, and change nothing else.
pub proof fn tab_stops_are_read_from_an_array(
    edit: edit::EditModel,
    count: u64,
    lparam: u64,
    world: edit_proc::EditWorld,
    frame: &EditFrame,
)
    requires
        cpu::mapped(world.memory, lparam as int, (2 * count) as nat),
    ensures
        edit_proc::edit_outcome(edit, 0x00CB, count, lparam, world, frame) matches Some(set) && {
            &&& set.edit.tab_stops.len() == count
            &&& forall|i: int|
                0 <= i < count ==> (#[trigger] set.edit.tab_stops[i]) == world.memory[lparam + 2 * i] + 256
                    * world.memory[lparam + 2 * i + 1]
            &&& set.edit == (edit::EditModel { tab_stops: set.edit.tab_stops, ..edit })
            &&& set.reply == Reply::Value(1)
            &&& set.clip == world.clip && set.memory == world.memory && set.capture is Keep
        },
{
}

/// A turn of the wheel is a signed number in the high word, and scrolls as far.
pub proof fn wheel_messages_scroll(
    edit: edit::EditModel,
    delta: i16,
    lparam: u64,
    world: edit_proc::EditWorld,
    frame: &EditFrame,
)
    ensures
        edit_proc::edit_outcome(
            edit,
            0x020A,
            (0x1_0000 * (if delta < 0 {
                delta + 0x1_0000
            } else {
                delta as int
            })) as u64,
            lparam,
            world,
            frame,
        ) matches Some(turned) && turned.edit == edit.wheeled(delta as int, frame) && turned.reply == Reply::Value(0)
            && turned.clip == world.clip && turned.memory == world.memory && turned.capture is Keep,
{
}

/// A press on the scroll bar does not touch the caret: it pages, or takes the mouse for
/// a drag of the thumb, which the pointer then moves until the release.
pub proof fn the_scroll_bar_takes_its_own_presses(
    edit: edit::EditModel,
    x: i16,
    y: i16,
    wparam: u64,
    lparam: u64,
    world: edit_proc::EditWorld,
    frame: &EditFrame,
)
    requires
        edit.wf(),
        is_point(lparam, x, y),
    ensures
        frame.in_gutter(edit.text, x as int, y as int) ==> (edit_proc::edit_outcome(
            edit,
            0x0201,
            wparam,
            lparam,
            world,
            frame,
        ) matches Some(down) && down.edit == edit.gutter_pressed(y as int, frame) && down.reply == Reply::Value(0)
            && down.edit.caret == edit.caret && down.edit.sel_start == edit.sel_start && down.edit.sel_end == edit.sel_end
            && (down.edit.thumb is Some ==> down.capture is Hold) && (down.edit.thumb is None ==> down.capture is Keep)
            && down.clip == world.clip && down.memory == world.memory),
        edit.thumb is Some && world.captured ==> (edit_proc::edit_outcome(edit, 0x0200, wparam, lparam, world, frame)
            matches Some(moved) && moved.edit == edit.thumb_dragged(y as int, frame) && moved.edit.caret == edit.caret
            && moved.edit.thumb == edit.thumb && moved.reply == Reply::Value(0) && moved.capture is Keep),
        edit.thumb is Some && world.captured ==> (edit_proc::edit_outcome(edit, 0x0202, wparam, lparam, world, frame)
            matches Some(up) && up.edit == (edit::EditModel { thumb: None, ..edit }) && up.capture is Release && up.reply
            == Reply::Value(0)),
{
}

/// A press in the text gives the whole control the focus: the bar shows and blinks.
pub proof fn a_press_brings_the_focus(
    control: edit_control::EditControlModel,
    x: i16,
    y: i16,
    wparam: u64,
    lparam: u64,
    world: edit_proc::EditWorld,
    heap: GuestHeap,
    frame: &EditFrame,
)
    requires
        control.edit.wf(),
        is_point(lparam, x, y),
        !frame.in_gutter(control.edit.text, x as int, y as int),
    ensures
        edit_control::edit_control_outcome(control, 0x0201, wparam, lparam, world, heap, frame) matches Some(down) && {
            &&& down.control.caret.focused
            &&& down.control.caret.on
            &&& down.answer.blink == Blink::Arm
            &&& down.answer.capture is Take
            &&& down.answer.repaint == Repaint::Request
            &&& down.answer.reply == Reply::Value(0)
            &&& down.control.edit.text == control.edit.text
            &&& down.control.edit.caret == frame.hit(control.edit, x as int, y as int)
            &&& down.control.buffer == control.buffer
        },
{
}

/// Messages that an edit control does not know are left to others, with nothing
/// changed.
pub proof fn unknown_messages_are_left_to_others(
    edit: edit::EditModel,
    message: u32,
    wparam: u64,
    lparam: u64,
    world: edit_proc::EditWorld,
    frame: &EditFrame,
)
    requires
        message == 0 || 0x0400 <= message < 0x0442 || message > 0x0442 || message == 0x0001 || message == 0x0002,
    ensures
        edit_proc::edit_outcome(edit, message, wparam, lparam, world, frame) matches Some(left) && left.edit == edit
            && left.reply is Unhandled && left.clip == world.clip && left.memory == world.memory && left.capture is Keep,
{
}

} // verus!
