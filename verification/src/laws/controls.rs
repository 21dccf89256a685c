//! What the other built-in controls do with their messages.
use vstd::prelude::*;

use crate::controls;
use crate::controls::{ControlModel, ListBoxModel, StatusBarModel};
use crate::cpu;
use crate::edit::{EditFrame, Reply};
use crate::edit_control::{Blink, Repaint};
use crate::laws::selection::is_point;
use crate::layout;
use crate::messages;
use crate::text;

verus! {

/// Whether a message left the clipboard, guest memory, the mouse and the caret timer
/// alone.
pub open spec fn stays_inside(world: controls::ControlWorld, outcome: controls::ControlOutcome) -> bool {
    &&& outcome.clip == world.edit.clip
    &&& outcome.memory == world.edit.memory
    &&& outcome.answer.capture is Keep
    &&& outcome.answer.blink == Blink::Keep
}

/// A press of the mouse presses a button, and it holds the mouse until the release. The
/// release inside the button clicks it; outside, or without a press, it does not.
pub proof fn buttons_click_on_release(
    pressed: bool,
    x: i16,
    y: i16,
    wparam: u64,
    lparam: u64,
    world: controls::ControlWorld,
    frame: &EditFrame,
)
    requires
        is_point(lparam, x, y),
    ensures
        controls::control_outcome(ControlModel::Button(pressed), 0x0201, wparam, lparam, world, frame) matches Some(down)
            && down.control == ControlModel::Button(true) && down.answer.reply == Reply::Value(0)
            && down.answer.capture is Take && (!pressed ==> down.answer.repaint == Repaint::Request),
        controls::control_outcome(ControlModel::Button(pressed), 0x0202, wparam, lparam, world, frame) matches Some(up) && {
            let inside = 0 <= x < frame.width && 0 <= y < frame.height;
            &&& up.control == ControlModel::Button(false)
            &&& pressed ==> up.answer.capture is Release && up.answer.repaint == Repaint::Request
            &&& pressed && inside ==> up.answer.reply == Reply::Notify(0)
            &&& pressed && !inside || !pressed ==> up.answer.reply == Reply::Value(0)
            &&& !pressed ==> up.answer.capture is Keep && up.answer.repaint == Repaint::Keep
        },
{
}

/// The space bar clicks a button that has the focus, on the release; a click can also be
/// asked for. The state of a button reads back as it was set, with the focus beside it.
pub proof fn buttons_keep_their_state(
    pressed: bool,
    value: u64,
    lparam: u64,
    world: controls::ControlWorld,
    frame: &EditFrame,
)
    ensures
        controls::control_outcome(ControlModel::Button(pressed), 0x00F5, value, lparam, world, frame) matches Some(click)
            && click.answer.reply == Reply::Notify(0) && click.control == ControlModel::Button(pressed) && stays_inside(
            world,
            click,
        ),
        controls::control_outcome(ControlModel::Button(pressed), 0x00F3, value, lparam, world, frame) matches Some(set)
            && set.control == ControlModel::Button(value != 0) && stays_inside(world, set) && set.answer.reply
            == Reply::Value(
            if pressed {
                1
            } else {
                0
            },
        ) && (set.answer.repaint == Repaint::Request <==> pressed != (value != 0)),
        controls::control_outcome(ControlModel::Button(pressed), 0x00F2, value, lparam, world, frame) matches Some(read)
            && read.control == ControlModel::Button(pressed) && stays_inside(world, read) && (read.answer.reply
            matches Reply::Value(bits) && bits / 4 % 2 == (if pressed {
            1int
        } else {
            0
        }) && bits / 8 == (if world.focus {
            1int
        } else {
            0
        }) && bits % 4 == 0),
        world.focus ==> (controls::control_outcome(ControlModel::Button(pressed), 0x0100, 0x20, lparam, world, frame)
            matches Some(down) && down.control == ControlModel::Button(true) && down.answer.reply == Reply::Value(0)),
        world.focus ==> (controls::control_outcome(ControlModel::Button(pressed), 0x0101, 0x20, lparam, world, frame)
            matches Some(up) && up.control == ControlModel::Button(false) && up.answer.reply == if pressed {
            Reply::Notify(0)
        } else {
            Reply::Value(0)
        }),
{
}

/// An item that is added comes last, with the text behind the pointer, and its place is
/// answered; the items before it and the selection stay.
pub proof fn items_are_added_at_the_end(
    list: ListBoxModel,
    wparam: u64,
    lparam: u64,
    world: controls::ControlWorld,
    frame: &EditFrame,
    chars: Seq<char>,
)
    requires
        text::pointed_name(world.edit.memory, lparam, false) == Some(chars),
        list.items.len() < u64::MAX,
    ensures
        controls::control_outcome(ControlModel::ListBox(list), 0x0180, wparam, lparam, world, frame) matches Some(added)
            && stays_inside(world, added) && added.answer.reply == Reply::Value(list.items.len() as u64)
            && added.answer.repaint == Repaint::Request && (added.control matches ControlModel::ListBox(after)
            && after.items.len() == list.items.len() + 1 && after.items.last() == chars && (forall|i: int|
            0 <= i < list.items.len() ==> #[trigger] after.items[i] == list.items[i]) && after.selected == list.selected
            && after.first == list.first),
{
    let after = ListBoxModel { items: list.items.push(chars), ..list };
    assert(after.items.len() != list.items.len());
}

/// An item is selected by its number, the parent hears of a change and only of a change,
/// and -1 selects none. A number past the end is refused with -1.
pub proof fn items_are_selected_by_number(
    list: ListBoxModel,
    item: u32,
    lparam: u64,
    world: controls::ControlWorld,
    frame: &EditFrame,
)
    requires
        list.wf(),
        list.items.len() < 0xFFFF_FFFF,
    ensures
        controls::control_outcome(ControlModel::ListBox(list), 0x0186, item as u64, lparam, world, frame) matches Some(set)
            && stays_inside(world, set) && (set.control matches ControlModel::ListBox(after) && after.items == list.items
            && after.first == list.first && {
            &&& item < list.items.len() ==> after.selected == Some(item as int)
            &&& item == 0xFFFF_FFFF ==> after.selected is None
            &&& list.items.len() <= item < 0xFFFF_FFFF ==> after.selected == list.selected && set.answer.reply
                == Reply::Value(0xFFFF_FFFF_FFFF_FFFF)
            &&& after.selected != list.selected ==> set.answer.reply == Reply::Notify(1) && set.answer.repaint
                == Repaint::Request
            &&& after.selected == list.selected && (item < list.items.len() || item == 0xFFFF_FFFF)
                ==> set.answer.reply == Reply::Value(0)
        }),
{
    let memory = world.edit.memory;
    assert(messages::low_dword(item as u64) == item);
    let after = controls::after_list(list, 0x0186, item as u64, lparam, memory, frame);
    if item == 0xFFFF_FFFF {
        assert(after == Some(list.selecting(None)));
    } else if item < list.items.len() {
        assert(after == Some(list.selecting(Some(item as int))));
    } else {
        assert(after == Some((list, Reply::Value(0xFFFF_FFFF_FFFF_FFFF))));
    }
}

/// The number of the selected item is answered, -1 where none is.
pub proof fn the_selected_item_is_answered(
    list: ListBoxModel,
    wparam: u64,
    lparam: u64,
    world: controls::ControlWorld,
    frame: &EditFrame,
)
    ensures
        controls::control_outcome(ControlModel::ListBox(list), 0x0188, wparam, lparam, world, frame) matches Some(read)
            && read.control == ControlModel::ListBox(list) && stays_inside(world, read) && read.answer.reply
            == match list.selected {
            Some(index) => Reply::Value(index as u64),
            None => Reply::Value(0xFFFF_FFFF_FFFF_FFFF),
        },
{
}

/// A click selects the item whose row, sixteen pixels high, is under the pointer, counted
/// from the first one shown; below the last item it selects nothing.
pub proof fn clicks_select_the_item_under_the_pointer(
    list: ListBoxModel,
    x: i16,
    y: i16,
    wparam: u64,
    lparam: u64,
    world: controls::ControlWorld,
    frame: &EditFrame,
    row: int,
)
    requires
        list.wf(),
        is_point(lparam, x, y),
        0 <= row,
        16 * row <= y < 16 * row + 16,
    ensures
        controls::control_outcome(ControlModel::ListBox(list), 0x0201, wparam, lparam, world, frame) matches Some(down)
            && stays_inside(world, down) && (down.control matches ControlModel::ListBox(after) && after.items == list.items
            && after.first == list.first && {
            &&& list.first + row < list.items.len() ==> after.selected == Some(list.first + row)
            &&& list.first + row >= list.items.len() ==> after == list && down.answer.reply == Reply::Value(0)
            &&& after.selected != list.selected ==> down.answer.reply == Reply::Notify(1)
            &&& after.selected == list.selected ==> down.answer.reply == Reply::Value(0)
        }),
{
}

/// The wheel scrolls a list by three items a notch and stops at its ends; the items and
/// the selection stay.
pub proof fn the_wheel_scrolls_the_list(list: ListBoxModel, notches: int, visible: int)
    requires
        list.wf(),
        0 <= notches,
        1 <= visible,
        list.first + visible <= list.items.len() || list.first == 0,
    ensures
        ({
            let down = list.wheeled(-120 * notches, visible);
            let up = list.wheeled(120 * notches, visible);
            &&& down.items == list.items && up.items == list.items
            &&& down.selected == list.selected && up.selected == list.selected
            &&& list.first + 3 * notches + visible <= list.items.len() ==> down.first == list.first + 3 * notches
            &&& list.first + 3 * notches + visible > list.items.len() && list.items.len() > visible ==> down.first
                + visible == list.items.len()
            &&& list.first >= 3 * notches ==> up.first == list.first - 3 * notches
            &&& list.first < 3 * notches ==> up.first == 0
        }),
{
    assert(120 * notches / 120 == notches) by (nonlinear_arith);
}

/// The text of a part reads back as it was set, whatever drawing flags came with its
/// number; the texts of the other parts and the parts' edges stay.
pub proof fn part_texts_are_read_back(bar: StatusBarModel, part: int, chars: Seq<char>, other: int)
    requires
        0 <= part < 256,
        0 <= other < 256,
    ensures
        bar.with_part(part, chars).part(part) == chars,
        other != part ==> bar.with_part(part, chars).part(other) == bar.part(other),
        bar.with_part(part, chars).rights == bar.rights,
{
}

/// A part's text is set from a wide string by the low byte of its number, and a null
/// pointer empties it.
pub proof fn part_texts_come_from_wide_strings(
    bar: StatusBarModel,
    wparam: u64,
    lparam: u64,
    world: controls::ControlWorld,
    frame: &EditFrame,
)
    ensures
        lparam == 0 ==> (controls::control_outcome(ControlModel::StatusBar(bar), 0x040B, wparam, lparam, world, frame)
            matches Some(set) && stays_inside(world, set) && set.control == ControlModel::StatusBar(
            bar.with_part(wparam as int % 256, Seq::empty()),
        ) && set.answer.reply == Reply::Value(1) && set.answer.repaint == Repaint::Request),
        lparam != 0 ==> match text::wide_string(world.edit.memory, lparam as int) {
            Some(units) => controls::control_outcome(
                ControlModel::StatusBar(bar),
                0x040B,
                wparam,
                lparam,
                world,
                frame,
            ) matches Some(set) && stays_inside(world, set) && set.control == ControlModel::StatusBar(
                bar.with_part(wparam as int % 256, text::utf16_decoded(units)),
            ) && set.answer.reply == Reply::Value(1) && set.answer.repaint == Repaint::Request,
            None => controls::control_outcome(ControlModel::StatusBar(bar), 0x040B, wparam, lparam, world, frame) is None,
        },
{
}

/// A part's text is copied out as 16-bit units, low byte first, with a NUL behind them,
/// and its length in units is answered; the length alone can be asked for.
pub proof fn part_texts_are_copied_out(
    bar: StatusBarModel,
    part: u64,
    lparam: u64,
    world: controls::ControlWorld,
    frame: &EditFrame,
)
    requires
        part < 256,
        cpu::mapped(
            world.edit.memory,
            lparam as int,
            2 * text::utf16_encoded(bar.part(part as int)).len() + 2,
        ),
    ensures
        ({
            let units = text::utf16_encoded(bar.part(part as int));
            &&& controls::control_outcome(ControlModel::StatusBar(bar), 0x040C, part, lparam, world, frame)
                matches Some(length) && stays_inside(world, length) && length.control == ControlModel::StatusBar(bar)
                && length.answer.reply == Reply::Value(units.len() as u64)
            &&& controls::control_outcome(ControlModel::StatusBar(bar), 0x040D, part, lparam, world, frame)
                matches Some(read) && read.control == ControlModel::StatusBar(bar) && read.answer.reply == Reply::Value(
                units.len() as u64,
            ) && read.clip == world.edit.clip && (forall|i: int| #![trigger units[i]]
                0 <= i < units.len() ==> read.memory[lparam + 2 * i] + 256 * read.memory[lparam + 2 * i + 1] == units[i])
                && read.memory[lparam + 2 * units.len()] == 0 && read.memory[lparam + 2 * units.len() + 1] == 0
        }),
{
    let units = text::utf16_encoded(bar.part(part as int));
    let bytes = controls::unit_bytes(units.push(0));
    assert(bytes.len() == 2 * units.len() + 2);
    let after = cpu::store(world.edit.memory, lparam as int, bytes);
    assert forall|i: int| 0 <= i < bytes.len() implies #[trigger] after[lparam + i] == bytes[i] by {
        assert(world.edit.memory.dom().contains(lparam + i));
    }
    assert forall|i: int| #![trigger units[i]] 0 <= i < units.len() implies after[lparam + 2 * i] + 256 * after[lparam
        + 2 * i + 1] == units[i] by {
        assert(after[lparam + 2 * i] == bytes[2 * i]);
        assert(after[lparam + (2 * i + 1)] == bytes[2 * i + 1]);
    }
    assert(after[lparam + 2 * units.len()] == bytes[2 * (units.len() as int)]);
    assert(after[lparam + (2 * units.len() + 1)] == bytes[2 * (units.len() as int) + 1]);
}

/// The right edges of the parts are read from an array of signed numbers, and their count
/// is answered.
pub proof fn part_edges_are_read_from_an_array(
    bar: StatusBarModel,
    count: u64,
    lparam: u64,
    world: controls::ControlWorld,
    frame: &EditFrame,
)
    requires
        cpu::mapped(world.edit.memory, lparam as int, (4 * count) as nat),
    ensures
        controls::control_outcome(ControlModel::StatusBar(bar), 0x0404, count, lparam, world, frame) matches Some(set)
            && stays_inside(world, set) && set.answer.reply == Reply::Value(1) && set.answer.repaint == Repaint::Request
            && (set.control matches ControlModel::StatusBar(after) && after.texts == bar.texts && after.rights.len()
            == count && (forall|i: int|
            0 <= i < count ==> {
                let raw = cpu::le_value(cpu::load(world.edit.memory, lparam + 4 * i, 4)) as int;
                &&& raw < 0x8000_0000 ==> (#[trigger] after.rights[i]) == raw
                &&& 0x8000_0000 <= raw < 0x1_0000_0000 ==> after.rights[i] == raw - 0x1_0000_0000
            })),
        controls::control_outcome(ControlModel::StatusBar(bar), 0x0406, count, 0, world, frame) matches Some(read)
            && stays_inside(world, read) && read.control == ControlModel::StatusBar(bar) && read.answer.reply
            == Reply::Value(bar.rights.len() as u64),
{
}

/// The right edges of the parts are copied out as signed numbers, as many as are asked
/// for and there are.
pub proof fn part_edges_are_copied_out(
    bar: StatusBarModel,
    count: u64,
    lparam: u64,
    world: controls::ControlWorld,
    frame: &EditFrame,
)
    requires
        lparam != 0,
        count <= bar.rights.len(),
        cpu::mapped(world.edit.memory, lparam as int, (4 * count) as nat),
    ensures
        controls::control_outcome(ControlModel::StatusBar(bar), 0x0406, count, lparam, world, frame) matches Some(read)
            && read.control == ControlModel::StatusBar(bar) && read.answer.reply == Reply::Value(
            bar.rights.len() as u64,
        ) && read.clip == world.edit.clip && forall|i: int| #![trigger bar.rights[i]]
            0 <= i < count ==> cpu::le_value(cpu::load(read.memory, lparam + 4 * i, 4)) == if bar.rights[i] < 0 {
                bar.rights[i] + 0x1_0000_0000
            } else {
                bar.rights[i] as int
            },
{
    let bytes = controls::int_bytes(bar.rights, count as nat);
    lemma_int_bytes(bar.rights, count as nat, 0);
    let after = cpu::store(world.edit.memory, lparam as int, bytes);
    assert forall|i: int| #![trigger bar.rights[i]] 0 <= i < count implies cpu::le_value(
        cpu::load(after, lparam + 4 * i, 4),
    ) == if bar.rights[i] < 0 {
        bar.rights[i] + 0x1_0000_0000
    } else {
        bar.rights[i] as int
    } by {
        lemma_int_bytes(bar.rights, count as nat, i);
        assert forall|k: int| 0 <= k < 4 implies #[trigger] after[lparam + 4 * i + k] == bytes[4 * i + k] by {
            assert(world.edit.memory.dom().contains(lparam + 4 * i + k));
        }
        assert(cpu::load(after, lparam + 4 * i, 4) =~= bytes.subrange(4 * i, 4 * i + 4));
    }
}

proof fn lemma_int_bytes(values: Seq<i32>, n: nat, i: int)
    requires
        n <= values.len(),
        0 <= i,
    ensures
        controls::int_bytes(values, n).len() == 4 * n,
        i < n ==> cpu::le_value(controls::int_bytes(values, n).subrange(4 * i, 4 * i + 4)) == if values[i] < 0 {
            values[i] + 0x1_0000_0000
        } else {
            values[i] as int
        },
    decreases n,
{
    if n > 0 {
        lemma_int_bytes(values, (n - 1) as nat, i);
        let before = controls::int_bytes(values, (n - 1) as nat);
        let raw = (if values[n - 1] < 0 {
            values[n - 1] + 0x1_0000_0000
        } else {
            values[n - 1] as int
        }) as nat;
        assert(cpu::pow256(4) == 0x1_0000_0000) by {
            reveal_with_fuel(cpu::pow256, 5);
        }
        cpu::le_round_trip(raw, 4);
        let all = controls::int_bytes(values, n);
        assert(all == before + cpu::le_bytes(raw, 4));
        if i == n - 1 {
            assert(all.subrange(4 * i, 4 * i + 4) =~= cpu::le_bytes(raw, 4));
        } else if i < n - 1 {
            assert(all.subrange(4 * i, 4 * i + 4) =~= before.subrange(4 * i, 4 * i + 4));
        }
    }
}

/// A turn of the wheel scrolls a list by what fits in its client, and asks for a paint
/// only where something moved.
pub proof fn wheel_messages_scroll_the_list(
    list: ListBoxModel,
    delta: i16,
    lparam: u64,
    world: controls::ControlWorld,
    frame: &EditFrame,
)
    ensures
        controls::control_outcome(
            ControlModel::ListBox(list),
            0x020A,
            (0x1_0000 * (if delta < 0 {
                delta + 0x1_0000
            } else {
                delta as int
            })) as u64,
            lparam,
            world,
            frame,
        ) matches Some(turned) && stays_inside(world, turned) && turned.control == ControlModel::ListBox(
            list.wheeled(delta as int, layout::visible_rows(frame.height as int, frame.font.line_height as int) as int),
        ) && turned.answer.reply == Reply::Value(0) && (turned.answer.repaint == Repaint::Request <==> turned.control
            != ControlModel::ListBox(list)),
{
}

/// Messages that a control does not know are left to others, with nothing changed.
pub proof fn unknown_messages_are_left_alone(
    control: ControlModel,
    message: u32,
    wparam: u64,
    lparam: u64,
    world: controls::ControlWorld,
    frame: &EditFrame,
)
    requires
        control is Label || control is Plain || message > 0x0442 || message == 0 && !(control is Edit),
    ensures
        !(control is Edit) ==> (controls::control_outcome(control, message, wparam, lparam, world, frame)
            matches Some(left) && left.control == control && left.answer.reply is Unhandled && stays_inside(world, left)
            && left.answer.repaint == Repaint::Keep),
{
}

} // verus!
