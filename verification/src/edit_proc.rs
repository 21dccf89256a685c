//! Message handling of the EDIT control.
use vstd::prelude::*;

use crate::clipboard::ClipboardState;
use crate::controls;
use crate::cpu;
use crate::cpu::{GuestCpu, MemoryFault};
use crate::edit;
use crate::edit::{EditFrame, EditState, Reply, EN_CHANGE, EN_HSCROLL, EN_VSCROLL, VK_DELETE, VK_DOWN, VK_PRIOR};
use crate::layout;
use crate::layout::ES_MULTILINE;
use crate::lines;
use crate::messages;
use crate::messages::{
    EM_CANUNDO, EM_EMPTYUNDOBUFFER, EM_GETFIRSTVISIBLELINE, EM_GETLIMITTEXT, EM_GETLINE, EM_GETLINECOUNT,
    EM_GETMODIFY, EM_GETSEL, EM_LIMITTEXT, EM_LINEFROMCHAR, EM_LINEINDEX, EM_LINELENGTH, EM_POSFROMCHAR,
    EM_REPLACESEL, EM_SCROLLCARET, EM_SELECTIONTYPE, EM_SETMODIFY, EM_SETSEL, EM_SETTABSTOPS, EM_UNDO, WM_CHAR,
    WM_CLEAR, WM_COPY, WM_CUT, WM_HSCROLL, WM_KEYDOWN, WM_LBUTTONDBLCLK, WM_LBUTTONDOWN, WM_MOUSEMOVE, WM_MOUSEWHEEL,
    WM_PASTE, WM_SETTEXT, WM_UNDO, WM_VSCROLL,
};
use crate::text;

verus! {

/// Modifier keys that are held.
#[derive(Debug, Clone, Copy, PartialEq, Eq, Structural)]
pub struct Modifiers {
    pub shift: bool,
    pub ctrl: bool,
}

/// The control after an edit that changed the text, or before one that did not.
pub open spec fn after_edit(
    before: edit::EditModel,
    after: edit::EditModel,
    changed: bool,
    frame: &EditFrame,
) -> (edit::EditModel, Reply) {
    if changed {
        (after.revealed(frame), Reply::Notify(EN_CHANGE))
    } else {
        (before, Reply::Value(0))
    }
}

/// Whether a key moves the caret.
pub open spec fn is_navigation_key(vk: u64) -> bool {
    VK_PRIOR <= vk <= VK_DOWN
}

/// What a pressed key does.
pub open spec fn after_key(edit: edit::EditModel, vk: u64, keys: Modifiers, frame: &EditFrame) -> (
    edit::EditModel,
    Reply,
) {
    if vk == VK_DELETE {
        after_edit(
            edit,
            edit.with_delete(),
            edit.sel_start < edit.sel_end || edit.caret < edit.text.len(),
            frame,
        )
    } else if is_navigation_key(vk) {
        let moved = edit.navigated(vk, keys.shift, keys.ctrl, frame.multiline(), frame.page());
        match edit.move_kind(vk, keys.ctrl, frame.multiline(), frame.page()) {
            Some(vertical) => (
                moved.revealed(frame),
                Reply::Notify(
                    if vertical {
                        EN_VSCROLL
                    } else {
                        EN_HSCROLL
                    },
                ),
            ),
            None => (moved, Reply::Value(0)),
        }
    } else {
        (edit, Reply::Unhandled)
    }
}

fn key_message(edit: &mut EditState, vk: u64, keys: Modifiers, frame: &EditFrame) -> (reply: Reply)
    requires
        old(edit)@.wf(),
    ensures
        (final(edit)@, reply) == after_key(old(edit)@, vk, keys, frame),
        final(edit)@.wf(),
{
    let multiline = frame.style & ES_MULTILINE != 0;
    if vk == VK_DELETE {
        if edit.delete_forward() {
            edit.scroll_caret(frame);
            return Reply::Notify(EN_CHANGE);
        }
        return Reply::Value(0);
    }
    if vk < VK_PRIOR || vk > VK_DOWN {
        return Reply::Unhandled;
    }
    let page: usize = layout::visible_line_count(frame.height, frame.font.line_height);
    match edit.navigate(vk, keys.shift, keys.ctrl, multiline, page) {
        Some(vertical) => {
            edit.scroll_caret(frame);
            if vertical {
                Reply::Notify(EN_VSCROLL)
            } else {
                Reply::Notify(EN_HSCROLL)
            }
        },
        None => Reply::Value(0),
    }
}

/// `b` as a message result.
pub open spec fn flag(b: bool) -> u64 {
    if b {
        1
    } else {
        0
    }
}

/// A count as a message result.
pub open spec fn counted(n: int) -> u64 {
    if n > u64::MAX {
        u64::MAX
    } else {
        n as u64
    }
}

/// What a message does that concerns only the control itself.
pub open spec fn after_message(
    edit: edit::EditModel,
    message: u32,
    wparam: u64,
    lparam: u64,
    keys: Modifiers,
    frame: &EditFrame,
) -> (edit::EditModel, Reply) {
    if message == WM_CHAR {
        after_edit(
            edit,
            edit.typed(wparam, frame.multiline()),
            edit.typing_changes(wparam, frame.multiline()),
            frame,
        )
    } else if message == WM_KEYDOWN {
        after_key(edit, wparam, keys, frame)
    } else if message == EM_UNDO || message == WM_UNDO {
        after_edit(edit, edit.undone(), edit.undo is Some, frame)
    } else if message == WM_VSCROLL {
        let scrolled = edit.v_scrolled(messages::low_word(wparam) as u16, messages::high_word(wparam), frame);
        (
            scrolled,
            if scrolled.first_line != edit.first_line {
                Reply::Notify(EN_VSCROLL)
            } else {
                Reply::Value(0)
            },
        )
    } else if message == WM_HSCROLL {
        (
            edit.h_scrolled(messages::low_word(wparam) as u16, messages::high_word(wparam), frame),
            Reply::Notify(EN_HSCROLL),
        )
    } else if message == WM_MOUSEWHEEL {
        (edit.wheeled(messages::signed_word(messages::high_word(wparam)), frame), Reply::Value(0))
    } else if message == EM_SETSEL {
        (
            edit.with_selection(messages::low_dword(wparam) as u32, messages::low_dword(lparam) as u32),
            Reply::Value(1),
        )
    } else if message == EM_LIMITTEXT {
        (
            edit::EditModel {
                limit: if wparam == 0 || wparam > edit::MAX_LIMIT {
                    edit::MAX_LIMIT as int
                } else {
                    wparam as int
                },
                ..edit
            },
            Reply::Value(1),
        )
    } else if message == EM_GETLIMITTEXT {
        (edit, Reply::Value(edit.limit as u64))
    } else if message == EM_CANUNDO {
        (edit, Reply::Value(flag(edit.undo is Some)))
    } else if message == EM_EMPTYUNDOBUFFER {
        (edit::EditModel { undo: None, ..edit }, Reply::Value(0))
    } else if message == EM_GETMODIFY {
        (edit, Reply::Value(flag(edit.modified)))
    } else if message == EM_SETMODIFY {
        (edit::EditModel { modified: wparam != 0, ..edit }, Reply::Value(0))
    } else if message == EM_SCROLLCARET {
        (edit.revealed(frame), Reply::Value(1))
    } else if message == EM_GETFIRSTVISIBLELINE {
        (edit, Reply::Value(edit.first_line as u64))
    } else if message == EM_SELECTIONTYPE {
        (edit, Reply::Value(edit.selection_kind()))
    } else if message == EM_GETLINECOUNT {
        (edit, Reply::Value(counted(lines::line_count(edit.text) as int)))
    } else if message == EM_LINEFROMCHAR {
        (
            edit,
            Reply::Value(
                lines::line_of(edit.text, edit.asked_position(messages::low_dword(wparam) as u32)) as u64,
            ),
        )
    } else if message == EM_LINEINDEX {
        (
            edit,
            Reply::Value(
                match edit.asked_line_start(messages::low_dword(wparam) as u32) {
                    Some(start) => start as u64,
                    None => u64::MAX,
                },
            ),
        )
    } else if message == EM_LINELENGTH {
        (edit, Reply::Value(edit.asked_line_length(messages::low_dword(wparam) as u32) as u64))
    } else {
        (edit, Reply::Unhandled)
    }
}

fn own_message(edit: &mut EditState, message: u32, wparam: u64, lparam: u64, keys: Modifiers, frame: &EditFrame) -> (reply:
    Reply)
    requires
        old(edit)@.wf(),
    ensures
        (final(edit)@, reply) == after_message(old(edit)@, message, wparam, lparam, keys, frame),
        final(edit)@.wf(),
{
    if message == WM_CHAR {
        if edit.type_char(wparam, frame.style & ES_MULTILINE != 0) {
            edit.scroll_caret(frame);
            Reply::Notify(EN_CHANGE)
        } else {
            Reply::Value(0)
        }
    } else if message == WM_KEYDOWN {
        key_message(edit, wparam, keys, frame)
    } else if message == EM_UNDO || message == WM_UNDO {
        if edit.undo() {
            edit.scroll_caret(frame);
            Reply::Notify(EN_CHANGE)
        } else {
            Reply::Value(0)
        }
    } else if message == WM_VSCROLL {
        if edit.scroll_vertically(messages::loword(wparam), messages::hiword(wparam), frame) {
            Reply::Notify(EN_VSCROLL)
        } else {
            Reply::Value(0)
        }
    } else if message == WM_HSCROLL {
        edit.scroll_horizontally(messages::loword(wparam), messages::hiword(wparam), frame);
        Reply::Notify(EN_HSCROLL)
    } else if message == WM_MOUSEWHEEL {
        edit.scroll_by_wheel(messages::sign(messages::hiword(wparam)), frame);
        Reply::Value(0)
    } else if message == EM_SETSEL {
        edit.select(messages::lodword(wparam), messages::lodword(lparam));
        Reply::Value(1)
    } else if message == EM_LIMITTEXT {
        edit.set_limit(wparam);
        Reply::Value(1)
    } else if message == EM_GETLIMITTEXT {
        Reply::Value(edit.limit() as u64)
    } else if message == EM_CANUNDO {
        Reply::Value(
            if edit.can_undo() {
                1
            } else {
                0
            },
        )
    } else if message == EM_EMPTYUNDOBUFFER {
        edit.empty_undo_buffer();
        Reply::Value(0)
    } else if message == EM_GETMODIFY {
        Reply::Value(
            if edit.modified() {
                1
            } else {
                0
            },
        )
    } else if message == EM_SETMODIFY {
        edit.set_modified(wparam != 0);
        Reply::Value(0)
    } else if message == EM_SCROLLCARET {
        edit.scroll_caret(frame);
        Reply::Value(1)
    } else if message == EM_GETFIRSTVISIBLELINE {
        Reply::Value(edit.first_visible_line() as u64)
    } else if message == EM_SELECTIONTYPE {
        Reply::Value(edit.selection_type())
    } else if message == EM_GETLINECOUNT {
        Reply::Value(edit.line_count())
    } else if message == EM_LINEFROMCHAR {
        Reply::Value(edit.line_from_char(messages::lodword(wparam)))
    } else if message == EM_LINEINDEX {
        Reply::Value(
            match edit.line_index(messages::lodword(wparam)) {
                Some(start) => start as u64,
                None => u64::MAX,
            },
        )
    } else if message == EM_LINELENGTH {
        Reply::Value(edit.line_length(messages::lodword(wparam)) as u64)
    } else {
        Reply::Unhandled
    }
}

/// What happens to the mouse capture.
#[derive(Debug, Clone, Copy, PartialEq, Eq, Structural)]
pub enum Capture {
    /// It stays where it is.
    Keep,
    /// The control takes it, and the focus.
    Take,
    /// The control takes it alone.
    Hold,
    /// The control gives it up.
    Release,
}

/// Everything a message changes.
#[verifier::ext_equal]
pub struct EditOutcome {
    pub edit: edit::EditModel,
    pub reply: Reply,
    pub capture: Capture,
    pub clip: Option<Seq<char>>,
    pub memory: Map<int, u8>,
}

/// What a message arrives at: the keys held, whether the control has the mouse
/// capture, the clipboard text and guest memory.
#[verifier::ext_equal]
pub struct EditWorld {
    pub keys: Modifiers,
    pub captured: bool,
    pub clip: Option<Seq<char>>,
    pub memory: Map<int, u8>,
}

impl EditWorld {
    /// Only the control changes.
    pub open spec fn control_only(self, step: (edit::EditModel, Reply)) -> EditOutcome {
        EditOutcome { edit: step.0, reply: step.1, capture: Capture::Keep, clip: self.clip, memory: self.memory }
    }
}

/// The control after its selection was replaced by a text.
pub open spec fn after_replace(edit: edit::EditModel, chars: Seq<char>, frame: &EditFrame) -> (edit::EditModel, Reply) {
    after_edit(
        edit,
        edit.with_selection_replaced(chars),
        edit.sel_start < edit.sel_end || chars.len() > 0 && edit.room() > 0,
        frame,
    )
}

/// The control after its selection was deleted.
pub open spec fn after_removal(edit: edit::EditModel, frame: &EditFrame) -> (edit::EditModel, Reply) {
    after_edit(
        edit,
        edit.replaced(edit.sel_start, edit.sel_end, Seq::empty()),
        edit.sel_start < edit.sel_end,
        frame,
    )
}

/// `EM_GETSEL`: both ends packed in the result, and written where the parameters
/// point.
pub open spec fn getsel_outcome(edit: edit::EditModel, wparam: u64, lparam: u64, world: EditWorld) -> Option<EditOutcome> {
    let start = edit.sel_start % 0x1_0000_0000;
    let end = edit.sel_end % 0x1_0000_0000;
    if wparam != 0 && !cpu::mapped(world.memory, wparam as int, 4) || lparam != 0 && !cpu::mapped(
        world.memory,
        lparam as int,
        4,
    ) {
        None
    } else {
        let first = if wparam != 0 {
            cpu::store(world.memory, wparam as int, cpu::le_bytes(start as nat, 4))
        } else {
            world.memory
        };
        let second = if lparam != 0 {
            cpu::store(first, lparam as int, cpu::le_bytes(end as nat, 4))
        } else {
            first
        };
        Some(
            EditOutcome {
                memory: second,
                ..world.control_only((edit, Reply::Value(messages::packed(edit.sel_start, edit.sel_end) as u64)))
            },
        )
    }
}

/// The bytes of the first `count` characters, and a NUL.
pub open spec fn line_bytes(chars: Seq<char>, count: int) -> Seq<u8> {
    Seq::new((count + 1) as nat, |i: int| if i < count { text::ansi_byte(chars[i]) } else { 0u8 })
}

/// `EM_GETLINE`: the first word of the buffer says how many bytes it takes.
pub open spec fn getline_outcome(edit: edit::EditModel, wparam: u64, lparam: u64, world: EditWorld) -> Option<
    EditOutcome,
> {
    match edit.line_chars(wparam as nat) {
        None => Some(world.control_only((edit, Reply::Value(0)))),
        Some(chars) => if !cpu::mapped(world.memory, lparam as int, 2) {
            None
        } else {
            let capacity = cpu::le_value(cpu::load(world.memory, lparam as int, 2)) as int;
            if capacity == 0 {
                Some(world.control_only((edit, Reply::Value(0))))
            } else {
                let count = if chars.len() < capacity - 1 {
                    chars.len() as int
                } else {
                    capacity - 1
                };
                if !cpu::mapped(world.memory, lparam as int, (count + 1) as nat) {
                    None
                } else {
                    Some(
                        EditOutcome {
                            memory: cpu::store(world.memory, lparam as int, line_bytes(chars, count)),
                            ..world.control_only((edit, Reply::Value(count as u64)))
                        },
                    )
                }
            }
        },
    }
}

/// Where a character's line starts, as client coordinates: the x of every character
/// is that of its line.
pub open spec fn line_point(edit: edit::EditModel, index: int, frame: &EditFrame) -> Seq<i32> {
    seq![
        0i32,
        layout::saturated(lines::line_of(edit.text, index) * frame.font.line_height) as i32,
    ]
}

/// `EM_POSFROMCHAR`: the point is written where the second parameter says; an index
/// past the last character has none.
pub open spec fn pos_outcome(
    edit: edit::EditModel,
    wparam: u64,
    lparam: u64,
    world: EditWorld,
    frame: &EditFrame,
) -> Option<EditOutcome> {
    if wparam >= edit.text.len() {
        Some(world.control_only((edit, Reply::Value(0))))
    } else {
        let bytes = controls::int_bytes(line_point(edit, wparam as int, frame), 2);
        if cpu::mapped(world.memory, lparam as int, bytes.len()) {
            Some(
                EditOutcome {
                    memory: cpu::store(world.memory, lparam as int, bytes),
                    ..world.control_only((edit, Reply::Value(1)))
                },
            )
        } else {
            None
        }
    }
}

/// The tab stops behind a pointer: `count` 16-bit numbers.
pub open spec fn pointed_stops(memory: Map<int, u8>, pointer: u64, count: u64) -> Option<Seq<u16>> {
    if count == 0 {
        Some(Seq::empty())
    } else if cpu::mapped(memory, pointer as int, (2 * count) as nat) {
        Some(text::wide_units(memory, pointer as int, count as nat))
    } else {
        None
    }
}

/// Clipboard messages.
pub open spec fn clipboard_outcome(edit: edit::EditModel, message: u32, world: EditWorld, frame: &EditFrame) -> EditOutcome {
    let has_selection = edit.sel_start < edit.sel_end;
    if message == WM_COPY {
        EditOutcome {
            clip: if has_selection {
                Some(edit.selected())
            } else {
                world.clip
            },
            ..world.control_only((edit, Reply::Value(0)))
        }
    } else if message == WM_CUT {
        EditOutcome {
            clip: if has_selection {
                Some(edit.selected())
            } else {
                world.clip
            },
            ..world.control_only(after_removal(edit, frame))
        }
    } else if message == WM_CLEAR {
        EditOutcome {
            clip: if has_selection {
                None
            } else {
                world.clip
            },
            ..world.control_only(after_removal(edit, frame))
        }
    } else {
        match world.clip {
            Some(chars) => if chars.len() > 0 {
                world.control_only(after_replace(edit, chars, frame))
            } else {
                world.control_only((edit, Reply::Value(0)))
            },
            None => world.control_only((edit, Reply::Value(0))),
        }
    }
}

/// Mouse messages: a press puts the caret under the pointer and starts a drag, a
/// drag extends the selection, the release ends it, a double click selects a word.
/// A press on the scroll bar scrolls, or grabs the thumb for the drag.
pub open spec fn mouse_outcome(
    edit: edit::EditModel,
    message: u32,
    lparam: u64,
    world: EditWorld,
    frame: &EditFrame,
) -> EditOutcome {
    let x = messages::signed_word(messages::low_word(lparam));
    let y = messages::signed_word(messages::high_word(lparam));
    let at = frame.hit(edit, x, y);
    let released = edit::EditModel { thumb: None, ..edit };
    if (message == WM_LBUTTONDOWN || message == WM_LBUTTONDBLCLK) && frame.in_gutter(edit.text, x, y) {
        let pressed = edit.gutter_pressed(y, frame);
        EditOutcome {
            capture: if pressed.thumb is Some {
                Capture::Hold
            } else {
                Capture::Keep
            },
            ..world.control_only((pressed, Reply::Value(0)))
        }
    } else if message == WM_LBUTTONDOWN {
        EditOutcome {
            capture: Capture::Take,
            ..world.control_only((released.with_caret(at, false, None).revealed(frame), Reply::Value(0)))
        }
    } else if message == WM_LBUTTONDBLCLK {
        EditOutcome {
            capture: Capture::Take,
            ..world.control_only((released.with_word(at).revealed(frame), Reply::Value(0)))
        }
    } else if !world.captured {
        world.control_only((edit, Reply::Value(0)))
    } else if message == WM_MOUSEMOVE {
        if edit.thumb is Some {
            world.control_only((edit.thumb_dragged(y, frame), Reply::Value(0)))
        } else {
            world.control_only((edit.with_caret(at, true, None), Reply::Value(0)))
        }
    } else if edit.thumb is Some {
        EditOutcome { capture: Capture::Release, ..world.control_only((released, Reply::Value(0))) }
    } else {
        EditOutcome { capture: Capture::Release, ..world.control_only((edit, Reply::Notify(EN_VSCROLL))) }
    }
}

/// What a message does; `None` where guest memory that it needs is not mapped.
pub open spec fn edit_outcome(
    edit: edit::EditModel,
    message: u32,
    wparam: u64,
    lparam: u64,
    world: EditWorld,
    frame: &EditFrame,
) -> Option<EditOutcome> {
    if message == WM_SETTEXT {
        match text::pointed_name(world.memory, lparam, false) {
            Some(chars) => Some(world.control_only((edit.with_text(chars), Reply::Value(1)))),
            None => None,
        }
    } else if message == EM_REPLACESEL {
        match text::pointed_name(world.memory, lparam, false) {
            Some(chars) => Some(world.control_only(after_replace(edit, chars, frame))),
            None => None,
        }
    } else if message == EM_SETTABSTOPS {
        match pointed_stops(world.memory, lparam, wparam) {
            Some(stops) => Some(
                world.control_only((edit::EditModel { tab_stops: stops, ..edit }, Reply::Value(1))),
            ),
            None => None,
        }
    } else if message == EM_GETSEL {
        getsel_outcome(edit, wparam, lparam, world)
    } else if message == EM_GETLINE {
        getline_outcome(edit, wparam, lparam, world)
    } else if message == EM_POSFROMCHAR {
        pos_outcome(edit, wparam, lparam, world, frame)
    } else if WM_CUT <= message <= WM_CLEAR {
        Some(clipboard_outcome(edit, message, world, frame))
    } else if WM_MOUSEMOVE <= message <= WM_LBUTTONDBLCLK {
        Some(mouse_outcome(edit, message, lparam, world, frame))
    } else {
        Some(world.control_only(after_message(edit, message, wparam, lparam, world.keys, frame)))
    }
}

/// The fault of a message: at the first pointer that leads to unmapped memory.
pub open spec fn edit_fault(message: u32, wparam: u64, lparam: u64, memory: Map<int, u8>) -> MemoryFault {
    MemoryFault {
        address: if message == EM_GETSEL && wparam != 0 && !cpu::mapped(memory, wparam as int, 4) {
            wparam
        } else {
            lparam
        },
    }
}

fn replace_with(edit: &mut EditState, chars: &[char], frame: &EditFrame) -> (reply: Reply)
    requires
        old(edit)@.wf(),
    ensures
        (final(edit)@, reply) == after_replace(old(edit)@, chars@, frame),
        final(edit)@.wf(),
{
    if edit.replace_selection(chars) {
        edit.scroll_caret(frame);
        Reply::Notify(EN_CHANGE)
    } else {
        Reply::Value(0)
    }
}

fn remove_selection(edit: &mut EditState, frame: &EditFrame) -> (reply: Reply)
    requires
        old(edit)@.wf(),
    ensures
        (final(edit)@, reply) == after_removal(old(edit)@, frame),
        final(edit)@.wf(),
{
    if edit.delete_selection() {
        edit.scroll_caret(frame);
        Reply::Notify(EN_CHANGE)
    } else {
        Reply::Value(0)
    }
}

fn clipboard_message(edit: &mut EditState, message: u32, clipboard: &mut ClipboardState, frame: &EditFrame) -> (reply: Reply)
    requires
        old(edit)@.wf(),
        WM_CUT <= message <= WM_CLEAR,
    ensures
        final(edit)@.wf(),
        forall|world: EditWorld| #![trigger clipboard_outcome(old(edit)@, message, world, frame)]
            world.clip == old(clipboard)@ ==> {
                let outcome = clipboard_outcome(old(edit)@, message, world, frame);
                &&& outcome.edit == final(edit)@
                &&& outcome.reply == reply
                &&& outcome.clip == final(clipboard)@
                &&& outcome.capture == Capture::Keep
                &&& outcome.memory == world.memory
            },
{
    let (start, end) = edit.selection();
    if message == WM_PASTE {
        let chars: Vec<char> = match clipboard.text() {
            Some(chars) => text::to_chars(chars),
            None => {
                return Reply::Value(0);
            },
        };
        if chars.len() == 0 {
            return Reply::Value(0);
        }
        return replace_with(edit, &chars, frame);
    }
    if start == end {
        return Reply::Value(0);
    }
    if message == WM_CLEAR {
        clipboard.clear();
    } else {
        clipboard.set_text(text::to_string(&edit.selected_text()));
    }
    if message == WM_COPY {
        return Reply::Value(0);
    }
    remove_selection(edit, frame)
}

fn mouse_message(edit: &mut EditState, message: u32, lparam: u64, captured: bool, frame: &EditFrame) -> (answer: (
    Reply,
    Capture,
))
    requires
        old(edit)@.wf(),
        WM_MOUSEMOVE <= message <= WM_LBUTTONDBLCLK,
    ensures
        final(edit)@.wf(),
        forall|world: EditWorld| #![trigger mouse_outcome(old(edit)@, message, lparam, world, frame)]
            world.captured == captured ==> {
                let outcome = mouse_outcome(old(edit)@, message, lparam, world, frame);
                &&& outcome.edit == final(edit)@
                &&& outcome.reply == answer.0
                &&& outcome.capture == answer.1
                &&& outcome.clip == world.clip
                &&& outcome.memory == world.memory
            },
{
    let x: i32 = messages::sign(messages::loword(lparam)) as i32;
    let y: i32 = messages::sign(messages::hiword(lparam)) as i32;
    if (message == WM_LBUTTONDOWN || message == WM_LBUTTONDBLCLK) && edit.on_scroll_bar(x, y, frame) {
        if edit.press_scroll_bar(y, frame) {
            (Reply::Value(0), Capture::Hold)
        } else {
            (Reply::Value(0), Capture::Keep)
        }
    } else if message == WM_LBUTTONDOWN {
        edit.release_thumb();
        edit.place_caret(x, y, false, frame);
        edit.scroll_caret(frame);
        (Reply::Value(0), Capture::Take)
    } else if message == WM_LBUTTONDBLCLK {
        edit.release_thumb();
        edit.select_word(x, y, frame);
        edit.scroll_caret(frame);
        (Reply::Value(0), Capture::Take)
    } else if !captured {
        (Reply::Value(0), Capture::Keep)
    } else if message == WM_MOUSEMOVE {
        if edit.dragging_thumb() {
            edit.drag_thumb(y, frame);
        } else {
            edit.place_caret(x, y, true, frame);
        }
        (Reply::Value(0), Capture::Keep)
    } else if edit.dragging_thumb() {
        edit.release_thumb();
        (Reply::Value(0), Capture::Release)
    } else {
        (Reply::Notify(EN_VSCROLL), Capture::Release)
    }
}

fn getsel_message(edit: &EditState, wparam: u64, lparam: u64, engine: &mut GuestCpu) -> (result: Result<Reply, MemoryFault>)
    requires
        edit@.wf(),
    ensures
        final(engine).same_registers(old(engine)),
        forall|world: EditWorld| #![trigger getsel_outcome(edit@, wparam, lparam, world)]
            world.memory == old(engine).memory() ==> match (result, getsel_outcome(edit@, wparam, lparam, world)) {
                (Ok(reply), Some(outcome)) => {
                    &&& outcome == (EditOutcome {
                        memory: final(engine).memory(),
                        ..world.control_only((edit@, reply))
                    })
                },
                (Err(fault), None) => {
                    &&& fault == edit_fault(EM_GETSEL, wparam, lparam, old(engine).memory())
                    &&& final(engine).memory() == old(engine).memory()
                },
                _ => false,
            },
{
    let (start, end) = edit.selection();
    if wparam != 0 && !engine.is_mapped(wparam, 4) {
        return Err(MemoryFault { address: wparam });
    }
    if lparam != 0 && !engine.is_mapped(lparam, 4) {
        return Err(MemoryFault { address: lparam });
    }
    if wparam != 0 {
        let _ = engine.write_u32(wparam, messages::lodword(start as u64));
        assert(lparam != 0 ==> cpu::mapped(engine.memory(), lparam as int, 4));
    }
    if lparam != 0 {
        let _ = engine.write_u32(lparam, messages::lodword(end as u64));
    }
    Ok(Reply::Value(messages::pack(start as u64, end as u64)))
}

proof fn lemma_line_number_bounded(chars: Seq<char>, from: int, n: nat)
    requires
        0 <= from <= chars.len(),
        lines::line_begin_from(chars, from, n) is Some,
    ensures
        n <= chars.len() - from,
    decreases n,
{
    lines::line_bounds(chars, from);
    if n > 0 {
        lemma_line_number_bounded(chars, lines::line_end(chars, from) + 1, (n - 1) as nat);
    }
}

/// Encode the first `count` characters, and a NUL.
pub fn nul_terminated(chars: &[char], count: usize) -> (bytes: Vec<u8>)
    requires
        count <= chars@.len(),
    ensures
        bytes@ == line_bytes(chars@, count as int),
{
    let mut bytes: Vec<u8> = Vec::new();
    let mut i: usize = 0;
    while i < count
        invariant
            i <= count <= chars@.len(),
            bytes@.len() == i,
            forall|k: int| 0 <= k < i ==> #[trigger] bytes@[k] == text::ansi_byte(chars@[k]),
        decreases count - i,
    {
        bytes.push(text::encode_ansi(chars[i]));
        i = i + 1;
    }
    bytes.push(0);
    assert(bytes@ =~= line_bytes(chars@, count as int));
    bytes
}

fn getline_message(edit: &EditState, wparam: u64, lparam: u64, engine: &mut GuestCpu) -> (result: Result<Reply, MemoryFault>)
    requires
        edit@.wf(),
    ensures
        final(engine).same_registers(old(engine)),
        forall|world: EditWorld| #![trigger getline_outcome(edit@, wparam, lparam, world)]
            world.memory == old(engine).memory() ==> match (result, getline_outcome(edit@, wparam, lparam, world)) {
                (Ok(reply), Some(outcome)) => {
                    &&& outcome == (EditOutcome {
                        memory: final(engine).memory(),
                        ..world.control_only((edit@, reply))
                    })
                },
                (Err(fault), None) => {
                    &&& fault == edit_fault(EM_GETLINE, wparam, lparam, old(engine).memory())
                    &&& final(engine).memory() == old(engine).memory()
                },
                _ => false,
            },
{
    let len: usize = edit.text().len();
    if wparam > len as u64 {
        proof {
            if lines::line_begin(edit@.text, wparam as nat) is Some {
                lemma_line_number_bounded(edit@.text, 0, wparam as nat);
            }
        }
        return Ok(Reply::Value(0));
    }
    let chars: Vec<char> = match edit.line_text(wparam as usize) {
        Some(chars) => chars,
        None => {
            return Ok(Reply::Value(0));
        },
    };
    let capacity: u16 = match engine.read_u16(lparam) {
        Ok(capacity) => capacity,
        Err(fault) => {
            return Err(fault);
        },
    };
    if capacity == 0 {
        return Ok(Reply::Value(0));
    }
    let room: usize = capacity as usize - 1;
    let count: usize = if chars.len() < room {
        chars.len()
    } else {
        room
    };
    let bytes = nul_terminated(&chars, count);
    match engine.mem_write(lparam, &bytes) {
        Ok(_) => Ok(Reply::Value(count as u64)),
        Err(fault) => Err(fault),
    }
}

fn pos_message(edit: &EditState, wparam: u64, lparam: u64, engine: &mut GuestCpu, frame: &EditFrame) -> (result: Result<
    Reply,
    MemoryFault,
>)
    requires
        edit@.wf(),
    ensures
        final(engine).same_registers(old(engine)),
        forall|world: EditWorld| #![trigger pos_outcome(edit@, wparam, lparam, world, frame)]
            world.memory == old(engine).memory() ==> match (result, pos_outcome(edit@, wparam, lparam, world, frame)) {
                (Ok(reply), Some(outcome)) => {
                    &&& outcome == (EditOutcome {
                        memory: final(engine).memory(),
                        ..world.control_only((edit@, reply))
                    })
                },
                (Err(fault), None) => {
                    &&& fault == edit_fault(EM_POSFROMCHAR, wparam, lparam, old(engine).memory())
                    &&& final(engine).memory() == old(engine).memory()
                },
                _ => false,
            },
{
    let text = edit.text();
    if wparam >= text.len() as u64 {
        return Ok(Reply::Value(0));
    }
    let line: usize = lines::line_number(text, wparam as usize);
    let point: [i32; 2] = [0, layout::saturating_product(line, frame.font.line_height)];
    assert(point@ =~= line_point(edit@, wparam as int, frame));
    let bytes = controls::to_int_bytes(&point, 2);
    match engine.mem_write(lparam, &bytes) {
        Ok(_) => Ok(Reply::Value(1)),
        Err(fault) => Err(fault),
    }
}

fn read_stops(engine: &GuestCpu, pointer: u64, count: u64) -> (result: Result<Vec<u16>, MemoryFault>)
    ensures
        match result {
            Ok(stops) => pointed_stops(engine.memory(), pointer, count) == Some(stops@),
            Err(fault) => pointed_stops(engine.memory(), pointer, count) is None && fault.address == pointer,
        },
{
    let mut stops: Vec<u16> = Vec::new();
    let mut i: u64 = 0;
    assert(stops@ =~= text::wide_units(engine.memory(), pointer as int, 0));
    while i < count
        invariant
            i <= count,
            i > 0 ==> pointer + 2 * i <= u64::MAX + 1,
            stops@ == text::wide_units(engine.memory(), pointer as int, i as nat),
            cpu::mapped(engine.memory(), pointer as int, (2 * i) as nat),
        decreases count - i,
    {
        if i > 0 && (pointer > u64::MAX - 2 || i > (u64::MAX - 1 - pointer) / 2) {
            assert(!cpu::mapped(engine.memory(), pointer as int, (2 * count) as nat)) by {
                if cpu::mapped(engine.memory(), pointer as int, (2 * count) as nat) {
                    assert(engine.memory().dom().contains(pointer + 2 * i + 1));
                }
            }
            return Err(MemoryFault { address: pointer });
        }
        let at: u64 = if i == 0 {
            pointer
        } else {
            pointer + 2 * i
        };
        match engine.read_u16(at) {
            Ok(stop) => {
                proof {
                    reveal_with_fuel(cpu::le_value, 3);
                    let bytes = cpu::load(engine.memory(), at as int, 2);
                    assert(bytes.drop_first().drop_first() =~= Seq::<u8>::empty());
                    assert(bytes.drop_first()[0] == bytes[1]);
                    assert(stop == text::unit_at(engine.memory(), pointer as int, i as int));
                    assert(engine.memory().dom().contains(at + 1));
                }
                stops.push(stop);
                assert(stops@ =~= text::wide_units(engine.memory(), pointer as int, (i + 1) as nat));
                assert forall|a: int| pointer <= a < pointer + 2 * (i + 1) implies #[trigger] engine.memory().dom().contains(
                    a,
                ) by {}
            },
            Err(_) => {
                assert(!cpu::mapped(engine.memory(), pointer as int, (2 * count) as nat)) by {
                    if cpu::mapped(engine.memory(), pointer as int, (2 * count) as nat) {
                        assert(cpu::mapped(engine.memory(), at as int, 2));
                    }
                }
                return Err(MemoryFault { address: pointer });
            },
        }
        i = i + 1;
    }
    assert(count == 0 ==> stops@ =~= Seq::<u16>::empty());
    Ok(stops)
}

/// Handle a message to an EDIT control. Where guest memory that the message needs
/// is not mapped, the fault is reported and nothing changes.
pub fn edit_message(
    edit: &mut EditState,
    message: u32,
    wparam: u64,
    lparam: u64,
    keys: Modifiers,
    captured: bool,
    clipboard: &mut ClipboardState,
    engine: &mut GuestCpu,
    frame: &EditFrame,
) -> (result: Result<(Reply, Capture), MemoryFault>)
    requires
        old(edit)@.wf(),
    ensures
        final(edit)@.wf(),
        final(engine).same_registers(old(engine)),
        ({
            let world = EditWorld { keys, captured, clip: old(clipboard)@, memory: old(engine).memory() };
            match (result, edit_outcome(old(edit)@, message, wparam, lparam, world, frame)) {
                (Ok(answer), Some(outcome)) => {
                    &&& outcome.edit == final(edit)@
                    &&& outcome.reply == answer.0
                    &&& outcome.capture == answer.1
                    &&& outcome.clip == final(clipboard)@
                    &&& outcome.memory == final(engine).memory()
                },
                (Err(fault), None) => {
                    &&& fault == edit_fault(message, wparam, lparam, world.memory)
                    &&& final(edit)@ == old(edit)@
                    &&& final(clipboard)@ == old(clipboard)@
                    &&& final(engine).memory() == old(engine).memory()
                },
                _ => false,
            }
        }),
{
    let ghost world = EditWorld { keys, captured, clip: clipboard@, memory: engine.memory() };
    if message == WM_SETTEXT {
        match text::read_name(engine, lparam, false) {
            Ok(chars) => {
                edit.set_text(chars);
                Ok((Reply::Value(1), Capture::Keep))
            },
            Err(fault) => Err(fault),
        }
    } else if message == EM_REPLACESEL {
        match text::read_name(engine, lparam, false) {
            Ok(chars) => Ok((replace_with(edit, &chars, frame), Capture::Keep)),
            Err(fault) => Err(fault),
        }
    } else if message == EM_SETTABSTOPS {
        match read_stops(engine, lparam, wparam) {
            Ok(stops) => {
                edit.set_tab_stops(stops);
                Ok((Reply::Value(1), Capture::Keep))
            },
            Err(fault) => Err(fault),
        }
    } else if message == EM_GETSEL {
        assert(getsel_outcome(edit@, wparam, lparam, world) == edit_outcome(edit@, message, wparam, lparam, world, frame));
        match getsel_message(edit, wparam, lparam, engine) {
            Ok(reply) => Ok((reply, Capture::Keep)),
            Err(fault) => Err(fault),
        }
    } else if message == EM_GETLINE {
        assert(getline_outcome(edit@, wparam, lparam, world) == edit_outcome(edit@, message, wparam, lparam, world, frame));
        match getline_message(edit, wparam, lparam, engine) {
            Ok(reply) => Ok((reply, Capture::Keep)),
            Err(fault) => Err(fault),
        }
    } else if message == EM_POSFROMCHAR {
        assert(pos_outcome(edit@, wparam, lparam, world, frame) == edit_outcome(
            edit@,
            message,
            wparam,
            lparam,
            world,
            frame,
        ));
        match pos_message(edit, wparam, lparam, engine, frame) {
            Ok(reply) => Ok((reply, Capture::Keep)),
            Err(fault) => Err(fault),
        }
    } else if WM_CUT <= message && message <= WM_CLEAR {
        assert(Some(clipboard_outcome(edit@, message, world, frame)) == edit_outcome(
            edit@,
            message,
            wparam,
            lparam,
            world,
            frame,
        ));
        Ok((clipboard_message(edit, message, clipboard, frame), Capture::Keep))
    } else if WM_MOUSEMOVE <= message && message <= WM_LBUTTONDBLCLK {
        assert(Some(mouse_outcome(edit@, message, lparam, world, frame)) == edit_outcome(
            edit@,
            message,
            wparam,
            lparam,
            world,
            frame,
        ));
        Ok(mouse_message(edit, message, lparam, captured, frame))
    } else {
        Ok((own_message(edit, message, wparam, lparam, keys, frame), Capture::Keep))
    }
}

} // verus!
