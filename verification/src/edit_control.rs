//! An EDIT control as a window: its text, its caret bar and its guest buffer.
use vstd::prelude::*;

use crate::caret;
use crate::caret::{CaretState, EditInvalidation, Picture};
use crate::clipboard::ClipboardState;
use crate::cpu::{GuestCpu, MemoryFault};
use crate::edit;
use crate::edit::{EditFrame, EditState, Reply};
use crate::edit_proc;
use crate::edit_proc::{Capture, Modifiers};
use crate::heap;
use crate::layout;
use crate::messages::{EM_GETHANDLE, EM_SETHANDLE, WM_KILLFOCUS, WM_PAINT, WM_SETFOCUS, WM_TIMER};
use crate::process::GuestHeap;
use crate::text;

verus! {

/// Id of the timer that blinks a caret.
pub const CARET_TIMER_ID: u64 = 1;

/// Half a blink period.
pub const CARET_BLINK_MS: u32 = 530;

/// What happens to the blink timer.
#[derive(Debug, Clone, Copy, PartialEq, Eq, Structural)]
pub enum Blink {
    /// It stays as it is.
    Keep,
    /// It starts anew.
    Arm,
    /// It stops.
    Disarm,
}

/// Whether a window waits to be painted.
#[derive(Debug, Clone, Copy, PartialEq, Eq, Structural)]
pub enum Repaint {
    /// As before.
    Keep,
    /// It does.
    Request,
    /// It was painted.
    Done,
}

/// What a control asks for in answer to a message.
#[derive(Debug, Clone, Copy, PartialEq, Eq, Structural)]
pub struct Answer {
    pub reply: Reply,
    pub capture: Capture,
    pub blink: Blink,
    pub repaint: Repaint,
}

/// An EDIT control.
#[derive(Debug, Clone)]
pub struct EditControl {
    pub edit: EditState,
    pub caret: CaretState,
    /// Guest address of a copy of the text, while the text is unchanged.
    pub buffer: Option<u64>,
}

/// An EDIT control.
#[verifier::ext_equal]
pub struct EditControlModel {
    pub edit: edit::EditModel,
    pub caret: CaretState,
    pub buffer: Option<u64>,
}

impl View for EditControl {
    type V = EditControlModel;

    open spec fn view(&self) -> EditControlModel {
        EditControlModel { edit: self.edit@, caret: self.caret, buffer: self.buffer }
    }
}

impl EditControlModel {
    /// A control that was just created with a text.
    pub open spec fn fresh(text: Seq<char>) -> EditControlModel {
        EditControlModel { edit: edit::EditModel::fresh(text), caret: CaretState::fresh(), buffer: None }
    }

    /// The row of the caret.
    pub open spec fn caret_row(self, frame: &EditFrame) -> usize {
        caret::row_at(frame, self.edit.text, self.edit.caret) as usize
    }

    /// How many rows are in view from the first visible one on.
    pub open spec fn rows_in_view(self, frame: &EditFrame) -> int {
        let left = frame.rows(self.edit.text).len() - self.edit.first_line;
        if left < 0 {
            0
        } else if left < frame.visible(self.edit.text) {
            left
        } else {
            frame.visible(self.edit.text)
        }
    }

    /// Whether the control waits to be painted.
    pub open spec fn repaint(self) -> Repaint {
        if self.caret.invalid_rows is Clean {
            Repaint::Keep
        } else {
            Repaint::Request
        }
    }

    /// The control with all of its rows waiting to be painted.
    pub open spec fn fully_invalid(self) -> EditControlModel {
        EditControlModel { caret: CaretState { invalid_rows: EditInvalidation::Full, ..self.caret }, ..self }
    }

    /// The control with another text state: the rows that look different wait to be
    /// painted, and the guest's copy of a text that changed is forgotten.
    pub open spec fn edited(self, edit: edit::EditModel, frame: &EditFrame) -> EditControlModel {
        EditControlModel {
            edit,
            caret: CaretState {
                invalid_rows: caret::repainted(
                    self.caret.invalid_rows,
                    caret::picture(self.edit, frame),
                    caret::picture(edit, frame),
                ),
                ..self.caret
            },
            buffer: if edit.text == self.edit.text {
                self.buffer
            } else {
                None
            },
        }
    }

    /// The control with the focus: the bar shows.
    pub open spec fn focused(self, frame: &EditFrame) -> EditControlModel {
        EditControlModel { caret: self.caret.focused_in(self.caret_row(frame)), ..self }
    }
}

/// Everything a message changes.
#[verifier::ext_equal]
pub struct EditControlOutcome {
    pub control: EditControlModel,
    pub answer: Answer,
    pub clip: Option<Seq<char>>,
    pub memory: Map<int, u8>,
}

/// Only the control changes.
pub open spec fn control_only(
    control: EditControlModel,
    reply: Reply,
    blink: Blink,
    world: edit_proc::EditWorld,
) -> EditControlOutcome {
    EditControlOutcome {
        control,
        answer: Answer { reply, capture: Capture::Keep, blink, repaint: control.repaint() },
        clip: world.clip,
        memory: world.memory,
    }
}

/// `EM_GETHANDLE`: the guest's copy of the text, made on demand; 0 where the heap is
/// full.
pub open spec fn get_handle_outcome(
    control: EditControlModel,
    world: edit_proc::EditWorld,
    heap: GuestHeap,
) -> Option<EditControlOutcome> {
    let bytes = edit_proc::line_bytes(control.edit.text, control.edit.text.len() as int);
    match control.buffer {
        Some(address) => Some(control_only(control, Reply::Value(address), Blink::Keep, world)),
        None => match heap::allocation(world.memory, heap, bytes.len()) {
            Some(Some(start)) => Some(
                EditControlOutcome {
                    memory: heap::with_block(world.memory, heap, bytes),
                    ..control_only(
                        EditControlModel { buffer: Some(start as u64), ..control },
                        Reply::Value(start as u64),
                        Blink::Keep,
                        world,
                    )
                },
            ),
            Some(None) => Some(control_only(control, Reply::Value(0), Blink::Keep, world)),
            None => None,
        },
    }
}

/// `EM_SETHANDLE`: the text behind a guest address, which is then the copy.
pub open spec fn set_handle_outcome(
    control: EditControlModel,
    lparam: u64,
    world: edit_proc::EditWorld,
    frame: &EditFrame,
) -> Option<EditControlOutcome> {
    match text::pointed_name(world.memory, lparam, false) {
        Some(chars) => Some(
            control_only(
                EditControlModel {
                    buffer: if lparam == 0 {
                        None
                    } else {
                        Some(lparam)
                    },
                    ..control.edited(control.edit.with_text(chars), frame)
                },
                Reply::Value(1),
                Blink::Keep,
                world,
            ),
        ),
        None => None,
    }
}

/// What a message to the text does to the whole control: a press of the mouse also
/// brings the focus.
pub open spec fn text_outcome(
    control: EditControlModel,
    outcome: edit_proc::EditOutcome,
    frame: &EditFrame,
) -> EditControlOutcome {
    let edited = if outcome.capture is Take {
        control.edited(outcome.edit, frame).focused(frame)
    } else {
        control.edited(outcome.edit, frame)
    };
    EditControlOutcome {
        control: edited,
        answer: Answer {
            reply: outcome.reply,
            capture: outcome.capture,
            blink: if outcome.capture is Take {
                Blink::Arm
            } else {
                Blink::Keep
            },
            repaint: edited.repaint(),
        },
        clip: outcome.clip,
        memory: outcome.memory,
    }
}

/// What a message does; `None` where guest memory that it needs is not mapped.
pub open spec fn edit_control_outcome(
    control: EditControlModel,
    message: u32,
    wparam: u64,
    lparam: u64,
    world: edit_proc::EditWorld,
    heap: GuestHeap,
    frame: &EditFrame,
) -> Option<EditControlOutcome> {
    let row = control.caret_row(frame);
    if message == WM_SETFOCUS {
        Some(control_only(control.focused(frame), Reply::Value(0), Blink::Arm, world))
    } else if message == WM_KILLFOCUS {
        Some(
            control_only(
                EditControlModel { caret: control.caret.unfocused_in(row), ..control },
                Reply::Value(0),
                Blink::Disarm,
                world,
            ),
        )
    } else if message == WM_TIMER {
        if wparam == CARET_TIMER_ID {
            Some(
                control_only(
                    EditControlModel { caret: control.caret.ticked_in(row), ..control },
                    Reply::Value(0),
                    Blink::Keep,
                    world,
                ),
            )
        } else {
            Some(control_only(control, Reply::Unhandled, Blink::Keep, world))
        }
    } else if message == WM_PAINT {
        Some(
            EditControlOutcome {
                answer: Answer {
                    reply: Reply::Value(0),
                    capture: Capture::Keep,
                    blink: Blink::Keep,
                    repaint: Repaint::Done,
                },
                ..control_only(
                    EditControlModel {
                        caret: control.caret.painted_in(
                            row,
                            control.edit.first_line as usize,
                            control.rows_in_view(frame) as usize,
                            frame.shown,
                        ),
                        ..control
                    },
                    Reply::Value(0),
                    Blink::Keep,
                    world,
                )
            },
        )
    } else if message == EM_GETHANDLE {
        get_handle_outcome(control, world, heap)
    } else if message == EM_SETHANDLE {
        set_handle_outcome(control, lparam, world, frame)
    } else {
        match edit_proc::edit_outcome(control.edit, message, wparam, lparam, world, frame) {
            Some(outcome) => Some(text_outcome(control, outcome, frame)),
            None => None,
        }
    }
}

/// The fault of a message.
pub open spec fn edit_control_fault(
    message: u32,
    wparam: u64,
    lparam: u64,
    memory: Map<int, u8>,
    heap: GuestHeap,
) -> MemoryFault {
    if message == EM_GETHANDLE {
        heap::allocation_fault(memory, heap)
    } else {
        edit_proc::edit_fault(message, wparam, lparam, memory)
    }
}

/// A guest buffer always holds the text: what `EM_GETHANDLE` hands out is a
/// NUL-terminated copy of it, and a message that changes the text forgets the copy.
pub proof fn handed_out_text_is_current(
    control: EditControlModel,
    world: edit_proc::EditWorld,
    heap: GuestHeap,
    after: edit::EditModel,
    frame: &EditFrame,
)
    requires
        control.buffer is None,
        heap::allocation(world.memory, heap, control.edit.text.len() + 1) matches Some(Some(_)),
    ensures
        get_handle_outcome(control, world, heap) matches Some(outcome) && {
            let bytes = edit_proc::line_bytes(control.edit.text, control.edit.text.len() as int);
            &&& outcome.control.buffer matches Some(address) && outcome.answer.reply == Reply::Value(address)
            &&& crate::cpu::load(outcome.memory, heap::next_block(world.memory, heap), bytes.len()) == bytes
            &&& get_handle_outcome(outcome.control, world, heap)->0.answer == outcome.answer
        },
        after.text != control.edit.text ==> control.edited(after, frame).buffer is None,
{
    let bytes = edit_proc::line_bytes(control.edit.text, control.edit.text.len() as int);
    let start = heap::next_block(world.memory, heap);
    let memory = heap::with_block(world.memory, heap, bytes);
    assert forall|i: int| 0 <= i < bytes.len() implies #[trigger] memory[start + i] == bytes[i] by {
        assert(world.memory.dom().contains(start + i));
    }
    assert(crate::cpu::load(memory, start, bytes.len()) =~= bytes);
}

impl EditControl {
    /// A new control.
    pub fn new(text: Vec<char>) -> (control: Self)
        ensures
            control@ == EditControlModel::fresh(text@),
            control@.edit.wf(),
    {
        EditControl { edit: EditState::new(text), caret: CaretState::new(), buffer: None }
    }

    /// Ask for the whole control to be painted.
    pub fn invalidate(&mut self)
        ensures
            final(self)@ == old(self)@.fully_invalid(),
    {
        self.caret.invalid_rows = EditInvalidation::Full;
    }

    fn answer(&self, reply: Reply, capture: Capture, blink: Blink) -> (answer: Answer)
        ensures
            answer == (Answer { reply, capture, blink, repaint: self@.repaint() }),
    {
        let repaint = match self.caret.invalid_rows {
            EditInvalidation::Clean => Repaint::Keep,
            _ => Repaint::Request,
        };
        Answer { reply, capture, blink, repaint }
    }

    fn refresh(&mut self, before: &Picture, Ghost(model): Ghost<EditControlModel>, frame: &EditFrame)
        requires
            old(self)@.edit.wf(),
            before@ == caret::picture(model.edit, frame),
            old(self)@.caret == model.caret,
        ensures
            final(self)@ == (EditControlModel {
                caret: model.edited(old(self)@.edit, frame).caret,
                ..old(self)@
            }),
    {
        let after = Picture::of(&self.edit, frame);
        self.caret.invalid_rows = before.replaced_by(self.caret.invalid_rows, &after);
    }
}

fn get_handle(control: &mut EditControl, engine: &mut GuestCpu, heap: GuestHeap) -> (result: Result<
    Reply,
    MemoryFault,
>)
    ensures
        final(engine).same_registers(old(engine)),
        forall|world: edit_proc::EditWorld| #![trigger get_handle_outcome(old(control)@, world, heap)]
            world.memory == old(engine).memory() ==> match (result, get_handle_outcome(old(control)@, world, heap)) {
                (Ok(reply), Some(outcome)) => {
                    &&& outcome == (EditControlOutcome {
                        memory: final(engine).memory(),
                        ..control_only(final(control)@, reply, Blink::Keep, world)
                    })
                    &&& final(control).edit == old(control).edit
                },
                (Err(fault), None) => {
                    &&& fault == heap::allocation_fault(world.memory, heap)
                    &&& final(engine).memory() == old(engine).memory()
                    &&& *final(control) == *old(control)
                },
                _ => false,
            },
{
    if let Some(address) = control.buffer {
        return Ok(Reply::Value(address));
    }
    let text = control.edit.text();
    let bytes = edit_proc::nul_terminated(text, text.len());
    match heap.allocate(engine, &bytes) {
        Ok(Some(address)) => {
            control.buffer = Some(address);
            Ok(Reply::Value(address))
        },
        Ok(None) => Ok(Reply::Value(0)),
        Err(fault) => Err(fault),
    }
}

/// Handle a message to an EDIT control. Where guest memory that the message needs is
/// not mapped, the fault is reported and nothing changes.
pub fn edit_control_message(
    control: &mut EditControl,
    message: u32,
    wparam: u64,
    lparam: u64,
    keys: Modifiers,
    captured: bool,
    clipboard: &mut ClipboardState,
    engine: &mut GuestCpu,
    heap: GuestHeap,
    frame: &EditFrame,
) -> (result: Result<Answer, MemoryFault>)
    requires
        old(control)@.edit.wf(),
    ensures
        final(control)@.edit.wf(),
        final(engine).same_registers(old(engine)),
        ({
            let world = edit_proc::EditWorld { keys, captured, clip: old(clipboard)@, memory: old(engine).memory() };
            match (result, edit_control_outcome(old(control)@, message, wparam, lparam, world, heap, frame)) {
                (Ok(answer), Some(outcome)) => {
                    &&& outcome.control == final(control)@
                    &&& outcome.answer == answer
                    &&& outcome.clip == final(clipboard)@
                    &&& outcome.memory == final(engine).memory()
                },
                (Err(fault), None) => {
                    &&& fault == edit_control_fault(message, wparam, lparam, world.memory, heap)
                    &&& final(control)@ == old(control)@
                    &&& final(clipboard)@ == old(clipboard)@
                    &&& final(engine).memory() == old(engine).memory()
                },
                _ => false,
            }
        }),
{
    let ghost world = edit_proc::EditWorld { keys, captured, clip: clipboard@, memory: engine.memory() };
    let area = control.edit.area(frame);
    let row: usize = area.caret_row;
    if message == WM_SETFOCUS {
        control.caret.focus(row);
        return Ok(control.answer(Reply::Value(0), Capture::Keep, Blink::Arm));
    }
    if message == WM_KILLFOCUS {
        control.caret.unfocus(row);
        return Ok(control.answer(Reply::Value(0), Capture::Keep, Blink::Disarm));
    }
    if message == WM_TIMER {
        if wparam != CARET_TIMER_ID {
            return Ok(control.answer(Reply::Unhandled, Capture::Keep, Blink::Keep));
        }
        control.caret.tick(row);
        return Ok(control.answer(Reply::Value(0), Capture::Keep, Blink::Keep));
    }
    if message == WM_PAINT {
        let first: usize = control.edit.first_visible_line();
        let left: usize = area.total.saturating_sub(first);
        let count: usize = if left < area.visible {
            left
        } else {
            area.visible
        };
        control.caret.paint(row, first, count, frame.shown);
        return Ok(
            Answer {
                reply: Reply::Value(0),
                capture: Capture::Keep,
                blink: Blink::Keep,
                repaint: Repaint::Done,
            },
        );
    }
    if message == EM_GETHANDLE {
        assert(get_handle_outcome(control@, world, heap) == edit_control_outcome(
            control@,
            message,
            wparam,
            lparam,
            world,
            heap,
            frame,
        ));
        return match get_handle(control, engine, heap) {
            Ok(reply) => Ok(control.answer(reply, Capture::Keep, Blink::Keep)),
            Err(fault) => Err(fault),
        };
    }
    let ghost model = control@;
    let before = Picture::of(&control.edit, frame);
    if message == EM_SETHANDLE {
        let chars = match text::read_name(engine, lparam, false) {
            Ok(chars) => chars,
            Err(fault) => {
                return Err(fault);
            },
        };
        control.edit.set_text(chars);
        control.refresh(&before, Ghost(model), frame);
        control.buffer = if lparam == 0 {
            None
        } else {
            Some(lparam)
        };
        return Ok(control.answer(Reply::Value(1), Capture::Keep, Blink::Keep));
    }
    let text = control.edit.text();
    let old_text = layout::copy_range(text, 0, text.len());
    assert(old_text@ =~= model.edit.text);
    let (reply, capture) = match edit_proc::edit_message(
        &mut control.edit,
        message,
        wparam,
        lparam,
        keys,
        captured,
        clipboard,
        engine,
        frame,
    ) {
        Ok(answer) => answer,
        Err(fault) => {
            return Err(fault);
        },
    };
    control.refresh(&before, Ghost(model), frame);
    if !caret::same_chars(&old_text, control.edit.text()) {
        control.buffer = None;
    }
    match capture {
        Capture::Take => {
            let row_after: usize = control.edit.area(frame).caret_row;
            control.caret.focus(row_after);
            Ok(control.answer(reply, capture, Blink::Arm))
        },
        _ => Ok(control.answer(reply, capture, Blink::Keep)),
    }
}

} // verus!
