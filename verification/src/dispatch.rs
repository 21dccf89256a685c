//! Delivery of window messages to built-in controls.
use vstd::prelude::*;

use crate::clipboard::ClipboardState;
use crate::controls;
use crate::controls::ControlState;
use crate::cpu::{GuestCpu, MemoryFault};
use crate::dll_state;
use crate::dll_state::{DllId, SlotState};
use crate::edit::{EditFrame, Reply};
use crate::edit_control::{Answer, Blink, Repaint, CARET_BLINK_MS, CARET_TIMER_ID};
use crate::edit_proc;
use crate::edit_proc::{Capture, Modifiers};
use crate::font::FontEngine;
use crate::handles::{Hfont, Hwnd};
use crate::input::KEY_DOWN;
use crate::layout;
use crate::messages;
use crate::messages::{WM_COMMAND, WM_GETFONT, WM_PAINT, WM_SETFONT, WM_SETTEXT, WM_SIZE};
use crate::process::GuestHeap;
use crate::state::WinApiState;
use crate::subsystems::GdiState;
use crate::text;
use crate::window;
use crate::window::{TimerRecord, WindowRecord, WindowState};

verus! {

/// Virtual key of the shift keys.
pub const VK_SHIFT: usize = 0x10;

/// Virtual key of the control keys.
pub const VK_CONTROL: usize = 0x11;

/// Rows that a status bar's edges take.
pub const BAR_EDGE_ROWS: i32 = 4;

/// What the interrupted call returns once a guest callback is done.
#[derive(Debug, Clone, Copy, PartialEq, Eq, Structural)]
pub enum OuterReturn {
    /// What the callback returned.
    Passthrough,
    /// A value of its own.
    Fixed(u64),
}

/// A guest window procedure that is to be called.
#[derive(Debug, Clone, Copy, PartialEq, Eq, Structural)]
pub struct GuestCallbackRequest {
    pub callback_address: u64,
    pub window_handle: u64,
    pub message: u32,
    pub word_parameter: u64,
    pub long_parameter: u64,
    pub outer_return: OuterReturn,
}

/// Why a message was not answered at once.
#[derive(Debug, Clone, Copy, PartialEq, Eq, Structural)]
pub enum WinApiControlSignal {
    /// A guest window procedure has to run first.
    GuestCallbackRequested { request: GuestCallbackRequest },
    /// Guest memory that the message needs is not mapped.
    Fault { fault: MemoryFault },
}

/// The call that hands a message to a subclassed control's own procedure.
pub open spec fn subclass_call(record: WindowRecord, message: u32, wparam: u64, lparam: u64) -> GuestCallbackRequest {
    GuestCallbackRequest {
        callback_address: record.window_proc,
        window_handle: record.handle.0,
        message,
        word_parameter: wparam,
        long_parameter: lparam,
        outer_return: OuterReturn::Passthrough,
    }
}

/// What a control's answer becomes: a notification is a `WM_COMMAND` call of the
/// parent's window procedure, and is dropped where there is no such procedure.
pub open spec fn delivered(windows: Seq<WindowRecord>, record: WindowRecord, reply: Reply) -> Result<
    Option<u64>,
    WinApiControlSignal,
> {
    match reply {
        Reply::Unhandled => Ok(None),
        Reply::Value(value) => Ok(Some(value)),
        Reply::Notify(code) => match window::window_index(windows, record.parent_handle.0) {
            Some(parent) => if windows[parent].window_proc == 0 {
                Ok(Some(0))
            } else {
                Err(
                    WinApiControlSignal::GuestCallbackRequested {
                        request: GuestCallbackRequest {
                            callback_address: windows[parent].window_proc,
                            window_handle: windows[parent].handle.0,
                            message: WM_COMMAND,
                            word_parameter: messages::packed(record.menu_handle as int, code as int) as u64,
                            long_parameter: record.handle.0,
                            outer_return: OuterReturn::Fixed(0),
                        },
                    },
                )
            },
            None => Ok(Some(0)),
        },
    }
}

/// The held keys that controls look at.
pub open spec fn held(keys: Seq<u8>) -> Modifiers {
    Modifiers { shift: keys[0x10] & KEY_DOWN != 0, ctrl: keys[0x11] & KEY_DOWN != 0 }
}

/// The timer that blinks a control's caret.
pub open spec fn caret_timer(handle: Hwnd) -> TimerRecord {
    TimerRecord { window_handle: handle, timer_id: CARET_TIMER_ID, interval_ms: CARET_BLINK_MS }
}

/// The timers after a control asked for its caret to blink or not to.
pub open spec fn blinking(timers: Seq<TimerRecord>, handle: Hwnd, blink: Blink) -> Seq<TimerRecord> {
    match blink {
        Blink::Keep => timers,
        Blink::Arm => window::with_timer(timers, caret_timer(handle)),
        Blink::Disarm => window::without_timer(timers, handle, CARET_TIMER_ID),
    }
}

/// Whether a window waits to be painted after an answer of its control.
pub open spec fn awaits_paint(before: bool, repaint: Repaint) -> bool {
    match repaint {
        Repaint::Keep => before,
        Repaint::Request => true,
        Repaint::Done => false,
    }
}

/// Whether `after` is `before` with one control changed, the capture moved, the
/// caret timer set and the painting asked for.
pub open spec fn control_changed(
    before: WindowState,
    after: WindowState,
    index: int,
    control: controls::ControlModel,
    capture: Capture,
    blink: Blink,
    repaint: Repaint,
) -> bool {
    let handle = before.windows@[index].handle;
    let record = after.windows@[index];
    &&& after.windows@ == before.windows@.update(index, record)
    &&& record == (WindowRecord {
        control: record.control,
        invalidated: awaits_paint(before.windows@[index].invalidated, repaint),
        ..before.windows@[index]
    })
    &&& record.control@ == control
    &&& after.timers@ == blinking(before.timers@, handle, blink)
    &&& after == (WindowState {
        windows: after.windows,
        timers: after.timers,
        focus_window_handle: if capture is Take {
            handle
        } else {
            before.focus_window_handle
        },
        capture_window_handle: match capture {
            Capture::Keep => before.capture_window_handle,
            Capture::Take => handle,
            Capture::Hold => handle,
            Capture::Release => Hwnd(0),
        },
        window_mirror_rev: if capture is Keep {
            before.window_mirror_rev
        } else {
            vstd::wrapping::u64_specs::wrapping_add(before.window_mirror_rev, 1)
        },
        ..before
    })
}

/// Whether a message is for a control's window as a whole: its font, the caption of
/// a button or a label, the painting of a control that keeps no rows, the size of a
/// status bar.
pub open spec fn is_window_message(control: ControlState, message: u32) -> bool {
    ||| message == WM_SETFONT
    ||| message == WM_GETFONT
    ||| message == WM_SETTEXT && (control is Button || control is Label)
    ||| message == WM_PAINT && !(control is Edit)
    ||| message == WM_SIZE && control is StatusBar
}

/// Whether `after` is `before` with one window's record changed and a mirror revision.
pub open spec fn record_changed(before: WindowState, after: WindowState, index: int, rev: u64) -> bool {
    &&& after.windows@ == before.windows@.update(index, after.windows@[index])
    &&& after == (WindowState { windows: after.windows, window_mirror_rev: rev, ..before })
}

/// The height of a status bar: a row of text between the edges.
pub open spec fn bar_height(font: &FontEngine) -> int {
    layout::saturated(font.line_height + BAR_EDGE_ROWS)
}

/// A status bar's record once the bar is fitted to its parent: as wide, at its bottom
/// edge.
pub open spec fn fitted_bar(record: WindowRecord, parent: WindowRecord, font: &FontEngine) -> WindowRecord {
    WindowRecord {
        x: 0,
        y: layout::saturated(parent.height - bar_height(font)) as i32,
        width: parent.width,
        height: bar_height(font) as i32,
        invalidated: true,
        ..record
    }
}

/// Whether a control's window answered a message for it as a whole.
///
/// - The font is stored; where a redraw is asked for, the window waits to be erased
///   and painted.
/// - A caption is stored, and waits to be painted. One that cannot be read is a fault.
/// - Painting is done at once, also where the window is hidden.
/// - A status bar fits itself to its parent.
pub open spec fn window_answered(
    before: WindowState,
    after: WindowState,
    index: int,
    message: u32,
    wparam: u64,
    lparam: u64,
    memory: Map<int, u8>,
    font: &FontEngine,
    result: Result<Option<u64>, WinApiControlSignal>,
) -> bool {
    let record = before.windows@[index];
    let changed = after.windows@[index];
    if message == WM_SETFONT {
        &&& record_changed(before, after, index, before.window_mirror_rev)
        &&& changed == (WindowRecord {
            font_handle: Hfont(wparam),
            control: changed.control,
            invalidated: record.invalidated || lparam != 0,
            erase_background: record.erase_background || lparam != 0,
            ..record
        })
        &&& changed.control@ == if lparam != 0 {
            record.control@.fully_invalid()
        } else {
            record.control@
        }
        &&& result == Ok::<_, WinApiControlSignal>(Some(0u64))
    } else if message == WM_GETFONT {
        &&& after == before
        &&& result == Ok::<_, WinApiControlSignal>(Some(record.font_handle.0))
    } else if message == WM_SETTEXT {
        match text::pointed_name(memory, lparam, false) {
            Some(caption) => {
                &&& record_changed(before, after, index, before.window_mirror_rev)
                &&& changed == (WindowRecord { control_text: changed.control_text, invalidated: true, ..record })
                &&& changed.control_text@ == caption
                &&& result == Ok::<_, WinApiControlSignal>(Some(1u64))
            },
            None => {
                &&& after == before
                &&& result == Err::<Option<u64>, _>(
                    WinApiControlSignal::Fault { fault: MemoryFault { address: lparam } },
                )
            },
        }
    } else if message == WM_PAINT {
        &&& record_changed(before, after, index, before.window_mirror_rev)
        &&& changed == (WindowRecord { invalidated: false, ..record })
        &&& result == Ok::<_, WinApiControlSignal>(Some(0u64))
    } else {
        &&& match window::window_index(before.windows@, record.parent_handle.0) {
            Some(parent) => {
                &&& record_changed(
                    before,
                    after,
                    index,
                    vstd::wrapping::u64_specs::wrapping_add(before.window_mirror_rev, 1),
                )
                &&& changed == fitted_bar(record, before.windows@[parent], font)
            },
            None => {
                &&& record_changed(before, after, index, before.window_mirror_rev)
                &&& changed == (WindowRecord { invalidated: true, ..record })
            },
        }
        &&& result == Ok::<_, WinApiControlSignal>(Some(0u64))
    }
}

/// What a message finds in the emulator: the windows, the clipboard text and guest
/// memory.
#[verifier::ext_equal]
pub struct Surroundings {
    pub windows: WindowState,
    pub clip: Option<Seq<char>>,
    pub memory: Map<int, u8>,
}

impl Surroundings {
    /// What a message to a window's control does.
    pub open spec fn outcome(
        self,
        index: int,
        message: u32,
        wparam: u64,
        lparam: u64,
        heap: GuestHeap,
        gdi: &GdiState,
    ) -> Option<controls::ControlOutcome> {
        let record = self.windows.windows@[index];
        controls::control_outcome(
            record.control@,
            message,
            wparam,
            lparam,
            controls::ControlWorld {
                edit: edit_proc::EditWorld {
                    keys: held(self.windows.keyboard_state@),
                    captured: self.windows.capture_window_handle == record.handle,
                    clip: self.clip,
                    memory: self.memory,
                },
                focus: self.windows.focus_window_handle == record.handle,
                heap,
            },
            &EditFrame {
                style: record.style,
                width: record.width,
                height: record.height,
                shown: record.visible,
                font: &gdi.window_font(record.font_handle),
            },
        )
    }

    /// Whether a message was handled: a window that is unknown or no control leaves
    /// it alone; a subclassed control hands it to its own procedure, unseen; any
    /// other control handles it itself, with the font that its window was given.
    pub open spec fn handled(
        self,
        after: Self,
        hwnd: u64,
        message: u32,
        wparam: u64,
        lparam: u64,
        heap: GuestHeap,
        gdi: &GdiState,
        result: Result<Option<u64>, WinApiControlSignal>,
    ) -> bool {
        match window::window_index(self.windows.windows@, hwnd) {
            None => after == self && result == Ok::<_, WinApiControlSignal>(None::<u64>),
            Some(i) => {
                let record = self.windows.windows@[i];
                if record.control is Plain {
                    after == self && result == Ok::<_, WinApiControlSignal>(None::<u64>)
                } else if record.window_proc != 0 {
                    &&& after == self
                    &&& result == Err::<Option<u64>, _>(
                        WinApiControlSignal::GuestCallbackRequested {
                            request: subclass_call(record, message, wparam, lparam),
                        },
                    )
                } else if is_window_message(record.control, message) {
                    &&& window_answered(
                        self.windows,
                        after.windows,
                        i,
                        message,
                        wparam,
                        lparam,
                        self.memory,
                        &gdi.window_font(record.font_handle),
                        result,
                    )
                    &&& after.clip == self.clip
                    &&& after.memory == self.memory
                } else {
                    match self.outcome(i, message, wparam, lparam, heap, gdi) {
                        Some(outcome) => {
                            &&& control_changed(
                                self.windows,
                                after.windows,
                                i,
                                outcome.control,
                                outcome.answer.capture,
                                outcome.answer.blink,
                                outcome.answer.repaint,
                            )
                            &&& after.clip == outcome.clip
                            &&& after.memory == outcome.memory
                            &&& result == delivered(self.windows.windows@, record, outcome.answer.reply)
                        },
                        None => {
                            &&& control_changed(
                                self.windows,
                                after.windows,
                                i,
                                record.control@,
                                Capture::Keep,
                                Blink::Keep,
                                Repaint::Keep,
                            )
                            &&& after.clip == self.clip
                            &&& after.memory == self.memory
                            &&& result == Err::<Option<u64>, _>(
                                WinApiControlSignal::Fault {
                                    fault: controls::control_fault(
                                        record.control@,
                                        message,
                                        wparam,
                                        lparam,
                                        self.memory,
                                        heap,
                                    ),
                                },
                            )
                        },
                    }
                }
            },
        }
    }
}

fn deliver(windows: &[WindowRecord], index: usize, reply: Reply) -> (result: Result<Option<u64>, WinApiControlSignal>)
    requires
        index < windows@.len(),
    ensures
        result == delivered(windows@, windows@[index as int], reply),
{
    let record = &windows[index];
    match reply {
        Reply::Unhandled => Ok(None),
        Reply::Value(value) => Ok(Some(value)),
        Reply::Notify(code) => match window::find_window(windows, record.parent_handle.as_u64()) {
            Some(parent) => {
                if windows[parent].window_proc == 0 {
                    return Ok(Some(0));
                }
                Err(
                    WinApiControlSignal::GuestCallbackRequested {
                        request: GuestCallbackRequest {
                            callback_address: windows[parent].window_proc,
                            window_handle: windows[parent].handle.as_u64(),
                            message: WM_COMMAND,
                            word_parameter: messages::pack(record.menu_handle, code as u64),
                            long_parameter: record.handle.as_u64(),
                            outer_return: OuterReturn::Fixed(0),
                        },
                    },
                )
            },
            None => Ok(Some(0)),
        },
    }
}

/// Deliver a message to the control with a handle.
pub fn deliver_message(
    windows: &mut WindowState,
    clipboard: &mut ClipboardState,
    gdi: &GdiState,
    engine: &mut GuestCpu,
    heap: GuestHeap,
    hwnd: u64,
    message: u32,
    wparam: u64,
    lparam: u64,
) -> (result: Result<Option<u64>, WinApiControlSignal>)
    requires
        old(windows).wf(),
    ensures
        final(windows).wf(),
        final(engine).same_registers(old(engine)),
        (Surroundings { windows: *old(windows), clip: old(clipboard)@, memory: old(engine).memory() }).handled(
            Surroundings { windows: *final(windows), clip: final(clipboard)@, memory: final(engine).memory() },
            hwnd,
            message,
            wparam,
            lparam,
            heap,
            gdi,
            result,
        ),
{
    let index: usize = match window::find_window(&windows.windows, hwnd) {
        Some(index) => index,
        None => {
            return Ok(None);
        },
    };
    let handle = windows.windows[index].handle;
    if let ControlState::Plain = windows.windows[index].control {
        return Ok(None);
    }
    if windows.windows[index].window_proc != 0 {
        return Err(
            WinApiControlSignal::GuestCallbackRequested {
                request: GuestCallbackRequest {
                    callback_address: windows.windows[index].window_proc,
                    window_handle: handle.as_u64(),
                    message,
                    word_parameter: wparam,
                    long_parameter: lparam,
                    outer_return: OuterReturn::Passthrough,
                },
            },
        );
    }
    let window_wide = match windows.windows[index].control {
        ControlState::Button(_) | ControlState::Label => message == WM_SETTEXT || message == WM_PAINT,
        ControlState::StatusBar(_) => message == WM_SIZE || message == WM_PAINT,
        ControlState::Edit(_) => false,
        _ => message == WM_PAINT,
    };
    if window_wide || message == WM_SETFONT || message == WM_GETFONT {
        let font = gdi.resolve_font(windows.windows[index].font_handle);
        return answer_for_window(windows, index, engine, message, wparam, lparam, font);
    }
    let answer = step_control(windows, index, clipboard, gdi, engine, heap, message, wparam, lparam);
    match answer {
        Ok(reply) => {
            let result = deliver(&windows.windows, index, reply);
            proof {
                lemma_delivery_kept(old(windows).windows@, windows.windows@, index as int, reply);
            }
            result
        },
        Err(fault) => Err(WinApiControlSignal::Fault { fault }),
    }
}

proof fn lemma_lookup_kept(before: Seq<WindowRecord>, after: Seq<WindowRecord>, index: int, handle: u64, from: int)
    requires
        0 <= index < before.len(),
        0 <= from <= before.len(),
        after == before.update(index, after[index]),
        after[index].handle == before[index].handle,
    ensures
        window::window_from(after, handle, from) == window::window_from(before, handle, from),
    decreases before.len() - from,
{
    if from < before.len() {
        assert(after[from].handle == before[from].handle);
        lemma_lookup_kept(before, after, index, handle, from + 1);
    }
}

proof fn lemma_delivery_kept(before: Seq<WindowRecord>, after: Seq<WindowRecord>, index: int, reply: Reply)
    requires
        0 <= index < before.len(),
        after == before.update(index, after[index]),
        after[index] == (WindowRecord {
            control: after[index].control,
            invalidated: after[index].invalidated,
            ..before[index]
        }),
    ensures
        delivered(after, after[index], reply) == delivered(before, before[index], reply),
{
    let parent = before[index].parent_handle.0;
    lemma_lookup_kept(before, after, index, parent, 0);
    window::lookup_finds_the_first(before, parent);
}

/// The font that a control's window was given is the one that it answers, and asking
/// changes nothing.
pub proof fn a_font_is_read_back(
    before: Surroundings,
    between: Surroundings,
    after: Surroundings,
    hwnd: u64,
    font: u64,
    redraw: u64,
    heap: GuestHeap,
    gdi: &GdiState,
    stored: Result<Option<u64>, WinApiControlSignal>,
    read: Result<Option<u64>, WinApiControlSignal>,
)
    requires
        window::window_index(before.windows.windows@, hwnd) matches Some(i) && !(before.windows.windows@[i].control
            is Plain) && before.windows.windows@[i].window_proc == 0,
        before.handled(between, hwnd, WM_SETFONT, font, redraw, heap, gdi, stored),
        between.handled(after, hwnd, WM_GETFONT, 0, 0, heap, gdi, read),
    ensures
        stored == Ok::<_, WinApiControlSignal>(Some(0u64)),
        read == Ok::<_, WinApiControlSignal>(Some(font)),
        after == between,
{
    window::lookup_finds_the_first(before.windows.windows@, hwnd);
    let i = window::window_index(before.windows.windows@, hwnd)->0;
    lemma_lookup_kept(before.windows.windows@, between.windows.windows@, i, hwnd, 0);
    assert(after =~= between);
}

/// Answer a message that is for a control's window as a whole.
fn answer_for_window(
    windows: &mut WindowState,
    index: usize,
    engine: &GuestCpu,
    message: u32,
    wparam: u64,
    lparam: u64,
    font: &FontEngine,
) -> (result: Result<Option<u64>, WinApiControlSignal>)
    requires
        old(windows).wf(),
        index < old(windows).windows@.len(),
        is_window_message(old(windows).windows@[index as int].control, message),
    ensures
        final(windows).wf(),
        window_answered(
            *old(windows),
            *final(windows),
            index as int,
            message,
            wparam,
            lparam,
            engine.memory(),
            font,
            result,
        ),
{
    if message == WM_SETFONT {
        windows.windows[index].font_handle = Hfont(wparam);
        if lparam != 0 {
            windows.windows[index].control.invalidate();
            windows.windows[index].invalidated = true;
            windows.windows[index].erase_background = true;
        }
        assert(windows.windows@ =~= old(windows).windows@.update(index as int, windows.windows@[index as int]));
        Ok(Some(0))
    } else if message == WM_GETFONT {
        Ok(Some(windows.windows[index].font_handle.as_u64()))
    } else if message == WM_SETTEXT {
        match text::read_name(engine, lparam, false) {
            Ok(caption) => {
                windows.windows[index].control_text = text::to_string(&caption);
                windows.windows[index].invalidated = true;
                assert(windows.windows@ =~= old(windows).windows@.update(
                    index as int,
                    windows.windows@[index as int],
                ));
                Ok(Some(1))
            },
            Err(fault) => Err(WinApiControlSignal::Fault { fault }),
        }
    } else if message == WM_PAINT {
        windows.windows[index].invalidated = false;
        Ok(Some(0))
    } else {
        if let Some(parent) = window::find_window(
            &windows.windows,
            windows.windows[index].parent_handle.as_u64(),
        ) {
            let width: i32 = windows.windows[parent].width;
            let below: i32 = windows.windows[parent].height;
            let height: i32 = layout::saturate(font.line_height as i128 + BAR_EDGE_ROWS as i128);
            windows.windows[index].x = 0;
            windows.windows[index].y = layout::saturate(below as i128 - height as i128);
            windows.windows[index].width = width;
            windows.windows[index].height = height;
            windows.window_mirror_rev = windows.window_mirror_rev.wrapping_add(1);
        }
        windows.windows[index].invalidated = true;
        assert(windows.windows@ =~= old(windows).windows@.update(index as int, windows.windows@[index as int]));
        Ok(Some(0))
    }
}

/// Move the capture, set the caret timer and ask for the painting as a control's
/// answer says.
fn apply_answer(windows: &mut WindowState, index: usize, answer: Answer)
    requires
        old(windows).wf(),
        index < old(windows).windows@.len(),
    ensures
        final(windows).wf(),
        control_changed(
            *old(windows),
            *final(windows),
            index as int,
            old(windows).windows@[index as int].control@,
            answer.capture,
            answer.blink,
            answer.repaint,
        ),
{
    let handle = windows.windows[index].handle;
    match answer.repaint {
        Repaint::Keep => {},
        Repaint::Request => {
            windows.windows[index].invalidated = true;
        },
        Repaint::Done => {
            windows.windows[index].invalidated = false;
        },
    }
    assert(windows.windows@ =~= old(windows).windows@.update(index as int, windows.windows@[index as int]));
    match answer.capture {
        Capture::Keep => {},
        Capture::Take => {
            windows.focus_window_handle = handle;
            windows.capture_window_handle = handle;
            windows.window_mirror_rev = windows.window_mirror_rev.wrapping_add(1);
        },
        Capture::Hold => {
            windows.capture_window_handle = handle;
            windows.window_mirror_rev = windows.window_mirror_rev.wrapping_add(1);
        },
        Capture::Release => {
            windows.capture_window_handle = Hwnd::null();
            windows.window_mirror_rev = windows.window_mirror_rev.wrapping_add(1);
        },
    }
    match answer.blink {
        Blink::Keep => {},
        Blink::Arm => window::arm_timer(
            &mut windows.timers,
            TimerRecord { window_handle: handle, timer_id: CARET_TIMER_ID, interval_ms: CARET_BLINK_MS },
        ),
        Blink::Disarm => window::remove_timer(&mut windows.timers, handle, CARET_TIMER_ID),
    }
}

/// Let the control of a window handle a message.
fn ask_control(
    windows: &mut WindowState,
    index: usize,
    clipboard: &mut ClipboardState,
    gdi: &GdiState,
    engine: &mut GuestCpu,
    heap: GuestHeap,
    message: u32,
    wparam: u64,
    lparam: u64,
) -> (result: Result<Answer, MemoryFault>)
    requires
        old(windows).wf(),
        index < old(windows).windows@.len(),
    ensures
        final(windows).wf(),
        final(engine).same_registers(old(engine)),
        final(windows).windows@ == old(windows).windows@.update(
            index as int,
            WindowRecord {
                control: final(windows).windows@[index as int].control,
                ..old(windows).windows@[index as int]
            },
        ),
        *final(windows) == (WindowState { windows: final(windows).windows, ..*old(windows) }),
        match ((Surroundings { windows: *old(windows), clip: old(clipboard)@, memory: old(engine).memory() }).outcome(
            index as int,
            message,
            wparam,
            lparam,
            heap,
            gdi,
        )) {
            Some(outcome) => {
                &&& result == Ok::<_, MemoryFault>(outcome.answer)
                &&& final(windows).windows@[index as int].control@ == outcome.control
                &&& final(clipboard)@ == outcome.clip
                &&& final(engine).memory() == outcome.memory
            },
            None => {
                &&& result == Err::<Answer, _>(
                    controls::control_fault(
                        old(windows).windows@[index as int].control@,
                        message,
                        wparam,
                        lparam,
                        old(engine).memory(),
                        heap,
                    ),
                )
                &&& final(windows).windows@[index as int].control@ == old(windows).windows@[index as int].control@
                &&& final(clipboard)@ == old(clipboard)@
                &&& final(engine).memory() == old(engine).memory()
            },
        },
{
    let handle = windows.windows[index].handle;
    proof {
        windows.keyboard_state.lemma_len();
    }
    let keys = Modifiers {
        shift: windows.keyboard_state.get(VK_SHIFT) & KEY_DOWN != 0,
        ctrl: windows.keyboard_state.get(VK_CONTROL) & KEY_DOWN != 0,
    };
    let captured = windows.capture_window_handle == handle;
    let focus = windows.focus_window_handle == handle;
    let frame = EditFrame {
        style: windows.windows[index].style,
        width: windows.windows[index].width,
        height: windows.windows[index].height,
        shown: windows.windows[index].visible,
        font: gdi.resolve_font(windows.windows[index].font_handle),
    };
    controls::control_message(
        &mut windows.windows[index].control,
        message,
        wparam,
        lparam,
        keys,
        captured,
        focus,
        clipboard,
        engine,
        heap,
        &frame,
    )
}

/// Let the control of a window handle a message, move the capture and ask for the
/// painting.
fn step_control(
    windows: &mut WindowState,
    index: usize,
    clipboard: &mut ClipboardState,
    gdi: &GdiState,
    engine: &mut GuestCpu,
    heap: GuestHeap,
    message: u32,
    wparam: u64,
    lparam: u64,
) -> (result: Result<Reply, MemoryFault>)
    requires
        old(windows).wf(),
        index < old(windows).windows@.len(),
    ensures
        final(windows).wf(),
        final(engine).same_registers(old(engine)),
        ({
            let before = Surroundings {
                windows: *old(windows),
                clip: old(clipboard)@,
                memory: old(engine).memory(),
            };
            match (result, before.outcome(index as int, message, wparam, lparam, heap, gdi)) {
                (Ok(reply), Some(outcome)) => {
                    &&& control_changed(
                        *old(windows),
                        *final(windows),
                        index as int,
                        outcome.control,
                        outcome.answer.capture,
                        outcome.answer.blink,
                        outcome.answer.repaint,
                    )
                    &&& final(clipboard)@ == outcome.clip
                    &&& final(engine).memory() == outcome.memory
                    &&& reply == outcome.answer.reply
                },
                (Err(fault), None) => {
                    &&& fault == controls::control_fault(
                        old(windows).windows@[index as int].control@,
                        message,
                        wparam,
                        lparam,
                        old(engine).memory(),
                        heap,
                    )
                    &&& control_changed(
                        *old(windows),
                        *final(windows),
                        index as int,
                        old(windows).windows@[index as int].control@,
                        Capture::Keep,
                        Blink::Keep,
                        Repaint::Keep,
                    )
                    &&& final(clipboard)@ == old(clipboard)@
                    &&& final(engine).memory() == old(engine).memory()
                },
                _ => false,
            }
        }),
{
    match ask_control(windows, index, clipboard, gdi, engine, heap, message, wparam, lparam) {
        Ok(answer) => {
            apply_answer(windows, index, answer);
            assert(windows.windows@ =~= old(windows).windows@.update(index as int, windows.windows@[index as int]));
            Ok(answer.reply)
        },
        Err(fault) => Err(fault),
    }
}

/// Whether a message was handled in the emulator state: by the windows, clipboard
/// and font that are there or that a first access creates, with nothing else
/// changed.
pub open spec fn control_dispatched<F>(
    before: WinApiState<F>,
    after: WinApiState<F>,
    memory: Map<int, u8>,
    memory_after: Map<int, u8>,
    hwnd: u64,
    message: u32,
    wparam: u64,
    lparam: u64,
    result: Result<Option<u64>, WinApiControlSignal>,
) -> bool {
    &&& after.same_besides_dlls(before)
    &&& exists|
        gdi: GdiState,
        windows: WindowState,
        windows_after: WindowState,
        clipboard: ClipboardState,
        clipboard_after: ClipboardState,
    |
        {
            &&& #[trigger] before.dll_states.reached(DllId::Gdi, gdi)
            &&& #[trigger] before.dll_states.reached(DllId::Window, windows)
            &&& #[trigger] before.dll_states.reached(DllId::Clipboard, clipboard)
            &&& (Surroundings { windows, clip: clipboard@, memory }).handled(
                Surroundings { windows: windows_after, clip: clipboard_after@, memory: memory_after },
                hwnd,
                message,
                wparam,
                lparam,
                *before.heap_state.heap,
                &gdi,
                result,
            )
            &&& windows_after.wf()
            &&& after.dll_states@ == before.dll_states@.update(
                dll_state::slot_index(DllId::Gdi),
                Some(gdi.inject()),
            ).update(
                dll_state::slot_index(DllId::Window),
                Some(#[trigger] windows_after.inject()),
            ).update(
                dll_state::slot_index(DllId::Clipboard),
                Some(#[trigger] clipboard_after.inject()),
            )
        }
}

/// Deliver a message to the built-in control with a handle. `Ok(None)` says that it
/// is not a control's message; a guest callback that has to run first comes back as
/// a signal.
pub fn dispatch_control_proc<F>(
    engine: &mut GuestCpu,
    state: &mut WinApiState<F>,
    hwnd: u64,
    message: u32,
    wparam: u64,
    lparam: u64,
) -> (result: Result<Option<u64>, WinApiControlSignal>)
    requires
        old(state).dll_states.accepts::<GdiState>(DllId::Gdi),
        old(state).dll_states.accepts::<WindowState>(DllId::Window),
        old(state).dll_states.accepts::<ClipboardState>(DllId::Clipboard),
        old(state).dll_states.state::<WindowState>(DllId::Window) matches Some(windows) ==> windows.wf(),
    ensures
        final(engine).same_registers(old(engine)),
        control_dispatched(
            *old(state),
            *final(state),
            old(engine).memory(),
            final(engine).memory(),
            hwnd,
            message,
            wparam,
            lparam,
            result,
        ),
{
    proof {
        state.dll_states.lemma_len();
    }
    let mut gdi = GdiState::default();
    core::mem::swap(&mut gdi, state.gdi_state());
    let mut windows = WindowState::default();
    core::mem::swap(&mut windows, state.window_state());
    let ghost windows_before = windows;
    let mut clipboard = ClipboardState::default();
    core::mem::swap(&mut clipboard, state.clipboard());
    let ghost clipboard_before = clipboard;
    let heap = *state.heap_state.heap;
    let result = deliver_message(&mut windows, &mut clipboard, &gdi, engine, heap, hwnd, message, wparam, lparam);
    let ghost windows_after = windows;
    let ghost clipboard_after = clipboard;
    *state.clipboard() = clipboard;
    *state.window_state() = windows;
    let ghost fonts = gdi;
    *state.gdi_state() = gdi;
    proof {
        assert(old(state).dll_states.reached(DllId::Gdi, fonts));
        assert(old(state).dll_states.reached(DllId::Window, windows_before));
        assert(old(state).dll_states.reached(DllId::Clipboard, clipboard_before));
        assert(state.dll_states@ =~= old(state).dll_states@.update(
            dll_state::slot_index(DllId::Gdi),
            Some(fonts.inject()),
        ).update(dll_state::slot_index(DllId::Window), Some(windows_after.inject())).update(
            dll_state::slot_index(DllId::Clipboard),
            Some(clipboard_after.inject()),
        ));
    }
    result
}

} // verus!
