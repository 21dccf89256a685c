//! Messages reach the control they are for, and what a control reports reaches its parent.
use vstd::prelude::*;

use crate::clipboard::ClipboardState;
use crate::controls::ControlModel;
use crate::dispatch;
use crate::dispatch::{OuterReturn, Surroundings, WinApiControlSignal};
use crate::dll_state::DllId;
use crate::edit::Reply;
use crate::edit_control::{Blink, Repaint};
use crate::edit_proc::Capture;
use crate::handles::Hwnd;
use crate::process::GuestHeap;
use crate::state::WinApiState;
use crate::subsystems;
use crate::subsystems::{FontRecord, GdiState};
use crate::text;
use crate::window;
use crate::window::{TimerRecord, WindowRecord, WindowState};

verus! {

/// Whether window `i` is the one with a handle: the first that has it.
pub open spec fn is_window(windows: Seq<WindowRecord>, hwnd: u64, i: int) -> bool {
    &&& 0 <= i < windows.len()
    &&& windows[i].handle.0 == hwnd
    &&& forall|j: int| 0 <= j < i ==> (#[trigger] windows[j]).handle.0 != hwnd
}

/// A window is looked up by its handle, and a handle that no window has finds none.
pub proof fn windows_are_found_by_handle(windows: Seq<WindowRecord>, hwnd: u64, i: int)
    ensures
        is_window(windows, hwnd, i) <==> window::window_index(windows, hwnd) == Some(i),
        (forall|j: int| 0 <= j < windows.len() ==> (#[trigger] windows[j]).handle.0 != hwnd) <==> window::window_index(
            windows,
            hwnd,
        ) is None,
{
    window::lookup_finds_the_first(windows, hwnd);
    if let Some(found) = window::window_index(windows, hwnd) {
        assert(windows[found].handle.0 == hwnd);
    }
    if is_window(windows, hwnd, i) {
        assert(windows[i].handle == Hwnd(hwnd));
        if let Some(found) = window::window_index(windows, hwnd) {
            if found < i {
                assert(windows[found].handle.0 != hwnd);
            }
        }
    }
}

/// A message for a window that does not exist or is no control changes nothing and is
/// left to others.
pub proof fn other_windows_are_left_alone(
    before: Surroundings,
    after: Surroundings,
    hwnd: u64,
    message: u32,
    wparam: u64,
    lparam: u64,
    heap: GuestHeap,
    gdi: &GdiState,
    result: Result<Option<u64>, WinApiControlSignal>,
)
    requires
        before.handled(after, hwnd, message, wparam, lparam, heap, gdi, result),
        forall|j: int|
            0 <= j < before.windows.windows@.len() && (#[trigger] before.windows.windows@[j]).handle.0 == hwnd
                ==> before.windows.windows@[j].control is Plain,
    ensures
        after == before,
        result == Ok::<_, WinApiControlSignal>(None::<u64>),
{
    window::lookup_finds_the_first(before.windows.windows@, hwnd);
    if let Some(i) = window::window_index(before.windows.windows@, hwnd) {
        assert(before.windows.windows@[i].handle.0 == hwnd);
    }
}

/// A control with a procedure of its own never acts by itself: every message is handed
/// to that procedure as it came, and its answer is the answer.
pub proof fn subclassed_controls_see_every_message(
    before: Surroundings,
    after: Surroundings,
    hwnd: u64,
    message: u32,
    wparam: u64,
    lparam: u64,
    heap: GuestHeap,
    gdi: &GdiState,
    result: Result<Option<u64>, WinApiControlSignal>,
    i: int,
)
    requires
        before.handled(after, hwnd, message, wparam, lparam, heap, gdi, result),
        is_window(before.windows.windows@, hwnd, i),
        !(before.windows.windows@[i].control is Plain),
        before.windows.windows@[i].window_proc != 0,
    ensures
        after == before,
        result matches Err(WinApiControlSignal::GuestCallbackRequested { request }) && request.callback_address
            == before.windows.windows@[i].window_proc && request.window_handle == hwnd && request.message == message
            && request.word_parameter == wparam && request.long_parameter == lparam && request.outer_return
            == OuterReturn::Passthrough,
{
    windows_are_found_by_handle(before.windows.windows@, hwnd, i);
}

/// What a control answers is the answer; what it reports becomes a command message to
/// its parent's procedure, with the control's id in the low word, the code in the high
/// one and the control's handle beside it. Without such a procedure the report is
/// dropped and the answer is 0.
pub proof fn reports_become_command_messages(
    windows: Seq<WindowRecord>,
    record: WindowRecord,
    code: u16,
    value: u64,
    parent: int,
)
    ensures
        dispatch::delivered(windows, record, Reply::Value(value)) == Ok::<_, WinApiControlSignal>(Some(value)),
        dispatch::delivered(windows, record, Reply::Unhandled) == Ok::<_, WinApiControlSignal>(None::<u64>),
        is_window(windows, record.parent_handle.0, parent) && windows[parent].window_proc != 0 ==> (dispatch::delivered(
            windows,
            record,
            Reply::Notify(code),
        ) matches Err(WinApiControlSignal::GuestCallbackRequested { request }) && request.callback_address
            == windows[parent].window_proc && request.window_handle == record.parent_handle.0 && request.message
            == 0x0111 && request.word_parameter == record.menu_handle % 0x1_0000 + 0x1_0000 * code
            && request.long_parameter == record.handle.0 && request.outer_return == OuterReturn::Fixed(0)),
        is_window(windows, record.parent_handle.0, parent) && windows[parent].window_proc == 0 ==> dispatch::delivered(
            windows,
            record,
            Reply::Notify(code),
        ) == Ok::<_, WinApiControlSignal>(Some(0u64)),
        (forall|j: int| 0 <= j < windows.len() ==> (#[trigger] windows[j]).handle.0 != record.parent_handle.0)
            ==> dispatch::delivered(windows, record, Reply::Notify(code)) == Ok::<_, WinApiControlSignal>(Some(0u64)),
{
    windows_are_found_by_handle(windows, record.parent_handle.0, parent);
}

/// What a control does stays with it: every other window and everything else of its own
/// window is as before. Who takes the mouse has it, with the focus where both are
/// taken; who gives it up leaves it to nobody; and the host hears of either.
pub proof fn a_control_changes_only_its_own_window(
    before: WindowState,
    after: WindowState,
    index: int,
    control: ControlModel,
    capture: Capture,
    blink: Blink,
    repaint: Repaint,
)
    requires
        0 <= index < before.windows@.len(),
        dispatch::control_changed(before, after, index, control, capture, blink, repaint),
    ensures
        after.windows@.len() == before.windows@.len(),
        forall|j: int|
            0 <= j < before.windows@.len() && j != index ==> #[trigger] after.windows@[j] == before.windows@[j],
        ({
            let old = before.windows@[index];
            let new = after.windows@[index];
            &&& new.control@ == control
            &&& new.handle == old.handle && new.parent_handle == old.parent_handle && new.title == old.title
            &&& new.x == old.x && new.y == old.y && new.width == old.width && new.height == old.height
            &&& new.visible == old.visible && new.style == old.style && new.menu_handle == old.menu_handle
            &&& new.window_proc == old.window_proc && new.font_handle == old.font_handle
            &&& new.control_text == old.control_text
            &&& repaint == Repaint::Request ==> new.invalidated
            &&& repaint == Repaint::Done ==> !new.invalidated
            &&& repaint == Repaint::Keep ==> new.invalidated == old.invalidated
        }),
        ({
            let own = before.windows@[index].handle;
            &&& capture is Take ==> after.capture_window_handle == own && after.focus_window_handle == own
            &&& capture is Hold ==> after.capture_window_handle == own && after.focus_window_handle
                == before.focus_window_handle
            &&& capture is Release ==> after.capture_window_handle.0 == 0 && after.focus_window_handle
                == before.focus_window_handle
            &&& capture is Keep ==> after.capture_window_handle == before.capture_window_handle
                && after.focus_window_handle == before.focus_window_handle && after.window_mirror_rev
                == before.window_mirror_rev
            &&& !(capture is Keep) ==> after.window_mirror_rev != before.window_mirror_rev
        }),
        after.keyboard_state == before.keyboard_state,
        after.menu_dirty == before.menu_dirty,
        after.next_window_handle == before.next_window_handle,
        after.menus == before.menus,
        after.classes == before.classes,
{
}

/// A caret that starts to blink has exactly one timer, of its own window, with the id 1
/// and half a period of 530 milliseconds; one that stops has none. The timers of other
/// windows and ids stay.
pub proof fn a_blinking_caret_has_one_timer(timers: Seq<TimerRecord>, handle: Hwnd, i: int)
    ensures
        dispatch::blinking(timers, handle, Blink::Keep) == timers,
        ({
            let armed = dispatch::blinking(timers, handle, Blink::Arm);
            &&& armed.len() >= 1
            &&& armed.last().window_handle == handle && armed.last().timer_id == 1 && armed.last().interval_ms == 530
            &&& 0 <= i < armed.len() - 1 ==> !(armed[i].window_handle == handle && armed[i].timer_id == 1)
        }),
        ({
            let stopped = dispatch::blinking(timers, handle, Blink::Disarm);
            0 <= i < stopped.len() ==> !(stopped[i].window_handle == handle && stopped[i].timer_id == 1)
        }),
        0 <= i < timers.len() && !(timers[i].window_handle == handle && timers[i].timer_id == 1) ==> dispatch::blinking(
            timers,
            handle,
            Blink::Arm,
        ).contains(timers[i]) && dispatch::blinking(timers, handle, Blink::Disarm).contains(timers[i]),
{
    let timer = TimerRecord { window_handle: handle, timer_id: 1, interval_ms: 530 };
    window::timers_are_unique(timers, timer, i);
    if 0 <= i < timers.len() && !(timers[i].window_handle == handle && timers[i].timer_id == 1) {
        lemma_timer_kept(timers, handle, 1, i);
        let kept = window::without_timer(timers, handle, 1);
        let k = choose|k: int| 0 <= k < kept.len() && kept[k] == timers[i];
        assert(dispatch::blinking(timers, handle, Blink::Arm)[k] == timers[i]);
        assert(dispatch::blinking(timers, handle, Blink::Disarm)[k] == timers[i]);
    }
}

proof fn lemma_timer_kept(timers: Seq<TimerRecord>, handle: Hwnd, id: u64, i: int)
    requires
        0 <= i < timers.len(),
        !(timers[i].window_handle == handle && timers[i].timer_id == id),
    ensures
        window::without_timer(timers, handle, id).contains(timers[i]),
    decreases timers.len(),
{
    let earlier = window::without_timer(timers.drop_last(), handle, id);
    let kept = window::without_timer(timers, handle, id);
    if i == timers.len() - 1 {
        assert(kept[kept.len() - 1] == timers[i]);
    } else {
        lemma_timer_kept(timers.drop_last(), handle, id, i);
        let k = choose|k: int| 0 <= k < earlier.len() && earlier[k] == timers.drop_last()[i];
        assert(kept[k] == timers[i]);
    }
}

/// A control handles what its window leaves to it: what the control then is, the
/// clipboard, guest memory and the answer are what its kind says. A pointer to memory
/// that is not there is reported, and nothing changes.
pub proof fn a_control_handles_its_messages(
    before: Surroundings,
    after: Surroundings,
    hwnd: u64,
    message: u32,
    wparam: u64,
    lparam: u64,
    heap: GuestHeap,
    gdi: &GdiState,
    result: Result<Option<u64>, WinApiControlSignal>,
    i: int,
)
    requires
        before.handled(after, hwnd, message, wparam, lparam, heap, gdi, result),
        is_window(before.windows.windows@, hwnd, i),
        !(before.windows.windows@[i].control is Plain),
        before.windows.windows@[i].window_proc == 0,
        message != 0x0030,
        message != 0x0031,
        message == 0x000F ==> before.windows.windows@[i].control is Edit,
        message == 0x000C ==> !(before.windows.windows@[i].control is Button || before.windows.windows@[i].control
            is Label),
        message == 0x0005 ==> !(before.windows.windows@[i].control is StatusBar),
    ensures
        match before.outcome(i, message, wparam, lparam, heap, gdi) {
            Some(outcome) => {
                &&& after.windows.windows@[i].control@ == outcome.control
                &&& after.clip == outcome.clip
                &&& after.memory == outcome.memory
                &&& result == dispatch::delivered(
                    before.windows.windows@,
                    before.windows.windows@[i],
                    outcome.answer.reply,
                )
            },
            None => {
                &&& after.windows.windows@[i].control@ == before.windows.windows@[i].control@
                &&& after.clip == before.clip
                &&& after.memory == before.memory
                &&& result matches Err(WinApiControlSignal::Fault { .. })
            },
        },
        before.outcome(i, message, wparam, lparam, heap, gdi) matches Some(outcome) ==> {
            let own = before.windows.windows@[i].handle;
            &&& outcome.answer.capture is Take ==> after.windows.capture_window_handle == own
                && after.windows.focus_window_handle == own
            &&& outcome.answer.capture is Hold ==> after.windows.capture_window_handle == own
            &&& outcome.answer.capture is Release ==> after.windows.capture_window_handle.0 == 0
            &&& outcome.answer.repaint == Repaint::Request ==> after.windows.windows@[i].invalidated
            &&& outcome.answer.repaint == Repaint::Done ==> !after.windows.windows@[i].invalidated
            &&& after.windows.timers@ == dispatch::blinking(before.windows.timers@, own, outcome.answer.blink)
        },
        forall|j: int|
            0 <= j < before.windows.windows@.len() && j != i ==> #[trigger] after.windows.windows@[j]
                == before.windows.windows@[j],
{
    windows_are_found_by_handle(before.windows.windows@, hwnd, i);
}

/// A caption that a button or a label is given is the text behind the pointer; it waits
/// to be painted. Painting takes back the request, also of a hidden window.
pub proof fn captions_are_stored_and_painted(
    before: Surroundings,
    after: Surroundings,
    hwnd: u64,
    wparam: u64,
    lparam: u64,
    heap: GuestHeap,
    gdi: &GdiState,
    result: Result<Option<u64>, WinApiControlSignal>,
    i: int,
    chars: Seq<char>,
)
    requires
        is_window(before.windows.windows@, hwnd, i),
        before.windows.windows@[i].control is Button || before.windows.windows@[i].control is Label,
        before.windows.windows@[i].window_proc == 0,
        before.handled(after, hwnd, 0x000C, wparam, lparam, heap, gdi, result),
        text::pointed_name(before.memory, lparam, false) == Some(chars),
    ensures
        after.windows.windows@[i].control_text@ == chars,
        after.windows.windows@[i].invalidated,
        after.windows.windows@[i].control == before.windows.windows@[i].control,
        after.windows.windows@[i].title == before.windows.windows@[i].title,
        result == Ok::<_, WinApiControlSignal>(Some(1u64)),
        after.clip == before.clip,
        after.memory == before.memory,
        forall|j: int|
            0 <= j < before.windows.windows@.len() && j != i ==> #[trigger] after.windows.windows@[j]
                == before.windows.windows@[j],
{
    windows_are_found_by_handle(before.windows.windows@, hwnd, i);
}

/// A paint message takes back the request to paint of every control but the edit
/// control, which keeps its own account of rows, and changes nothing else.
pub proof fn painting_takes_back_the_request(
    before: Surroundings,
    after: Surroundings,
    hwnd: u64,
    wparam: u64,
    lparam: u64,
    heap: GuestHeap,
    gdi: &GdiState,
    result: Result<Option<u64>, WinApiControlSignal>,
    i: int,
)
    requires
        is_window(before.windows.windows@, hwnd, i),
        !(before.windows.windows@[i].control is Plain),
        before.windows.windows@[i].window_proc == 0,
        before.handled(after, hwnd, 0x000F, wparam, lparam, heap, gdi, result),
    ensures
        !(before.windows.windows@[i].control is Edit) ==> {
            &&& !after.windows.windows@[i].invalidated
            &&& after.windows.windows@[i] == (WindowRecord { invalidated: false, ..before.windows.windows@[i] })
            &&& result == Ok::<_, WinApiControlSignal>(Some(0u64))
            &&& after.memory == before.memory
            &&& after.clip == before.clip
        },
        before.windows.windows@[i].control is Edit ==> !after.windows.windows@[i].invalidated,
{
    windows_are_found_by_handle(before.windows.windows@, hwnd, i);
}

/// A font that a control is given is stored; where a redraw is asked for, the window
/// waits to be erased and painted, an edit control with all its rows.
pub proof fn fonts_are_stored(
    before: Surroundings,
    after: Surroundings,
    hwnd: u64,
    font: u64,
    redraw: u64,
    heap: GuestHeap,
    gdi: &GdiState,
    result: Result<Option<u64>, WinApiControlSignal>,
    i: int,
)
    requires
        is_window(before.windows.windows@, hwnd, i),
        !(before.windows.windows@[i].control is Plain),
        before.windows.windows@[i].window_proc == 0,
        before.handled(after, hwnd, 0x0030, font, redraw, heap, gdi, result),
    ensures
        after.windows.windows@[i].font_handle.0 == font,
        result == Ok::<_, WinApiControlSignal>(Some(0u64)),
        redraw != 0 ==> after.windows.windows@[i].invalidated && after.windows.windows@[i].erase_background,
        redraw == 0 ==> after.windows.windows@[i].invalidated == before.windows.windows@[i].invalidated
            && after.windows.windows@[i].erase_background == before.windows.windows@[i].erase_background
            && after.windows.windows@[i].control@ == before.windows.windows@[i].control@,
        redraw != 0 ==> (after.windows.windows@[i].control@ matches ControlModel::Edit(field)
            ==> field.caret.invalid_rows is Full && (before.windows.windows@[i].control@ matches ControlModel::Edit(earlier)
            && field.edit == earlier.edit && field.buffer == earlier.buffer && field.caret.focused
            == earlier.caret.focused)),
        after.windows.windows@[i].width == before.windows.windows@[i].width,
        after.windows.windows@[i].style == before.windows.windows@[i].style,
        after.memory == before.memory,
        after.clip == before.clip,
        forall|j: int|
            0 <= j < before.windows.windows@.len() && j != i ==> #[trigger] after.windows.windows@[j]
                == before.windows.windows@[j],
{
    windows_are_found_by_handle(before.windows.windows@, hwnd, i);
}

/// A window measures with the font that it was given, the first one under the handle,
/// and with the default where there is no such font.
pub proof fn windows_measure_with_their_font(gdi: &GdiState, handle: crate::handles::Hfont, i: int)
    ensures
        0 <= i < gdi.fonts@.len() && gdi.fonts@[i].handle == handle && (forall|j: int|
            0 <= j < i ==> (#[trigger] gdi.fonts@[j]).handle != handle) ==> gdi.window_font(handle)
            == gdi.fonts@[i].metrics,
        (forall|j: int| 0 <= j < gdi.fonts@.len() ==> (#[trigger] gdi.fonts@[j]).handle != handle) ==> gdi.window_font(
            handle,
        ) == gdi.font_engine,
{
    lemma_font_from(gdi.fonts@, handle, 0, i);
}

proof fn lemma_font_from(fonts: Seq<FontRecord>, handle: crate::handles::Hfont, from: int, i: int)
    requires
        0 <= from <= fonts.len(),
    ensures
        from <= i < fonts.len() && fonts[i].handle == handle && (forall|j: int|
            from <= j < i ==> (#[trigger] fonts[j]).handle != handle) ==> subsystems::font_from(fonts, handle, from)
            == Some(i),
        (forall|j: int| from <= j < fonts.len() ==> (#[trigger] fonts[j]).handle != handle) ==> subsystems::font_from(
            fonts,
            handle,
            from,
        ) is None,
    decreases fonts.len() - from,
{
    if from < fonts.len() {
        lemma_font_from(fonts, handle, from + 1, i);
        if fonts[from].handle == handle {
            assert(!(forall|j: int| from <= j < fonts.len() ==> (#[trigger] fonts[j]).handle != handle));
        }
    }
}

/// A status bar that is told to size itself spans its parent and stands at its bottom
/// edge, as high as a line of its font and four rows of edges.
pub proof fn a_status_bar_spans_its_parent(
    before: Surroundings,
    after: Surroundings,
    hwnd: u64,
    wparam: u64,
    lparam: u64,
    heap: GuestHeap,
    gdi: &GdiState,
    result: Result<Option<u64>, WinApiControlSignal>,
    i: int,
    parent: int,
)
    requires
        is_window(before.windows.windows@, hwnd, i),
        before.windows.windows@[i].control is StatusBar,
        before.windows.windows@[i].window_proc == 0,
        is_window(before.windows.windows@, before.windows.windows@[i].parent_handle.0, parent),
        before.handled(after, hwnd, 0x0005, wparam, lparam, heap, gdi, result),
        0 <= gdi.window_font(before.windows.windows@[i].font_handle).line_height <= 0x7FFF_0000,
        0 <= before.windows.windows@[parent].height,
    ensures
        ({
            let bar = after.windows.windows@[i];
            let top = before.windows.windows@[parent];
            &&& bar.x == 0
            &&& bar.width == top.width
            &&& bar.height == gdi.window_font(before.windows.windows@[i].font_handle).line_height + 4
            &&& bar.y + bar.height == top.height
            &&& bar.invalidated
            &&& bar.handle == before.windows.windows@[i].handle
            &&& bar.control == before.windows.windows@[i].control
        }),
        result == Ok::<_, WinApiControlSignal>(Some(0u64)),
        after.windows.window_mirror_rev != before.windows.window_mirror_rev,
        forall|j: int|
            0 <= j < before.windows.windows@.len() && j != i ==> #[trigger] after.windows.windows@[j]
                == before.windows.windows@[j],
{
    windows_are_found_by_handle(before.windows.windows@, hwnd, i);
    windows_are_found_by_handle(before.windows.windows@, before.windows.windows@[i].parent_handle.0, parent);
}

/// A status bar whose parent is gone keeps its place and size; it still waits to be
/// painted.
pub proof fn a_status_bar_without_a_parent_stays(
    before: Surroundings,
    after: Surroundings,
    hwnd: u64,
    wparam: u64,
    lparam: u64,
    heap: GuestHeap,
    gdi: &GdiState,
    result: Result<Option<u64>, WinApiControlSignal>,
    i: int,
)
    requires
        is_window(before.windows.windows@, hwnd, i),
        before.windows.windows@[i].control is StatusBar,
        before.windows.windows@[i].window_proc == 0,
        forall|j: int|
            0 <= j < before.windows.windows@.len() ==> (#[trigger] before.windows.windows@[j]).handle.0
                != before.windows.windows@[i].parent_handle.0,
        before.handled(after, hwnd, 0x0005, wparam, lparam, heap, gdi, result),
    ensures
        ({
            let bar = after.windows.windows@[i];
            let old = before.windows.windows@[i];
            bar.x == old.x && bar.y == old.y && bar.width == old.width && bar.height == old.height && bar.invalidated
        }),
        result == Ok::<_, WinApiControlSignal>(Some(0u64)),
{
    windows_are_found_by_handle(before.windows.windows@, hwnd, i);
    windows_are_found_by_handle(before.windows.windows@, before.windows.windows@[i].parent_handle.0, 0);
}

/// A message that the emulator dispatches is handled by the windows, the clipboard and
/// the fonts of the state, which keeps all else: what is there afterwards is found
/// there again.
pub proof fn dispatched_messages_are_kept<F>(
    before: WinApiState<F>,
    after: WinApiState<F>,
    memory: Map<int, u8>,
    memory_after: Map<int, u8>,
    hwnd: u64,
    message: u32,
    wparam: u64,
    lparam: u64,
    result: Result<Option<u64>, WinApiControlSignal>,
    windows: WindowState,
    clipboard: ClipboardState,
    gdi: GdiState,
)
    requires
        dispatch::control_dispatched(before, after, memory, memory_after, hwnd, message, wparam, lparam, result),
        before.dll_states.state::<WindowState>(DllId::Window) == Some(windows),
        before.dll_states.state::<ClipboardState>(DllId::Clipboard) == Some(clipboard),
        before.dll_states.state::<GdiState>(DllId::Gdi) == Some(gdi),
    ensures
        after.process == before.process,
        after.kernel == before.kernel,
        after.message_queue == before.message_queue,
        after.heap_state == before.heap_state,
        after.dll_states.state::<GdiState>(DllId::Gdi) == Some(gdi),
        after.dll_states.state::<WindowState>(DllId::Window) matches Some(windows_after)
            && after.dll_states.state::<ClipboardState>(DllId::Clipboard) matches Some(clipboard_after)
            && windows_after.wf() && (Surroundings { windows, clip: clipboard@, memory }).handled(
            Surroundings { windows: windows_after, clip: clipboard_after@, memory: memory_after },
            hwnd,
            message,
            wparam,
            lparam,
            *before.heap_state.heap,
            &gdi,
            result,
        ),
        after.dll_states@[5] == before.dll_states@[5],
        after.dll_states@[12] == before.dll_states@[12],
{
    before.dll_states.lemma_len();
    after.dll_states.lemma_len();
}

/// The keys that controls look at are Shift and Ctrl: they are held while the top bit of
/// their entry in the keyboard state is set.
pub proof fn held_keys_have_their_top_bit_set(keys: Seq<u8>)
    ensures
        dispatch::held(keys).shift <==> keys[0x10] >= 0x80,
        dispatch::held(keys).ctrl <==> keys[0x11] >= 0x80,
{
    let shift: u8 = keys[0x10];
    let ctrl: u8 = keys[0x11];
    assert((shift & 0x80u8 != 0) == (shift >= 0x80)) by (bit_vector);
    assert((ctrl & 0x80u8 != 0) == (ctrl >= 0x80)) by (bit_vector);
}

/// A control is handed what concerns it: its own style and size, the font of its window,
/// whether it is shown, has the focus or the mouse, the held keys, the clipboard and
/// guest memory.
pub proof fn a_control_is_handed_its_own_window(
    before: Surroundings,
    i: int,
    message: u32,
    wparam: u64,
    lparam: u64,
    heap: GuestHeap,
    gdi: &GdiState,
)
    ensures
        ({
            let record = before.windows.windows@[i];
            before.outcome(i, message, wparam, lparam, heap, gdi) == crate::controls::control_outcome(
                record.control@,
                message,
                wparam,
                lparam,
                crate::controls::ControlWorld {
                    edit: crate::edit_proc::EditWorld {
                        keys: crate::edit_proc::Modifiers {
                            shift: before.windows.keyboard_state@[0x10] >= 0x80,
                            ctrl: before.windows.keyboard_state@[0x11] >= 0x80,
                        },
                        captured: before.windows.capture_window_handle == record.handle,
                        clip: before.clip,
                        memory: before.memory,
                    },
                    focus: before.windows.focus_window_handle == record.handle,
                    heap,
                },
                &crate::edit::EditFrame {
                    style: record.style,
                    width: record.width,
                    height: record.height,
                    shown: record.visible,
                    font: &gdi.window_font(record.font_handle),
                },
            )
        }),
{
    held_keys_have_their_top_bit_set(before.windows.keyboard_state@);
}

} // verus!
