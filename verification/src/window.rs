//! Window records and the USER32 state around them.
use vstd::prelude::*;

use crate::controls::ControlState;
use crate::handles::{Haccel, Hfont, Hhook, Hmenu, Hwnd};
use crate::input::KeyboardState;
use crate::menus::MenuRecord;

verus! {

/// First window handle.
pub const WINDOW_HANDLE_BASE: u64 = 0x0000_0000_6610_0000;

/// First menu handle.
pub const MENU_HANDLE_BASE: u64 = 0x0000_0000_6620_0000;

/// First hook handle.
pub const HOOK_HANDLE_BASE: u64 = 0x0000_0000_6630_0000;

/// First accelerator-table handle.
pub const ACCEL_HANDLE_BASE: u64 = 0x0000_0000_6640_0000;

/// First atom of the user-atom range.
pub const USER_ATOM_BASE: u32 = 0xC000;

/// One guest window.
#[derive(Debug)]
pub struct WindowRecord {
    pub handle: Hwnd,
    pub parent_handle: Hwnd,
    pub x: i32,
    pub y: i32,
    pub width: i32,
    pub height: i32,
    pub visible: bool,
    pub title: String,
    /// Menu handle of a top-level window, control id of a child.
    pub menu_handle: u64,
    pub mouse_tracking: bool,
    /// Guest window procedure (0 = the host default).
    pub window_proc: u64,
    /// The procedure that a subclass replaced (0 = the host default).
    pub subclass_original_wndproc: u64,
    /// `WS_*` and control style bits.
    pub style: u32,
    /// State of a built-in control.
    pub control: ControlState,
    /// Caption of a control; the text of an edit control is in its state.
    pub control_text: String,
    /// Font that the window was given (0 = the default).
    pub font_handle: Hfont,
    /// Whether the window waits to be painted.
    pub invalidated: bool,
    /// Whether its background is to be erased first.
    pub erase_background: bool,
}

impl Default for WindowRecord {
    fn default() -> (record: Self)
        ensures
            record.handle == Hwnd(0),
            record.parent_handle == Hwnd(0),
            record.x == 0,
            record.y == 0,
            record.width == 0,
            record.height == 0,
            !record.visible,
            record.title@ == Seq::<char>::empty(),
            record.menu_handle == 0,
            !record.mouse_tracking,
            record.window_proc == 0,
            record.subclass_original_wndproc == 0,
            record.style == 0,
            record.control is Plain,
            record.control_text@ == Seq::<char>::empty(),
            record.font_handle == Hfont(0),
            !record.invalidated,
            !record.erase_background,
    {
        WindowRecord {
            handle: Hwnd::null(),
            parent_handle: Hwnd::null(),
            x: 0,
            y: 0,
            width: 0,
            height: 0,
            visible: false,
            title: String::new(),
            menu_handle: 0,
            mouse_tracking: false,
            window_proc: 0,
            subclass_original_wndproc: 0,
            style: 0,
            control: ControlState::Plain,
            control_text: String::new(),
            font_handle: Hfont::null(),
            invalidated: false,
            erase_background: false,
        }
    }
}

/// The first window from index `from` on with a handle.
pub open spec fn window_from(windows: Seq<WindowRecord>, handle: u64, from: int) -> Option<int>
    decreases windows.len() - from,
{
    if from < 0 || from >= windows.len() {
        None
    } else if windows[from].handle == Hwnd(handle) {
        Some(from)
    } else {
        window_from(windows, handle, from + 1)
    }
}

/// The index of the window with a handle: the first, should there be several.
pub open spec fn window_index(windows: Seq<WindowRecord>, handle: u64) -> Option<int> {
    window_from(windows, handle, 0)
}

/// The window that a lookup finds has the handle, and no window before it has.
pub proof fn lookup_finds_the_first(windows: Seq<WindowRecord>, handle: u64)
    ensures
        match window_index(windows, handle) {
            Some(i) => {
                &&& 0 <= i < windows.len()
                &&& windows[i].handle == Hwnd(handle)
                &&& forall|j: int| 0 <= j < i ==> (#[trigger] windows[j]).handle != Hwnd(handle)
            },
            None => forall|j: int| 0 <= j < windows.len() ==> (#[trigger] windows[j]).handle != Hwnd(handle),
        },
{
    lemma_window_from(windows, handle, 0);
}

proof fn lemma_window_from(windows: Seq<WindowRecord>, handle: u64, from: int)
    requires
        0 <= from <= windows.len(),
    ensures
        match window_from(windows, handle, from) {
            Some(i) => {
                &&& from <= i < windows.len()
                &&& windows[i].handle == Hwnd(handle)
                &&& forall|j: int| from <= j < i ==> (#[trigger] windows[j]).handle != Hwnd(handle)
            },
            None => forall|j: int| from <= j < windows.len() ==> (#[trigger] windows[j]).handle != Hwnd(handle),
        },
    decreases windows.len() - from,
{
    if from < windows.len() && windows[from].handle != Hwnd(handle) {
        lemma_window_from(windows, handle, from + 1);
    }
}

/// Find the window with a handle.
pub fn find_window(windows: &[WindowRecord], handle: u64) -> (index: Option<usize>)
    ensures
        match index {
            Some(i) => window_index(windows@, handle) == Some(i as int) && i < windows@.len(),
            None => window_index(windows@, handle) is None,
        },
{
    let mut i: usize = 0;
    while i < windows.len()
        invariant
            i <= windows@.len(),
            window_from(windows@, handle, i as int) == window_index(windows@, handle),
        decreases windows@.len() - i,
    {
        if windows[i].handle.as_u64() == handle {
            return Some(i);
        }
        i = i + 1;
    }
    None
}

/// A window class that the guest registered.
#[derive(Debug, Clone)]
pub struct WindowClassRecord {
    /// Atom of the class.
    pub atom: u32,
    pub class_name: String,
    /// Procedure of its windows.
    pub window_proc: u64,
    /// `CS_*` bits.
    pub style: u32,
    /// Module that registered it.
    pub instance_handle: u64,
    pub icon_handle: u64,
    pub cursor_handle: u64,
    pub background_brush: u64,
    pub small_icon_handle: u64,
    pub unicode: bool,
    /// Resource id of the menu of its windows (0 = none).
    pub menu_name: u64,
}

/// A window timer.
#[derive(Debug, Clone, Copy, PartialEq, Eq, Structural)]
pub struct TimerRecord {
    pub window_handle: Hwnd,
    pub timer_id: u64,
    pub interval_ms: u32,
}

/// The timers without those of a window with an id.
pub open spec fn without_timer(timers: Seq<TimerRecord>, handle: Hwnd, id: u64) -> Seq<TimerRecord>
    decreases timers.len(),
{
    if timers.len() == 0 {
        timers
    } else {
        let earlier = without_timer(timers.drop_last(), handle, id);
        if timers.last().window_handle == handle && timers.last().timer_id == id {
            earlier
        } else {
            earlier.push(timers.last())
        }
    }
}

/// The timers with one of a window armed, in place of any that had its id.
pub open spec fn with_timer(timers: Seq<TimerRecord>, timer: TimerRecord) -> Seq<TimerRecord> {
    without_timer(timers, timer.window_handle, timer.timer_id).push(timer)
}

/// A disarmed timer is gone, and arming one leaves exactly one with its id.
pub proof fn timers_are_unique(timers: Seq<TimerRecord>, timer: TimerRecord, i: int)
    ensures
        0 <= i < without_timer(timers, timer.window_handle, timer.timer_id).len() ==> {
            let kept = without_timer(timers, timer.window_handle, timer.timer_id)[i];
            kept.window_handle != timer.window_handle || kept.timer_id != timer.timer_id
        },
        with_timer(timers, timer).last() == timer,
        0 <= i < with_timer(timers, timer).len() - 1 ==> {
            let kept = with_timer(timers, timer)[i];
            kept.window_handle != timer.window_handle || kept.timer_id != timer.timer_id
        },
    decreases timers.len(),
{
    if timers.len() > 0 {
        timers_are_unique(timers.drop_last(), timer, i);
    }
}

/// Disarm a timer.
pub fn remove_timer(timers: &mut Vec<TimerRecord>, handle: Hwnd, id: u64)
    ensures
        final(timers)@ == without_timer(old(timers)@, handle, id),
{
    let mut kept: Vec<TimerRecord> = Vec::new();
    let mut i: usize = 0;
    while i < timers.len()
        invariant
            i <= timers@.len(),
            kept@ == without_timer(timers@.take(i as int), handle, id),
        decreases timers@.len() - i,
    {
        let timer = timers[i];
        proof {
            assert(timers@.take(i + 1).drop_last() =~= timers@.take(i as int));
            assert(timers@.take(i + 1).last() == timer);
        }
        if timer.window_handle != handle || timer.timer_id != id {
            kept.push(timer);
        }
        i = i + 1;
    }
    assert(timers@.take(i as int) =~= timers@);
    *timers = kept;
}

/// Arm a timer.
pub fn arm_timer(timers: &mut Vec<TimerRecord>, timer: TimerRecord)
    ensures
        final(timers)@ == with_timer(old(timers)@, timer),
{
    remove_timer(timers, timer.window_handle, timer.timer_id);
    timers.push(timer);
}

/// A loaded accelerator table.
#[derive(Debug, Clone, Copy, PartialEq, Eq, Structural)]
pub struct AccelRecord {
    pub handle: Haccel,
    /// Resource id of the table.
    pub id: u16,
}

/// A message box that the host shows.
#[derive(Debug, Clone, Copy, PartialEq, Eq, Structural)]
pub struct PendingMessageBox {
    /// The button that the user chose, once there is one.
    pub pick: Option<u32>,
}

/// Windows, focus and capture, keyboard, handle counters.
#[derive(Debug)]
pub struct WindowState {
    pub windows: Vec<WindowRecord>,
    pub focus_window_handle: Hwnd,
    pub capture_window_handle: Hwnd,
    pub menu_dirty: bool,
    /// Bumped by every change that the host must see.
    pub window_mirror_rev: u64,
    /// The revision that the host has seen.
    pub window_mirror_synced_rev: u64,
    pub keyboard_state: KeyboardState,
    pub next_window_handle: Hwnd,
    pub next_menu_handle: Hmenu,
    pub next_windows_hook_handle: Hhook,
    pub next_accel_handle: Haccel,
    /// Loaded accelerator tables.
    pub accels: Vec<AccelRecord>,
    /// Menus, those of popups too.
    pub menus: Vec<MenuRecord>,
    /// Registered window-message names, in the order of their ids.
    pub registered_messages: Vec<Vec<char>>,
    /// The message box that waits for the host's answer.
    pub pending_message_box: Option<PendingMessageBox>,
    /// Registered window classes.
    pub classes: Vec<WindowClassRecord>,
    pub next_window_class_atom: u32,
    pub next_global_atom: u32,
    pub next_timer_id: u64,
    /// Armed timers.
    pub timers: Vec<TimerRecord>,
}

impl WindowState {
    /// Every control keeps its own invariant, registered messages have ids, and no
    /// menu has a handle that is still to be given.
    pub open spec fn wf(&self) -> bool {
        &&& forall|i: int| 0 <= i < self.menus@.len() ==> (#[trigger] self.menus@[i]).handle.0 < self.next_menu_handle.0
        &&& self.registered_messages@.len() <= 0x4000
        &&& forall|i: int| 0 <= i < self.windows@.len() ==> (#[trigger] self.windows@[i]).control@.wf()
    }

    /// No window yet, and every counter at the start of its own range.
    pub open spec fn is_initial(&self) -> bool {
        &&& self.windows@ == Seq::<WindowRecord>::empty()
        &&& self.focus_window_handle == Hwnd(0)
        &&& self.capture_window_handle == Hwnd(0)
        &&& !self.menu_dirty
        &&& self.window_mirror_rev == 0
        &&& self.window_mirror_synced_rev == 0
        &&& self.keyboard_state@ == Seq::new(256, |i: int| 0u8)
        &&& self.next_window_handle == Hwnd(WINDOW_HANDLE_BASE)
        &&& self.next_menu_handle == Hmenu(MENU_HANDLE_BASE)
        &&& self.next_windows_hook_handle == Hhook(HOOK_HANDLE_BASE)
        &&& self.next_accel_handle == Haccel(ACCEL_HANDLE_BASE)
        &&& self.accels@ == Seq::<AccelRecord>::empty()
        &&& self.menus@ == Seq::<MenuRecord>::empty()
        &&& self.registered_messages@ == Seq::<Vec<char>>::empty()
        &&& self.pending_message_box is None
        &&& self.classes@ == Seq::<WindowClassRecord>::empty()
        &&& self.next_window_class_atom == USER_ATOM_BASE
        &&& self.next_global_atom == USER_ATOM_BASE
        &&& self.next_timer_id == 1
        &&& self.timers@ == Seq::<TimerRecord>::empty()
    }
}

impl Default for WindowState {
    fn default() -> (state: Self)
        ensures
            state.is_initial(),
    {
        WindowState {
            windows: Vec::new(),
            focus_window_handle: Hwnd::null(),
            capture_window_handle: Hwnd::null(),
            menu_dirty: false,
            window_mirror_rev: 0,
            window_mirror_synced_rev: 0,
            keyboard_state: KeyboardState::default(),
            next_window_handle: Hwnd(WINDOW_HANDLE_BASE),
            next_menu_handle: Hmenu(MENU_HANDLE_BASE),
            next_windows_hook_handle: Hhook(HOOK_HANDLE_BASE),
            next_accel_handle: Haccel(ACCEL_HANDLE_BASE),
            accels: Vec::new(),
            menus: Vec::new(),
            registered_messages: Vec::new(),
            pending_message_box: None,
            classes: Vec::new(),
            next_window_class_atom: USER_ATOM_BASE,
            next_global_atom: USER_ATOM_BASE,
            next_timer_id: 1,
            timers: Vec::new(),
        }
    }
}

} // verus!
