//! The caret bar, the rows that wait to be painted and the guest's copy of a text.
#![allow(dead_code)]

use std::sync::Arc;

use wie_winapi::caret::{EditInvalidation, RowBand};
use wie_winapi::controls::{ControlClassKind, ControlState};
use wie_winapi::cpu::{GuestCpu, MemoryFault};
use wie_winapi::dispatch::{dispatch_control_proc, WinApiControlSignal};
use wie_winapi::display::DisplayMetrics;
use wie_winapi::dll_state::DllStateMap;
use wie_winapi::edit::{VK_DOWN, VK_END};
use wie_winapi::edit_control::EditControl;
use wie_winapi::font::FontEngine;
use wie_winapi::handles::{FileHandle, FindFileHandle, Hfont, Hwnd, ModuleHandle, RegistryKeyHandle, ResourceHandle};
use wie_winapi::kernel::{ActiveThread, KernelState, SyncState, ThreadState};
use wie_winapi::layout::ES_MULTILINE;
use wie_winapi::messages::{
    EM_GETHANDLE, EM_SETHANDLE, EM_SETSEL, WM_CHAR, WM_KEYDOWN, WM_KILLFOCUS, WM_LBUTTONDOWN, WM_PAINT, WM_SETFOCUS,
    WM_SETFONT, WM_SETTEXT, WM_TIMER,
};
use wie_winapi::present::{MessageQueue, WakeHub};
use wie_winapi::process::{
    FileIoState, GuestHeap, GuestStdinMode, HeapState, ModuleState, ProcessState, VolumeConfig, WinApiEnvironment,
};
use wie_winapi::state::WinApiState;
use wie_winapi::subsystems::FontRecord;
use wie_winapi::window::{arm_timer, remove_timer, TimerRecord, WindowRecord};

type State = WinApiState<()>;

const STACK_VA: u64 = 0x100_0000;
const STACK_SIZE: usize = 0x1_0000;
const STACK_TOP: u64 = 0x100_FF00;

fn test_engine() -> GuestCpu {
    let mut cpu = GuestCpu::new();
    cpu.mem_map(0x1000, 0x10_0000).expect("map test memory");
    cpu.mem_map(STACK_VA, STACK_SIZE).expect("map test stack");
    cpu.mem_write(STACK_TOP, &0_u64.to_le_bytes()).expect("write return address");
    cpu.rsp = STACK_TOP;
    cpu
}

fn default_winapi_state() -> State {
    WinApiState {
        heap_state: HeapState {
            heap: Arc::new(GuestHeap { base: 0x2000, end: 0x10000 }),
            next_fls_index: 0,
            fls_slots: Vec::new(),
            guest_fls_table_va: 0,
        },
        file_io: FileIoState {
            executable_file_size: 0,
            executable_file_bytes: Arc::new(Vec::new()),
            executable_file_cursor: 0,
            next_find_handle: FindFileHandle::null(),
            find_handles: Vec::new(),
            host_file_mounts: Vec::new(),
            virtual_files: Vec::new(),
            open_files: ahash::HashMap::default(),
            next_file_handle: FileHandle::null(),
            next_resource_handle: ResourceHandle::null(),
            resources: Vec::new(),
            current_directory_wide: Vec::new(),
            bottle_root: None,
            volumes: VolumeConfig { drive_d: None },
            guest_file_data_next: 0,
            guest_io: None,
            stdin_bytes: Vec::new(),
            stdin_cursor: 0,
            stdin_mode: GuestStdinMode::default(),
            ucrt_files: ahash::HashMap::default(),
            ucrt_next_file_va: 0,
        },
        module_state: ModuleState {
            loaded_modules: ahash::HashMap::default(),
            import_resolver: None,
            get_proc_address_cache: ahash::HashMap::default(),
            next_module_handle: ModuleHandle::null(),
        },
        process: ProcessState {
            last_error: 0,
            next_registry_key_handle: RegistryKeyHandle::from(0x100),
            registry_keys: Vec::new(),
            main_module_file_name: String::new(),
            main_module_path: String::new(),
            main_module_host_dir: None,
            error_mode: 0,
            suspended_threads: ahash::HashMap::default(),
            environment: Vec::new(),
            main_module_dialogs: Vec::new(),
            main_module_menus: Vec::new(),
            main_module_strings: Vec::new(),
            main_module_accelerators: Vec::new(),
        },
        display: DisplayMetrics::default(),
        kernel: KernelState {
            threads: ThreadState { active: ActiveThread { tid: 1, last_error: 0 } },
            sync: SyncState { wake_hub: WakeHub { id: 7 } },
            seh_pending: ahash::HashMap::default(),
        },
        dll_states: DllStateMap::new(),
        message_queue: MessageQueue::default(),
    }
}

fn default_env() -> WinApiEnvironment {
    WinApiEnvironment {
        image_base: 0x0000_0000_1400_0000,
        command_line_a_ptr: 0,
        command_line_w_ptr: 0,
        environment_strings_w_ptr: 0,
        module_file_name_a_ptr: 0,
        module_file_name_w_ptr: 0,
        process_heap_handle: 1,
    }
}

fn write_regs(cpu: &mut GuestCpu, rcx: u64, rdx: u64, r8: u64, r9: u64, rsp: u64) {
    cpu.rcx = rcx;
    cpu.rdx = rdx;
    cpu.r8 = r8;
    cpu.r9 = r9;
    cpu.rsp = if rsp == 0 { STACK_TOP } else { rsp };
}

fn read_into(engine: &GuestCpu, addr: u64, buffer: &mut [u8], what: &str) {
    let bytes = engine.mem_read(addr, buffer.len()).expect(what);
    buffer.copy_from_slice(&bytes);
}

fn write_guest_utf16(engine: &mut GuestCpu, addr: u64, s: &str) {
    let mut bytes: Vec<u8> = Vec::new();
    for unit in s.encode_utf16() {
        bytes.extend_from_slice(&unit.to_le_bytes());
    }
    bytes.extend_from_slice(&0_u16.to_le_bytes());
    engine.mem_write(addr, &bytes).expect("write guest UTF-16 string");
}

fn write_guest_ansi(engine: &mut GuestCpu, addr: u64, s: &str) {
    let mut bytes = s.as_bytes().to_vec();
    bytes.push(0);
    engine.mem_write(addr, &bytes).expect("write guest ANSI string");
}

struct CaretUi {
    caret: usize,
    sel_start: usize,
    sel_end: usize,
    focused: bool,
    caret_on: bool,
    invalid_rows: EditInvalidation,
    last_paint_rows: usize,
}

fn edit_field(state: &mut State, hwnd: u64) -> &mut EditControl {
    let window = state.window_state().windows.iter_mut().find(|w| w.handle == Hwnd::from(hwnd)).expect("control record");
    match &mut window.control {
        ControlState::Edit(field) => field,
        _ => panic!("not an edit control"),
    }
}

fn field_of(state: &State, hwnd: u64) -> &EditControl {
    let ws = state.try_window_state().expect("window state");
    let window = ws.windows.iter().find(|w| w.handle == Hwnd::from(hwnd)).expect("control record");
    match &window.control {
        ControlState::Edit(field) => field,
        _ => panic!("not an edit control"),
    }
}

fn control_ui(state: &State, hwnd: u64) -> CaretUi {
    let field = field_of(state, hwnd);
    let (sel_start, sel_end) = field.edit.selection();
    CaretUi {
        caret: field.edit.caret(),
        sel_start,
        sel_end,
        focused: field.caret.focused,
        caret_on: field.caret.on,
        invalid_rows: field.caret.invalid_rows,
        last_paint_rows: field.caret.last_paint_rows.unwrap_or(0),
    }
}

fn control_text(state: &State, hwnd: u64) -> String {
    field_of(state, hwnd).edit.text().iter().collect()
}

fn edit_caret_drawn_row(state: &State, hwnd: u64) -> Option<usize> {
    field_of(state, hwnd).caret.drawn_row
}

fn edit_control(text: &str) -> ControlState {
    ControlClassKind::Edit.new_state(text.chars().collect())
}

fn push_child(state: &mut State, window_proc: u64, text: &str, style: u32, width: i32, height: i32) -> (u64, u64) {
    let parent = 0x6610_0021_u64;
    let edit = 0x6610_0022_u64;
    let ws = state.window_state();
    ws.windows.push(WindowRecord { handle: Hwnd::from(parent), window_proc, ..Default::default() });
    ws.windows.push(WindowRecord {
        handle: Hwnd::from(edit),
        parent_handle: Hwnd::from(parent),
        control: edit_control(text),
        style,
        menu_handle: 12,
        visible: true,
        width,
        height,
        ..Default::default()
    });
    (parent, edit)
}

fn push_edit_pair(state: &mut State) -> (u64, u64) {
    push_child(state, 0x7000_0000, "hello", 0, 120, 20)
}

fn push_multiline_edit(state: &mut State, text: &str) -> (u64, u64) {
    push_child(state, 0x7000_0000, text, ES_MULTILINE, 120, 20)
}

fn push_multiline_edit_pair(state: &mut State) -> (u64, u64) {
    push_child(state, 0, "alpha\nbeta\ngamma", ES_MULTILINE, 120, 60)
}

fn press_key(engine: &mut GuestCpu, state: &mut State, edit: u64, vk: u64) {
    let _ = dispatch_control_proc(engine, state, edit, WM_KEYDOWN, vk, 0);
}

#[test]
fn test_edit_caret_blink_timer_toggles_caret_phase() {
    let mut engine = test_engine();
    let mut state = default_winapi_state();
    let (_, edit) = push_multiline_edit(&mut state, "line1\nline2\nline3");

    // Focus arms the internal blink timer and resets the caret to the on
    // phase (the caret bar shows solid until the first tick).
    dispatch_control_proc(
        &mut engine,
        &mut state,
        edit,
        WM_SETFOCUS,
        0,
        0,
    )
    .expect("focus ok")
    .expect("some result");
    let caret_timer = state
        .window_state()
        .timers
        .iter()
        .find(|t| t.window_handle == Hwnd::from(edit) && t.timer_id == 1)
        .expect("focus must arm the caret timer");
    assert_eq!(
        caret_timer.interval_ms, 530,
        "the blink half-period is the SPI_GETCARETTIMEOUT default"
    );
    assert!(
        control_ui(&state, edit).caret_on,
        "the caret starts in the on phase"
    );

    // Each WM_TIMER tick flips the phase, so the caret bar alternates
    // between drawn and hidden (the paint draws it only in the on phase).
    dispatch_control_proc(
        &mut engine,
        &mut state,
        edit,
        WM_TIMER,
        1,
        0,
    )
    .expect("timer ok")
    .expect("some result");
    assert!(
        !control_ui(&state, edit).caret_on,
        "the first tick hides the caret"
    );
    dispatch_control_proc(
        &mut engine,
        &mut state,
        edit,
        WM_TIMER,
        1,
        0,
    )
    .expect("timer ok")
    .expect("some result");
    assert!(
        control_ui(&state, edit).caret_on,
        "the second tick shows it again"
    );

    // A WM_TIMER with a different id is not the caret timer: not the edit's
    // business (falls through, no state change).
    let r = dispatch_control_proc(
        &mut engine,
        &mut state,
        edit,
        WM_TIMER,
        99,
        0,
    )
    .expect("other timer ok");
    assert_eq!(r, None, "an unknown timer id must not touch the edit");

    // Losing focus disarms the timer and clears the focus flag (the paint
    // already skips the caret while unfocused).
    dispatch_control_proc(
        &mut engine,
        &mut state,
        edit,
        WM_KILLFOCUS,
        0,
        0,
    )
    .expect("killfocus ok")
    .expect("some result");
    assert!(
        !state
            .window_state()
            .timers
            .iter()
            .any(|t| t.window_handle == Hwnd::from(edit)),
        "kill focus must disarm the caret timer"
    );
    assert!(
        !control_ui(&state, edit).focused,
        "kill focus clears the flag"
    );
}

#[test]
fn test_edit_blink_tick_invalidates_last_drawn_and_current_caret_rows() {
    let mut engine = test_engine();
    let mut state = default_winapi_state();
    // 120×60 client: all three rows are visible (no auto-scroll on moves).
    let (_, edit) = push_multiline_edit_pair(&mut state);

    // Focus + paint: the caret (row 0) is drawn and its row recorded — the
    // surface now shows the bar on row 0.
    dispatch_control_proc(
        &mut engine,
        &mut state,
        edit,
        WM_SETFOCUS,
        0,
        0,
    )
    .expect("focus ok")
    .expect("some result");
    dispatch_control_proc(
        &mut engine,
        &mut state,
        edit,
        WM_PAINT,
        0,
        0,
    )
    .expect("paint ok")
    .expect("some result");
    assert_eq!(
        edit_caret_drawn_row(&state, edit),
        Some(0),
        "the paint must record the row where it drew the bar"
    );

    // Simulate the ghost interleaving: the caret moved to row 2 (the char
    // `a` of "gamma") after that paint and no repaint followed, so the bar
    // is still on the surface at row 0 while the caret lives on row 2.
    edit_field(&mut state, edit).edit.select(12, 12);

    // The blink tick hides the bar and must repaint BOTH rows: the stale
    // row 0 (erase the old bar) and the caret's current row 2.
    dispatch_control_proc(
        &mut engine,
        &mut state,
        edit,
        WM_TIMER,
        1, // CARET_TIMER_ID
        0,
    )
    .expect("blink ok")
    .expect("some result");
    assert!(
        matches!(
            control_ui(&state, edit).invalid_rows,
            EditInvalidation::Band(band)
                if band.lo == 0 && band.hi >= 2
        ),
        "the tick must repaint the last-drawn row (0) and the current caret row (2), got {:?}",
        control_ui(&state, edit).invalid_rows
    );
}

#[test]
fn test_edit_caret_move_with_blink_off_covers_old_and_new_rows() {
    let mut engine = test_engine();
    let mut state = default_winapi_state();
    // 120×60 client: the caret move from row 0 to row 1 stays in view, so
    // no auto-scroll can widen the pending band to a full repaint.
    let (_, edit) = push_multiline_edit_pair(&mut state);

    // Focus + paint, then flip the blink phase OFF (one tick): the bar is
    // hidden, so the next repaint must still cover the rows the caret
    // travels — a repaint that skips the old row could leave a stale bar
    // from an earlier paint on the surface.
    dispatch_control_proc(
        &mut engine,
        &mut state,
        edit,
        WM_SETFOCUS,
        0,
        0,
    )
    .expect("focus ok")
    .expect("some result");
    dispatch_control_proc(
        &mut engine,
        &mut state,
        edit,
        WM_TIMER,
        1, // CARET_TIMER_ID
        0,
    )
    .expect("blink ok")
    .expect("some result");
    assert!(
        !control_ui(&state, edit).caret_on,
        "the tick must hide the caret before the move"
    );

    // VK_DOWN moves the caret from row 0 to row 1. The EN_VSCROLL
    // notification reaches the parent: with no guest WndProc in this
    // fixture it resolves to a silent Ok (a guest-proc parent would
    // deliver a control signal instead).
    let moved = dispatch_control_proc(
        &mut engine,
        &mut state,
        edit,
        WM_KEYDOWN,
        VK_DOWN,
        0,
    );
    assert!(moved.is_ok(), "VK_DOWN must be handled by the edit");
    assert_eq!(
        control_ui(&state, edit).caret,
        6,
        "the caret must land at the start of row 1"
    );
    assert!(
        matches!(
            control_ui(&state, edit).invalid_rows,
            EditInvalidation::Band(band)
                if band.lo == 0 && band.hi >= 1
        ),
        "the move must repaint the old caret row (0) and the new one (1), got {:?}",
        control_ui(&state, edit).invalid_rows
    );
}

#[test]
fn test_edit_mouse_click_focus_resets_caret_blink_and_arms_timer() {
    let mut engine = test_engine();
    let mut state = default_winapi_state();
    let (_, edit) = push_multiline_edit(&mut state, "alpha\nbeta\ngamma");

    // Focus, flip the phase OFF, then lose focus: the edit is left with the
    // caret hidden and the blink timer disarmed — the exact state a later
    // mouse click must repair.
    dispatch_control_proc(
        &mut engine,
        &mut state,
        edit,
        WM_SETFOCUS,
        0,
        0,
    )
    .expect("focus ok")
    .expect("some result");
    dispatch_control_proc(
        &mut engine,
        &mut state,
        edit,
        WM_TIMER,
        1, // CARET_TIMER_ID
        0,
    )
    .expect("blink ok")
    .expect("some result");
    dispatch_control_proc(
        &mut engine,
        &mut state,
        edit,
        WM_KILLFOCUS,
        0,
        0,
    )
    .expect("killfocus ok")
    .expect("some result");
    assert!(
        !control_ui(&state, edit).caret_on,
        "the edit must be left in the hidden blink phase"
    );
    assert!(
        !state
            .window_state()
            .timers
            .iter()
            .any(|t| { t.window_handle == Hwnd::from(edit) && t.timer_id == 1 }),
        "kill focus must have disarmed the blink timer"
    );

    // A mouse click on the edit (the EDIT WM_LBUTTONDOWN arm) focuses it
    // without a WM_SETFOCUS: the phase must come back ON and the timer must
    // re-arm with the 530 ms blink half-period.
    dispatch_control_proc(
        &mut engine,
        &mut state,
        edit,
        WM_LBUTTONDOWN,
        0,
        u64::from((5_u32 << 16) | 5_u32), // lParam = (y << 16) | x
    )
    .expect("click ok")
    .expect("some result");
    assert!(
        control_ui(&state, edit).caret_on,
        "the click must reset the caret to the on phase"
    );
    assert!(
        control_ui(&state, edit).focused,
        "the click must focus the edit"
    );
    assert!(
        state.window_state().timers.iter().any(|t| {
            t.window_handle == Hwnd::from(edit)
                && t.timer_id == 1
                && t.interval_ms == 530
        }),
        "the click must re-arm the 530 ms caret timer"
    );
}

#[test]
fn test_edit_paint_records_the_row_where_the_caret_was_drawn() {
    let mut engine = test_engine();
    let mut state = default_winapi_state();
    // 120×60 client: row 2 is on-screen, so the paint can actually draw the
    // bar there.
    let (_, edit) = push_multiline_edit_pair(&mut state);

    // Never painted: nothing recorded.
    assert_eq!(
        edit_caret_drawn_row(&state, edit),
        None,
        "a never-painted edit has no drawn bar row"
    );

    // Focus + paint: the bar lands on row 0 and is recorded.
    dispatch_control_proc(
        &mut engine,
        &mut state,
        edit,
        WM_SETFOCUS,
        0,
        0,
    )
    .expect("focus ok")
    .expect("some result");
    dispatch_control_proc(
        &mut engine,
        &mut state,
        edit,
        WM_PAINT,
        0,
        0,
    )
    .expect("paint ok")
    .expect("some result");
    assert_eq!(
        edit_caret_drawn_row(&state, edit),
        Some(0),
        "the first paint records the caret's row"
    );

    // The caret moves to row 2; the next paint records row 2.
    dispatch_control_proc(
        &mut engine,
        &mut state,
        edit,
        EM_SETSEL,
        12,
        12,
    )
    .expect("setsel ok")
    .expect("some result");
    dispatch_control_proc(
        &mut engine,
        &mut state,
        edit,
        WM_PAINT,
        0,
        0,
    )
    .expect("paint2 ok")
    .expect("some result");
    assert_eq!(
        edit_caret_drawn_row(&state, edit),
        Some(2),
        "the record follows the caret to row 2"
    );

    // Blink off + paint: the bar is NOT drawn, so the record is untouched
    // (it still names the row the surface shows the bar on — the blink tick
    // erases it from there once the phase returns).
    dispatch_control_proc(
        &mut engine,
        &mut state,
        edit,
        WM_TIMER,
        1, // CARET_TIMER_ID
        0,
    )
    .expect("blink ok")
    .expect("some result");
    dispatch_control_proc(
        &mut engine,
        &mut state,
        edit,
        WM_PAINT,
        0,
        0,
    )
    .expect("paint3 ok")
    .expect("some result");
    assert!(
        !control_ui(&state, edit).caret_on,
        "the blink phase must be off for this paint"
    );
    assert_eq!(
        edit_caret_drawn_row(&state, edit),
        Some(2),
        "a paint that skips the bar must leave the record untouched"
    );
}

#[test]
fn test_edit_em_get_handle_caches_and_invalidates() {
    let mut engine = test_engine();
    let mut state = default_winapi_state();
    let (_, edit) = push_edit_pair(&mut state); // "hello"

    // Prime the cursor in the heap's control block, at 0x2000.
    engine
        .mem_write(0x2000, &0x2000_u64.to_le_bytes())
        .expect("guest heap bump cursor");

    let first = dispatch_control_proc(
        &mut engine,
        &mut state,
        edit,
        EM_GETHANDLE,
        0,
        0,
    )
    .expect("gethandle ok")
    .expect("some result");
    assert_ne!(first, 0, "EM_GETHANDLE returns a guest buffer");
    // ANSI: the handle points at "hello" + NUL.
    let mut head = [0_u8; 6];
    read_into(&engine, first, &mut head, "read handle buffer");
    assert_eq!(head, *b"hello\0", "handle buffer holds a copy of the text");

    // A second GETHANDLE with no intervening mutation reuses the cached
    // buffer instead of leaking a fresh allocation per call.
    let again = dispatch_control_proc(
        &mut engine,
        &mut state,
        edit,
        EM_GETHANDLE,
        0,
        0,
    )
    .expect("gethandle again ok")
    .expect("some result");
    assert_eq!(
        again, first,
        "repeat GETHANDLE without a text change must return the cached handle"
    );

    // A keystroke mutates the text → the cache clears and the next GETHANDLE
    // allocates a fresh buffer holding the new text.
    press_key(&mut engine, &mut state, edit, VK_END);
    dispatch_control_proc(
        &mut engine,
        &mut state,
        edit,
        WM_CHAR,
        u64::from(u32::from('X')),
        0,
    )
    .expect_err("typing delivers EN_CHANGE");
    let fresh = dispatch_control_proc(
        &mut engine,
        &mut state,
        edit,
        EM_GETHANDLE,
        0,
        0,
    )
    .expect("gethandle after mutation ok")
    .expect("some result");
    assert_ne!(fresh, first, "a mutation must invalidate the cached handle");
    let mut head = [0_u8; 7];
    read_into(&engine, fresh, &mut head, "read fresh buffer");
    assert_eq!(head, *b"helloX\0", "the fresh buffer holds the new text");

    // WM_SETTEXT also changes the text: the next GETHANDLE is fresh again.
    write_guest_ansi(&mut engine, 0x4000, "set");
    dispatch_control_proc(
        &mut engine,
        &mut state,
        edit,
        WM_SETTEXT,
        0,
        0x4000,
    )
    .expect("settext ok")
    .expect("some result");
    let after_settext = dispatch_control_proc(
        &mut engine,
        &mut state,
        edit,
        EM_GETHANDLE,
        0,
        0,
    )
    .expect("gethandle after settext ok")
    .expect("some result");
    assert_ne!(
        after_settext, fresh,
        "WM_SETTEXT must invalidate the cached handle"
    );
    let mut head = [0_u8; 4];
    read_into(&engine, after_settext, &mut head, "read settext buffer");
    assert_eq!(head, *b"set\0", "the buffer holds the WM_SETTEXT text");
}

#[test]
fn test_edit_em_set_handle_adopts_guest_text() {
    let mut engine = test_engine();
    let mut state = default_winapi_state();
    let (_, edit) = push_edit_pair(&mut state); // "hello"

    // Leave a selection behind so SETHANDLE's reset is observable.
    dispatch_control_proc(
        &mut engine,
        &mut state,
        edit,
        EM_SETSEL,
        2,
        4,
    )
    .expect("setsel ok")
    .expect("some result");
    write_guest_ansi(&mut engine, 0x4000, "adopted");
    let r = dispatch_control_proc(
        &mut engine,
        &mut state,
        edit,
        EM_SETHANDLE,
        0,
        0x4000,
    )
    .expect("sethandle ok")
    .expect("some result");
    assert_eq!(r, 1, "EM_SETHANDLE returns TRUE");
    assert_eq!(control_text(&state, edit), "adopted");
    let ui = control_ui(&state, edit);
    assert_eq!((ui.caret, ui.sel_start, ui.sel_end), (0, 0, 0));

    // The adopted buffer becomes the cached GETHANDLE result (the text is
    // unchanged since the adoption, so no fresh allocation happens).
    let handle = dispatch_control_proc(
        &mut engine,
        &mut state,
        edit,
        EM_GETHANDLE,
        0,
        0,
    )
    .expect("gethandle ok")
    .expect("some result");
    assert_eq!(handle, 0x4000, "GETHANDLE returns the adopted buffer");
}

#[test]
fn typing_dirties_only_its_row() {
    let mut engine = test_engine();
    let mut state = default_winapi_state();
    let (_, edit) = push_multiline_edit_pair(&mut state);
    dispatch_control_proc(&mut engine, &mut state, edit, WM_PAINT, 0, 0).expect("paint").expect("handled");
    assert_eq!(control_ui(&state, edit).invalid_rows, EditInvalidation::Clean);
    let typed = dispatch_control_proc(&mut engine, &mut state, edit, WM_CHAR, u64::from(u32::from('X')), 0);
    assert_eq!(typed, Ok(Some(0)), "the parent has no procedure to notify");
    assert_eq!(control_ui(&state, edit).invalid_rows, EditInvalidation::Band(RowBand { lo: 0, hi: 0 }));
    dispatch_control_proc(&mut engine, &mut state, edit, WM_CHAR, 13, 0).expect("enter").expect("handled");
    assert_eq!(
        control_ui(&state, edit).invalid_rows,
        EditInvalidation::Band(RowBand { lo: 0, hi: 3 }),
        "every row below moved down"
    );
    for _ in 0..3 {
        dispatch_control_proc(&mut engine, &mut state, edit, WM_KEYDOWN, VK_DOWN, 0).expect("down").expect("handled");
    }
    assert_eq!(control_ui(&state, edit).invalid_rows, EditInvalidation::Full, "the client scrolled");
}

#[test]
fn bands_merge() {
    let band = EditInvalidation::Clean.add_rows(5, 3);
    assert_eq!(band, EditInvalidation::Band(RowBand { lo: 3, hi: 5 }));
    assert_eq!(band.add_rows(8, 8), EditInvalidation::Band(RowBand { lo: 3, hi: 8 }));
    assert_eq!(band.add_rows(4, 4), band);
    assert_eq!(EditInvalidation::Full.add_rows(1, 2), EditInvalidation::Full);
}

#[test]
fn a_full_heap_hands_out_no_buffer() {
    let mut engine = test_engine();
    let mut state = default_winapi_state();
    let (_, edit) = push_edit_pair(&mut state);
    engine.write_u64(0x2000, 0xFFFB).expect("cursor");
    assert_eq!(dispatch_control_proc(&mut engine, &mut state, edit, EM_GETHANDLE, 0, 0), Ok(Some(0)));
    assert_eq!(field_of(&state, edit).buffer, None);
    engine.write_u64(0x2000, 0x3001).expect("cursor");
    assert_eq!(dispatch_control_proc(&mut engine, &mut state, edit, EM_GETHANDLE, 0, 0), Ok(Some(0x3010)));
    assert_eq!(engine.read_u64(0x2000), Ok(0x3016), "the cursor is past the block");
    assert_eq!(engine.mem_read(0x3010, 6), Ok(b"hello\0".to_vec()));
    state.heap_state.heap = Arc::new(GuestHeap { base: 0x7000_0000, end: 0x7001_0000 });
    edit_field(&mut state, edit).buffer = None;
    let unmapped = dispatch_control_proc(&mut engine, &mut state, edit, EM_GETHANDLE, 0, 0);
    assert_eq!(
        unmapped,
        Err(WinApiControlSignal::Fault { fault: MemoryFault { address: 0x7000_0000 } })
    );
}

#[test]
fn heap_blocks_do_not_overlap() {
    let mut engine = test_engine();
    let heap = GuestHeap { base: 0x2000, end: 0x2040 };
    assert_eq!(heap.allocate(&mut engine, &[1; 5]), Ok(Some(0x2010)), "past the control block");
    assert_eq!(heap.allocate(&mut engine, &[2; 16]), Ok(Some(0x2020)));
    assert_eq!(heap.allocate(&mut engine, &[3; 17]), Ok(None));
    assert_eq!(heap.allocate(&mut engine, &[3; 16]), Ok(Some(0x2030)));
    assert_eq!(engine.mem_read(0x2010, 5), Ok(vec![1; 5]));
    assert_eq!(engine.mem_read(0x2020, 16), Ok(vec![2; 16]));
    let unmapped = GuestHeap { base: 0x10_0FF0, end: u64::MAX };
    assert_eq!(unmapped.allocate(&mut engine, &[0; 2000]), Err(MemoryFault { address: 0x10_1000 }));
}

#[test]
fn adopting_a_null_handle_empties_the_text() {
    let mut engine = test_engine();
    let mut state = default_winapi_state();
    let (_, edit) = push_edit_pair(&mut state);
    assert_eq!(dispatch_control_proc(&mut engine, &mut state, edit, EM_SETHANDLE, 0, 0), Ok(Some(1)));
    assert_eq!(control_text(&state, edit), "");
    assert_eq!(field_of(&state, edit).buffer, None);
    let unmapped = dispatch_control_proc(&mut engine, &mut state, edit, EM_SETHANDLE, 0, 0x7000_0000);
    assert_eq!(
        unmapped,
        Err(WinApiControlSignal::Fault { fault: MemoryFault { address: 0x7000_0000 } })
    );
}

#[test]
fn one_timer_per_window_and_id() {
    let timer = |window: u64, timer_id: u64, interval_ms: u32| TimerRecord {
        window_handle: Hwnd::from(window),
        timer_id,
        interval_ms,
    };
    let mut timers = vec![timer(1, 1, 10), timer(1, 2, 10), timer(2, 1, 10)];
    arm_timer(&mut timers, timer(1, 1, 20));
    assert_eq!(timers, [timer(1, 2, 10), timer(2, 1, 10), timer(1, 1, 20)]);
    remove_timer(&mut timers, Hwnd::from(2), 1);
    remove_timer(&mut timers, Hwnd::from(2), 1);
    assert_eq!(timers, [timer(1, 2, 10), timer(1, 1, 20)]);
}

#[test]
fn test_edit_row_level_invalidation_typing_narrows_and_font_resets() {
    let mut engine = test_engine();
    let mut state = default_winapi_state();
    let (_top, edit) = push_multiline_edit_pair(&mut state);

    // Focus + a full first paint: a fresh control paints every visible row
    // (3 rows in a 60 px client at the 16 px default line height).
    dispatch_control_proc(&mut engine, &mut state, edit, WM_SETFOCUS, 0, 0).expect("focus ok").expect("some result");
    dispatch_control_proc(&mut engine, &mut state, edit, WM_PAINT, 0, 0).expect("paint ok").expect("some result");
    assert_eq!(control_ui(&state, edit).last_paint_rows, 3, "the first paint covers all three rows");
    assert_eq!(
        control_ui(&state, edit).invalid_rows,
        EditInvalidation::Clean,
        "the paint consumes the pending band"
    );

    // Type one character at the caret (row 0): the pending band is exactly
    // row 0, and the next paint repaints only that row.
    dispatch_control_proc(&mut engine, &mut state, edit, WM_CHAR, u64::from(u32::from('X')), 0)
        .expect("char ok")
        .expect("some result");
    assert!(
        matches!(
            control_ui(&state, edit).invalid_rows,
            EditInvalidation::Band(band) if band.lo == 0 && band.hi == 0
        ),
        "typing at the caret must dirty only row 0, got {:?}",
        control_ui(&state, edit).invalid_rows
    );
    dispatch_control_proc(&mut engine, &mut state, edit, WM_PAINT, 0, 0).expect("paint2 ok").expect("some result");
    assert_eq!(
        control_ui(&state, edit).last_paint_rows,
        1,
        "typing one char repaints only the changed row"
    );

    // A font change (with redraw) resets any pending band: the next paint is
    // full again, whatever the new font's line height.
    let font = Hfont::from(0x6650_0000);
    state.gdi_state().fonts.push(FontRecord { handle: font, metrics: FontEngine::fixed(10, 16) });
    dispatch_control_proc(&mut engine, &mut state, edit, WM_SETFONT, font.as_u64(), 1)
        .expect("setfont ok")
        .expect("some result");
    assert_eq!(
        control_ui(&state, edit).invalid_rows,
        EditInvalidation::Full,
        "WM_SETFONT resets the pending band to full"
    );
    dispatch_control_proc(&mut engine, &mut state, edit, WM_PAINT, 0, 0).expect("paint3 ok").expect("some result");
    assert!(
        control_ui(&state, edit).last_paint_rows > 1,
        "a font change still full-repaints (got {} rows)",
        control_ui(&state, edit).last_paint_rows
    );
    assert_eq!(
        control_ui(&state, edit).invalid_rows,
        EditInvalidation::Clean,
        "the full repaint consumes the band"
    );
}

#[test]
fn a_hidden_control_is_not_painted() {
    let mut engine = test_engine();
    let mut state = default_winapi_state();
    let (_, edit) = push_multiline_edit_pair(&mut state);
    let windows = &mut state.window_state().windows;
    windows[1].visible = false;
    windows[1].invalidated = true;
    dispatch_control_proc(&mut engine, &mut state, edit, WM_SETFOCUS, 0, 0).expect("focus").expect("handled");
    dispatch_control_proc(&mut engine, &mut state, edit, WM_PAINT, 0, 0).expect("paint").expect("handled");
    assert!(!state.window_state().windows[1].invalidated, "the request is consumed all the same");
    assert_eq!(field_of(&state, edit).caret.last_paint_rows, None);
    assert_eq!(edit_caret_drawn_row(&state, edit), None);
    assert_eq!(control_ui(&state, edit).invalid_rows, EditInvalidation::Clean);
    state.window_state().windows[1].visible = true;
    dispatch_control_proc(&mut engine, &mut state, edit, WM_TIMER, 1, 0).expect("tick").expect("handled");
    assert!(state.window_state().windows[1].invalidated, "the bar's row waits");
    dispatch_control_proc(&mut engine, &mut state, edit, WM_PAINT, 0, 0).expect("paint").expect("handled");
    assert_eq!(control_ui(&state, edit).last_paint_rows, 3, "the first paint is whole");
}

#[test]
fn test_edit_caret_blink_repaints_only_the_caret_row() {
    let mut engine = test_engine();
    let mut state = default_winapi_state();
    let (_top, edit) = push_multiline_edit_pair(&mut state);

    // Focus + a full first paint.
    dispatch_control_proc(&mut engine, &mut state, edit, WM_SETFOCUS, 0, 0).expect("focus ok").expect("some result");
    dispatch_control_proc(&mut engine, &mut state, edit, WM_PAINT, 0, 0).expect("paint ok").expect("some result");

    // One blink tick hides the caret and must dirty exactly the caret row.
    dispatch_control_proc(
        &mut engine,
        &mut state,
        edit,
        WM_TIMER,
        1, // CARET_TIMER_ID
        0,
    )
    .expect("blink ok")
    .expect("some result");
    assert!(
        matches!(
            control_ui(&state, edit).invalid_rows,
            EditInvalidation::Band(band) if band.lo == 0 && band.hi == 0
        ),
        "the blink must dirty only the caret row, got {:?}",
        control_ui(&state, edit).invalid_rows
    );

    dispatch_control_proc(&mut engine, &mut state, edit, WM_PAINT, 0, 0).expect("paint2 ok").expect("some result");
    assert_eq!(control_ui(&state, edit).last_paint_rows, 1, "the blink repaints only the caret row");
}
