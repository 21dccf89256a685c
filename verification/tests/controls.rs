//! Built-in controls, message by message.
#![allow(dead_code)]

use std::sync::Arc;

use wie_winapi::clipboard::CF_TEXT;
use wie_winapi::controls::{
    ControlClassKind, ControlState, WindowClassIdentifier, BST_PUSHED, SBT_NOBORDERS, VK_SPACE,
};
use wie_winapi::cpu::GuestCpu;
use wie_winapi::dispatch::{dispatch_control_proc, OuterReturn, WinApiControlSignal};
use wie_winapi::display::DisplayMetrics;
use wie_winapi::dll_state::DllStateMap;
use wie_winapi::edit::{
    SEL_EMPTY, SEL_MULTICHAR, SEL_MULTILINE, SEL_TEXT, VK_DELETE, VK_DOWN, VK_END, VK_HOME, VK_LEFT, VK_NEXT, VK_PRIOR,
    VK_RIGHT, VK_UP,
};
use wie_winapi::font::FontEngine;
use wie_winapi::handles::{FileHandle, FindFileHandle, Hfont, Hwnd, ModuleHandle, RegistryKeyHandle, ResourceHandle};
use wie_winapi::kernel::{ActiveThread, KernelState, SyncState, ThreadState};
use wie_winapi::layout::{edit_char_index_at_point, text_width, HitTestLayout, ES_MULTILINE};
use wie_winapi::messages::{
    BM_CLICK, BM_GETSTATE, BM_SETSTATE, EM_CANUNDO, EM_EMPTYUNDOBUFFER, EM_GETFIRSTVISIBLELINE, EM_GETLIMITTEXT,
    EM_GETLINE, EM_GETLINECOUNT, EM_GETMODIFY, EM_GETSEL, EM_LIMITTEXT, EM_LINEFROMCHAR, EM_LINEINDEX, EM_LINELENGTH,
    EM_POSFROMCHAR, EM_REPLACESEL, EM_SCROLLCARET, EM_SELECTIONTYPE, EM_SETMODIFY, EM_SETSEL, EM_SETTABSTOPS, EM_UNDO,
    LB_ADDSTRING, LB_GETCURSEL, LB_SETCURSEL, SB_GETPARTS, SB_GETTEXTLENGTHW, SB_GETTEXTW, SB_SETPARTS, SB_SETTEXTW, WM_CHAR,
    WM_CLEAR, WM_COMMAND, WM_COPY, WM_CUT, WM_GETFONT, WM_HSCROLL, WM_KEYDOWN, WM_KEYUP, WM_LBUTTONDBLCLK, WM_LBUTTONDOWN,
    WM_LBUTTONUP, WM_MOUSEMOVE, WM_MOUSEWHEEL, WM_PAINT, WM_PASTE, WM_SETFONT, WM_SETTEXT, WM_SIZE, WM_UNDO,
    WM_VSCROLL,
};
use wie_winapi::present::{MessageQueue, WakeHub};
use wie_winapi::process::{
    FileIoState, GuestHeap, GuestStdinMode, HeapState, ModuleState, ProcessState, VolumeConfig, WinApiEnvironment,
};
use wie_winapi::state::WinApiState;
use wie_winapi::subsystems::FontRecord;
use wie_winapi::user32::{create_window_record, set_window_proc, window_proc, CreateWindowRequest};
use wie_winapi::window::WindowRecord;

type State = WinApiState<()>;

const STACK_VA: u64 = 0x100_0000;
const STACK_SIZE: usize = 0x1_0000;
const STACK_TOP: u64 = 0x100_FF00;

fn test_engine() -> GuestCpu {
    let mut cpu = GuestCpu::new();
    cpu.mem_map(0x1000, 0x10_0000).expect("map test memory");
    cpu.mem_map(STACK_VA, STACK_SIZE).expect("map test stack");
    cpu.mem_write(STACK_TOP, &0_u64.to_le_bytes()).expect("write return address");
    cpu.rsp = STACK_TOP;
    cpu
}

fn default_winapi_state() -> State {
    WinApiState {
        heap_state: HeapState {
            heap: Arc::new(GuestHeap { base: 0x2000, end: 0x10000 }),
            next_fls_index: 0,
            fls_slots: Vec::new(),
            guest_fls_table_va: 0,
        },
        file_io: FileIoState {
            executable_file_size: 0,
            executable_file_bytes: Arc::new(Vec::new()),
            executable_file_cursor: 0,
            next_find_handle: FindFileHandle::null(),
            find_handles: Vec::new(),
            host_file_mounts: Vec::new(),
            virtual_files: Vec::new(),
            open_files: ahash::HashMap::default(),
            next_file_handle: FileHandle::null(),
            next_resource_handle: ResourceHandle::null(),
            resources: Vec::new(),
            current_directory_wide: Vec::new(),
            bottle_root: None,
            volumes: VolumeConfig { drive_d: None },
            guest_file_data_next: 0,
            guest_io: None,
            stdin_bytes: Vec::new(),
            stdin_cursor: 0,
            stdin_mode: GuestStdinMode::default(),
            ucrt_files: ahash::HashMap::default(),
            ucrt_next_file_va: 0,
        },
        module_state: ModuleState {
            loaded_modules: ahash::HashMap::default(),
            import_resolver: None,
            get_proc_address_cache: ahash::HashMap::default(),
            next_module_handle: ModuleHandle::null(),
        },
        process: ProcessState {
            last_error: 0,
            next_registry_key_handle: RegistryKeyHandle::from(0x100),
            registry_keys: Vec::new(),
            main_module_file_name: String::new(),
            main_module_path: String::new(),
            main_module_host_dir: None,
            error_mode: 0,
            suspended_threads: ahash::HashMap::default(),
            environment: Vec::new(),
            main_module_dialogs: Vec::new(),
            main_module_menus: Vec::new(),
            main_module_strings: Vec::new(),
            main_module_accelerators: Vec::new(),
        },
        display: DisplayMetrics::default(),
        kernel: KernelState {
            threads: ThreadState { active: ActiveThread { tid: 1, last_error: 0 } },
            sync: SyncState { wake_hub: WakeHub { id: 7 } },
            seh_pending: ahash::HashMap::default(),
        },
        dll_states: DllStateMap::new(),
        message_queue: MessageQueue::default(),
    }
}

fn default_env() -> WinApiEnvironment {
    WinApiEnvironment {
        image_base: 0x0000_0000_1400_0000,
        command_line_a_ptr: 0,
        command_line_w_ptr: 0,
        environment_strings_w_ptr: 0,
        module_file_name_a_ptr: 0,
        module_file_name_w_ptr: 0,
        process_heap_handle: 1,
    }
}

fn write_regs(cpu: &mut GuestCpu, rcx: u64, rdx: u64, r8: u64, r9: u64, rsp: u64) {
    cpu.rcx = rcx;
    cpu.rdx = rdx;
    cpu.r8 = r8;
    cpu.r9 = r9;
    cpu.rsp = if rsp == 0 { STACK_TOP } else { rsp };
}

fn read_into(engine: &GuestCpu, addr: u64, buffer: &mut [u8], what: &str) {
    let bytes = engine.mem_read(addr, buffer.len()).expect(what);
    buffer.copy_from_slice(&bytes);
}

fn write_guest_utf16(engine: &mut GuestCpu, addr: u64, s: &str) {
    let mut bytes: Vec<u8> = Vec::new();
    for unit in s.encode_utf16() {
        bytes.extend_from_slice(&unit.to_le_bytes());
    }
    bytes.extend_from_slice(&0_u16.to_le_bytes());
    engine.mem_write(addr, &bytes).expect("write guest UTF-16 string");
}

fn write_guest_ansi(engine: &mut GuestCpu, addr: u64, s: &str) {
    let mut bytes = s.as_bytes().to_vec();
    bytes.push(0);
    engine.mem_write(addr, &bytes).expect("write guest ANSI string");
}

#[derive(Default)]
struct ControlUi {
    pressed: bool,
    focused: bool,
    items: Vec<String>,
    caret: usize,
    sel_start: usize,
    sel_end: usize,
    goal_column: Option<usize>,
    sel_index: i32,
    style_bits: u32,
    limit: usize,
    modified: bool,
    first_visible_line: usize,
    first_visible_column: usize,
    tab_stops: Vec<u16>,
    dragging_scrollbar: bool,
    part_rights: Vec<i32>,
    part_texts: Vec<String>,
}

fn text_of(chars: &[char]) -> String {
    chars.iter().collect()
}

fn chars_of(text: &str) -> Vec<char> {
    text.chars().collect()
}

fn control_ui(state: &State, hwnd: u64) -> ControlUi {
    let mut ui = ControlUi::default();
    let ws = state.try_window_state().expect("window state");
    let window = ws.windows.iter().find(|w| w.handle == Hwnd::from(hwnd)).expect("control record");
    ui.focused = ws.focus_window_handle == window.handle;
    ui.style_bits = window.style;
    match &window.control {
        ControlState::Button(pressed) => ui.pressed = *pressed,
        ControlState::Edit(field) => {
            let edit = &field.edit;
            ui.focused = field.caret.focused;
            ui.caret = edit.caret();
            (ui.sel_start, ui.sel_end) = edit.selection();
            ui.goal_column = edit.goal_column();
            ui.limit = edit.limit();
            ui.modified = edit.modified();
            ui.first_visible_line = edit.first_visible_line();
            ui.first_visible_column = edit.first_visible_column();
            ui.tab_stops = edit.tab_stops().clone();
            ui.dragging_scrollbar = edit.dragging_thumb();
        }
        ControlState::ListBox(list) => {
            ui.items = (0..list.count()).map(|i| text_of(list.item(i))).collect();
            ui.first_visible_line = list.first_visible();
            ui.sel_index = list.selected().map_or(-1, |i| i32::try_from(i).expect("small list"));
        }
        ControlState::StatusBar(bar) => {
            ui.part_rights = bar.rights().clone();
            ui.part_texts = (0..bar.text_count()).map(|i| text_of(&bar.part_text(i))).collect();
        }
        ControlState::Plain | ControlState::Label => {}
    }
    ui
}

fn control_text(state: &State, hwnd: u64) -> String {
    let ws = state.try_window_state().expect("window state");
    let window = ws.windows.iter().find(|w| w.handle == Hwnd::from(hwnd)).expect("control record");
    match &window.control {
        ControlState::Edit(field) => text_of(field.edit.text()),
        _ => String::new(),
    }
}

fn set_control_text(state: &mut State, hwnd: u64, text: &str) {
    let ws = state.window_state();
    let window = ws.windows.iter_mut().find(|w| w.handle == Hwnd::from(hwnd)).expect("control record");
    window.control = edit_control(text);
}

fn edit_control(text: &str) -> ControlState {
    ControlClassKind::Edit.new_state(chars_of(text))
}

fn push_parent(state: &mut State, parent: u64) {
    state.window_state().windows.push(WindowRecord {
        handle: Hwnd::from(parent),
        window_proc: 0x7000_0000,
        title: "Parent".to_owned(),
        width: 200,
        height: 100,
        ..Default::default()
    });
}

fn push_edit_pair(state: &mut State) -> (u64, u64) {
    let parent = 0x6610_0011_u64;
    let edit = 0x6610_0012_u64;
    push_parent(state, parent);
    state.window_state().windows.push(WindowRecord {
        handle: Hwnd::from(edit),
        parent_handle: Hwnd::from(parent),
        control: edit_control("hello"),
        menu_handle: 12,
        visible: true,
        width: 120,
        height: 20,
        ..Default::default()
    });
    (parent, edit)
}

fn push_multiline_edit(state: &mut State, text: &str) -> (u64, u64) {
    let parent = 0x6610_0015_u64;
    let edit = 0x6610_0016_u64;
    push_parent(state, parent);
    state.window_state().windows.push(WindowRecord {
        handle: Hwnd::from(edit),
        parent_handle: Hwnd::from(parent),
        control: edit_control(text),
        style: ES_MULTILINE,
        menu_handle: 12,
        visible: true,
        width: 120,
        height: 20,
        ..Default::default()
    });
    (parent, edit)
}

fn push_multiline_edit_real(state: &mut State) -> u64 {
    let hwnd = create_window_record(
        state.window_state(),
        &[],
        0x0409,
        CreateWindowRequest {
            class_identifier: WindowClassIdentifier::Name("EDIT".to_owned()),
            title: String::new(),
            style: ES_MULTILINE,
            parent_handle: 0,
            menu_handle: 0,
            x: 0,
            y: 0,
            width: 120,
            height: 60,
        },
    )
    .expect("create edit record");
    assert_ne!(hwnd, 0, "create_window_record must allocate an edit handle");
    hwnd
}

fn push_listbox(state: &mut State) -> (u64, u64) {
    let parent = 0x6610_0013_u64;
    let listbox = 0x6610_0014_u64;
    push_parent(state, parent);
    state.window_state().windows.push(WindowRecord {
        handle: Hwnd::from(listbox),
        parent_handle: Hwnd::from(parent),
        control: ControlClassKind::ListBox.new_state(Vec::new()),
        menu_handle: 1,
        visible: true,
        width: 100,
        height: 60,
        ..Default::default()
    });
    (parent, listbox)
}

fn seed_listbox(engine: &mut GuestCpu, state: &mut State, listbox: u64) {
    for (va, item) in [(0x4000_u64, "alpha"), (0x5000, "beta")] {
        write_guest_ansi(engine, va, item);
        dispatch_control_proc(engine, state, listbox, LB_ADDSTRING, 0, va).expect("add ok").expect("some result");
    }
}

fn push_status_bar_pair(state: &mut State) -> (u64, u64) {
    let top = 0x6610_0031_u64;
    let bar = 0x6610_0032_u64;
    let ws = state.window_state();
    ws.windows.push(WindowRecord {
        handle: Hwnd::from(top),
        title: "Top".to_owned(),
        visible: true,
        width: 200,
        height: 100,
        ..Default::default()
    });
    ws.windows.push(WindowRecord {
        handle: Hwnd::from(bar),
        parent_handle: Hwnd::from(top),
        control: ControlClassKind::StatusBar.new_state(Vec::new()),
        menu_handle: 0x151,
        visible: true,
        x: 0,
        y: 76,
        width: 200,
        height: 24,
        ..Default::default()
    });
    (top, bar)
}

fn push_button_pair(state: &mut State) -> (u64, u64) {
    let parent = 0x6610_0001_u64;
    let button = 0x6610_0002_u64;
    push_parent(state, parent);
    state.window_state().windows.push(WindowRecord {
        handle: Hwnd::from(button),
        parent_handle: Hwnd::from(parent),
        control: ControlClassKind::Button.new_state(Vec::new()),
        menu_handle: 7,
        visible: true,
        width: 40,
        height: 20,
        ..Default::default()
    });
    (parent, button)
}

fn press_key(engine: &mut GuestCpu, state: &mut State, hwnd: u64, vk: u64) {
    match dispatch_control_proc(engine, state, hwnd, WM_KEYDOWN, vk, 0) {
        Err(error) => assert!(
            matches!(
                error,
                WinApiControlSignal::GuestCallbackRequested { request }
                    if request.message == 0x0111
                        && (request.word_parameter >> 16 == 0x0601 || request.word_parameter >> 16 == 0x0602)
            ),
            "a moved navigation key must deliver EN_HSCROLL or EN_VSCROLL, got {error:?}"
        ),
        Ok(value) => assert_eq!(value, Some(0), "a no-op key answers 0"),
    }
}

fn line_height(state: &mut State) -> i32 {
    state.gdi_state().font_engine.line_height
}

fn set_edit_visible_rows(state: &mut State, hwnd: u64, visible: usize) {
    let height = i32::try_from(visible).unwrap_or(0).saturating_mul(line_height(state));
    let ws = state.window_state();
    if let Some(w) = ws.windows.iter_mut().find(|w| w.handle == Hwnd::from(hwnd)) {
        w.height = height;
    }
}

fn set_edit_viewport_with_partial_strip(state: &mut State, hwnd: u64, visible: usize, partial: i32) {
    set_edit_visible_rows(state, hwnd, visible);
    let ws = state.window_state();
    if let Some(w) = ws.windows.iter_mut().find(|w| w.handle == Hwnd::from(hwnd)) {
        w.height = w.height.saturating_add(partial);
    }
}

fn vscroll_offset(engine: &mut GuestCpu, state: &mut State, edit: u64, code: u16, thumb: u16) -> usize {
    let wparam = u64::from(code) | (u64::from(thumb) << 16);
    match dispatch_control_proc(engine, state, edit, WM_VSCROLL, wparam, 0) {
        Ok(_) => {}
        Err(error) => assert!(matches!(error, WinApiControlSignal::GuestCallbackRequested { .. }), "vscroll ok"),
    }
    control_ui(state, edit).first_visible_line
}

fn wheel_wparam(delta: i32) -> u64 {
    let hi = i16::try_from(delta).unwrap_or(0);
    u64::from(u16::from_le_bytes(hi.to_le_bytes())) << 16
}

fn wheel_offset(engine: &mut GuestCpu, state: &mut State, edit: u64, delta: i32) -> usize {
    dispatch_control_proc(engine, state, edit, WM_MOUSEWHEEL, wheel_wparam(delta), 0)
        .expect("wheel ok")
        .expect("some result");
    control_ui(state, edit).first_visible_line
}

fn can_undo(engine: &mut GuestCpu, state: &mut State, edit: u64) -> u64 {
    dispatch_control_proc(engine, state, edit, EM_CANUNDO, 0, 0).expect("canundo ok").expect("some result")
}

fn mouse_lparam(x: u16, y: u16) -> u64 {
    u64::from(x) | (u64::from(y) << 16)
}

fn dispatch_mouse(engine: &mut GuestCpu, state: &mut State, hwnd: u64, message: u32, x: u16, y: u16) -> u64 {
    dispatch_control_proc(engine, state, hwnd, message, 0, mouse_lparam(x, y))
        .expect("mouse message must be handled, not bridge a guest callback")
        .expect("some result")
}

fn release_mouse(engine: &mut GuestCpu, state: &mut State, hwnd: u64, x: u16, y: u16) {
    match dispatch_control_proc(engine, state, hwnd, WM_LBUTTONUP, 0, mouse_lparam(x, y)) {
        Err(error) => assert!(
            matches!(
                error,
                WinApiControlSignal::GuestCallbackRequested { request }
                    if request.message == 0x0111 && request.word_parameter >> 16 == 0x0602
            ),
            "a completed click must deliver EN_VSCROLL, got {error:?}"
        ),
        Ok(value) => assert_eq!(value, Some(0), "a click release answers 0"),
    }
}

fn char_cell_left(state: &mut State, hwnd: u64, index: usize) -> i32 {
    let text = chars_of(&control_text(state, hwnd));
    let width = text_width(&text, 0, index, &state.gdi_state().font_engine);
    2_i32.saturating_add(i32::try_from(width).expect("narrow text"))
}

fn edit_char_at(state: &mut State, hwnd: u64, x: i32, y: i32, wrap: bool) -> usize {
    let text = chars_of(&control_text(state, hwnd));
    let width = {
        let ws = state.try_window_state().expect("window state");
        ws.windows.iter().find(|w| w.handle == Hwnd::from(hwnd)).expect("edit record").width
    };
    let font = &state.gdi_state().font_engine;
    edit_char_index_at_point(
        &text,
        i64::from(x),
        y,
        &HitTestLayout {
            wrap_width: width.saturating_sub(4),
            line_height: font.line_height,
            first_visible: 0,
            wrap,
            alignment: 0,
        },
        font,
    )
}

fn read_guest_int_array(engine: &mut GuestCpu, addr: u64, count: usize) -> Vec<i32> {
    let mut out = Vec::with_capacity(count);
    for index in 0..count {
        let off = u64::try_from(index.saturating_mul(4)).unwrap_or(0);
        let mut bytes = [0_u8; 4];
        read_into(engine, addr.saturating_add(off), &mut bytes, "read guest int array");
        out.push(i32::from_le_bytes(bytes));
    }
    out
}

fn write_guest_int_array(engine: &mut GuestCpu, addr: u64, parts: &[i32], addr_name: &str) {
    for (index, part) in parts.iter().enumerate() {
        let off = u64::try_from(index.saturating_mul(4)).unwrap_or(0);
        engine.mem_write(addr.saturating_add(off), &part.to_le_bytes()).expect(addr_name);
    }
}

fn read_guest_utf16_raw(engine: &mut GuestCpu, addr: u64, max_units: usize) -> String {
    let bytes = engine.mem_read(addr, max_units * 2).expect("read guest UTF-16 buffer");
    let units: Vec<u16> =
        bytes.chunks_exact(2).map(|pair| u16::from_le_bytes([pair[0], pair[1]])).take_while(|unit| *unit != 0).collect();
    String::from_utf16_lossy(&units)
}

const GUEST_SUBCLASS: u64 = 0x0000_0000_1400_1000;

fn subclass_edit(_engine: &mut GuestCpu, state: &mut State, hwnd: u64) -> u64 {
    set_window_proc(state.window_state(), hwnd, GUEST_SUBCLASS)
}

fn clipboard_available(_engine: &mut GuestCpu, state: &mut State) -> u64 {
    u64::from(state.clipboard().is_format_available(CF_TEXT))
}

const VK_RETURN: u64 = 0x0D;
const WS_CHILD: u32 = 0x4000_0000;

#[test]
fn test_status_bar_class_name_resolves_to_host_class() {
    assert_eq!(
        ControlClassKind::from_identifier(&WindowClassIdentifier::Name(
            "msctls_statusbar32".to_owned()
        )),
        Some(ControlClassKind::StatusBar),
        "STATUSCLASSNAMEW must resolve to the built-in StatusBar class"
    );
    // Class-name lookup is case-insensitive like the other built-ins.
    assert_eq!(
        ControlClassKind::from_identifier(&WindowClassIdentifier::Name(
            "MSCTLS_STATUSBAR32".to_owned()
        )),
        Some(ControlClassKind::StatusBar)
    );
}

#[test]
fn test_status_bar_sb_setparts_stores_widths_and_getparts_returns_count() {
    let mut engine = test_engine();
    let mut state = default_winapi_state();
    let (_top, bar) = push_status_bar_pair(&mut state);

    // SB_SETPARTS(3, [80, 160, -1]): -1 = extend to the right edge.
    let parts_addr = 0x6000;
    write_guest_int_array(&mut engine, parts_addr, &[80, 160, -1], "write parts");
    let r = dispatch_control_proc(
        &mut engine,
        &mut state,
        bar,
        SB_SETPARTS,
        3,
        parts_addr,
    )
    .expect("setparts handled")
    .expect("some result");
    assert_eq!(r, 1, "SB_SETPARTS must return TRUE");

    let ui = control_ui(&state, bar);
    assert_eq!(
        ui.part_rights,
        vec![80, 160, -1],
        "SB_SETPARTS must store the part right-edge widths"
    );

    // SB_GETPARTS(4, buffer): copies the stored widths and returns the count.
    let get_addr = 0x6100;
    let r = dispatch_control_proc(
        &mut engine,
        &mut state,
        bar,
        SB_GETPARTS,
        4,
        get_addr,
    )
    .expect("getparts handled")
    .expect("some result");
    assert_eq!(r, 3, "SB_GETPARTS must return the part count");
    assert_eq!(
        read_guest_int_array(&mut engine, get_addr, 3),
        vec![80, 160, -1],
        "SB_GETPARTS must copy the stored widths"
    );
}

#[test]
fn test_status_bar_sb_settextw_stores_part_text_and_ignores_flags() {
    let mut engine = test_engine();
    let mut state = default_winapi_state();
    let (_top, bar) = push_status_bar_pair(&mut state);

    let text_addr = 0x6000;
    write_guest_utf16(&mut engine, text_addr, "Ln 1, Col 1");
    let r = dispatch_control_proc(
        &mut engine,
        &mut state,
        bar,
        SB_SETTEXTW,
        0,
        text_addr,
    )
    .expect("settext ok")
    .expect("some result");
    assert_eq!(r, 1, "SB_SETTEXTW must return TRUE");

    write_guest_utf16(&mut engine, text_addr, "CRLF");
    dispatch_control_proc(
        &mut engine,
        &mut state,
        bar,
        SB_SETTEXTW,
        1,
        text_addr,
    )
    .expect("settext1 ok")
    .expect("some result");

    // SBT_NOBORDERS (0x100) OR'd into the part index is ignored — the part
    // index is the low byte, so 0x100 | 2 still targets part 2.
    write_guest_utf16(&mut engine, text_addr, "UTF-8");
    dispatch_control_proc(
        &mut engine,
        &mut state,
        bar,
        SB_SETTEXTW,
        u64::from(SBT_NOBORDERS | 2),
        text_addr,
    )
    .expect("settext2 ok")
    .expect("some result");

    let ui = control_ui(&state, bar);
    assert_eq!(
        ui.part_texts,
        vec!["Ln 1, Col 1", "CRLF", "UTF-8"],
        "SB_SETTEXTW must store one text per part"
    );
}

#[test]
fn test_status_bar_sb_gettextw_and_gettextlengthw_round_trip() {
    let mut engine = test_engine();
    let mut state = default_winapi_state();
    let (_top, bar) = push_status_bar_pair(&mut state);

    let text_addr = 0x6000;
    write_guest_utf16(&mut engine, text_addr, "Ln 1, Col 1");
    dispatch_control_proc(
        &mut engine,
        &mut state,
        bar,
        SB_SETTEXTW,
        0,
        text_addr,
    )
    .expect("settext ok")
    .expect("some result");

    // SB_GETTEXTLENGTHW(0): the length in WCHARs (excluding the NUL).
    let len = dispatch_control_proc(
        &mut engine,
        &mut state,
        bar,
        SB_GETTEXTLENGTHW,
        0,
        0,
    )
    .expect("getlen ok")
    .expect("some result");
    assert_eq!(len, 11, "SB_GETTEXTLENGTHW must return the char count");

    // SB_GETTEXTW(0, buffer): copies the text, returns the char count.
    let get_addr = 0x6100;
    let r = dispatch_control_proc(
        &mut engine,
        &mut state,
        bar,
        SB_GETTEXTW,
        0,
        get_addr,
    )
    .expect("gettext ok")
    .expect("some result");
    assert_eq!(r, 11, "SB_GETTEXTW must return the char count");
    assert_eq!(
        read_guest_utf16_raw(&mut engine, get_addr, 64),
        "Ln 1, Col 1",
        "SB_GETTEXTW must round-trip the stored text"
    );
}

#[test]
fn test_edit_wm_vscroll_delivers_en_vscroll_to_parent() {
    let mut engine = test_engine();
    let mut state = default_winapi_state();
    let (parent, edit) = push_multiline_edit(&mut state, "line1\nline2\nline3\nline4\nline5");

    // SB_LINEDOWN (1) scrolls the multiline EDIT (only 1 visible row in a
    // 20 px client) → the parent gets WM_COMMAND(MAKEWPARAM(12, EN_VSCROLL)).
    let result = dispatch_control_proc(
        &mut engine,
        &mut state,
        edit,
        WM_VSCROLL,
        1, // SB_LINEDOWN
        0,
    );
    let error = result.expect_err("WM_VSCROLL must deliver EN_VSCROLL");
    let signal = error;
    assert!(
        matches!(
            signal,
            WinApiControlSignal::GuestCallbackRequested { request }
                if request.window_handle == parent
                    && request.message == 0x0111
                    && request.word_parameter == 0x0602_000C
        ),
        "WM_VSCROLL must deliver WM_COMMAND(MAKEWPARAM(12, EN_VSCROLL)), \
         got {signal:?}"
    );
}

#[test]
fn test_edit_wm_hscroll_delivers_en_hscroll_to_parent() {
    let mut engine = test_engine();
    let mut state = default_winapi_state();
    let (parent, edit) = push_multiline_edit(&mut state, "line1\nline2");

    let result = dispatch_control_proc(
        &mut engine,
        &mut state,
        edit,
        WM_HSCROLL,
        0,
        0,
    );
    let error = result.expect_err("WM_HSCROLL must deliver EN_HSCROLL");
    let signal = error;
    assert!(
        matches!(
            signal,
            WinApiControlSignal::GuestCallbackRequested { request }
                if request.window_handle == parent
                    && request.message == 0x0111
                    && request.word_parameter == 0x0601_000C
        ),
        "WM_HSCROLL must deliver WM_COMMAND(MAKEWPARAM(12, EN_HSCROLL)), \
         got {signal:?}"
    );
}

#[test]
fn test_edit_click_release_delivers_en_vscroll_to_parent() {
    let mut engine = test_engine();
    let mut state = default_winapi_state();
    let (parent, edit) = push_multiline_edit(&mut state, "ab\ncd");

    // A completed click navigation (down then up) delivers EN_VSCROLL to the
    // parent — the status-bar caret refresh for click navigation.
    let (x, y) = (20_u16, 10_u16);
    dispatch_mouse(
        &mut engine,
        &mut state,
        edit,
        WM_LBUTTONDOWN,
        x,
        y,
    );
    let result = dispatch_control_proc(
        &mut engine,
        &mut state,
        edit,
        WM_LBUTTONUP,
        0,
        mouse_lparam(x, y),
    );
    let error = result.expect_err("a completed click must deliver EN_VSCROLL");
    let signal = error;
    assert!(
        matches!(
            signal,
            WinApiControlSignal::GuestCallbackRequested { request }
                if request.window_handle == parent
                    && request.message == 0x0111
                    && request.word_parameter == 0x0602_000C
        ),
        "a completed click must deliver WM_COMMAND(MAKEWPARAM(12, EN_VSCROLL)), \
         got {signal:?}"
    );
}

#[test]
fn test_bm_click_delivers_command_to_parent() {
    let mut engine = test_engine();
    let mut state = default_winapi_state();
    let (parent, button) = push_button_pair(&mut state);

    // SendMessage(button, BM_CLICK): the host control WndProc must bridge
    // WM_COMMAND(MAKEWPARAM(7, BN_CLICKED)) to the parent's WndProc.
    let result = dispatch_control_proc(
        &mut engine,
        &mut state,
        button,
        BM_CLICK,
        0,
        0,
    );
    let error = result.expect_err("BM_CLICK must bridge a WM_COMMAND callback");
    let signal = error;
    assert!(
        matches!(
            signal,
            WinApiControlSignal::GuestCallbackRequested { request }
                if request.window_handle == parent
                    && request.message == 0x0111
                    && request.word_parameter == 7
        ),
        "BM_CLICK must bridge WM_COMMAND(MAKEWPARAM(7, BN_CLICKED)) to the \
             parent WndProc, got {signal:?}"
    );
}

#[test]
fn test_bm_get_set_state_roundtrip() {
    let mut engine = test_engine();
    let mut state = default_winapi_state();
    let (_, button) = push_button_pair(&mut state);

    // Fresh button: not pressed, not focused.
    let r = dispatch_control_proc(
        &mut engine,
        &mut state,
        button,
        BM_GETSTATE,
        0,
        0,
    )
    .expect("getstate ok")
    .expect("some result");
    assert_eq!(r, 0);

    // BM_SETSTATE(TRUE) returns the previous (0) and presses.
    let prev = dispatch_control_proc(
        &mut engine,
        &mut state,
        button,
        BM_SETSTATE,
        1,
        0,
    )
    .expect("setstate ok")
    .expect("some result");
    assert_eq!(prev, 0);
    let r = dispatch_control_proc(
        &mut engine,
        &mut state,
        button,
        BM_GETSTATE,
        0,
        0,
    )
    .expect("getstate ok")
    .expect("some result");
    assert_eq!(r, BST_PUSHED);

    // BM_SETSTATE(FALSE) returns 1 (was pressed) and releases.
    let prev = dispatch_control_proc(
        &mut engine,
        &mut state,
        button,
        BM_SETSTATE,
        0,
        0,
    )
    .expect("setstate ok")
    .expect("some result");
    assert_eq!(prev, 1);
}

#[test]
fn test_edit_multiline_real_creation_enter_inserts_newline() {
    let mut engine = test_engine();
    let mut state = default_winapi_state();
    let edit = push_multiline_edit_real(&mut state);

    // The first touch is a real WM_CHAR through dispatch_control_proc: the
    // control state seeds from the WindowRecord's creation style, so Enter
    // must insert a `\n` (ES_MULTILINE) rather than the single-line no-op.
    dispatch_control_proc(
        &mut engine,
        &mut state,
        edit,
        WM_CHAR,
        VK_RETURN, // 0x0D
        0,
    )
    .expect("char ok")
    .expect("some result");
    assert!(
        control_text(&state, edit).contains('\n'),
        "Enter must insert \\n in a real-created multiline EDIT, got {:?}",
        control_text(&state, edit)
    );
    let ui = control_ui(&state, edit);
    assert_ne!(
        ui.style_bits & ES_MULTILINE,
        0,
        "the seeded EDIT state must carry ES_MULTILINE from the creation style"
    );
}

#[test]
fn test_edit_em_setsel_getsel_packing() {
    let mut engine = test_engine();
    let mut state = default_winapi_state();
    let (_, edit) = push_edit_pair(&mut state);

    // EM_SETSEL(2, 4) → selection [2, 4), caret at the end edge (4).
    let r = dispatch_control_proc(
        &mut engine,
        &mut state,
        edit,
        EM_SETSEL,
        2,
        4,
    )
    .expect("setsel ok")
    .expect("some result");
    assert_eq!(r, 1, "EM_SETSEL returns TRUE");
    let ui = control_ui(&state, edit);
    assert_eq!((ui.sel_start, ui.sel_end, ui.caret), (2, 4, 4));

    // EM_GETSEL (no pointers) returns MAKELONG(start, end) = 2 | 4 << 16.
    let r = dispatch_control_proc(
        &mut engine,
        &mut state,
        edit,
        EM_GETSEL,
        0,
        0,
    )
    .expect("getsel ok")
    .expect("some result");
    assert_eq!(r, 0x0004_0002, "EM_GETSEL packs MAKELONG(start, end)");
}

#[test]
fn test_edit_em_setsel_negative_selects_all() {
    let mut engine = test_engine();
    let mut state = default_winapi_state();
    let (_, edit) = push_edit_pair(&mut state);

    // EM_SETSEL(0, -1) → select everything: [0, len).
    dispatch_control_proc(
        &mut engine,
        &mut state,
        edit,
        EM_SETSEL,
        0,
        u64::from(u32::MAX),
    )
    .expect("setsel ok")
    .expect("some result");
    let r = dispatch_control_proc(
        &mut engine,
        &mut state,
        edit,
        EM_GETSEL,
        0,
        0,
    )
    .expect("getsel ok")
    .expect("some result");
    assert_eq!(r, 0x0005_0000, "select-all = MAKELONG(0, 5)");
}

#[test]
fn test_edit_em_getsel_writes_output_pointers() {
    let mut engine = test_engine();
    let mut state = default_winapi_state();
    let (_, edit) = push_edit_pair(&mut state);
    dispatch_control_proc(
        &mut engine,
        &mut state,
        edit,
        EM_SETSEL,
        1,
        3,
    )
    .expect("setsel ok")
    .expect("some result");

    // EM_GETSEL with output pointers at 0x3000 (start) / 0x3004 (end).
    dispatch_control_proc(
        &mut engine,
        &mut state,
        edit,
        EM_GETSEL,
        0x3000,
        0x3004,
    )
    .expect("getsel ok")
    .expect("some result");
    let mut start = [0u8; 4];
    let mut end = [0u8; 4];
    read_into(&engine, 0x3000, &mut start, "read start");
    read_into(&engine, 0x3004, &mut end, "read end");
    assert_eq!(
        u32::from_le_bytes(start),
        1,
        "wParam pointer receives start"
    );
    assert_eq!(u32::from_le_bytes(end), 3, "lParam pointer receives end");
}

#[test]
fn test_edit_wm_char_inserts_at_caret() {
    let mut engine = test_engine();
    let mut state = default_winapi_state();
    let (_, edit) = push_edit_pair(&mut state);

    // Type 'X' at caret 0 → "Xhello", caret advances to 1.
    dispatch_control_proc(
        &mut engine,
        &mut state,
        edit,
        WM_CHAR,
        u64::from(u32::from('X')),
        0,
    )
    .expect_err("WM_CHAR that mutates the text delivers EN_CHANGE");
    assert_eq!(control_text(&state, edit), "Xhello");
    assert_eq!(control_ui(&state, edit).caret, 1);

    // Home + End, then 'Y' appends at the end → "XhelloY".
    press_key(&mut engine, &mut state, edit, VK_END);
    dispatch_control_proc(
        &mut engine,
        &mut state,
        edit,
        WM_CHAR,
        u64::from(u32::from('Y')),
        0,
    )
    .expect_err("WM_CHAR that mutates the text delivers EN_CHANGE");
    assert_eq!(control_text(&state, edit), "XhelloY");
    assert_eq!(control_ui(&state, edit).caret, 7);

    // Enter does not change the text and delivers nothing.
    let r = dispatch_control_proc(
        &mut engine,
        &mut state,
        edit,
        WM_CHAR,
        0x0D,
        0,
    )
    .expect("enter ok")
    .expect("some result");
    assert_eq!(r, 0);
    assert_eq!(control_text(&state, edit), "XhelloY");
}

#[test]
fn test_edit_char_replaces_selection_and_delivers_en_change() {
    let mut engine = test_engine();
    let mut state = default_winapi_state();
    let (parent, edit) = push_edit_pair(&mut state);

    // Select "ell" (chars 1..4) of "hello".
    dispatch_control_proc(
        &mut engine,
        &mut state,
        edit,
        EM_SETSEL,
        1,
        4,
    )
    .expect("setsel ok")
    .expect("some result");

    // Typing 'X' replaces [1, 4) → "hXo", clears the selection.
    let result = dispatch_control_proc(
        &mut engine,
        &mut state,
        edit,
        WM_CHAR,
        u64::from(u32::from('X')),
        0,
    );
    let error = result.expect_err("WM_CHAR must deliver EN_CHANGE to the parent");
    let signal = error;
    assert!(
        matches!(
            signal,
            WinApiControlSignal::GuestCallbackRequested { request }
                if request.window_handle == parent
                    && request.message == 0x0111
                    && request.word_parameter == 0x0300_000C
        ),
        "WM_CHAR must deliver WM_COMMAND(MAKEWPARAM(12, EN_CHANGE)), got {signal:?}"
    );

    assert_eq!(control_text(&state, edit), "hXo");
    let ui = control_ui(&state, edit);
    assert_eq!((ui.caret, ui.sel_start, ui.sel_end), (2, 2, 2));
}

#[test]
fn test_edit_backspace_and_delete_at_caret() {
    let mut engine = test_engine();
    let mut state = default_winapi_state();
    let (_, edit) = push_edit_pair(&mut state);

    // Home + Right + Right (caret 2), Backspace → deletes the char before
    // the caret ('e', index 1) → "hllo", caret back at 1.
    press_key(&mut engine, &mut state, edit, VK_HOME);
    press_key(&mut engine, &mut state, edit, VK_RIGHT);
    press_key(&mut engine, &mut state, edit, VK_RIGHT);
    assert_eq!(control_ui(&state, edit).caret, 2);
    dispatch_control_proc(
        &mut engine,
        &mut state,
        edit,
        WM_CHAR,
        0x08,
        0,
    )
    .expect_err("backspace delivers EN_CHANGE");
    assert_eq!(control_text(&state, edit), "hllo");
    assert_eq!(control_ui(&state, edit).caret, 1);

    // VK_DELETE at caret 1 deletes 'l' (index 1) → "hlo".
    dispatch_control_proc(
        &mut engine,
        &mut state,
        edit,
        WM_KEYDOWN,
        VK_DELETE,
        0,
    )
    .expect_err("delete delivers EN_CHANGE");
    assert_eq!(control_text(&state, edit), "hlo");

    // Delete past the end: no text change, no notification.
    press_key(&mut engine, &mut state, edit, VK_END);
    let r = dispatch_control_proc(
        &mut engine,
        &mut state,
        edit,
        WM_KEYDOWN,
        VK_DELETE,
        0,
    )
    .expect("delete at end ok")
    .expect("some result");
    assert_eq!(r, 0);
    assert_eq!(control_text(&state, edit), "hlo");
}

#[test]
fn test_edit_arrow_keys_move_caret() {
    let mut engine = test_engine();
    let mut state = default_winapi_state();
    let (_, edit) = push_edit_pair(&mut state);

    // Home → caret 0.
    press_key(&mut engine, &mut state, edit, VK_HOME);
    assert_eq!(control_ui(&state, edit).caret, 0);

    // Right → caret 1; End → caret 5 (len of "hello"); Left → 4.
    press_key(&mut engine, &mut state, edit, VK_RIGHT);
    assert_eq!(control_ui(&state, edit).caret, 1);
    press_key(&mut engine, &mut state, edit, VK_END);
    assert_eq!(control_ui(&state, edit).caret, 5);
    press_key(&mut engine, &mut state, edit, VK_LEFT);
    assert_eq!(control_ui(&state, edit).caret, 4);

    // Left at the start is a no-op (stays 0 after Home).
    press_key(&mut engine, &mut state, edit, VK_HOME);
    press_key(&mut engine, &mut state, edit, VK_LEFT);
    assert_eq!(control_ui(&state, edit).caret, 0);
}

#[test]
fn test_edit_multiline_up_down_moves_between_lines() {
    let mut engine = test_engine();
    let mut state = default_winapi_state();
    let (_, edit) = push_multiline_edit(&mut state, "ab\ncd");
    // "ab\ncd": line 0 = chars 0..2, line 1 = chars 3..5. Caret 1 is column 1
    // of line 0; VK_DOWN keeps the column on line 1 → caret 4 (3 + 1).
    press_key(&mut engine, &mut state, edit, VK_RIGHT);
    assert_eq!(control_ui(&state, edit).caret, 1);
    press_key(&mut engine, &mut state, edit, VK_DOWN);
    let ui = control_ui(&state, edit);
    assert_eq!((ui.caret, ui.goal_column), (4, Some(1)));
    // VK_UP returns to the same column on line 0.
    press_key(&mut engine, &mut state, edit, VK_UP);
    let ui = control_ui(&state, edit);
    assert_eq!((ui.caret, ui.goal_column), (1, Some(1)));
    // Horizontal movement clears the goal column.
    press_key(&mut engine, &mut state, edit, VK_RIGHT);
    let ui = control_ui(&state, edit);
    assert_eq!((ui.caret, ui.goal_column), (2, None));
}

#[test]
fn test_edit_multiline_up_down_column_memory() {
    let mut engine = test_engine();
    let mut state = default_winapi_state();
    let (_, edit) = push_multiline_edit(&mut state, "ab\ncd\nefgh");
    // Lines: "ab" 0..2, "cd" 3..5, "efgh" 6..10. EM_SETSEL(9, 9) → caret 9 =
    // column 3 of the long line.
    dispatch_control_proc(
        &mut engine,
        &mut state,
        edit,
        EM_SETSEL,
        9,
        9,
    )
    .expect("setsel ok")
    .expect("some result");
    // Up to "cd" (len 2): the goal column 3 clamps to 2 → caret 3 + 2 = 5.
    press_key(&mut engine, &mut state, edit, VK_UP);
    assert_eq!(control_ui(&state, edit).caret, 5);
    // Up to "ab" (len 2): still clamped → caret 0 + 2 = 2.
    press_key(&mut engine, &mut state, edit, VK_UP);
    assert_eq!(control_ui(&state, edit).caret, 2);
    // Down returns to the goal column 3 on "cd" → caret 3 + 2 = 5.
    press_key(&mut engine, &mut state, edit, VK_DOWN);
    assert_eq!(control_ui(&state, edit).caret, 5);
    // Down again on the long line: the remembered column 3 → caret 6 + 3 = 9.
    press_key(&mut engine, &mut state, edit, VK_DOWN);
    let ui = control_ui(&state, edit);
    assert_eq!((ui.caret, ui.goal_column), (9, Some(3)));
}

#[test]
fn test_edit_single_line_vertical_keys_noop() {
    let mut engine = test_engine();
    let mut state = default_winapi_state();
    let (_, edit) = push_edit_pair(&mut state); // "hello"
    // Vertical keys do not move the single-line caret; Home/End keep their
    // document-wide meaning (identical to line-aware on a single line).
    for vk in [
        VK_UP,
        VK_DOWN,
        VK_PRIOR,
        VK_NEXT,
    ] {
        press_key(&mut engine, &mut state, edit, vk);
        assert_eq!(control_ui(&state, edit).caret, 0);
    }
    let ui = control_ui(&state, edit);
    assert_eq!(ui.goal_column, None, "single-line edits never set a goal");
    press_key(&mut engine, &mut state, edit, VK_END);
    assert_eq!(control_ui(&state, edit).caret, 5);
    press_key(&mut engine, &mut state, edit, VK_HOME);
    assert_eq!(control_ui(&state, edit).caret, 0);
}

#[test]
fn test_edit_wm_char_enter_multiline_inserts_newline() {
    let mut engine = test_engine();
    let mut state = default_winapi_state();
    let (_, edit) = push_multiline_edit(&mut state, "ab");

    // End + WM_CHAR 0x0D on a multiline EDIT appends '\n'.
    press_key(&mut engine, &mut state, edit, VK_END);
    dispatch_control_proc(
        &mut engine,
        &mut state,
        edit,
        WM_CHAR,
        0x0D,
        0,
    )
    .expect_err("multiline Enter inserts '\n' and delivers EN_CHANGE");
    assert_eq!(control_text(&state, edit), "ab\n");
    assert_eq!(control_ui(&state, edit).caret, 3);

    let (_, single) = push_edit_pair(&mut state);
    let r = dispatch_control_proc(
        &mut engine,
        &mut state,
        single,
        WM_CHAR,
        0x0D,
        0,
    )
    .expect("single-line enter ok")
    .expect("some result");
    assert_eq!(r, 0);
    assert_eq!(control_text(&state, single), "hello");
}

#[test]
fn test_edit_em_limitext_caps_insertion() {
    let mut engine = test_engine();
    let mut state = default_winapi_state();
    let (_, edit) = push_edit_pair(&mut state); // "hello", len 5

    // EM_LIMITTEXT(5) == the current length: typing at the cap is a no-op.
    let r = dispatch_control_proc(
        &mut engine,
        &mut state,
        edit,
        EM_LIMITTEXT,
        5,
        0,
    )
    .expect("limitext ok")
    .expect("some result");
    assert_eq!(r, 1, "EM_LIMITTEXT returns TRUE");
    assert_eq!(control_ui(&state, edit).limit, 5);
    assert_eq!(
        dispatch_control_proc(
            &mut engine,
            &mut state,
            edit,
            EM_GETLIMITTEXT,
            0,
            0,
        )
        .expect("getlimitext ok")
        .expect("some result"),
        5
    );

    press_key(&mut engine, &mut state, edit, VK_END);
    let r = dispatch_control_proc(
        &mut engine,
        &mut state,
        edit,
        WM_CHAR,
        u64::from(u32::from('X')),
        0,
    )
    .expect("at-cap typing ok")
    .expect("some result");
    assert_eq!(r, 0, "insertion beyond the limit must be ignored");
    assert_eq!(control_text(&state, edit), "hello");
    assert!(
        !control_ui(&state, edit).modified,
        "a blocked insert must not dirty the modify flag"
    );

    // Deletion is never capped: backspace removes a char.
    dispatch_control_proc(
        &mut engine,
        &mut state,
        edit,
        WM_CHAR,
        0x08,
        0,
    )
    .expect_err("backspace delivers EN_CHANGE");
    assert_eq!(control_text(&state, edit), "hell");
    assert!(
        control_ui(&state, edit).modified,
        "a real deletion must dirty the modify flag"
    );

    // EM_REPLACESEL truncates a too-long replacement to the remaining room
    // (limit 5, selecting 'h' leaves room for 5 - 3 = 2 chars).
    dispatch_control_proc(
        &mut engine,
        &mut state,
        edit,
        EM_SETSEL,
        0,
        1,
    )
    .expect("setsel ok")
    .expect("some result");
    write_guest_ansi(&mut engine, 0x4000, "PQRST");
    dispatch_control_proc(
        &mut engine,
        &mut state,
        edit,
        EM_REPLACESEL,
        0,
        0x4000,
    )
    .expect_err("EM_REPLACESEL delivers EN_CHANGE");
    assert_eq!(control_text(&state, edit), "PQell");
}

#[test]
fn test_edit_em_replacesel_replaces_selection_and_fires_en_change() {
    let mut engine = test_engine();
    let mut state = default_winapi_state();
    let (parent, edit) = push_edit_pair(&mut state); // "hello"

    dispatch_control_proc(
        &mut engine,
        &mut state,
        edit,
        EM_SETSEL,
        1,
        4,
    )
    .expect("setsel ok")
    .expect("some result");
    write_guest_ansi(&mut engine, 0x4000, "XY");
    let result = dispatch_control_proc(
        &mut engine,
        &mut state,
        edit,
        EM_REPLACESEL,
        0,
        0x4000,
    );
    let error = result.expect_err("EM_REPLACESEL must deliver EN_CHANGE");
    let signal = error;
    assert!(
        matches!(
            signal,
            WinApiControlSignal::GuestCallbackRequested { request }
                if request.window_handle == parent
                    && request.message == 0x0111
                    && request.word_parameter == 0x0300_000C
        ),
        "EM_REPLACESEL must deliver WM_COMMAND(MAKEWPARAM(12, EN_CHANGE)), got {signal:?}"
    );

    assert_eq!(control_text(&state, edit), "hXYo");
    let ui = control_ui(&state, edit);
    assert_eq!((ui.caret, ui.sel_start, ui.sel_end), (3, 3, 3));
}

#[test]
fn test_edit_em_scrollcaret_updates_first_visible_line() {
    let mut engine = test_engine();
    let mut state = default_winapi_state();
    let (_, edit) = push_multiline_edit(&mut state, "ab\ncd\nef");

    let r = dispatch_control_proc(
        &mut engine,
        &mut state,
        edit,
        EM_GETFIRSTVISIBLELINE,
        0,
        0,
    )
    .expect("firstvisible ok")
    .expect("some result");
    assert_eq!(r, 0, "fresh edit starts at the first line");

    // Caret to line 2 ('e', char index 6), then EM_SCROLLCARET brings that
    // line into view.
    dispatch_control_proc(
        &mut engine,
        &mut state,
        edit,
        EM_SETSEL,
        6,
        6,
    )
    .expect("setsel ok")
    .expect("some result");
    let r = dispatch_control_proc(
        &mut engine,
        &mut state,
        edit,
        EM_SCROLLCARET,
        0,
        0,
    )
    .expect("scrollcaret ok")
    .expect("some result");
    assert_eq!(r, 1, "EM_SCROLLCARET returns TRUE");
    assert_eq!(control_ui(&state, edit).first_visible_line, 2);
    let r = dispatch_control_proc(
        &mut engine,
        &mut state,
        edit,
        EM_GETFIRSTVISIBLELINE,
        0,
        0,
    )
    .expect("firstvisible ok")
    .expect("some result");
    assert_eq!(r, 2);
}

#[test]
fn test_edit_wm_vscroll_scroll_codes() {
    // WM_VSCROLL scroll-bar codes (winuser.h) — the wParam low word.
    const SB_LINEUP: u16 = 0;
    const SB_LINEDOWN: u16 = 1;
    const SB_PAGEUP: u16 = 2;
    const SB_PAGEDOWN: u16 = 3;
    const SB_THUMBPOSITION: u16 = 4;
    const SB_THUMBTRACK: u16 = 5;
    const SB_TOP: u16 = 6;
    const SB_BOTTOM: u16 = 7;
    const SB_ENDSCROLL: u16 = 8;

    let mut engine = test_engine();
    let mut state = default_winapi_state();
    let (_, edit) = push_multiline_edit(&mut state, "a\nb\nc\nd\ne");
    // 5 visual rows, 3 visible → the offset clamps to max(0, 5 − 3) = 2.
    set_edit_visible_rows(&mut state, edit, 3);

    // SB_TOP: first row; SB_BOTTOM: the last offset that keeps the final row
    // visible (NOT the last row itself).
    assert_eq!(vscroll_offset(&mut engine, &mut state, edit, SB_TOP, 0), 0);
    assert_eq!(
        vscroll_offset(&mut engine, &mut state, edit, SB_BOTTOM, 0),
        2
    );

    // SB_LINEUP / SB_LINEDOWN step by one row, clamped at both ends.
    assert_eq!(vscroll_offset(&mut engine, &mut state, edit, SB_TOP, 0), 0);
    assert_eq!(
        vscroll_offset(&mut engine, &mut state, edit, SB_LINEDOWN, 0),
        1
    );
    assert_eq!(
        vscroll_offset(&mut engine, &mut state, edit, SB_LINEUP, 0),
        0
    );
    assert_eq!(
        vscroll_offset(&mut engine, &mut state, edit, SB_BOTTOM, 0),
        2
    );
    assert_eq!(
        vscroll_offset(&mut engine, &mut state, edit, SB_LINEDOWN, 0),
        2
    ); // clamped

    // SB_PAGEUP / SB_PAGEDOWN move by the visible-row count (3).
    assert_eq!(vscroll_offset(&mut engine, &mut state, edit, SB_TOP, 0), 0);
    assert_eq!(
        vscroll_offset(&mut engine, &mut state, edit, SB_PAGEDOWN, 0),
        2
    ); // 3 clamped
    assert_eq!(
        vscroll_offset(&mut engine, &mut state, edit, SB_PAGEUP, 0),
        0
    );

    // SB_THUMBTRACK / SB_THUMBPOSITION jump to the high-word thumb position.
    assert_eq!(
        vscroll_offset(&mut engine, &mut state, edit, SB_THUMBTRACK, 1),
        1
    );
    assert_eq!(
        vscroll_offset(&mut engine, &mut state, edit, SB_THUMBPOSITION, 2),
        2
    );

    // SB_ENDSCROLL is a no-op.
    assert_eq!(
        vscroll_offset(&mut engine, &mut state, edit, SB_ENDSCROLL, 0),
        2
    );
}

#[test]
fn test_edit_wm_vscroll_short_text_stays_at_zero() {
    const SB_LINEDOWN: u16 = 1;
    const SB_THUMBTRACK: u16 = 5;
    const SB_BOTTOM: u16 = 7;

    let mut engine = test_engine();
    let mut state = default_winapi_state();
    let (_, edit) = push_multiline_edit(&mut state, "a\nb");
    // Content (2 rows) fits entirely in a 3-row viewport: every code clamps
    // to 0.
    set_edit_visible_rows(&mut state, edit, 3);
    assert_eq!(
        vscroll_offset(&mut engine, &mut state, edit, SB_BOTTOM, 0),
        0
    );
    assert_eq!(
        vscroll_offset(&mut engine, &mut state, edit, SB_LINEDOWN, 0),
        0
    );
    assert_eq!(
        vscroll_offset(&mut engine, &mut state, edit, SB_THUMBTRACK, 5),
        0
    );
}

#[test]
fn test_edit_em_scrollcaret_minimal_scroll() {
    let mut engine = test_engine();
    let mut state = default_winapi_state();
    let (_, edit) = push_multiline_edit(&mut state, "a\nb\nc\nd\ne");
    // 5 rows, 3 visible: the viewport shows rows [first, first + 3).
    set_edit_visible_rows(&mut state, edit, 3);

    dispatch_control_proc(
        &mut engine,
        &mut state,
        edit,
        EM_SETSEL,
        8, // 'e', line 4
        8,
    )
    .expect("setsel ok")
    .expect("some result");
    dispatch_control_proc(
        &mut engine,
        &mut state,
        edit,
        EM_SCROLLCARET,
        0,
        0,
    )
    .expect("scrollcaret ok")
    .expect("some result");
    assert_eq!(
        control_ui(&state, edit).first_visible_line,
        2,
        "caret below the viewport lands on the LAST visible row (4 − 3 + 1), not the top"
    );

    // Caret ABOVE the viewport: scrolls back up to reveal it at the top.
    dispatch_control_proc(
        &mut engine,
        &mut state,
        edit,
        EM_SETSEL,
        2, // 'b', line 1
        2,
    )
    .expect("setsel ok")
    .expect("some result");
    dispatch_control_proc(
        &mut engine,
        &mut state,
        edit,
        EM_SCROLLCARET,
        0,
        0,
    )
    .expect("scrollcaret ok")
    .expect("some result");
    assert_eq!(
        control_ui(&state, edit).first_visible_line,
        1,
        "caret above the viewport scrolls back to it"
    );

    // Caret already visible: no movement.
    dispatch_control_proc(
        &mut engine,
        &mut state,
        edit,
        EM_SETSEL,
        6, // 'd', line 3 — inside rows [1, 4)
        6,
    )
    .expect("setsel ok")
    .expect("some result");
    dispatch_control_proc(
        &mut engine,
        &mut state,
        edit,
        EM_SCROLLCARET,
        0,
        0,
    )
    .expect("scrollcaret ok")
    .expect("some result");
    assert_eq!(
        control_ui(&state, edit).first_visible_line,
        1,
        "a visible caret must not move the offset"
    );
}

#[test]
fn test_edit_wm_mousewheel_scrolls() {
    let mut engine = test_engine();
    let mut state = default_winapi_state();
    let (_, edit) = push_multiline_edit(&mut state, "a\nb\nc\nd\ne");
    set_edit_visible_rows(&mut state, edit, 3);

    // Positive delta (wheel away from the user) scrolls UP — already at the
    // top, so nothing moves.
    assert_eq!(wheel_offset(&mut engine, &mut state, edit, 120), 0);
    // A full notch scrolls 3 lines (the Windows default); clamped to 2.
    assert_eq!(wheel_offset(&mut engine, &mut state, edit, -120), 2);
    assert_eq!(wheel_offset(&mut engine, &mut state, edit, -240), 2); // clamped
    // Back up: 2 − 3 → 0.
    assert_eq!(wheel_offset(&mut engine, &mut state, edit, 120), 0);
    // A partial notch (60 delta units) is below the 120-unit line threshold.
    assert_eq!(wheel_offset(&mut engine, &mut state, edit, -60), 0);
}

#[test]
fn test_edit_em_modify_flags_round_trip() {
    let mut engine = test_engine();
    let mut state = default_winapi_state();
    let (_, edit) = push_edit_pair(&mut state);

    // Fresh edit is unmodified.
    let r = dispatch_control_proc(
        &mut engine,
        &mut state,
        edit,
        EM_GETMODIFY,
        0,
        0,
    )
    .expect("getmodify ok")
    .expect("some result");
    assert_eq!(r, 0);

    // EM_SETMODIFY(1) → GETMODIFY 1; EM_SETMODIFY(0) → GETMODIFY 0.
    dispatch_control_proc(
        &mut engine,
        &mut state,
        edit,
        EM_SETMODIFY,
        1,
        0,
    )
    .expect("setmodify1 ok")
    .expect("some result");
    let r = dispatch_control_proc(
        &mut engine,
        &mut state,
        edit,
        EM_GETMODIFY,
        0,
        0,
    )
    .expect("getmodify ok")
    .expect("some result");
    assert_eq!(r, 1);
    dispatch_control_proc(
        &mut engine,
        &mut state,
        edit,
        EM_SETMODIFY,
        0,
        0,
    )
    .expect("setmodify0 ok")
    .expect("some result");
    let r = dispatch_control_proc(
        &mut engine,
        &mut state,
        edit,
        EM_GETMODIFY,
        0,
        0,
    )
    .expect("getmodify ok")
    .expect("some result");
    assert_eq!(r, 0);

    // Typing sets the flag again.
    dispatch_control_proc(
        &mut engine,
        &mut state,
        edit,
        WM_CHAR,
        u64::from(u32::from('X')),
        0,
    )
    .expect_err("typing delivers EN_CHANGE");
    assert!(
        control_ui(&state, edit).modified,
        "typing must set the modify flag"
    );
}

#[test]
fn test_edit_em_settabstops_stores_stops() {
    let mut engine = test_engine();
    let mut state = default_winapi_state();
    let (_, edit) = push_multiline_edit(&mut state, "ab\ncd");

    // Two explicit stops at 4 and 8 dialog units.
    engine
        .mem_write(0x4000, &4_u16.to_le_bytes())
        .expect("stop 0");
    engine
        .mem_write(0x4002, &8_u16.to_le_bytes())
        .expect("stop 1");
    let r = dispatch_control_proc(
        &mut engine,
        &mut state,
        edit,
        EM_SETTABSTOPS,
        2,
        0x4000,
    )
    .expect("settabstops ok")
    .expect("some result");
    assert_eq!(r, 1, "EM_SETTABSTOPS returns TRUE");
    assert_eq!(control_ui(&state, edit).tab_stops, vec![4, 8]);

    // wParam 0 resets to the default tab stops (the stored list clears).
    let r = dispatch_control_proc(
        &mut engine,
        &mut state,
        edit,
        EM_SETTABSTOPS,
        0,
        0,
    )
    .expect("settabstops reset ok")
    .expect("some result");
    assert_eq!(r, 1);
    assert_eq!(
        control_ui(&state, edit).tab_stops,
        Vec::<u16>::new(),
        "wParam 0 restores default stops"
    );
}

#[test]
fn test_edit_em_selectiontype_basic_answers() {
    let mut engine = test_engine();
    let mut state = default_winapi_state();
    let (_, edit) = push_multiline_edit(&mut state, "ab\ncd");

    // No selection → SEL_EMPTY.
    let r = dispatch_control_proc(
        &mut engine,
        &mut state,
        edit,
        EM_SELECTIONTYPE,
        0,
        0,
    )
    .expect("selectiontype ok")
    .expect("some result");
    assert_eq!(r, SEL_EMPTY);

    // One char → SEL_TEXT.
    dispatch_control_proc(
        &mut engine,
        &mut state,
        edit,
        EM_SETSEL,
        0,
        1,
    )
    .expect("setsel ok")
    .expect("some result");
    let r = dispatch_control_proc(
        &mut engine,
        &mut state,
        edit,
        EM_SELECTIONTYPE,
        0,
        0,
    )
    .expect("selectiontype ok")
    .expect("some result");
    assert_eq!(r, SEL_TEXT);

    // Two chars on one line → SEL_TEXT | SEL_MULTICHAR.
    dispatch_control_proc(
        &mut engine,
        &mut state,
        edit,
        EM_SETSEL,
        0,
        2,
    )
    .expect("setsel ok")
    .expect("some result");
    let r = dispatch_control_proc(
        &mut engine,
        &mut state,
        edit,
        EM_SELECTIONTYPE,
        0,
        0,
    )
    .expect("selectiontype ok")
    .expect("some result");
    assert_eq!(r, SEL_TEXT | SEL_MULTICHAR);

    // "\nc" spans two lines' characters → SEL_TEXT | SEL_MULTICHAR |
    // SEL_MULTILINE (a selection ending exactly at a '\n' stays on that line).
    dispatch_control_proc(
        &mut engine,
        &mut state,
        edit,
        EM_SETSEL,
        2,
        4,
    )
    .expect("setsel ok")
    .expect("some result");
    let r = dispatch_control_proc(
        &mut engine,
        &mut state,
        edit,
        EM_SELECTIONTYPE,
        0,
        0,
    )
    .expect("selectiontype ok")
    .expect("some result");
    assert_eq!(r, SEL_TEXT | SEL_MULTICHAR | SEL_MULTILINE);
}

#[test]
fn test_edit_em_canundo_tracks_insert_delete_replace() {
    // Insert: typing 'X' at the caret captures a snapshot.
    let mut engine = test_engine();
    let mut state = default_winapi_state();
    let (_, edit) = push_edit_pair(&mut state);
    assert_eq!(
        can_undo(&mut engine, &mut state, edit),
        0,
        "a fresh edit has nothing to undo"
    );
    dispatch_control_proc(
        &mut engine,
        &mut state,
        edit,
        WM_CHAR,
        u64::from(u32::from('X')),
        0,
    )
    .expect_err("char delivers EN_CHANGE");
    assert_eq!(
        can_undo(&mut engine, &mut state, edit),
        1,
        "an insert captures an undo snapshot"
    );

    // Delete: VK_DELETE at the caret captures a snapshot.
    let mut engine = test_engine();
    let mut state = default_winapi_state();
    let (_, edit) = push_edit_pair(&mut state);
    press_key(&mut engine, &mut state, edit, VK_RIGHT);
    dispatch_control_proc(
        &mut engine,
        &mut state,
        edit,
        WM_KEYDOWN,
        VK_DELETE,
        0,
    )
    .expect_err("delete delivers EN_CHANGE");
    assert_eq!(
        can_undo(&mut engine, &mut state, edit),
        1,
        "a delete captures an undo snapshot"
    );

    // Replace: EM_REPLACESEL over a selection captures a snapshot.
    let mut engine = test_engine();
    let mut state = default_winapi_state();
    let (_, edit) = push_edit_pair(&mut state);
    dispatch_control_proc(
        &mut engine,
        &mut state,
        edit,
        EM_SETSEL,
        1,
        4,
    )
    .expect("setsel ok")
    .expect("some result");
    write_guest_ansi(&mut engine, 0x4000, "Z");
    dispatch_control_proc(
        &mut engine,
        &mut state,
        edit,
        EM_REPLACESEL,
        0,
        0x4000,
    )
    .expect_err("replacesel delivers EN_CHANGE");
    assert_eq!(
        can_undo(&mut engine, &mut state, edit),
        1,
        "a replace captures an undo snapshot"
    );
}

#[test]
fn test_edit_em_undo_restores_text_caret_and_selection() {
    let mut engine = test_engine();
    let mut state = default_winapi_state();
    let (_, edit) = push_edit_pair(&mut state);

    // Select "ell" [1,4) (the caret lands at 4) and type 'X' → "hXo".
    dispatch_control_proc(
        &mut engine,
        &mut state,
        edit,
        EM_SETSEL,
        1,
        4,
    )
    .expect("setsel ok")
    .expect("some result");
    dispatch_control_proc(
        &mut engine,
        &mut state,
        edit,
        WM_CHAR,
        u64::from(u32::from('X')),
        0,
    )
    .expect_err("char delivers EN_CHANGE");
    assert_eq!(control_text(&state, edit), "hXo");
    let ui = control_ui(&state, edit);
    assert_eq!((ui.caret, ui.sel_start, ui.sel_end), (2, 2, 2));

    dispatch_control_proc(
        &mut engine,
        &mut state,
        edit,
        EM_UNDO,
        0,
        0,
    )
    .expect_err("undo delivers EN_CHANGE");
    assert_eq!(control_text(&state, edit), "hello");
    let ui = control_ui(&state, edit);
    assert_eq!((ui.caret, ui.sel_start, ui.sel_end), (4, 1, 4));

    // Single-level buffer: the undo consumed the snapshot, so a second
    // EM_UNDO does nothing (no redo) and EM_CANUNDO is false again.
    let r = dispatch_control_proc(
        &mut engine,
        &mut state,
        edit,
        EM_UNDO,
        0,
        0,
    )
    .expect("second undo ok")
    .expect("some result");
    assert_eq!(r, 0, "EM_UNDO with an empty buffer returns FALSE");
    assert_eq!(control_text(&state, edit), "hello");
    assert_eq!(can_undo(&mut engine, &mut state, edit), 0);
}

#[test]
fn test_edit_wm_undo_matches_em_undo() {
    let mut engine = test_engine();
    let mut state = default_winapi_state();
    let (_, edit) = push_edit_pair(&mut state);

    // The Edit menu's Undo command sends WM_UNDO to the focused edit — it
    // must behave exactly like EM_UNDO.
    dispatch_control_proc(
        &mut engine,
        &mut state,
        edit,
        WM_CHAR,
        u64::from(u32::from('X')),
        0,
    )
    .expect_err("char delivers EN_CHANGE");
    assert_eq!(control_text(&state, edit), "Xhello");
    dispatch_control_proc(
        &mut engine,
        &mut state,
        edit,
        WM_UNDO,
        0,
        0,
    )
    .expect_err("WM_UNDO delivers EN_CHANGE");
    assert_eq!(control_text(&state, edit), "hello");
    assert_eq!(control_ui(&state, edit).caret, 0);
    assert_eq!(can_undo(&mut engine, &mut state, edit), 0);
}

#[test]
fn test_edit_em_emptyundobuffer_clears() {
    let mut engine = test_engine();
    let mut state = default_winapi_state();
    let (_, edit) = push_edit_pair(&mut state);

    dispatch_control_proc(
        &mut engine,
        &mut state,
        edit,
        WM_CHAR,
        u64::from(u32::from('X')),
        0,
    )
    .expect_err("char delivers EN_CHANGE");
    assert_eq!(can_undo(&mut engine, &mut state, edit), 1);

    dispatch_control_proc(
        &mut engine,
        &mut state,
        edit,
        EM_EMPTYUNDOBUFFER,
        0,
        0,
    )
    .expect("emptyundobuffer ok")
    .expect("some result");
    assert_eq!(
        can_undo(&mut engine, &mut state, edit),
        0,
        "EM_EMPTYUNDOBUFFER discards the snapshot"
    );
}

#[test]
fn test_edit_em_canundo_parity_and_settext_clears_undo() {
    let mut engine = test_engine();
    let mut state = default_winapi_state();
    let (_, edit) = push_edit_pair(&mut state);

    assert_eq!(
        dispatch_control_proc(&mut engine, &mut state, edit, 0x00C6, 0, 0)
            .expect("dispatch ok")
            .expect("0x00C6 must hit the EM_CANUNDO arm"),
        0,
        "a fresh edit has nothing to undo"
    );

    // An editable change (typing) captures a snapshot → TRUE.
    dispatch_control_proc(
        &mut engine,
        &mut state,
        edit,
        WM_CHAR,
        u64::from(u32::from('X')),
        0,
    )
    .expect_err("char delivers EN_CHANGE");
    assert_eq!(
        dispatch_control_proc(&mut engine, &mut state, edit, 0x00C6, 0, 0)
            .expect("dispatch ok")
            .expect("0x00C6 must hit the EM_CANUNDO arm"),
        1,
        "an insert is undoable"
    );

    // EM_UNDO restores the text and consumes the snapshot → FALSE.
    dispatch_control_proc(
        &mut engine,
        &mut state,
        edit,
        EM_UNDO,
        0,
        0,
    )
    .expect_err("undo delivers EN_CHANGE");
    assert_eq!(control_text(&state, edit), "hello");
    assert_eq!(
        dispatch_control_proc(&mut engine, &mut state, edit, 0x00C6, 0, 0)
            .expect("dispatch ok")
            .expect("0x00C6 must hit the EM_CANUNDO arm"),
        0,
        "undo consumed the snapshot"
    );

    // SetWindowText (the raw WM_SETTEXT = 0x000C a SendMessage carries) must
    // clear the undo buffer: edit again so a snapshot is pending, then set
    // the text — EM_CANUNDO goes false.
    dispatch_control_proc(
        &mut engine,
        &mut state,
        edit,
        WM_CHAR,
        u64::from(u32::from('Y')),
        0,
    )
    .expect_err("char delivers EN_CHANGE");
    assert_eq!(control_text(&state, edit), "Yhello");
    write_guest_ansi(&mut engine, 0x4000, "fresh");
    dispatch_control_proc(
        &mut engine,
        &mut state,
        edit,
        0x000C,
        0,
        0x4000,
    )
    .expect("settext ok")
    .expect("some result");
    assert_eq!(control_text(&state, edit), "fresh");
    assert_eq!(
        dispatch_control_proc(&mut engine, &mut state, edit, 0x00C6, 0, 0)
            .expect("dispatch ok")
            .expect("0x00C6 must hit the EM_CANUNDO arm"),
        0,
        "SetWindowText clears the undo buffer"
    );
}

#[test]
fn test_edit_wm_paste_inserts_clipboard_text_replacing_selection() {
    let mut engine = test_engine();
    let mut state = default_winapi_state();
    let (_, edit) = push_edit_pair(&mut state);

    // Seed the clipboard with the full text, then move to the start.
    dispatch_control_proc(
        &mut engine,
        &mut state,
        edit,
        EM_SETSEL,
        0,
        u64::from(u32::MAX),
    )
    .expect("setsel ok")
    .expect("some result");
    dispatch_control_proc(
        &mut engine,
        &mut state,
        edit,
        WM_COPY,
        0,
        0,
    )
    .expect("copy ok")
    .expect("some result");
    press_key(&mut engine, &mut state, edit, VK_HOME);

    // Paste at the caret (no selection) inserts the clipboard text.
    dispatch_control_proc(
        &mut engine,
        &mut state,
        edit,
        WM_PASTE,
        0,
        0,
    )
    .expect_err("paste delivers EN_CHANGE");
    assert_eq!(control_text(&state, edit), "hellohello");
    assert_eq!(control_ui(&state, edit).caret, 5);

    // Paste over a selection replaces it: [1,4) "ell" of "hellohello" is
    // replaced by "hello" → "h" + "hello" + "ohello" = "hhelloohello".
    dispatch_control_proc(
        &mut engine,
        &mut state,
        edit,
        EM_SETSEL,
        1,
        4,
    )
    .expect("setsel ok")
    .expect("some result");
    dispatch_control_proc(
        &mut engine,
        &mut state,
        edit,
        WM_PASTE,
        0,
        0,
    )
    .expect_err("paste delivers EN_CHANGE");
    assert_eq!(control_text(&state, edit), "hhelloohello");
    let ui = control_ui(&state, edit);
    assert_eq!((ui.caret, ui.sel_start, ui.sel_end), (6, 6, 6));
}

#[test]
fn test_edit_wm_paste_empty_clipboard_is_noop() {
    let mut engine = test_engine();
    let mut state = default_winapi_state();
    let (_, edit) = push_edit_pair(&mut state);

    // Fresh session: nothing on the clipboard, so paste changes nothing.
    let r = dispatch_control_proc(
        &mut engine,
        &mut state,
        edit,
        WM_PASTE,
        0,
        0,
    )
    .expect("paste ok")
    .expect("some result");
    assert_eq!(r, 0);
    assert_eq!(control_text(&state, edit), "hello");
    assert_eq!(
        can_undo(&mut engine, &mut state, edit),
        0,
        "an empty-clipboard paste is not a mutation"
    );
}

#[test]
fn test_is_clipboard_format_available_tracks_clipboard_text() {
    let mut engine = test_engine();
    let mut state = default_winapi_state();
    let (_, edit) = push_edit_pair(&mut state);

    // Fresh session: no text on the clipboard → FALSE.
    assert_eq!(clipboard_available(&mut engine, &mut state), 0);

    // WM_COPY the selection → TRUE.
    dispatch_control_proc(
        &mut engine,
        &mut state,
        edit,
        EM_SETSEL,
        0,
        u64::from(u32::MAX),
    )
    .expect("setsel ok")
    .expect("some result");
    dispatch_control_proc(
        &mut engine,
        &mut state,
        edit,
        WM_COPY,
        0,
        0,
    )
    .expect("copy ok")
    .expect("some result");
    assert_eq!(clipboard_available(&mut engine, &mut state), 1);

    // WM_CLEAR empties the clipboard → FALSE again.
    dispatch_control_proc(
        &mut engine,
        &mut state,
        edit,
        WM_CLEAR,
        0,
        0,
    )
    .expect_err("clear delivers EN_CHANGE");
    assert_eq!(clipboard_available(&mut engine, &mut state), 0);
}

#[test]
fn test_listbox_setcursel_getcursel_and_lbn_selchange() {
    let mut engine = test_engine();
    let mut state = default_winapi_state();
    let (parent, listbox) = push_listbox(&mut state);
    seed_listbox(&mut engine, &mut state, listbox);

    // Fresh listbox: no selection.
    let r = dispatch_control_proc(
        &mut engine,
        &mut state,
        listbox,
        LB_GETCURSEL,
        0,
        0,
    )
    .expect("getcursel ok")
    .expect("some result");
    assert_eq!(r, u64::MAX, "LB_GETCURSEL = LB_ERR without a selection");

    // LB_SETCURSEL(1) selects the second item and delivers LBN_SELCHANGE.
    let result = dispatch_control_proc(
        &mut engine,
        &mut state,
        listbox,
        LB_SETCURSEL,
        1,
        0,
    );
    let error = result.expect_err("LB_SETCURSEL must deliver LBN_SELCHANGE");
    let signal = error;
    assert!(
        matches!(
            signal,
            WinApiControlSignal::GuestCallbackRequested { request }
                if request.window_handle == parent
                    && request.message == 0x0111
                    && request.word_parameter == 0x0001_0001
        ),
        "LB_SETCURSEL must deliver WM_COMMAND(MAKEWPARAM(1, LBN_SELCHANGE)), \
             got {signal:?}"
    );

    // Now LB_GETCURSEL = 1.
    let r = dispatch_control_proc(
        &mut engine,
        &mut state,
        listbox,
        LB_GETCURSEL,
        0,
        0,
    )
    .expect("getcursel ok")
    .expect("some result");
    assert_eq!(r, 1);

    // Re-selecting the same index does not re-notify (returns 0).
    let r = dispatch_control_proc(
        &mut engine,
        &mut state,
        listbox,
        LB_SETCURSEL,
        1,
        0,
    )
    .expect("same setcursel ok")
    .expect("some result");
    assert_eq!(r, 0);

    // Out-of-range index → LB_ERR, selection unchanged.
    let r = dispatch_control_proc(
        &mut engine,
        &mut state,
        listbox,
        LB_SETCURSEL,
        99,
        0,
    )
    .expect("out-of-range ok")
    .expect("some result");
    assert_eq!(r, u64::MAX, "out-of-range LB_SETCURSEL returns LB_ERR");
    assert_eq!(control_ui(&state, listbox).sel_index, 1);

    // LB_SETCURSEL(-1) clears the selection.
    dispatch_control_proc(
        &mut engine,
        &mut state,
        listbox,
        LB_SETCURSEL,
        u64::from(u32::MAX),
        0,
    )
    .expect_err("clearing the selection delivers LBN_SELCHANGE");
    let r = dispatch_control_proc(
        &mut engine,
        &mut state,
        listbox,
        LB_GETCURSEL,
        0,
        0,
    )
    .expect("getcursel ok")
    .expect("some result");
    assert_eq!(r, u64::MAX, "cleared selection reads back as LB_ERR");
}

#[test]
fn test_listbox_click_selects_item_and_notifies() {
    let mut engine = test_engine();
    let mut state = default_winapi_state();
    let (parent, listbox) = push_listbox(&mut state);
    seed_listbox(&mut engine, &mut state, listbox);

    // Click at client (2, 18): row 1 = 18 / 16 → selects "beta".
    let lparam = u64::from(2_u16) | (u64::from(18_u16) << 16);
    let result = dispatch_control_proc(
        &mut engine,
        &mut state,
        listbox,
        WM_LBUTTONDOWN,
        0,
        lparam,
    );
    let error = result.expect_err("click must deliver LBN_SELCHANGE");
    let signal = error;
    assert!(
        matches!(
            signal,
            WinApiControlSignal::GuestCallbackRequested { request }
                if request.window_handle == parent && request.word_parameter == 0x0001_0001
        ),
        "listbox click must deliver WM_COMMAND(MAKEWPARAM(1, LBN_SELCHANGE)), \
             got {signal:?}"
    );
    assert_eq!(control_ui(&state, listbox).sel_index, 1);

    // Clicking the same row again does NOT re-notify.
    let r = dispatch_control_proc(
        &mut engine,
        &mut state,
        listbox,
        WM_LBUTTONDOWN,
        0,
        lparam,
    )
    .expect("same click ok")
    .expect("some result");
    assert_eq!(r, 0);

    // A click below the items (y = 60) selects nothing.
    let below = u64::from(2_u16) | (u64::from(60_u16) << 16);
    let r = dispatch_control_proc(
        &mut engine,
        &mut state,
        listbox,
        WM_LBUTTONDOWN,
        0,
        below,
    )
    .expect("below items ok")
    .expect("some result");
    assert_eq!(r, 0);
    assert_eq!(
        control_ui(&state, listbox).sel_index,
        1,
        "selection unchanged"
    );
}

#[test]
fn test_edit_mouse_selection_fires_no_en_change() {
    let mut engine = test_engine();
    let mut state = default_winapi_state();
    let (_, edit) = push_edit_pair(&mut state);
    let original = control_text(&state, edit);

    let y = 10_u16;
    let x_a = u16::try_from(char_cell_left(&mut state, edit, 1)).unwrap_or(0);
    let x_b = u16::try_from(char_cell_left(&mut state, edit, 4)).unwrap_or(0);
    dispatch_mouse(
        &mut engine,
        &mut state,
        edit,
        WM_LBUTTONDOWN,
        x_a,
        y,
    );
    dispatch_mouse(
        &mut engine,
        &mut state,
        edit,
        WM_MOUSEMOVE,
        x_b,
        y,
    );
    release_mouse(&mut engine, &mut state, edit, x_b, y);
    dispatch_mouse(
        &mut engine,
        &mut state,
        edit,
        WM_LBUTTONDBLCLK,
        x_a,
        y,
    );
    assert_eq!(
        control_text(&state, edit),
        original,
        "selection must not mutate the control text"
    );
    assert!(
        !control_ui(&state, edit).modified,
        "selection must not set EM_GETMODIFY"
    );
}

#[test]
fn test_edit_subclass_wm_char_bridges_to_guest_subclass_first() {
    let mut engine = test_engine();
    let mut state = default_winapi_state();
    let (_, edit) = push_multiline_edit(&mut state, "hello");
    subclass_edit(&mut engine, &mut state, edit);

    let result = dispatch_control_proc(
        &mut engine,
        &mut state,
        edit,
        WM_CHAR,
        u64::from(b'x'),
        0,
    );
    let error = result.expect_err("WM_CHAR must bridge to the guest subclass");
    let signal = error;
    assert!(
        matches!(
            signal,
            WinApiControlSignal::GuestCallbackRequested { request }
                if request.callback_address == GUEST_SUBCLASS
                    && request.window_handle == edit
                    && request.message == WM_CHAR
                    && request.word_parameter == u64::from(b'x')
                    && request.outer_return == OuterReturn::Passthrough
        ),
        "WM_CHAR must bridge to the guest subclass, got {signal:?}"
    );
    assert_eq!(
        control_text(&state, edit),
        "hello",
        "the host default dispatch must not run while subclassed"
    );
}

#[test]
fn test_edit_subclass_wm_keydown_bridges_to_guest_subclass_first() {
    let mut engine = test_engine();
    let mut state = default_winapi_state();
    let (_, edit) = push_multiline_edit(&mut state, "hello");
    subclass_edit(&mut engine, &mut state, edit);

    // Arrow-key navigation (the status-bar Ln/Col path) also reaches the
    // subclass before the host sees it.
    let result = dispatch_control_proc(
        &mut engine,
        &mut state,
        edit,
        WM_KEYDOWN,
        VK_RIGHT,
        0,
    );
    let error = result.expect_err("WM_KEYDOWN must bridge to the guest subclass");
    let signal = error;
    assert!(
        matches!(
            signal,
            WinApiControlSignal::GuestCallbackRequested { request }
                if request.callback_address == GUEST_SUBCLASS
                    && request.message == WM_KEYDOWN
                    && request.word_parameter == VK_RIGHT
        ),
        "WM_KEYDOWN must bridge to the guest subclass, got {signal:?}"
    );
    let caret = control_ui(&state, edit);
    assert_eq!(caret.caret, 0, "the host caret move must not run");
}

#[test]
fn test_edit_pgup_pgdn_keydown_delivers_en_vscroll_to_parent() {
    let mut engine = test_engine();
    let mut state = default_winapi_state();
    let (parent, edit) = push_multiline_edit(&mut state, "0\n1\n2\n3\n4\n5\n6\n7\n8\n9");
    // An 80 px tall control gives a 5-line page (the 16 px default line
    // height).
    for w in &mut state.window_state().windows {
        if w.handle == Hwnd::from(edit) {
            w.height = 80;
        }
    }

    let pgdn_result = dispatch_control_proc(
        &mut engine,
        &mut state,
        edit,
        WM_KEYDOWN,
        VK_NEXT,
        0,
    );
    let error = pgdn_result.expect_err("PgDn must deliver EN_VSCROLL");
    let signal = error;
    assert!(
        matches!(
            signal,
            WinApiControlSignal::GuestCallbackRequested { request }
                if request.window_handle == parent
                    && request.message == 0x0111
                    && request.word_parameter == 0x0602_000C
        ),
        "PgDn must deliver WM_COMMAND(MAKEWPARAM(12, EN_VSCROLL)), got {signal:?}"
    );

    // PgUp likewise (line 5 → 0).
    let pgup_result = dispatch_control_proc(
        &mut engine,
        &mut state,
        edit,
        WM_KEYDOWN,
        VK_PRIOR,
        0,
    );
    let error = pgup_result.expect_err("PgUp must deliver EN_VSCROLL");
    let signal = error;
    assert!(
        matches!(
            signal,
            WinApiControlSignal::GuestCallbackRequested { request }
                if request.window_handle == parent
                    && request.message == 0x0111
                    && request.word_parameter == 0x0602_000C
        ),
        "PgUp must deliver WM_COMMAND(MAKEWPARAM(12, EN_VSCROLL)), got {signal:?}"
    );

    // PgUp at the first line: the caret cannot move up a page, so the key is
    // a no-op — no EN_VSCROLL fires.
    let noop_result = dispatch_control_proc(
        &mut engine,
        &mut state,
        edit,
        WM_KEYDOWN,
        VK_PRIOR,
        0,
    );
    let value = noop_result.expect("no-op PgUp at the top must not notify");
    assert_eq!(value, Some(0), "a no-op page key answers 0 silently");
    assert_eq!(
        control_ui(&state, edit).caret,
        0,
        "the caret stays at line 0"
    );
}

#[test]
fn test_edit_typing_at_bottom_autoscrolls_caret_into_view() {
    let mut engine = test_engine();
    let mut state = default_winapi_state();
    let (_, edit) = push_multiline_edit(&mut state, "0\n1\n2\n3\n4\n5\n6\n7\n8\n9");
    // 5 visible rows in an 80 px client (the 16 px default line height):
    // typing on line 9 (char 18) must bring the caret into view instead of
    // leaving it off-screen below the last visible row.
    for w in &mut state.window_state().windows {
        if w.handle == Hwnd::from(edit) {
            w.height = 80;
        }
    }
    dispatch_control_proc(
        &mut engine,
        &mut state,
        edit,
        EM_SETSEL,
        18,
        18,
    )
    .expect("setsel ok")
    .expect("some result");
    assert_eq!(
        control_ui(&state, edit).first_visible_line,
        0,
        "the fixture starts at the top"
    );

    let error = dispatch_control_proc(
        &mut engine,
        &mut state,
        edit,
        WM_CHAR,
        u64::from(b'x'),
        0,
    )
    .expect_err("typing must deliver EN_CHANGE");
    let signal = error;
    assert!(
        matches!(
            signal,
            WinApiControlSignal::GuestCallbackRequested { request }
                if request.message == 0x0111 && request.word_parameter == 0x0300_000C
        ),
        "typing must deliver WM_COMMAND(MAKEWPARAM(12, EN_CHANGE)), got {signal:?}"
    );
    assert_eq!(
        control_ui(&state, edit).first_visible_line,
        5,
        "typing past the last visible row scrolls the caret into view"
    );
    assert_eq!(
        control_ui(&state, edit).caret,
        19,
        "the typed char lands after the caret"
    );
}

#[test]
fn test_edit_arrow_keys_deliver_en_hscroll_and_en_vscroll() {
    let mut engine = test_engine();
    let mut state = default_winapi_state();
    let (parent, edit) = push_multiline_edit(&mut state, "ab\ncd\nefgh");

    // A horizontal move (VK_RIGHT) delivers EN_HSCROLL — the status-bar
    // caret refresh for column changes.
    let error = dispatch_control_proc(
        &mut engine,
        &mut state,
        edit,
        WM_KEYDOWN,
        VK_RIGHT,
        0,
    )
    .expect_err("VK_RIGHT must deliver EN_HSCROLL");
    let signal = error;
    assert!(
        matches!(
            signal,
            WinApiControlSignal::GuestCallbackRequested { request }
                if request.window_handle == parent
                    && request.message == 0x0111
                    && request.word_parameter == 0x0601_000C
        ),
        "VK_RIGHT must deliver WM_COMMAND(MAKEWPARAM(12, EN_HSCROLL)), got {signal:?}"
    );

    // A vertical move (VK_DOWN) delivers EN_VSCROLL (caret 1 → line 1).
    let error = dispatch_control_proc(
        &mut engine,
        &mut state,
        edit,
        WM_KEYDOWN,
        VK_DOWN,
        0,
    )
    .expect_err("VK_DOWN must deliver EN_VSCROLL");
    let signal = error;
    assert!(
        matches!(
            signal,
            WinApiControlSignal::GuestCallbackRequested { request }
                if request.window_handle == parent
                    && request.message == 0x0111
                    && request.word_parameter == 0x0602_000C
        ),
        "VK_DOWN must deliver WM_COMMAND(MAKEWPARAM(12, EN_VSCROLL)), got {signal:?}"
    );

    // Ctrl+End is a document-wide vertical jump → EN_VSCROLL (the line-aware
    // plain End would be EN_HSCROLL).
    state.window_state().keyboard_state.set(0x11, 0x80); // VK_CONTROL held
    let error = dispatch_control_proc(
        &mut engine,
        &mut state,
        edit,
        WM_KEYDOWN,
        VK_END,
        0,
    )
    .expect_err("Ctrl+End must deliver EN_VSCROLL");
    state.window_state().keyboard_state.set(0x11, 0);
    let signal = error;
    assert!(
        matches!(
            signal,
            WinApiControlSignal::GuestCallbackRequested { request }
                if request.window_handle == parent
                    && request.message == 0x0111
                    && request.word_parameter == 0x0602_000C
        ),
        "Ctrl+End must deliver WM_COMMAND(MAKEWPARAM(12, EN_VSCROLL)), got {signal:?}"
    );
}

#[test]
fn test_space_keyboard_activates_focused_button() {
    let mut engine = test_engine();
    let mut state = default_winapi_state();
    let (parent, button) = push_button_pair(&mut state);
    state.window_state().focus_window_handle = Hwnd::from(button);

    // WM_KEYDOWN VK_SPACE on the focused button presses it.
    let r = dispatch_control_proc(
        &mut engine,
        &mut state,
        button,
        WM_KEYDOWN,
        VK_SPACE,
        0,
    )
    .expect("keydown handled")
    .expect("some result");
    assert_eq!(r, 0);
    assert!(
        state
            .window_state()
            .windows
            .iter()
            .find(|w| w.handle == Hwnd::from(button))
            .is_some_and(|w| matches!(w.control, ControlState::Button(true))),
        "space keydown must press the focused button"
    );

    // WM_KEYUP VK_SPACE releases and delivers BN_CLICKED to the parent.
    let result = dispatch_control_proc(
        &mut engine,
        &mut state,
        button,
        WM_KEYUP,
        VK_SPACE,
        0,
    );
    let error = result.expect_err("space keyup must click the button");
    let signal = error;
    assert!(
        matches!(
            signal,
            WinApiControlSignal::GuestCallbackRequested { request }
                if request.window_handle == parent && request.word_parameter == 7
        ),
        "space keyup must deliver WM_COMMAND(7) to the parent, got {signal:?}"
    );

    // Space on a NON-focused button is ignored (no press, no click).
    state.window_state().focus_window_handle = Hwnd::null();
    let r = dispatch_control_proc(
        &mut engine,
        &mut state,
        button,
        WM_KEYDOWN,
        VK_SPACE,
        0,
    )
    .expect("non-focused keydown unhandled");
    assert!(r.is_none(), "non-focused button must not react to space");
}

#[test]
fn edit_message_on_a_button_does_not_touch_edit_state() {
    let mut engine = test_engine();
    let mut state = default_winapi_state();
    let (_, button) = push_button_pair(&mut state);

    // EM_SETSEL is an EDIT-only message: a BUTTON must not handle it...
    let r = dispatch_control_proc(
        &mut engine,
        &mut state,
        button,
        EM_SETSEL,
        2,
        4,
    )
    .expect("dispatch");
    assert!(r.is_none(), "a Button must not handle EM_SETSEL");

    let entry = state
        .window_state()
        .windows
        .iter()
        .find(|w| w.handle == Hwnd::from(button))
        .map(|w| &w.control);
    assert!(
        matches!(entry, Some(ControlState::Button(_))),
        "EM_SETSEL on a Button must not create EDIT state, got {entry:?}"
    );
}

#[test]
fn test_edit_shift_arrow_extends_selection() {
    let mut engine = test_engine();
    let mut state = default_winapi_state();
    let (_, edit) = push_edit_pair(&mut state);

    // End (no shift) → caret 5, no selection; then hold Shift.
    press_key(&mut engine, &mut state, edit, VK_END);
    assert_eq!(control_ui(&state, edit).caret, 5);
    let held = state.window_state().keyboard_state.get(0x10) | 0x80;
    state.window_state().keyboard_state.set(0x10, held); // VK_SHIFT held

    // Shift+Left selects the last char: [4, 5), caret 4.
    press_key(&mut engine, &mut state, edit, VK_LEFT);
    let ui = control_ui(&state, edit);
    assert_eq!((ui.sel_start, ui.sel_end, ui.caret), (4, 5, 4));

    // Shift+Left again extends: [3, 5), caret 3.
    press_key(&mut engine, &mut state, edit, VK_LEFT);
    let ui = control_ui(&state, edit);
    assert_eq!((ui.sel_start, ui.sel_end, ui.caret), (3, 5, 3));

    // Release Shift; Right collapses the selection and moves the caret.
    let released = state.window_state().keyboard_state.get(0x10) & !0x80;
    state.window_state().keyboard_state.set(0x10, released);
    press_key(&mut engine, &mut state, edit, VK_RIGHT);
    let ui = control_ui(&state, edit);
    assert_eq!((ui.sel_start, ui.sel_end, ui.caret), (4, 4, 4));
}

#[test]
fn test_edit_multiline_home_end_line_aware() {
    let mut engine = test_engine();
    let mut state = default_winapi_state();
    let (_, edit) = push_multiline_edit(&mut state, "ab\ncd\nefgh");
    // Home/End are LINE-aware: from caret 0, End → line 0's end (2), not the
    // document end (10).
    press_key(&mut engine, &mut state, edit, VK_END);
    assert_eq!(control_ui(&state, edit).caret, 2);
    press_key(&mut engine, &mut state, edit, VK_HOME);
    assert_eq!(control_ui(&state, edit).caret, 0);
    // Caret at line 1's end (5): Home → line 1 start (3), End → 5, NOT the
    // document end (10).
    dispatch_control_proc(
        &mut engine,
        &mut state,
        edit,
        EM_SETSEL,
        5,
        5,
    )
    .expect("setsel ok")
    .expect("some result");
    press_key(&mut engine, &mut state, edit, VK_HOME);
    assert_eq!(control_ui(&state, edit).caret, 3);
    press_key(&mut engine, &mut state, edit, VK_END);
    assert_eq!(control_ui(&state, edit).caret, 5);
    // Ctrl+Home / Ctrl+End are document-wide.
    state.window_state().keyboard_state.set(0x11, 0x80); // VK_CONTROL held
    press_key(&mut engine, &mut state, edit, VK_HOME);
    assert_eq!(control_ui(&state, edit).caret, 0);
    press_key(&mut engine, &mut state, edit, VK_END);
    assert_eq!(control_ui(&state, edit).caret, 10);
    state.window_state().keyboard_state.set(0x11, 0);
}

#[test]
fn test_edit_multiline_pgup_pgdn_move_a_page() {
    let mut engine = test_engine();
    let mut state = default_winapi_state();
    let (_, edit) = push_multiline_edit(&mut state, "0\n1\n2\n3\n4\n5\n6\n7\n8\n9");
    // The page heuristic is the client height / 16 px default line height;
    // an 80 px tall control gives a 5-line page.
    for w in &mut state.window_state().windows {
        if w.handle == Hwnd::from(edit) {
            w.height = 80;
        }
    }
    // PgDn from line 0 → line 5 (char index 10); PgDn again clamps to the
    // last line 9 (index 18).
    press_key(&mut engine, &mut state, edit, VK_NEXT);
    assert_eq!(control_ui(&state, edit).caret, 10);
    press_key(&mut engine, &mut state, edit, VK_NEXT);
    assert_eq!(control_ui(&state, edit).caret, 18);
    // PgUp steps back a page → line 4 (index 8), then line 0; past the top
    // is a no-op.
    press_key(&mut engine, &mut state, edit, VK_PRIOR);
    assert_eq!(control_ui(&state, edit).caret, 8);
    press_key(&mut engine, &mut state, edit, VK_PRIOR);
    assert_eq!(control_ui(&state, edit).caret, 0);
    press_key(&mut engine, &mut state, edit, VK_PRIOR);
    assert_eq!(control_ui(&state, edit).caret, 0);
}

#[test]
fn test_edit_shift_up_down_extends_selection_across_lines() {
    let mut engine = test_engine();
    let mut state = default_winapi_state();
    let (_, edit) = push_multiline_edit(&mut state, "ab\ncd\nefgh");
    dispatch_control_proc(
        &mut engine,
        &mut state,
        edit,
        EM_SETSEL,
        5,
        5,
    )
    .expect("setsel ok")
    .expect("some result");
    state.window_state().keyboard_state.set(0x10, 0x80); // VK_SHIFT held
    // Shift+Down: caret 5 (line 1, col 2) → line 2, goal 2 → caret 8,
    // selection [5, 8).
    press_key(&mut engine, &mut state, edit, VK_DOWN);
    let ui = control_ui(&state, edit);
    assert_eq!((ui.sel_start, ui.sel_end, ui.caret), (5, 8, 8));
    // Shift+Up back to the anchor collapses the selection.
    press_key(&mut engine, &mut state, edit, VK_UP);
    let ui = control_ui(&state, edit);
    assert_eq!((ui.sel_start, ui.sel_end, ui.caret), (5, 5, 5));
    // Shift+Up again extends upward across the line break: [2, 5), caret 2.
    press_key(&mut engine, &mut state, edit, VK_UP);
    let ui = control_ui(&state, edit);
    assert_eq!((ui.sel_start, ui.sel_end, ui.caret), (2, 5, 2));
    // Shift+Down returns the caret to the anchor (5) and collapses the
    // selection — Windows EDIT anchor semantics, not a re-extension.
    press_key(&mut engine, &mut state, edit, VK_DOWN);
    let ui = control_ui(&state, edit);
    assert_eq!((ui.sel_start, ui.sel_end, ui.caret), (5, 5, 5));
    // Shift+Down again extends downward from the anchor across the break.
    press_key(&mut engine, &mut state, edit, VK_DOWN);
    let ui = control_ui(&state, edit);
    assert_eq!((ui.sel_start, ui.sel_end, ui.caret), (5, 8, 8));
    // Release Shift: Up collapses the selection and moves the caret.
    state.window_state().keyboard_state.set(0x10, 0);
    press_key(&mut engine, &mut state, edit, VK_UP);
    let ui = control_ui(&state, edit);
    assert_eq!((ui.sel_start, ui.sel_end, ui.caret), (5, 5, 5));
}

#[test]
fn test_edit_em_line_messages_on_multiline_text() {
    let mut engine = test_engine();
    let mut state = default_winapi_state();
    let (_, edit) = push_multiline_edit(&mut state, "ab\ncd");

    // EM_GETLINECOUNT: '\n' separates lines; "ab\ncd" has 2.
    let r = dispatch_control_proc(
        &mut engine,
        &mut state,
        edit,
        EM_GETLINECOUNT,
        0,
        0,
    )
    .expect("linecount ok")
    .expect("some result");
    assert_eq!(r, 2);

    // Windows semantics: an empty multiline edit still reports 1 line. Uses a
    // push_edit_pair edit (0x6610_0012) so it does not collide with the
    // fixture's fixed multiline handle.
    let (_, empty_edit) = push_edit_pair(&mut state);
    {
        let ws = state.window_state();
        let window = ws
            .windows
            .iter_mut()
            .find(|w| w.handle == Hwnd::from(empty_edit))
            .expect("empty edit window");
        window.style |= ES_MULTILINE;
        window.control = edit_control("");
    }
    let r = dispatch_control_proc(
        &mut engine,
        &mut state,
        empty_edit,
        EM_GETLINECOUNT,
        0,
        0,
    )
    .expect("empty linecount ok")
    .expect("some result");
    assert_eq!(r, 1, "an empty multiline edit has one (empty) line");

    // EM_LINEFROMCHAR: '\n' belongs to the line it terminates.
    for (index, expected) in [(0_u64, 0_u64), (2, 0), (3, 1), (4, 1)] {
        let r = dispatch_control_proc(
            &mut engine,
            &mut state,
            edit,
            EM_LINEFROMCHAR,
            index,
            0,
        )
        .expect("linefromchar ok")
        .expect("some result");
        assert_eq!(r, expected, "LINEFROMCHAR({index})");
    }

    // EM_LINEINDEX: the char index of each line start; -1 out of range.
    let r = dispatch_control_proc(
        &mut engine,
        &mut state,
        edit,
        EM_LINEINDEX,
        0,
        0,
    )
    .expect("lineindex0 ok")
    .expect("some result");
    assert_eq!(r, 0);
    let r = dispatch_control_proc(
        &mut engine,
        &mut state,
        edit,
        EM_LINEINDEX,
        1,
        0,
    )
    .expect("lineindex1 ok")
    .expect("some result");
    assert_eq!(r, 3, "line 1 starts after \"ab\" + the '\n'");
    let r = dispatch_control_proc(
        &mut engine,
        &mut state,
        edit,
        EM_LINEINDEX,
        2,
        0,
    )
    .expect("lineindex2 ok")
    .expect("some result");
    assert_eq!(r, u64::MAX, "out-of-range line returns -1");

    // EM_LINELENGTH: chars in the line, excluding its '\n'.
    for (index, expected) in [(0_u64, 2_u64), (3, 2)] {
        let r = dispatch_control_proc(
            &mut engine,
            &mut state,
            edit,
            EM_LINELENGTH,
            index,
            0,
        )
        .expect("linelength ok")
        .expect("some result");
        assert_eq!(r, expected, "LINELENGTH({index})");
    }
    // wParam == -1: the length of the caret's line (caret starts at 0).
    let r = dispatch_control_proc(
        &mut engine,
        &mut state,
        edit,
        EM_LINELENGTH,
        u64::from(u32::MAX),
        0,
    )
    .expect("linelength caret ok")
    .expect("some result");
    assert_eq!(r, 2, "LINELENGTH(-1) uses the caret's line");

    // EM_GETLINE: the buffer's first WORD is the capacity (incl. the NUL);
    // the copy strips the line's '\n' and NUL-terminates.
    engine
        .mem_write(0x4000, &64_u16.to_le_bytes())
        .expect("line buffer capacity");
    let r = dispatch_control_proc(
        &mut engine,
        &mut state,
        edit,
        EM_GETLINE,
        0,
        0x4000,
    )
    .expect("getline0 ok")
    .expect("some result");
    assert_eq!(r, 2, "EM_GETLINE returns the char count");
    let mut line0 = [0_u8; 4];
    read_into(&engine, 0x4000, &mut line0, "read line 0");
    assert_eq!(line0, *b"ab\0\0", "line 0 copies \"ab\" without the EOL");
    engine
        .mem_write(0x4000, &64_u16.to_le_bytes())
        .expect("line buffer capacity");
    let r = dispatch_control_proc(
        &mut engine,
        &mut state,
        edit,
        EM_GETLINE,
        1,
        0x4000,
    )
    .expect("getline1 ok")
    .expect("some result");
    assert_eq!(r, 2);
    let mut line1 = [0_u8; 4];
    read_into(&engine, 0x4000, &mut line1, "read line 1");
    assert_eq!(line1, *b"cd\0\0", "line 1 copies \"cd\" without the EOL");
    // Out-of-range line → 0.
    engine
        .mem_write(0x4000, &64_u16.to_le_bytes())
        .expect("line buffer capacity");
    let r = dispatch_control_proc(
        &mut engine,
        &mut state,
        edit,
        EM_GETLINE,
        7,
        0x4000,
    )
    .expect("getline7 ok")
    .expect("some result");
    assert_eq!(r, 0, "out-of-range line copies nothing");
}

#[test]
fn test_edit_wm_copy_stores_selection_on_clipboard() {
    let mut engine = test_engine();
    let mut state = default_winapi_state();
    let (_, edit) = push_edit_pair(&mut state);

    // A fresh session has an empty clipboard.
    assert!(!state.clipboard().has_text());

    // WM_COPY without a selection is a no-op.
    let r = dispatch_control_proc(
        &mut engine,
        &mut state,
        edit,
        WM_COPY,
        0,
        0,
    )
    .expect("copy ok")
    .expect("some result");
    assert_eq!(r, 0);
    assert!(!state.clipboard().has_text());

    // Select "ell" [1,4) and copy → the clipboard holds "ell".
    dispatch_control_proc(
        &mut engine,
        &mut state,
        edit,
        EM_SETSEL,
        1,
        4,
    )
    .expect("setsel ok")
    .expect("some result");
    let r = dispatch_control_proc(
        &mut engine,
        &mut state,
        edit,
        WM_COPY,
        0,
        0,
    )
    .expect("copy ok")
    .expect("some result");
    assert_eq!(r, 0);
    assert_eq!(state.clipboard().text(), Some("ell"));

    // Copy does not change the text or the selection.
    assert_eq!(control_text(&state, edit), "hello");
    let ui = control_ui(&state, edit);
    assert_eq!((ui.sel_start, ui.sel_end), (1, 4));
}

#[test]
fn test_edit_wm_cut_copies_and_deletes() {
    let mut engine = test_engine();
    let mut state = default_winapi_state();
    let (_, edit) = push_edit_pair(&mut state);

    // Select "ell" [1,4) and cut → the clipboard holds "ell" and the text
    // loses it ("ho"), with the caret collapsing at the deletion point.
    dispatch_control_proc(
        &mut engine,
        &mut state,
        edit,
        EM_SETSEL,
        1,
        4,
    )
    .expect("setsel ok")
    .expect("some result");
    dispatch_control_proc(
        &mut engine,
        &mut state,
        edit,
        WM_CUT,
        0,
        0,
    )
    .expect_err("cut delivers EN_CHANGE");
    assert_eq!(state.clipboard().text(), Some("ell"));
    assert_eq!(control_text(&state, edit), "ho");
    let ui = control_ui(&state, edit);
    assert_eq!((ui.caret, ui.sel_start, ui.sel_end), (1, 1, 1));

    dispatch_control_proc(
        &mut engine,
        &mut state,
        edit,
        EM_UNDO,
        0,
        0,
    )
    .expect_err("undo delivers EN_CHANGE");
    assert_eq!(control_text(&state, edit), "hello");
}

#[test]
fn test_edit_wm_clear_deletes_without_writing_clipboard() {
    let mut engine = test_engine();
    let mut state = default_winapi_state();
    let (_, edit) = push_edit_pair(&mut state);

    // Put the full text on the clipboard first (a copy).
    dispatch_control_proc(
        &mut engine,
        &mut state,
        edit,
        EM_SETSEL,
        0,
        u64::from(u32::MAX),
    )
    .expect("setsel ok")
    .expect("some result");
    dispatch_control_proc(
        &mut engine,
        &mut state,
        edit,
        WM_COPY,
        0,
        0,
    )
    .expect("copy ok")
    .expect("some result");
    assert!(state.clipboard().has_text());

    // Select "ell" [1,4) and clear → the text loses it ("ho") and the
    // clipboard is EMPTIED — Windows' edit control calls EmptyClipboard, so
    // the deleted text is never written to the clipboard (that is what
    // distinguishes CLEAR from CUT) and IsClipboardFormatAvailable goes false.
    dispatch_control_proc(
        &mut engine,
        &mut state,
        edit,
        EM_SETSEL,
        1,
        4,
    )
    .expect("setsel ok")
    .expect("some result");
    dispatch_control_proc(
        &mut engine,
        &mut state,
        edit,
        WM_CLEAR,
        0,
        0,
    )
    .expect_err("clear delivers EN_CHANGE");
    assert_eq!(control_text(&state, edit), "ho");
    assert!(
        !state.clipboard().has_text(),
        "WM_CLEAR must empty the clipboard"
    );

    // Clearing with no selection is a no-op (no text change, no notify).
    let r = dispatch_control_proc(
        &mut engine,
        &mut state,
        edit,
        WM_CLEAR,
        0,
        0,
    )
    .expect("clear ok")
    .expect("some result");
    assert_eq!(r, 0);
    assert_eq!(control_text(&state, edit), "ho");
}

#[test]
fn test_edit_wm_hscroll_moves_first_visible_column() {
    const SB_LINERIGHT: u16 = 1;
    const SB_LINELEFT: u16 = 0;
    const SB_LEFT: u16 = 6;
    const SB_RIGHT: u16 = 7;
    const SB_THUMBTRACK: u16 = 5;
    const WS_HSCROLL: u32 = 0x0010_0000;

    let mut engine = test_engine();
    let mut state = default_winapi_state();
    let (_, edit) = push_multiline_edit(&mut state, "abcdefghijklmnopqrstuvwxyz");
    for w in &mut state.window_state().windows {
        if w.handle == Hwnd::from(edit) {
            w.style |= WS_HSCROLL;
        }
    }

    // hscroll(edit, code, thumb) -> first_visible_column after the scroll.
    let hscroll = |engine: &mut GuestCpu, state: &mut State, code: u16, thumb: u16| -> usize {
        let wparam = u64::from(code) | (u64::from(thumb) << 16);
        dispatch_control_proc(
            engine,
            state,
            edit,
            WM_HSCROLL,
            wparam,
            0,
        )
        .expect_err("WM_HSCROLL must deliver EN_HSCROLL");
        control_ui(state, edit).first_visible_column
    };

    // A line scroll steps one 8 px character cell (font-independent).
    assert_eq!(hscroll(&mut engine, &mut state, SB_LINERIGHT, 0), 8);
    assert_eq!(hscroll(&mut engine, &mut state, SB_LINERIGHT, 0), 16);
    assert_eq!(hscroll(&mut engine, &mut state, SB_LINELEFT, 0), 8);
    // SB_LEFT jumps to the start; SB_THUMBTRACK sets the raw px offset.
    assert_eq!(hscroll(&mut engine, &mut state, SB_LEFT, 0), 0);
    assert_eq!(hscroll(&mut engine, &mut state, SB_THUMBTRACK, 8), 8);
    // SB_RIGHT jumps to the far end; the offset clamps there (the default
    // font is proportional, so the far end is read back, not hardcoded).
    let far = hscroll(&mut engine, &mut state, SB_RIGHT, 0);
    assert!(
        far >= 16,
        "a 26-char line must overflow the narrow client, got far end {far}"
    );
    assert_eq!(
        hscroll(&mut engine, &mut state, SB_THUMBTRACK, 999),
        far,
        "the offset clamps at the horizontal overflow"
    );
    assert_eq!(
        hscroll(&mut engine, &mut state, SB_LINERIGHT, 0),
        far,
        "a line scroll past the end clamps"
    );

    let wrap_edit = create_window_record(
        state.window_state(),
        &[],
        0x0409,
        CreateWindowRequest {
            class_identifier: WindowClassIdentifier::Name("EDIT".to_owned()),
            title: String::new(),
            style: WS_CHILD | ES_MULTILINE,
            parent_handle: 0,
            menu_handle: 0,
            x: 0,
            y: 0,
            width: 120,
            height: 20,
        },
    )
    .expect("create wrap edit");
    set_control_text(&mut state, wrap_edit, "abcdefghijklmnopqrstuvwxyz");
    let wparam = u64::from(SB_RIGHT) | (u64::from(999_u16) << 16);
    dispatch_control_proc(
        &mut engine,
        &mut state,
        wrap_edit,
        WM_HSCROLL,
        wparam,
        0,
    )
    .expect("wrap-on WM_HSCROLL ok")
    .expect("wrap-on WM_HSCROLL result");
    assert_eq!(
        control_ui(&state, wrap_edit).first_visible_column,
        0,
        "wrap-on WM_HSCROLL stays a no-op"
    );
}

#[test]
fn test_edit_mouse_down_places_caret_and_captures() {
    let mut engine = test_engine();
    let mut state = default_winapi_state();
    let (_, edit) = push_edit_pair(&mut state); // "hello", width 120, single-line

    let (x, y) = (20_i32, 10_i32);
    let expected = edit_char_at(&mut state, edit, x, y, false);
    let r = dispatch_mouse(
        &mut engine,
        &mut state,
        edit,
        WM_LBUTTONDOWN,
        u16::try_from(x).unwrap_or(0),
        u16::try_from(y).unwrap_or(0),
    );
    assert_eq!(r, 0);

    let ui = control_ui(&state, edit);
    assert_eq!(
        (ui.caret, ui.sel_start, ui.sel_end),
        (expected, expected, expected),
        "a click must collapse the selection at the hit-tested char"
    );
    assert!(ui.focused, "a click focuses the edit");
    assert_eq!(
        state.window_state().capture_window_handle,
        Hwnd::from(edit),
        "a pressed edit holds the mouse capture for the drag"
    );
}

#[test]
fn test_edit_mouse_drag_extends_selection_from_anchor() {
    let mut engine = test_engine();
    let mut state = default_winapi_state();
    let (_, edit) = push_edit_pair(&mut state); // "hello"

    let y = 10_u16;
    let anchor = 2_usize;
    let down_x = u16::try_from(char_cell_left(&mut state, edit, anchor)).unwrap_or(0);
    dispatch_mouse(
        &mut engine,
        &mut state,
        edit,
        WM_LBUTTONDOWN,
        down_x,
        y,
    );
    let ui = control_ui(&state, edit);
    assert_eq!((ui.caret, ui.sel_start, ui.sel_end), (2, 2, 2));

    // Drag right to char 5: selection [anchor, current], caret at current.
    let x5 = u16::try_from(char_cell_left(&mut state, edit, 5)).unwrap_or(0);
    dispatch_mouse(
        &mut engine,
        &mut state,
        edit,
        WM_MOUSEMOVE,
        x5,
        y,
    );
    let ui = control_ui(&state, edit);
    assert_eq!((ui.sel_start, ui.sel_end, ui.caret), (2, 5, 5));

    // Drag back past the anchor to char 1: the anchor stays at 2.
    let x1 = u16::try_from(char_cell_left(&mut state, edit, 1)).unwrap_or(0);
    dispatch_mouse(
        &mut engine,
        &mut state,
        edit,
        WM_MOUSEMOVE,
        x1,
        y,
    );
    let ui = control_ui(&state, edit);
    assert_eq!((ui.sel_start, ui.sel_end, ui.caret), (1, 2, 1));

    // ...and forward again to char 4: still anchored at 2.
    let x4 = u16::try_from(char_cell_left(&mut state, edit, 4)).unwrap_or(0);
    dispatch_mouse(
        &mut engine,
        &mut state,
        edit,
        WM_MOUSEMOVE,
        x4,
        y,
    );
    let ui = control_ui(&state, edit);
    assert_eq!((ui.sel_start, ui.sel_end, ui.caret), (2, 4, 4));

    // Release: the capture drops, the selection stays finalized, and the
    // completed click delivers EN_VSCROLL to the parent.
    release_mouse(&mut engine, &mut state, edit, x4, y);
    assert_eq!(
        state.window_state().capture_window_handle,
        Hwnd::null(),
        "button-up must release the edit's mouse capture"
    );
    let ui = control_ui(&state, edit);
    assert_eq!((ui.sel_start, ui.sel_end), (2, 4));

    // A hover move after the release must not touch the selection.
    let x3 = u16::try_from(char_cell_left(&mut state, edit, 3)).unwrap_or(0);
    dispatch_mouse(
        &mut engine,
        &mut state,
        edit,
        WM_MOUSEMOVE,
        x3,
        y,
    );
    let ui = control_ui(&state, edit);
    assert_eq!((ui.sel_start, ui.sel_end), (2, 4), "hover must not select");
}

#[test]
fn test_edit_mouse_dblclk_selects_whitespace_word() {
    let mut engine = test_engine();
    let mut state = default_winapi_state();
    let (_, edit) = push_edit_pair(&mut state);
    set_control_text(&mut state, edit, "hello world foo");

    // Double-click inside "world" (chars 6..11): the whole word selects and
    // the caret lands at its end.
    let x = u16::try_from(char_cell_left(&mut state, edit, 8)).unwrap_or(0);
    dispatch_mouse(
        &mut engine,
        &mut state,
        edit,
        WM_LBUTTONDBLCLK,
        x,
        10,
    );
    let ui = control_ui(&state, edit);
    assert_eq!(
        (ui.sel_start, ui.sel_end, ui.caret),
        (6, 11, 11),
        "double-click must select the whole word under the click"
    );
    assert_eq!(
        state.window_state().capture_window_handle,
        Hwnd::from(edit),
        "the dblclk press also captures for a subsequent drag"
    );

    // A double-click on the whitespace between words (char 5) selects nothing.
    let x = u16::try_from(char_cell_left(&mut state, edit, 5)).unwrap_or(0);
    dispatch_mouse(
        &mut engine,
        &mut state,
        edit,
        WM_LBUTTONDBLCLK,
        x,
        10,
    );
    let ui = control_ui(&state, edit);
    assert_eq!(
        (ui.sel_start, ui.sel_end),
        (5, 5),
        "a double-click on whitespace must not select a word"
    );
}

#[test]
fn test_edit_mouse_click_in_wrapped_text_selects_the_visual_row() {
    let mut engine = test_engine();
    let mut state = default_winapi_state();
    let (_, edit) = push_multiline_edit(&mut state, &"m".repeat(40)); // wraps
    let line_h = line_height(&mut state);

    // A click in the SECOND visual row (below the first wrap row) must land
    // on a later char than the same x in the first row.
    let x = 5_i32;
    let first_row = edit_char_at(&mut state, edit, x, line_h / 2, true);
    let second_row = edit_char_at(&mut state, edit, x, line_h + line_h / 2, true);
    assert!(
        second_row > first_row,
        "the wrapped second row must hold later chars ({second_row} > {first_row})"
    );

    let r = dispatch_mouse(
        &mut engine,
        &mut state,
        edit,
        WM_LBUTTONDOWN,
        u16::try_from(x).unwrap_or(0),
        u16::try_from(line_h + line_h / 2).unwrap_or(0),
    );
    assert_eq!(r, 0);
    let ui = control_ui(&state, edit);
    assert_eq!(
        (ui.caret, ui.sel_start, ui.sel_end),
        (second_row, second_row, second_row),
        "the click caret must land on the hit-tested visual-row char"
    );
}

#[test]
fn test_edit_mouse_click_scrolls_caret_row_into_view() {
    let mut engine = test_engine();
    let mut state = default_winapi_state();
    let (_, edit) = push_multiline_edit(&mut state, "aaaa\nbbbb\ncccc\ndddd\neeee\nffff");
    // 3 full rows + a 4 px partial strip: a click in the strip's first pixel
    // lands on visual row 3 (off-screen) and must scroll it onto the last
    // visible row.
    set_edit_viewport_with_partial_strip(&mut state, edit, 3, 4);
    let height = state
        .window_state()
        .windows
        .iter()
        .find(|w| w.handle == Hwnd::from(edit))
        .expect("edit record")
        .height;
    let y = u16::try_from(height.saturating_sub(4)).unwrap_or(0);

    dispatch_mouse(
        &mut engine,
        &mut state,
        edit,
        WM_LBUTTONDOWN,
        4,
        y,
    );
    let ui = control_ui(&state, edit);
    assert_eq!(
        ui.first_visible_line, 1,
        "a click on the off-viewport row must scroll it into view"
    );
    assert_eq!(
        (ui.caret, ui.sel_start, ui.sel_end),
        (15, 15, 15),
        "the click caret lands at the start of the clicked row ('dddd')"
    );
}

#[test]
fn test_edit_mouse_dblclk_scrolls_word_row_into_view() {
    let mut engine = test_engine();
    let mut state = default_winapi_state();
    let (_, edit) = push_multiline_edit(&mut state, "aaaa\nbbbb\ncccc\ndddd\neeee\nffff");
    set_edit_viewport_with_partial_strip(&mut state, edit, 3, 4);
    let height = state
        .window_state()
        .windows
        .iter()
        .find(|w| w.handle == Hwnd::from(edit))
        .expect("edit record")
        .height;
    let y = u16::try_from(height.saturating_sub(4)).unwrap_or(0);

    dispatch_mouse(
        &mut engine,
        &mut state,
        edit,
        WM_LBUTTONDBLCLK,
        4,
        y,
    );
    let ui = control_ui(&state, edit);
    assert_eq!(
        ui.first_visible_line, 1,
        "a double-click on the off-viewport row must scroll the word into view"
    );
    assert_eq!(
        (ui.sel_start, ui.sel_end, ui.caret),
        (15, 19, 19),
        "the double-click selects the whole off-screen word"
    );
}

#[test]
fn test_edit_subclass_setwindowlongptr_returns_original_and_stores() {
    let mut engine = test_engine();
    let mut state = default_winapi_state();
    let edit = push_multiline_edit_real(&mut state);

    assert_eq!(
        subclass_edit(&mut engine, &mut state, edit),
        0,
        "the original host-default marker is returned"
    );

    // GetWindowLongPtrW now reports the subclass.
    let read_back = window_proc(state.window_state(), edit);
    assert_eq!(read_back, GUEST_SUBCLASS);

    // The record remembers the original (the marker CallWindowProcW treats
    // as "run the host default").
    let window = state
        .window_state()
        .windows
        .iter()
        .find(|w| w.handle == Hwnd::from(edit))
        .expect("edit record");
    assert_eq!(window.subclass_original_wndproc, 0);
}

#[test]
fn test_edit_unsubclass_restores_host_dispatch() {
    let mut engine = test_engine();
    let mut state = default_winapi_state();
    let (_, edit) = push_multiline_edit(&mut state, "hello");

    assert_eq!(subclass_edit(&mut engine, &mut state, edit), 0);
    let result = dispatch_control_proc(
        &mut engine,
        &mut state,
        edit,
        WM_CHAR,
        u64::from(b'x'),
        0,
    );
    result.expect_err("subclassed WM_CHAR must bridge");

    let previous = set_window_proc(state.window_state(), edit, 0);
    assert_eq!(previous, GUEST_SUBCLASS, "restoring returns the subclass");

    // With GWLP_WNDPROC back to null the control dispatch runs host-side
    // again: typing mutates the text and the change is delivered to the
    // guest-WndProc parent as EN_CHANGE — NO subclass bridge.
    let result = dispatch_control_proc(
        &mut engine,
        &mut state,
        edit,
        WM_CHAR,
        u64::from(b'x'),
        0,
    );
    let error = result.expect_err("WM_CHAR must reach the host dispatch");
    let signal = error;
    assert!(
        matches!(
            signal,
            WinApiControlSignal::GuestCallbackRequested { request }
                if request.callback_address == 0x7000_0000
                    && request.message == WM_COMMAND
        ),
        "the restored edit delivers EN_CHANGE to its parent, got {signal:?}"
    );
    assert_eq!(control_text(&state, edit), "xhello");

    let read_back = window_proc(state.window_state(), edit);
    assert_eq!(read_back, 0, "GWLP_WNDPROC reads 0 after un-subclassing");
}

#[test]
fn cut_then_paste_restores_the_text() {
    let mut engine = test_engine();
    let mut state = default_winapi_state();
    let (_, edit) = push_edit_pair(&mut state);
    dispatch_control_proc(&mut engine, &mut state, edit, EM_SETSEL, 1, 4).expect("setsel").expect("handled");
    dispatch_control_proc(&mut engine, &mut state, edit, WM_CUT, 0, 0).expect_err("cut notifies");
    assert_eq!(control_text(&state, edit), "ho");
    dispatch_control_proc(&mut engine, &mut state, edit, WM_PASTE, 0, 0).expect_err("paste notifies");
    assert_eq!(control_text(&state, edit), "hello");
    assert_eq!(control_ui(&state, edit).caret, 4);
}

#[test]
fn messages_to_unknown_windows_are_left_alone() {
    let mut engine = test_engine();
    let mut state = default_winapi_state();
    let (parent, edit) = push_edit_pair(&mut state);
    assert_eq!(dispatch_control_proc(&mut engine, &mut state, 0x1234, WM_CHAR, 0x41, 0), Ok(None));
    assert_eq!(dispatch_control_proc(&mut engine, &mut state, parent, WM_CHAR, 0x41, 0), Ok(None));
    assert_eq!(dispatch_control_proc(&mut engine, &mut state, edit, 0xFFFF, 0, 0), Ok(None));
    assert_eq!(control_text(&state, edit), "hello");
}

#[test]
fn unreadable_text_faults_and_changes_nothing() {
    let mut engine = test_engine();
    let mut state = default_winapi_state();
    let (_, edit) = push_edit_pair(&mut state);
    let (_, listbox) = push_listbox(&mut state);
    let (_, bar) = push_status_bar_pair(&mut state);
    for (hwnd, message, wparam) in [
        (edit, WM_SETTEXT, 0),
        (edit, EM_REPLACESEL, 0),
        (edit, EM_SETTABSTOPS, 2),
        (edit, EM_GETLINE, 0),
        (listbox, LB_ADDSTRING, 0),
        (bar, SB_SETPARTS, 2),
        (bar, SB_SETTEXTW, 0),
        (bar, SB_GETTEXTW, 0),
    ] {
        let result = dispatch_control_proc(&mut engine, &mut state, hwnd, message, wparam, 0x7000_0000);
        assert!(
            matches!(result, Err(WinApiControlSignal::Fault { fault }) if fault.address == 0x7000_0000),
            "message {message:#x}: {result:?}"
        );
    }
    assert_eq!(control_text(&state, edit), "hello");
    assert!(control_ui(&state, listbox).items.is_empty());
    assert!(control_ui(&state, bar).part_rights.is_empty());
}

fn window_of(state: &State, hwnd: u64) -> &WindowRecord {
    let ws = state.try_window_state().expect("window state");
    ws.windows.iter().find(|w| w.handle == Hwnd::from(hwnd)).expect("window record")
}

fn window_mut(state: &mut State, hwnd: u64) -> &mut WindowRecord {
    let ws = state.window_state();
    ws.windows.iter_mut().find(|w| w.handle == Hwnd::from(hwnd)).expect("window record")
}

fn send(engine: &mut GuestCpu, state: &mut State, hwnd: u64, message: u32, wparam: u64, lparam: u64) -> u64 {
    dispatch_control_proc(engine, state, hwnd, message, wparam, lparam).expect("handled").expect("some result")
}

fn push_font(state: &mut State, advance: i32, line_height: i32) -> Hfont {
    let handle = Hfont::from(0x6650_0000 + u64::try_from(state.gdi_state().fonts.len()).expect("few fonts"));
    state.gdi_state().fonts.push(FontRecord { handle, metrics: FontEngine::fixed(advance, line_height) });
    handle
}

fn read_test_i32(engine: &mut GuestCpu, addr: u64) -> i32 {
    read_guest_int_array(engine, addr, 1)[0]
}

#[test]
fn test_edit_scrollbar_track_click_pages_and_thumb_drags() {
    let mut engine = test_engine();
    let mut state = default_winapi_state();
    let (_, edit) = push_multiline_edit(&mut state, "0\n1\n2\n3\n4\n5\n6\n7\n8\n9");
    // WS_VSCROLL: the chrome shows only when the style asks for it.
    window_mut(&mut state, edit).style |= 0x0020_0000;
    // Five rows of the default font: 10 rows total, 5 visible, so the thumb is half
    // the track, at the top.
    let track = line_height(&mut state).saturating_mul(5);
    let thumb = track.saturating_div(2);
    window_mut(&mut state, edit).height = track;
    // A click in the track BELOW the thumb pages down by the visible count.
    let gutter_x = u16::try_from(120_i32.saturating_sub(17)).unwrap_or(0);
    dispatch_mouse(
        &mut engine,
        &mut state,
        edit,
        WM_LBUTTONDOWN,
        gutter_x,
        u16::try_from(thumb + 2).unwrap_or(0), // below the thumb
    );
    assert_eq!(control_ui(&state, edit).first_visible_line, 5, "a track click below the thumb pages down");
    // A click in the track ABOVE the thumb pages up.
    dispatch_mouse(&mut engine, &mut state, edit, WM_LBUTTONDOWN, gutter_x, 5);
    assert_eq!(control_ui(&state, edit).first_visible_line, 0, "a track click above the thumb pages up");

    // Thumb drag: grab the thumb (top, at y 5), drag past the end of the travel,
    // release: the last offset (5).
    dispatch_mouse(
        &mut engine,
        &mut state,
        edit,
        WM_LBUTTONDOWN,
        gutter_x,
        5, // inside the thumb (0..thumb)
    );
    assert!(control_ui(&state, edit).dragging_scrollbar, "a press on the thumb arms the drag");
    dispatch_mouse(
        &mut engine,
        &mut state,
        edit,
        WM_MOUSEMOVE,
        gutter_x,
        u16::try_from(thumb.saturating_add(20)).unwrap_or(0),
    );
    assert_eq!(
        control_ui(&state, edit).first_visible_line,
        5,
        "the thumb follows the pointer to the end of the travel"
    );
    release_mouse(
        &mut engine,
        &mut state,
        edit,
        gutter_x,
        u16::try_from(thumb.saturating_add(20)).unwrap_or(0),
    );
    assert!(!control_ui(&state, edit).dragging_scrollbar, "the release clears the thumb drag");

    // A press in the text area still places the caret (the gutter only
    // consumes presses inside it).
    dispatch_mouse(&mut engine, &mut state, edit, WM_LBUTTONDOWN, 20, 10);
    assert!(control_ui(&state, edit).caret > 0, "a text-area click still navigates the caret");
}

#[test]
fn a_gutter_press_takes_the_capture_but_not_the_focus() {
    let mut engine = test_engine();
    let mut state = default_winapi_state();
    let (_, edit) = push_multiline_edit(&mut state, "0\n1\n2\n3\n4\n5\n6\n7\n8\n9");
    window_mut(&mut state, edit).style |= 0x0020_0000;
    window_mut(&mut state, edit).height = 80;
    dispatch_mouse(&mut engine, &mut state, edit, WM_LBUTTONDOWN, 103, 5);
    assert_eq!(state.window_state().capture_window_handle, Hwnd::from(edit));
    assert_eq!(state.window_state().focus_window_handle, Hwnd::null());
    assert!(control_ui(&state, edit).dragging_scrollbar);
    // Half the travel of 40 pixels is half the five offsets, rounded down.
    dispatch_mouse(&mut engine, &mut state, edit, WM_MOUSEMOVE, 103, 25);
    assert_eq!(control_ui(&state, edit).first_visible_line, 2);
    // Far above the track.
    dispatch_mouse(&mut engine, &mut state, edit, WM_MOUSEMOVE, 103, 0xFF00);
    assert_eq!(control_ui(&state, edit).first_visible_line, 0);
    release_mouse(&mut engine, &mut state, edit, 103, 5);
    assert_eq!(state.window_state().capture_window_handle, Hwnd::null());
    assert!(!control_ui(&state, edit).dragging_scrollbar);
}

#[test]
fn test_edit_em_pos_from_char_uses_font_line_height() {
    let mut engine = test_engine();
    let mut state = default_winapi_state();
    let (_, edit) = push_multiline_edit(&mut state, "ab\ncd");

    dispatch_control_proc(
        &mut engine,
        &mut state,
        edit,
        EM_SETSEL,
        3, // 'c', line 1
        3,
    )
    .expect("setsel ok")
    .expect("some result");
    let ok = dispatch_control_proc(&mut engine, &mut state, edit, EM_POSFROMCHAR, 3, 0x4000)
        .expect("posfromchar ok")
        .expect("some result");
    assert_eq!(ok, 1, "EM_POSFROMCHAR returns TRUE for a valid index");
    let mut bytes = [0_u8; 8];
    read_into(&engine, 0x4000, &mut bytes, "read point");
    let x = i32::from_le_bytes(bytes[0..4].try_into().expect("x"));
    let y = i32::from_le_bytes(bytes[4..8].try_into().expect("y"));
    assert_eq!(x, 0, "x stays 0");
    let line_h = line_height(&mut state);
    assert_eq!(y, line_h, "line 1's y is one real line height");
}

#[test]
fn test_edit_em_posfromchar_basic_answer() {
    let mut engine = test_engine();
    let mut state = default_winapi_state();
    let (_, edit) = push_multiline_edit(&mut state, "ab\ncd");

    // Char 3 ('c') sits on line 1: y = one line height, x = 0.
    let r = dispatch_control_proc(&mut engine, &mut state, edit, EM_POSFROMCHAR, 3, 0x4000)
        .expect("posfromchar ok")
        .expect("some result");
    assert_eq!(r, 1, "valid char returns TRUE");
    assert_eq!(read_test_i32(&mut engine, 0x4000), 0, "x is 0");
    let line_h = line_height(&mut state);
    assert_eq!(read_test_i32(&mut engine, 0x4004), line_h, "y = line × the font's line height");

    // Out-of-range char → FALSE.
    let r = dispatch_control_proc(&mut engine, &mut state, edit, EM_POSFROMCHAR, 100, 0x4000)
        .expect("posfromchar oob ok")
        .expect("some result");
    assert_eq!(r, 0, "invalid char returns FALSE");
}

#[test]
fn test_status_bar_wm_size_sizes_and_positions_bar_in_parent() {
    let mut engine = test_engine();
    let mut state = default_winapi_state();
    let top = 0x6610_0041_u64;
    let bar = 0x6610_0042_u64;
    let ws = state.window_state();
    ws.windows.push(WindowRecord {
        handle: Hwnd::from(top),
        title: "Top".to_owned(),
        visible: true,
        width: 200,
        height: 100,
        ..Default::default()
    });
    ws.windows.push(WindowRecord {
        handle: Hwnd::from(bar),
        parent_handle: Hwnd::from(top),
        control: ControlClassKind::StatusBar.new_state(Vec::new()),
        style: WS_CHILD | 0x0003, // CCS_BOTTOM
        visible: true,
        ..Default::default()
    });

    // The default height is the control font's line height plus the two
    // client-edge border rows.
    let line_h = line_height(&mut state);
    let expected_height = line_h.saturating_add(4);

    dispatch_control_proc(&mut engine, &mut state, bar, WM_SIZE, 0, 0).expect("wmsize handled").expect("some result");

    let window = window_of(&state, bar);
    assert_eq!(window.width, 200, "the bar spans the parent width");
    assert_eq!(window.height, expected_height, "the default height is font-derived");
    assert_eq!(window.x, 0);
    assert_eq!(window.y, 100 - expected_height, "CCS_BOTTOM: the bar sits flush at the parent bottom");
    assert!(window.invalidated, "a resized bar waits to be painted");
    assert_eq!(state.window_state().window_mirror_rev, 1);
}

#[test]
fn a_status_bar_without_a_parent_keeps_its_place() {
    let mut engine = test_engine();
    let mut state = default_winapi_state();
    let (_, bar) = push_status_bar_pair(&mut state);
    window_mut(&mut state, bar).parent_handle = Hwnd::null();
    assert_eq!(send(&mut engine, &mut state, bar, WM_SIZE, 0, 0), 0);
    let window = window_of(&state, bar);
    assert_eq!((window.x, window.y, window.width, window.height), (0, 76, 200, 24));
    assert!(window.invalidated);
    assert_eq!(state.window_state().window_mirror_rev, 0);
}

#[test]
fn a_hidden_status_bar_still_consumes_the_paint() {
    let mut engine = test_engine();
    let mut state = default_winapi_state();
    let (_, bar) = push_status_bar_pair(&mut state);
    let record = window_mut(&mut state, bar);
    record.visible = false;
    record.invalidated = true;
    assert_eq!(send(&mut engine, &mut state, bar, WM_PAINT, 0, 0), 0);
    assert!(!window_of(&state, bar).invalidated, "the invalidation is consumed");
}

#[test]
fn test_wm_setfont_on_control_stores_and_getfont_returns() {
    let mut engine = test_engine();
    let mut state = default_winapi_state();
    let (_parent, edit) = push_edit_pair(&mut state);

    // WM_GETFONT before any WM_SETFONT: 0.
    let before = dispatch_control_proc(&mut engine, &mut state, edit, WM_GETFONT, 0, 0)
        .expect("getfont handled")
        .expect("some result");
    assert_eq!(before, 0, "WM_GETFONT must return 0 before any WM_SETFONT");

    let font = push_font(&mut state, 9, 16);
    assert_ne!(font, Hfont::null());

    // WM_SETFONT stores the handle; a non-zero redraw flag invalidates too.
    let result = dispatch_control_proc(&mut engine, &mut state, edit, WM_SETFONT, font.as_u64(), 1)
        .expect("setfont handled")
        .expect("some result");
    assert_eq!(result, 0, "WM_SETFONT must return 0");

    let window = window_of(&state, edit);
    assert_eq!(window.font_handle, font, "WM_SETFONT must store the HFONT on the window record");
    assert!(window.invalidated, "WM_SETFONT with a non-zero redraw flag must invalidate the window");

    // WM_GETFONT returns the stored handle.
    let after = dispatch_control_proc(&mut engine, &mut state, edit, WM_GETFONT, 0, 0)
        .expect("getfont handled")
        .expect("some result");
    assert_eq!(after, font.as_u64(), "WM_GETFONT must return the stored HFONT");
}

#[test]
fn test_wm_setfont_redraw_erases_background() {
    let mut engine = test_engine();
    let mut state = default_winapi_state();
    let (_, edit) = push_edit_pair(&mut state);
    let font = push_font(&mut state, 8, 16);

    // redraw=0: store the font, request no repaint at all.
    dispatch_control_proc(&mut engine, &mut state, edit, WM_SETFONT, font.as_u64(), 0)
        .expect("setfont handled")
        .expect("some result");
    let window = window_of(&state, edit);
    assert_eq!(window.font_handle, font);
    assert!(!window.invalidated, "WM_SETFONT with redraw=0 must not invalidate");
    assert!(!window.erase_background, "WM_SETFONT with redraw=0 must not request an erase");

    // redraw=1: the background is erased before the repaint, so the window must
    // invalidate AND carry a pending erase.
    dispatch_control_proc(&mut engine, &mut state, edit, WM_SETFONT, font.as_u64(), 1)
        .expect("setfont handled")
        .expect("some result");
    let window = window_of(&state, edit);
    assert!(window.invalidated, "WM_SETFONT with redraw=1 must invalidate");
    assert!(window.erase_background, "WM_SETFONT with redraw=1 must request an erase");
}

#[test]
fn test_wm_setfont_stored_font_drives_edit_measurements() {
    let mut engine = test_engine();
    let mut state = default_winapi_state();
    let (_, edit) = push_multiline_edit(&mut state, "0\n1\n2\n3\n4\n5\n6\n7\n8\n9");
    let font = push_font(&mut state, 16, 32);
    dispatch_control_proc(&mut engine, &mut state, edit, WM_SETFONT, font.as_u64(), 0)
        .expect("setfont handled")
        .expect("some result");

    let line_h = state.gdi_state().resolve_font(font).line_height;
    let default_line_h = line_height(&mut state);
    assert_ne!(line_h, default_line_h, "the 32 px fixture must measure differently from the 16 px default");

    // A 3-line-tall client (3 × the STORED line height).
    window_mut(&mut state, edit).height = line_h.saturating_mul(3);

    // EM_POSFROMCHAR: line 1's y is one STORED-font line height, not 16.
    let r = dispatch_control_proc(
        &mut engine,
        &mut state,
        edit,
        EM_POSFROMCHAR,
        2, // '1', line 1
        0x4000,
    )
    .expect("posfromchar ok")
    .expect("some result");
    assert_eq!(r, 1, "EM_POSFROMCHAR returns TRUE for a valid index");
    assert_eq!(read_test_i32(&mut engine, 0x4004), line_h, "EM_POSFROMCHAR y must use the stored line height");

    // Click-to-caret: a y in the middle of row 1 (line '1') must land on that
    // row's first char — with the 16 px default the same y lands a row lower.
    dispatch_mouse(
        &mut engine,
        &mut state,
        edit,
        WM_LBUTTONDOWN,
        2,
        u16::try_from(line_h + line_h / 2).unwrap_or(0),
    );
    assert_eq!(
        control_ui(&state, edit).caret,
        2,
        "the click at row 1 must land on '1' (char 2) with the stored font"
    );

    // PgDn page size: client height / stored line height = 3 rows.
    dispatch_control_proc(&mut engine, &mut state, edit, EM_SETSEL, 0, 0).expect("setsel ok").expect("some result");
    press_key(&mut engine, &mut state, edit, VK_NEXT);
    assert_eq!(
        control_ui(&state, edit).caret,
        6, // line 3 ('3')
        "PgDn must page by the stored font's line height"
    );
    const SB_PAGEDOWN: u16 = 3;
    let before_scroll = control_ui(&state, edit).first_visible_line;
    assert_eq!(
        vscroll_offset(&mut engine, &mut state, edit, SB_PAGEDOWN, 0),
        before_scroll + 3,
        "SB_PAGEDOWN must page by the stored font's visible row count"
    );
}

#[test]
fn a_subclassed_control_sees_the_font_message_itself() {
    let mut engine = test_engine();
    let mut state = default_winapi_state();
    let (_, edit) = push_edit_pair(&mut state);
    subclass_edit(&mut engine, &mut state, edit);
    let signal = dispatch_control_proc(&mut engine, &mut state, edit, WM_SETFONT, 5, 1).expect_err("bridged");
    assert!(matches!(
        signal,
        WinApiControlSignal::GuestCallbackRequested { request } if request.message == WM_SETFONT
    ));
    assert_eq!(window_of(&state, edit).font_handle, Hfont::null());
}

#[test]
fn a_button_is_clicked_by_a_press_and_a_release_inside_it() {
    let mut engine = test_engine();
    let mut state = default_winapi_state();
    let (parent, button) = push_button_pair(&mut state);
    dispatch_mouse(&mut engine, &mut state, button, WM_LBUTTONDOWN, 3, 3);
    assert!(control_ui(&state, button).pressed);
    assert!(window_of(&state, button).invalidated, "the pressed face waits to be painted");
    assert_eq!(state.window_state().capture_window_handle, Hwnd::from(button));
    assert_eq!(state.window_state().focus_window_handle, Hwnd::from(button));
    assert_eq!(send(&mut engine, &mut state, button, WM_PAINT, 0, 0), 0);
    assert!(!window_of(&state, button).invalidated);

    let signal = dispatch_control_proc(&mut engine, &mut state, button, WM_LBUTTONUP, 0, mouse_lparam(39, 19))
        .expect_err("a click is reported");
    assert!(matches!(
        signal,
        WinApiControlSignal::GuestCallbackRequested { request }
            if request.window_handle == parent && request.message == WM_COMMAND && request.word_parameter == 7
    ));
    assert!(!control_ui(&state, button).pressed);
    assert_eq!(state.window_state().capture_window_handle, Hwnd::null());

    // A release without a press, or outside, clicks nothing.
    assert_eq!(dispatch_mouse(&mut engine, &mut state, button, WM_LBUTTONUP, 3, 3), 0);
    dispatch_mouse(&mut engine, &mut state, button, WM_LBUTTONDOWN, 3, 3);
    assert_eq!(dispatch_mouse(&mut engine, &mut state, button, WM_LBUTTONUP, 40, 3), 0);
    assert!(!control_ui(&state, button).pressed);
}

#[test]
fn buttons_and_labels_take_a_caption() {
    let mut engine = test_engine();
    let mut state = default_winapi_state();
    let (_, button) = push_button_pair(&mut state);
    write_guest_ansi(&mut engine, 0x4000, "Apply");
    assert_eq!(send(&mut engine, &mut state, button, WM_SETTEXT, 0, 0x4000), 1);
    assert_eq!(window_of(&state, button).control_text, "Apply");
    assert!(window_of(&state, button).invalidated);

    window_mut(&mut state, button).control = ControlClassKind::Label.new_state(Vec::new());
    assert_eq!(send(&mut engine, &mut state, button, WM_SETTEXT, 0, 0), 1);
    assert_eq!(window_of(&state, button).control_text, "", "a null pointer is an empty caption");
    assert_eq!(send(&mut engine, &mut state, button, WM_PAINT, 0, 0), 0);
    assert!(!window_of(&state, button).invalidated);

    let signal = dispatch_control_proc(&mut engine, &mut state, button, WM_SETTEXT, 0, 0x9000_0000_0000)
        .expect_err("unmapped");
    assert!(matches!(signal, WinApiControlSignal::Fault { fault } if fault.address == 0x9000_0000_0000));
    assert_eq!(window_of(&state, button).control_text, "");
    assert!(!window_of(&state, button).invalidated);
}

#[test]
fn a_list_box_scrolls_with_the_wheel() {
    let mut engine = test_engine();
    let mut state = default_winapi_state();
    let (_, listbox) = push_listbox(&mut state);
    for _ in 0..6 {
        seed_listbox(&mut engine, &mut state, listbox);
    }
    assert_eq!(send(&mut engine, &mut state, listbox, WM_PAINT, 0, 0), 0);
    // Twelve items, three of them visible; one notch is three items.
    assert_eq!(send(&mut engine, &mut state, listbox, WM_MOUSEWHEEL, wheel_wparam(-120), 0), 0);
    assert_eq!(control_ui(&state, listbox).first_visible_line, 3);
    assert!(window_of(&state, listbox).invalidated);
    assert_eq!(send(&mut engine, &mut state, listbox, WM_PAINT, 0, 0), 0);
    assert!(!window_of(&state, listbox).invalidated);
    // A click counts from the first visible item.
    dispatch_control_proc(&mut engine, &mut state, listbox, WM_LBUTTONDOWN, 0, mouse_lparam(2, 18))
        .expect_err("a changed selection is reported");
    assert_eq!(control_ui(&state, listbox).sel_index, 4);
    send(&mut engine, &mut state, listbox, WM_PAINT, 0, 0);
    // The ends of the list stop the wheel.
    send(&mut engine, &mut state, listbox, WM_MOUSEWHEEL, wheel_wparam(-1200), 0);
    assert_eq!(control_ui(&state, listbox).first_visible_line, 9);
    send(&mut engine, &mut state, listbox, WM_MOUSEWHEEL, wheel_wparam(1200), 0);
    assert_eq!(control_ui(&state, listbox).first_visible_line, 0);
    send(&mut engine, &mut state, listbox, WM_PAINT, 0, 0);
    send(&mut engine, &mut state, listbox, WM_MOUSEWHEEL, wheel_wparam(120), 0);
    assert!(!window_of(&state, listbox).invalidated, "a wheel that moves nothing paints nothing");
}

#[test]
fn created_controls_start_with_their_caption() {
    let mut state = default_winapi_state();
    let mut create = |class: &str, style: u32| {
        create_window_record(
            state.window_state(),
            &[],
            0x0409,
            CreateWindowRequest {
                class_identifier: WindowClassIdentifier::Name(class.to_owned()),
                title: "Apply".to_owned(),
                style,
                parent_handle: 0,
                menu_handle: 9,
                x: 0,
                y: 0,
                width: 40,
                height: 20,
            },
        )
        .expect("create window")
    };
    let button = create("Button", WS_CHILD | 0x1000_0000);
    let edit = create("EDIT", WS_CHILD);
    let bar = create("msctls_statusbar32", WS_CHILD);
    assert_eq!(window_of(&state, button).control_text, "Apply");
    assert!(window_of(&state, button).invalidated, "a shown window waits for its first paint");
    assert_eq!(window_of(&state, edit).control_text, "", "the text is the control's own");
    assert_eq!(control_text(&state, edit), "Apply");
    assert_eq!(window_of(&state, bar).control_text, "Apply");
    assert!(!window_of(&state, edit).invalidated);
    assert!(!state.window_state().menu_dirty, "a control id is no menu");
}

#[test]
fn test_edit_without_subclass_behaves_exactly_as_before() {
    let mut engine = test_engine();
    let mut state = default_winapi_state();
    let (_, edit) = push_multiline_edit(&mut state, "hello");

    // No subclass bridge: WM_CHAR mutates the text host-side and the change
    // reaches the guest-WndProc parent as EN_CHANGE.
    let signal = dispatch_control_proc(&mut engine, &mut state, edit, WM_CHAR, u64::from(b'x'), 0)
        .expect_err("WM_CHAR must reach the host dispatch");
    assert!(
        matches!(
            signal,
            WinApiControlSignal::GuestCallbackRequested { request }
                if request.callback_address == 0x7000_0000 && request.message == WM_COMMAND
        ),
        "an un-subclassed edit delivers EN_CHANGE to its parent, got {signal:?}"
    );
    assert_eq!(control_text(&state, edit), "xhello");

    // GWLP_WNDPROC reads 0 (nothing stored).
    assert_eq!(window_proc(state.window_state(), edit), 0);

    // The default path runs the host dispatch (0 font) rather than invoking anything.
    assert_eq!(
        dispatch_control_proc(&mut engine, &mut state, edit, WM_GETFONT, 0, 0),
        Ok(Some(0)),
        "an un-subclassed control stays host-side"
    );
}
