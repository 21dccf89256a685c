//! The emulator state: slots, accessors, mirror, keyboard, timers, handler tail.
#![allow(dead_code)]

use std::cell::Cell;
use std::sync::Arc;

use wie_winapi::clipboard::{ClipboardState, CF_TEXT};
use wie_winapi::cpu::{GuestCpu, MemoryFault, TEB_LAST_ERROR_OFFSET};
use wie_winapi::d3d9::{D3D9State, FLOAT_ONE, FLOAT_ZERO};
use wie_winapi::display::DisplayMetrics;
use wie_winapi::dll_state::{dll_slot, DllId, DllStateMap, SlotTypeMismatch};
use wie_winapi::font::FontEngine;
use wie_winapi::handles::{FileHandle, FindFileHandle, Hwnd, ModuleHandle, RegistryKeyHandle, ResourceHandle};
use wie_winapi::input::{KeyboardState, KEY_COUNT};
use wie_winapi::kernel::{ActiveThread, KernelState, SyncState, ThreadState};
use wie_winapi::present::{KeyWrite, MessageQueue, QueuedMessage, WakeHub};
use wie_winapi::process::{
    default_environment, FileDialogPolicy, FileIoState, GuestHeap, GuestStdinMode, HeapState, ImportResolver,
    ModuleState, OpenGuestFile, ProcessState, VolumeConfig, WinApiEnvironment,
};
use wie_winapi::state::{pthread_return_trampoline_va, HandlerContext, WinApiState};
use wie_winapi::subsystems::ConsoleState;
use wie_winapi::window::{WindowRecord, WindowState};
use wie_winapi::winmm::{DueTimer, WinmmState, WinmmTimerRecord};

type State = WinApiState<()>;

const STACK_VA: u64 = 0x100_0000;
const STACK_SIZE: usize = 0x1_0000;
const STACK_TOP: u64 = 0x100_FF00;

fn test_engine() -> GuestCpu {
    let mut cpu = GuestCpu::new();
    cpu.mem_map(0x1000, 0x10_0000).expect("map test memory");
    cpu.mem_map(STACK_VA, STACK_SIZE).expect("map test stack");
    cpu.mem_write(STACK_TOP, &0_u64.to_le_bytes()).expect("write return address");
    cpu.rsp = STACK_TOP;
    cpu
}

fn default_winapi_state() -> State {
    WinApiState {
        heap_state: HeapState {
            heap: Arc::new(GuestHeap { base: 0x2000, end: 0x10000 }),
            next_fls_index: 0,
            fls_slots: Vec::new(),
            guest_fls_table_va: 0,
        },
        file_io: FileIoState {
            executable_file_size: 0,
            executable_file_bytes: Arc::new(Vec::new()),
            executable_file_cursor: 0,
            next_find_handle: FindFileHandle::null(),
            find_handles: Vec::new(),
            host_file_mounts: Vec::new(),
            virtual_files: Vec::new(),
            open_files: ahash::HashMap::default(),
            next_file_handle: FileHandle::null(),
            next_resource_handle: ResourceHandle::null(),
            resources: Vec::new(),
            current_directory_wide: Vec::new(),
            bottle_root: None,
            volumes: VolumeConfig { drive_d: None },
            guest_file_data_next: 0,
            guest_io: None,
            stdin_bytes: Vec::new(),
            stdin_cursor: 0,
            stdin_mode: GuestStdinMode::default(),
            ucrt_files: ahash::HashMap::default(),
            ucrt_next_file_va: 0,
        },
        module_state: ModuleState {
            loaded_modules: ahash::HashMap::default(),
            import_resolver: None,
            get_proc_address_cache: ahash::HashMap::default(),
            next_module_handle: ModuleHandle::null(),
        },
        process: ProcessState {
            last_error: 0,
            next_registry_key_handle: RegistryKeyHandle::from(0x100),
            registry_keys: Vec::new(),
            main_module_file_name: String::new(),
            main_module_path: String::new(),
            main_module_host_dir: None,
            error_mode: 0,
            suspended_threads: ahash::HashMap::default(),
            environment: Vec::new(),
            main_module_dialogs: Vec::new(),
            main_module_menus: Vec::new(),
            main_module_strings: Vec::new(),
            main_module_accelerators: Vec::new(),
        },
        display: DisplayMetrics::default(),
        kernel: KernelState {
            threads: ThreadState { active: ActiveThread { tid: 1, last_error: 0 } },
            sync: SyncState { wake_hub: WakeHub { id: 7 } },
            seh_pending: ahash::HashMap::default(),
        },
        dll_states: DllStateMap::new(),
        message_queue: MessageQueue::default(),
    }
}

fn default_env() -> WinApiEnvironment {
    WinApiEnvironment {
        image_base: 0x0000_0000_1400_0000,
        command_line_a_ptr: 0,
        command_line_w_ptr: 0,
        environment_strings_w_ptr: 0,
        module_file_name_a_ptr: 0,
        module_file_name_w_ptr: 0,
        process_heap_handle: 1,
    }
}

fn write_regs(cpu: &mut GuestCpu, rcx: u64, rdx: u64, r8: u64, r9: u64, rsp: u64) {
    cpu.rcx = rcx;
    cpu.rdx = rdx;
    cpu.r8 = r8;
    cpu.r9 = r9;
    cpu.rsp = if rsp == 0 { STACK_TOP } else { rsp };
}

fn read_into(engine: &GuestCpu, addr: u64, buffer: &mut [u8], what: &str) {
    let bytes = engine.mem_read(addr, buffer.len()).expect(what);
    buffer.copy_from_slice(&bytes);
}

fn write_guest_utf16(engine: &mut GuestCpu, addr: u64, s: &str) {
    let mut bytes: Vec<u8> = Vec::new();
    for unit in s.encode_utf16() {
        bytes.extend_from_slice(&unit.to_le_bytes());
    }
    bytes.extend_from_slice(&0_u16.to_le_bytes());
    engine.mem_write(addr, &bytes).expect("write guest UTF-16 string");
}

fn write_guest_ansi(engine: &mut GuestCpu, addr: u64, s: &str) {
    let mut bytes = s.as_bytes().to_vec();
    bytes.push(0);
    engine.mem_write(addr, &bytes).expect("write guest ANSI string");
}

const TEB: u64 = 0x9000;

fn engine_with_teb() -> GuestCpu {
    let mut engine = test_engine();
    engine.gs_base = TEB;
    engine
}

fn teb_error(engine: &GuestCpu) -> u32 {
    engine.read_u32(TEB + TEB_LAST_ERROR_OFFSET).expect("TEB slot")
}

#[test]
fn dll_slot_round_trip_covers_every_variant() {
    let labels = [
        "console", "window", "d3d9", "pthread", "gdi", "present", "clipboard", "registry", "dragdrop", "ws2", "crypt32",
        "ole32", "winmm", "wininet", "winhttp",
    ];
    assert_eq!(DllId::COUNT, 15);
    for (index, id) in DllId::all().into_iter().enumerate() {
        assert_eq!(dll_slot(id), (index, labels[index]));
    }
    assert_eq!(dll_slot(DllId::Winhttp), (14, "winhttp"));
}

#[test]
fn slots_start_empty_and_keep_what_was_put_in() {
    let mut map = DllStateMap::default();
    assert!(map.get::<ClipboardState>(DllId::Clipboard).is_none());
    assert!(map.get_mut::<ClipboardState>(DllId::Clipboard).is_none());
    assert!(map.loaded_labels().is_empty());
    map.get_or_init::<ClipboardState>(DllId::Clipboard).set_text("kept".to_owned());
    assert_eq!(map.get::<ClipboardState>(DllId::Clipboard).and_then(ClipboardState::text), Some("kept"));
    map.get_mut::<ClipboardState>(DllId::Clipboard).expect("loaded").clear();
    assert!(!map.get_or_init::<ClipboardState>(DllId::Clipboard).has_text());
    map.get_or_init::<ConsoleState>(DllId::Console);
    assert_eq!(map.loaded_labels(), ["console", "clipboard"]);
}

#[test]
fn a_slot_of_another_type_is_reported() {
    let mut map = DllStateMap::new();
    map.get_or_init::<ClipboardState>(DllId::Winmm).set_text("squatter".to_owned());
    assert_eq!(
        map.try_get_or_init::<WinmmState>(DllId::Winmm).err(),
        Some(SlotTypeMismatch { id: DllId::Winmm })
    );
    assert!(map.get::<WinmmState>(DllId::Winmm).is_none());
    assert!(map.get_mut::<WinmmState>(DllId::Winmm).is_none());
    assert!(map.try_get_or_init::<ClipboardState>(DllId::Winmm).is_ok_and(|c| c.text() == Some("squatter")));
}

#[test]
fn accessors_create_on_first_use_and_readers_do_not() {
    let mut state = default_winapi_state();
    assert!(state.try_console().is_none());
    assert!(state.try_window_state().is_none());
    assert!(state.try_window_state_mut().is_none());
    assert!(state.try_d3d9().is_none());
    assert!(state.try_pthread().is_none());
    assert!(state.try_gdi_state().is_none());
    assert!(state.try_present().is_none());
    assert!(state.winmm_ref().is_none());
    assert!(state.dll_states.loaded_labels().is_empty());
    state.console();
    state.window_state();
    state.d3d9();
    state.pthread();
    state.gdi_state();
    state.present();
    state.clipboard();
    state.registry();
    state.drag_drop();
    state.ws2();
    state.crypt32();
    state.ole32();
    state.winmm();
    state.wininet();
    state.winhttp();
    assert_eq!(state.dll_states.loaded_labels().len(), DllId::COUNT);
    assert!(state.try_console().is_some());
    assert!(state.try_window_state_mut().is_some());
    assert!(state.try_d3d9().is_some_and(|d| d.d3d9_backbuffer.is_empty()));
    assert!(state.winmm_ref().is_some_and(|w| w.timers.is_empty()));
}

#[test]
fn absorb_takes_the_guest_value() {
    let mut engine = engine_with_teb();
    let mut state = default_winapi_state();
    state.process.last_error = 1;
    engine.write_u32(TEB + TEB_LAST_ERROR_OFFSET, 0xC000_0005).expect("TEB mapped");
    state.absorb_guest_last_error(&engine);
    assert_eq!(state.process.last_error, 0xC000_0005);
    assert_eq!(state.kernel.threads.active.last_error, 0xC000_0005);
}

#[test]
fn absorb_without_a_teb_changes_nothing() {
    let mut state = default_winapi_state();
    state.process.last_error = 3;
    state.kernel.threads.active.last_error = 4;
    let mut engine = test_engine();
    engine.gs_base = 0x7000_0000_0000;
    state.absorb_guest_last_error(&engine);
    assert_eq!((state.process.last_error, state.kernel.threads.active.last_error), (3, 4));
}

#[test]
fn publish_then_absorb_round_trips() {
    let mut engine = engine_with_teb();
    let mut state = default_winapi_state();
    state.process.last_error = 0x1234_5678;
    state.publish_last_error_to_guest(&mut engine);
    assert_eq!(teb_error(&engine), 0x1234_5678);
    assert_eq!(state.kernel.threads.active.last_error, 0x1234_5678);
    state.process.last_error = 0;
    state.kernel.threads.active.last_error = 0;
    state.absorb_guest_last_error(&engine);
    assert_eq!(state.process.last_error, 0x1234_5678);
    assert_eq!(state.kernel.threads.active.last_error, 0x1234_5678);
}

#[test]
fn publish_without_a_teb_still_updates_the_thread() {
    let mut engine = test_engine();
    engine.gs_base = 0x7000_0000_0000;
    let mut state = default_winapi_state();
    state.process.last_error = 9;
    state.publish_last_error_to_guest(&mut engine);
    assert_eq!(state.kernel.threads.active.last_error, 9);
}

#[test]
fn flushing_the_console_empties_it() {
    let mut state = default_winapi_state();
    assert_eq!(state.flush_console(), Vec::<u8>::new());
    assert!(state.try_console().is_some(), "an empty console is created");
    state.console().stream_output.extend_from_slice(b"frame");
    assert_eq!(state.flush_console(), b"frame");
    assert_eq!(state.flush_console(), Vec::<u8>::new());
}

#[test]
fn wiring_the_wake_hub_is_idempotent() {
    let mut state = default_winapi_state();
    let message = QueuedMessage { window_handle: Hwnd::from(1), message: 2, word_parameter: 3, long_parameter: 4 };
    state.lock_message_queue().messages.push(message);
    assert_eq!(state.message_queue.wake, WakeHub { id: 0 });
    state.wire_wake_hub();
    assert_eq!(state.message_queue.wake, WakeHub { id: 7 });
    state.wire_wake_hub();
    assert_eq!(state.message_queue.wake, WakeHub { id: 7 });
    assert_eq!(state.message_queue.messages, [message]);
}

#[test]
fn the_font_engine_is_put_back() {
    let mut state = default_winapi_state();
    state.gdi_state().font_engine = FontEngine::fixed(5, 11);
    let seen = state.with_font_engine(|state: &mut State, font: &mut FontEngine| {
        let seen = (font.char_advance('x'), state.gdi_state().font_engine.char_advance('x'));
        font.line_height = 12;
        seen
    });
    assert_eq!(seen, (5, 8), "the state holds a fresh engine meanwhile");
    assert_eq!(state.gdi_state().font_engine.line_height, 12);
    assert_eq!(state.gdi_state().font_engine.char_advance('x'), 5);
}

fn timer(id: u32, due: u64, delay: u32, periodic: bool) -> WinmmTimerRecord {
    WinmmTimerRecord { id, due, delay, periodic, callback: u64::from(id) * 0x100, user_data: u64::from(id) }
}

fn fired(id: u32) -> DueTimer {
    DueTimer { id, callback: u64::from(id) * 0x100, user_data: u64::from(id) }
}

#[test]
fn due_timers_fire_and_rearm() {
    let mut state = default_winapi_state();
    state.winmm().timers = vec![timer(1, 10, 5, true), timer(2, 10, 0, false), timer(3, 11, 0, false)];
    assert_eq!(state.pop_due_timers(9), Vec::<DueTimer>::new());
    assert_eq!(state.pop_due_timers(10), [fired(1), fired(2)]);
    assert_eq!(state.winmm().timers, [timer(1, 15, 5, true), timer(3, 11, 0, false)]);
}

#[test]
fn the_earliest_timer_fires_first() {
    let mut state = default_winapi_state();
    assert_eq!(state.pop_next_due_timer(100), None);
    state.winmm().timers = vec![timer(1, 20, 0, false), timer(2, 10, 7, true), timer(3, 10, 0, false)];
    assert_eq!(state.pop_next_due_timer(9), None);
    assert_eq!(state.pop_next_due_timer(30), Some(fired(2)));
    assert_eq!(state.pop_next_due_timer(30), Some(fired(3)));
    assert_eq!(state.pop_next_due_timer(30), Some(fired(2)), "re-armed for 17");
    assert_eq!(state.winmm().timers, [timer(1, 20, 0, false), timer(2, 24, 7, true)]);
}

#[test]
fn the_mirror_follows_the_windows() {
    let mut state = default_winapi_state();
    state.sync_window_mirror();
    assert!(state.try_present().is_none(), "nothing to mirror");
    let ws = state.window_state();
    ws.windows.push(WindowRecord {
        handle: Hwnd::from(0x10),
        parent_handle: Hwnd::from(0x20),
        x: 1,
        y: 2,
        width: 3,
        height: 4,
        visible: true,
        title: "mirrored".to_owned(),
        menu_handle: 5,
        mouse_tracking: true,
        ..Default::default()
    });
    ws.focus_window_handle = Hwnd::from(0x10);
    ws.capture_window_handle = Hwnd::from(0x20);
    ws.menu_dirty = true;
    state.sync_window_mirror_if_dirty();
    assert!(state.try_present().is_none(), "the revision did not move");
    state.window_state().window_mirror_rev = 3;
    state.sync_window_mirror_if_dirty();
    let mirror = &state.try_present().expect("mirrored").channel.mirror;
    assert_eq!(mirror.windows.len(), 1);
    let window = &mirror.windows[0];
    assert_eq!((window.handle, window.parent), (Hwnd::from(0x10), Hwnd::from(0x20)));
    assert_eq!((window.x, window.y, window.width, window.height), (1, 2, 3, 4));
    assert!(window.visible && window.mouse_tracking);
    assert_eq!(window.title, "mirrored");
    assert_eq!(window.menu_handle, 5);
    assert_eq!((mirror.focus, mirror.capture, mirror.menu_dirty), (Hwnd::from(0x10), Hwnd::from(0x20), true));
    assert_eq!(state.window_state().window_mirror_synced_rev, 3);
    state.window_state().focus_window_handle = Hwnd::null();
    state.sync_window_mirror_if_dirty();
    assert_eq!(state.present().channel.mirror.focus, Hwnd::from(0x10), "clean until the revision moves");
    state.sync_window_mirror();
    assert_eq!(state.present().channel.mirror.focus, Hwnd::null());
}

#[test]
fn drained_key_writes_set_and_clear_the_down_bit() {
    let mut state = default_winapi_state();
    state.drain_key_writes();
    assert!(state.try_window_state().is_none(), "no write, no window state");
    state.window_state().keyboard_state.set(0x41, 0x01);
    state.window_state().keyboard_state.set(0x42, 0x81);
    let writes =
        [(0x41, true), (0x42, false), (0x43, true), (0x43, false), (0x44, false), (0x44, true), (0x100, true)];
    for (vk, pressed) in writes {
        state.present().channel.key_writes.push(KeyWrite { vk, pressed });
    }
    state.drain_key_writes();
    let keys = &state.window_state().keyboard_state;
    assert_eq!((keys.get(0x41), keys.get(0x42), keys.get(0x43), keys.get(0x44)), (0x81, 0x01, 0, 0x80));
    assert!(state.present().channel.key_writes.is_empty());
}

#[test]
fn finish_returns_to_the_guest() {
    let mut engine = test_engine();
    engine.mem_write(STACK_TOP, &0x1234_5678_u64.to_le_bytes()).expect("stack");
    let mut state = default_winapi_state();
    state.window_state().window_mirror_rev = 1;
    let mut context = HandlerContext::new(&mut engine, default_env(), &mut state);
    assert_eq!((context.heap.base, context.heap.end), (0x2000, 0x10000));
    let done = context.finish(42).expect("stack readable");
    assert_eq!((done.return_address, done.return_value), (0x1234_5678, 42));
    assert_eq!((engine.rax, engine.rsp), (42, STACK_TOP + 8));
    assert_eq!(state.window_state().window_mirror_synced_rev, 1);
    assert!(state.try_present().is_some());
}

#[test]
fn finish_reports_an_unreadable_stack() {
    let mut engine = test_engine();
    engine.rsp = 0xDEAD_0000;
    let mut state = default_winapi_state();
    let mut context = HandlerContext::new(&mut engine, default_env(), &mut state);
    assert_eq!(context.finish(1).err(), Some(MemoryFault { address: 0xDEAD_0000 }));
    assert_eq!((engine.rax, engine.rsp), (0, 0xDEAD_0000));
}

#[test]
fn the_clipboard_holds_one_text() {
    let mut clipboard = ClipboardState::default();
    assert_eq!(clipboard.text(), None);
    assert!(!clipboard.has_text());
    assert!(!clipboard.is_format_available(CF_TEXT));
    clipboard.set_text("one".to_owned());
    clipboard.set_text("two".to_owned());
    assert_eq!(clipboard.text(), Some("two"));
    assert!(clipboard.has_text());
    assert!(clipboard.is_format_available(CF_TEXT));
    assert!(!clipboard.is_format_available(13));
    clipboard.clear();
    assert_eq!(clipboard.text(), None);
}

#[test]
fn keyboard_slots_outside_the_array_are_ignored() {
    let mut keys = KeyboardState::default();
    assert_eq!(keys.len(), KEY_COUNT);
    keys.set(255, 7);
    keys.set(256, 9);
    assert_eq!((keys.get(0), keys.get(255), keys.get(256)), (0, 7, 0));
    keys[0] = 3;
    assert_eq!(keys.get(0), 3);
    assert_eq!(keys.iter().filter(|key| **key != 0).count(), 2);
}

#[test]
fn degenerate_displays_measure_zero() {
    let display = DisplayMetrics::new(-1, 0);
    assert_eq!((display.width_metric(), display.height_metric()), (0, 0));
    assert_eq!((display.width_mm(), display.height_mm()), (0, 0));
    let wide = DisplayMetrics::new(i32::MAX, i32::MIN);
    assert_eq!(wide.width_metric(), 2_147_483_647);
    assert_eq!(wide.width_mm(), 568_188_382);
    assert_eq!(wide.height_mm(), 0);
    assert_eq!(DisplayMetrics::new(2, 1).width_mm(), 1, "0.53 mm rounds up");
    assert_eq!(DisplayMetrics::new(1, 1).width_mm(), 0, "0.26 mm rounds down");
}

#[test]
fn every_process_starts_with_the_same_environment() {
    let environment = default_environment();
    assert_eq!(environment.len(), 10);
    assert_eq!(environment[0], ("PATH".to_owned(), "C:\\Windows\\System32".to_owned()));
    assert_eq!(environment[9], ("NUMBER_OF_PROCESSORS".to_owned(), "4".to_owned()));
}

#[test]
fn file_sizes_come_from_the_buffer_or_the_host() {
    let mut file = OpenGuestFile {
        handle: 1,
        path: Arc::from("C:\\a.bin"),
        bytes: vec![0; 12],
        cursor: 0,
        host_path: None,
        streaming: false,
        guest_data_va: None,
        guest_slot_index: None,
    };
    assert_eq!(file.size(Some(99)), 12);
    file.streaming = true;
    assert_eq!(file.size(Some(99)), 0, "a streamed file without a host path is empty");
    file.host_path = Some(Arc::from("/tmp/a.bin"));
    assert_eq!(file.size(Some(99)), 99);
    assert_eq!(file.size(None), 0);
}

#[derive(Debug, PartialEq)]
struct Unresolved(String);

#[test]
fn the_import_resolver_asks_its_callback() {
    let calls = Cell::new(0_u64);
    let mut resolver = ImportResolver::new(|lib: &str, name: &str, slot: u64| {
        calls.set(calls.get() + 1);
        if name == "Missing" {
            Err(Unresolved(format!("{lib}!{name}")))
        } else {
            Ok(slot + lib.len() as u64 + calls.get())
        }
    });
    assert_eq!(resolver.resolve("user32", "MessageBoxW", 100), Ok(107));
    assert_eq!(resolver.resolve("user32", "Missing", 100), Err(Unresolved("user32!Missing".to_owned())));
    assert_eq!(resolver.resolve("gdi32", "TextOutA", 0), Ok(8));
}

#[test]
fn clones_of_a_resolver_share_one_callback() {
    let calls = Cell::new(0_u64);
    let mut resolver = ImportResolver::new(move |_: &str, _: &str, slot: u64| {
        calls.set(calls.get() + 1);
        Ok::<u64, ()>(slot + calls.get())
    });
    let mut again = resolver.clone();
    assert_eq!(resolver.resolve("a", "b", 10), Ok(11));
    assert_eq!(again.resolve("a", "b", 10), Ok(12), "the clone counts on");
    assert_eq!(resolver.resolve("a", "b", 10), Ok(13));
}

#[test]
fn a_context_shares_the_heap_of_the_state() {
    let mut engine = engine_with_teb();
    let mut state = default_winapi_state();
    let context = HandlerContext::new(&mut engine, default_env(), &mut state);
    assert!(Arc::ptr_eq(&context.heap, &context.state.heap_state.heap));
}

#[test]
fn defaults_of_the_small_policies() {
    assert_eq!(GuestStdinMode::default(), GuestStdinMode::InjectOnly);
    assert_eq!(FileDialogPolicy::default(), FileDialogPolicy::Cancel);
    assert_eq!(pthread_return_trampoline_va(), 0x7000_0000_0000_FF00);
}

#[test]
fn handles_convert_both_ways() {
    assert_eq!(u64::from(Hwnd::from(0x6610_0001)), 0x6610_0001);
    assert_eq!(ModuleHandle::from(5).as_u64(), 5);
    assert_eq!(FileHandle::default(), FileHandle::null());
}

#[test]
fn a_fresh_device_has_identity_transforms() {
    let d3d9 = D3D9State::default();
    for (i, bits) in d3d9.d3d9_world_matrix.iter().enumerate() {
        let expected = if i % 5 == 0 { FLOAT_ONE } else { FLOAT_ZERO };
        assert_eq!(*bits, expected);
        assert_eq!(d3d9.d3d9_view_matrix[i], expected);
        assert_eq!(d3d9.d3d9_projection_matrix[i], expected);
    }
    assert_eq!(f32::from_bits(FLOAT_ONE), 1.0);
    assert_eq!(f32::from_bits(FLOAT_ZERO), 0.0);
    assert_eq!((d3d9.d3d9_viewport.min_z, d3d9.d3d9_viewport.max_z), (FLOAT_ZERO, FLOAT_ONE));
    assert_eq!(d3d9.d3d9_texture_bindings, [0; 8]);
    assert!(d3d9.d3d9_dirty.is_none() && !d3d9.d3d9_scene_active);
    assert!(d3d9.d3d9_textures.is_empty() && d3d9.d3d9_shaders.is_empty());
}

#[test]
fn guest_memory_faults_where_nothing_is_mapped() {
    let mut cpu = GuestCpu::new();
    assert_eq!(cpu.mem_map(0x1000, 0x10), Ok(()));
    assert_eq!(cpu.mem_map(0x100F, 1), Err(MemoryFault { address: 0x100F }), "overlap");
    assert_eq!(cpu.mem_map(u64::MAX, 2), Err(MemoryFault { address: u64::MAX }), "past the end");
    assert_eq!(cpu.mem_map(0x1010, 0x10), Ok(()));
    assert_eq!(cpu.mem_write(0x100E, &[1, 2, 3, 4]), Ok(()), "across two regions");
    assert_eq!(cpu.mem_read(0x100D, 6), Ok(vec![0, 1, 2, 3, 4, 0]));
    assert_eq!(cpu.read_u16(0x100E), Ok(0x0201));
    assert_eq!(cpu.read_u32(0x100E), Ok(0x0403_0201));
    assert_eq!(cpu.mem_write(0x101E, &[9; 3]), Err(MemoryFault { address: 0x101E }));
    assert_eq!(cpu.mem_read(0x101E, 2), Ok(vec![0, 0]), "a refused write leaves memory alone");
    assert_eq!(cpu.read_u64(0x0FFF), Err(MemoryFault { address: 0x0FFF }));
    assert_eq!(cpu.write_u64(0x1000, 0x0102_0304_0506_0708), Ok(()));
    assert_eq!(cpu.read_u64(0x1000), Ok(0x0102_0304_0506_0708));
    assert_eq!(cpu.byte_at(0x1000), Some(8));
    assert_eq!(cpu.byte_at(0x1020), None);
}

#[test]
fn a_new_window_state_is_empty() {
    let ws = WindowState::default();
    assert!(ws.windows.is_empty() && ws.accels.is_empty() && ws.menus.is_empty());
    assert_eq!(ws.keyboard_state.iter().copied().max(), Some(0));
    assert_eq!(ws.next_window_handle, Hwnd::from(0x6610_0000));
}

#[test]
fn publishing_leaves_the_neighbourhood_alone() {
    let mut engine = engine_with_teb();
    let mut state = default_winapi_state();
    let slot = TEB + TEB_LAST_ERROR_OFFSET;
    engine.mem_write(slot - 4, &[0xAA; 12]).expect("TEB mapped");
    state.process.last_error = 5;
    state.publish_last_error_to_guest(&mut engine);
    assert_eq!(engine.mem_read(slot - 4, 12), Ok(vec![0xAA, 0xAA, 0xAA, 0xAA, 5, 0, 0, 0, 0xAA, 0xAA, 0xAA, 0xAA]));
}

#[test]
fn a_mistyped_slot_says_which() {
    let mismatch = SlotTypeMismatch { id: DllId::Winhttp };
    assert_eq!(mismatch.message(), "Winhttp (winhttp) slot 14 holds a different state type");
    let mut map = DllStateMap::new();
    map.get_or_init::<ClipboardState>(DllId::Console).set_text("squatter".to_owned());
    let mismatch = map.try_get_or_init::<ConsoleState>(DllId::Console).err().expect("another type");
    assert!(mismatch.message().starts_with("Console (console) slot "));
    assert_eq!(map.get::<ClipboardState>(DllId::Console).and_then(ClipboardState::text), Some("squatter"));
}

#[test]
fn without_key_writes_the_window_slot_is_left_alone() {
    let mut state = default_winapi_state();
    state.dll_states.get_or_init::<ClipboardState>(DllId::Window).set_text("squatter".to_owned());
    state.drain_key_writes();
    assert_eq!(state.dll_states.get::<ClipboardState>(DllId::Window).and_then(ClipboardState::text), Some("squatter"));
}
