//! The emulator-wide WinAPI state and the context handed to every handler.
use std::sync::Arc;

use vstd::prelude::*;

use crate::clipboard::ClipboardState;
use crate::cpu;
use crate::cpu::{GuestCpu, MemoryFault, TEB_LAST_ERROR_OFFSET};
use crate::d3d9::D3D9State;
use crate::display::DisplayMetrics;
use crate::dll_state;
use crate::dll_state::{DllId, DllStateMap, SlotState};
use crate::font::FontEngine;
use crate::input::KEY_DOWN;
use crate::kernel::{ActiveThread, KernelState, ThreadState};
use crate::present::{KeyWrite, MessageQueue, MirrorWindow, PresentState};
use crate::process;
use crate::process::{FileIoState, GuestHeap, HeapState, ModuleState, ProcessState, WinApiEnvironment};
use crate::registry::RegistryState;
use crate::subsystems::{
    ConsoleState, Crypt32State, DragDropState, GdiState, OleState, PthreadState, WinhttpState,
    WininetState, Ws2State,
};
use crate::window::{WindowRecord, WindowState};
use crate::winmm;
use crate::winmm::{DueTimer, WinmmState};

verus! {

/// Fake VA for the pthread return trampoline.
pub const PTHREAD_RETURN_TRAMPOLINE_VA: u64 = 0x7000_0000_0000_FF00;

/// Return the fake VA for the pthread return trampoline.
pub fn pthread_return_trampoline_va() -> (va: u64)
    ensures
        va == 0x7000_0000_0000_FF00,
{
    PTHREAD_RETURN_TRAMPOLINE_VA
}

/// Everything that WinAPI handlers share. `F` is the import resolver's callback.
pub struct WinApiState<F> {
    /// Heap and FLS state.
    pub heap_state: HeapState,
    /// File I/O, virtual file system and console stdin state.
    pub file_io: FileIoState,
    /// DLL loading and export resolution cache.
    pub module_state: ModuleState<F>,
    /// Process-level state (error, registry, identity).
    pub process: ProcessState,
    /// Guest-visible primary display dimensions.
    pub display: DisplayMetrics,
    /// Kernel execution state (threading, synchronisation, SEH).
    pub kernel: KernelState,
    /// On-demand state of the emulated DLLs.
    pub dll_states: DllStateMap,
    /// Guest message queue.
    pub message_queue: MessageQueue,
}

impl<F> WinApiState<F> {
    /// Everything but the DLL slots equals `other`'s.
    pub open spec fn same_besides_dlls(&self, other: Self) -> bool {
        &&& self.heap_state == other.heap_state
        &&& self.file_io == other.file_io
        &&& self.module_state == other.module_state
        &&& self.process == other.process
        &&& self.display == other.display
        &&& self.kernel == other.kernel
        &&& self.message_queue == other.message_queue
    }

    /// The state with one last-error value for the active thread and the process.
    pub open spec fn with_last_error(self, value: u32) -> Self {
        WinApiState {
            process: ProcessState { last_error: value, ..self.process },
            kernel: KernelState {
                threads: ThreadState {
                    active: ActiveThread { last_error: value, ..self.kernel.threads.active },
                },
                ..self.kernel
            },
            ..self
        }
    }

    /// The state with the message queue wired to the kernel's wake hub.
    pub open spec fn with_wake_hub_wired(self) -> Self {
        WinApiState {
            message_queue: MessageQueue { wake: self.kernel.sync.wake_hub, ..self.message_queue },
            ..self
        }
    }

    /// Whether the window state changed since it was last mirrored.
    pub open spec fn mirror_dirty(self) -> bool {
        self.dll_states.state::<WindowState>(DllId::Window) matches Some(ws)
            && ws.window_mirror_rev != ws.window_mirror_synced_rev
    }

    /// Whether `after` is this state with the window state mirrored: the channel
    /// holds its projection, the mirrored revision is the current one, and nothing
    /// else changed.
    pub open spec fn mirror_synced(self, after: Self) -> bool {
        let before = self.dll_states.state::<WindowState>(DllId::Window)->0;
        &&& after.same_besides_dlls(self)
        &&& exists|present: PresentState, synced: PresentState|
            {
                &&& #[trigger] self.dll_states.reached(DllId::Present, present)
                &&& synced.channel.mirror.windows@ == before.windows@.map_values(
                    |w: WindowRecord| MirrorWindow::of(w),
                )
                &&& synced.channel.mirror.focus == before.focus_window_handle
                &&& synced.channel.mirror.capture == before.capture_window_handle
                &&& synced.channel.mirror.menu_dirty == before.menu_dirty
                &&& synced.channel.key_writes == present.channel.key_writes
                &&& synced.message_box_bridge == present.message_box_bridge
                &&& after.dll_states@ == (#[trigger] self.dll_states.with_state(DllId::Present, synced)).update(
                    dll_state::slot_index(DllId::Window),
                    Some(
                        (WindowState {
                            window_mirror_synced_rev: before.window_mirror_rev,
                            ..before
                        }).inject(),
                    ),
                )
            }
    }

    /// Whether the window mirror can be brought up to date: where it is dirty, the
    /// presenter slot is empty or holds the presenter state.
    pub open spec fn can_settle(self) -> bool {
        self.mirror_dirty() ==> self.dll_states.accepts::<PresentState>(DllId::Present)
    }

    /// Whether `after` is this state with the window mirror up to date.
    pub open spec fn settled(self, after: Self) -> bool {
        if self.mirror_dirty() {
            self.mirror_synced(after)
        } else {
            after == self
        }
    }

    /// Whether `after` is this state with the pending key events moved into the
    /// keyboard state. The window state is only touched when there are any.
    pub open spec fn keys_drained(self, after: Self) -> bool {
        exists|present: PresentState, drained: PresentState|
            {
                &&& #[trigger] self.dll_states.reached(DllId::Present, present)
                &&& drained.channel.mirror == present.channel.mirror
                &&& drained.channel.key_writes@ == Seq::<KeyWrite>::empty()
                &&& drained.message_box_bridge == present.message_box_bridge
                &&& if present.channel.key_writes@.len() == 0 {
                    after.dll_states@ == #[trigger] self.dll_states.with_state(DllId::Present, drained)
                } else {
                    exists|ws: WindowState, updated: WindowState|
                        {
                            &&& #[trigger] self.dll_states.reached(DllId::Window, ws)
                            &&& updated == (WindowState { keyboard_state: updated.keyboard_state, ..ws })
                            &&& updated.keyboard_state@ == apply_key_writes(
                                ws.keyboard_state@,
                                present.channel.key_writes@,
                            )
                            &&& after.dll_states@ == self.dll_states.with_state(DllId::Present, drained).update(
                                dll_state::slot_index(DllId::Window),
                                Some(#[trigger] updated.inject()),
                            )
                        }
                }
            }
    }

    /// Whether `font` is this state's font engine and `state` is this state with a
    /// fresh one in its place.
    pub open spec fn font_taken(self, state: Self, font: FontEngine) -> bool {
        &&& state.same_besides_dlls(self)
        &&& exists|gdi: GdiState, taken: GdiState|
            {
                &&& #[trigger] self.dll_states.reached(DllId::Gdi, gdi)
                &&& gdi.font_engine == font
                &&& taken.font_engine.is_initial()
                &&& taken.fonts == gdi.fonts
                &&& state.dll_states@ == #[trigger] self.dll_states.with_state(DllId::Gdi, taken)
            }
    }

    /// Whether `after` is this state with a font engine put in place.
    pub open spec fn font_put_back(self, font: FontEngine, after: Self) -> bool {
        &&& after.same_besides_dlls(self)
        &&& exists|gdi: GdiState|
            {
                &&& #[trigger] self.dll_states.reached(DllId::Gdi, gdi)
                &&& after.dll_states@ == self.dll_states.with_state(DllId::Gdi, GdiState { font_engine: font, ..gdi })
            }
    }

    /// Console state. Created on the first call.
    pub fn console(&mut self) -> (state: &mut ConsoleState)
        requires
            old(self).dll_states.accepts::<ConsoleState>(DllId::Console),
        ensures
            old(self).dll_states.reached(DllId::Console, *state),
            final(self).dll_states@ == old(self).dll_states.with_state(DllId::Console, *final(state)),
            final(self).same_besides_dlls(*old(self)),
    {
        self.dll_states.get_or_init::<ConsoleState>(DllId::Console)
    }

    /// Window state (windows, focus and capture, keyboard). Created on the first call.
    pub fn window_state(&mut self) -> (state: &mut WindowState)
        requires
            old(self).dll_states.accepts::<WindowState>(DllId::Window),
        ensures
            old(self).dll_states.reached(DllId::Window, *state),
            final(self).dll_states@ == old(self).dll_states.with_state(DllId::Window, *final(state)),
            final(self).same_besides_dlls(*old(self)),
    {
        self.dll_states.get_or_init::<WindowState>(DllId::Window)
    }

    /// Direct3D 9 state (devices, textures, surfaces). Created on the first call.
    pub fn d3d9(&mut self) -> (state: &mut D3D9State)
        requires
            old(self).dll_states.accepts::<D3D9State>(DllId::D3D9),
        ensures
            old(self).dll_states.reached(DllId::D3D9, *state),
            final(self).dll_states@ == old(self).dll_states.with_state(DllId::D3D9, *final(state)),
            final(self).same_besides_dlls(*old(self)),
    {
        self.dll_states.get_or_init::<D3D9State>(DllId::D3D9)
    }

    /// Pthread state (condition variables, wait queues). Created on the first call.
    pub fn pthread(&mut self) -> (state: &mut PthreadState)
        requires
            old(self).dll_states.accepts::<PthreadState>(DllId::Pthread),
        ensures
            old(self).dll_states.reached(DllId::Pthread, *state),
            final(self).dll_states@ == old(self).dll_states.with_state(DllId::Pthread, *final(state)),
            final(self).same_besides_dlls(*old(self)),
    {
        self.dll_states.get_or_init::<PthreadState>(DllId::Pthread)
    }

    /// GDI state. Created on the first call.
    pub fn gdi_state(&mut self) -> (state: &mut GdiState)
        requires
            old(self).dll_states.accepts::<GdiState>(DllId::Gdi),
        ensures
            old(self).dll_states.reached(DllId::Gdi, *state),
            final(self).dll_states@ == old(self).dll_states.with_state(DllId::Gdi, *final(state)),
            final(self).same_besides_dlls(*old(self)),
    {
        self.dll_states.get_or_init::<GdiState>(DllId::Gdi)
    }

    /// Presenter state. Created on the first call.
    pub fn present(&mut self) -> (state: &mut PresentState)
        requires
            old(self).dll_states.accepts::<PresentState>(DllId::Present),
        ensures
            old(self).dll_states.reached(DllId::Present, *state),
            final(self).dll_states@ == old(self).dll_states.with_state(DllId::Present, *final(state)),
            final(self).same_besides_dlls(*old(self)),
    {
        self.dll_states.get_or_init::<PresentState>(DllId::Present)
    }

    /// The process clipboard (`CF_TEXT` only). Created on the first call.
    pub fn clipboard(&mut self) -> (state: &mut ClipboardState)
        requires
            old(self).dll_states.accepts::<ClipboardState>(DllId::Clipboard),
        ensures
            old(self).dll_states.reached(DllId::Clipboard, *state),
            final(self).dll_states@ == old(self).dll_states.with_state(DllId::Clipboard, *final(state)),
            final(self).same_besides_dlls(*old(self)),
    {
        self.dll_states.get_or_init::<ClipboardState>(DllId::Clipboard)
    }

    /// The registry hive. Created on the first call.
    pub fn registry(&mut self) -> (state: &mut RegistryState)
        requires
            old(self).dll_states.accepts::<RegistryState>(DllId::Registry),
        ensures
            old(self).dll_states.reached(DllId::Registry, *state),
            final(self).dll_states@ == old(self).dll_states.with_state(DllId::Registry, *final(state)),
            final(self).same_besides_dlls(*old(self)),
    {
        self.dll_states.get_or_init::<RegistryState>(DllId::Registry)
    }

    /// The shell drag-drop list (`WM_DROPFILES`). Created on the first call.
    pub fn drag_drop(&mut self) -> (state: &mut DragDropState)
        requires
            old(self).dll_states.accepts::<DragDropState>(DllId::DragDrop),
        ensures
            old(self).dll_states.reached(DllId::DragDrop, *state),
            final(self).dll_states@ == old(self).dll_states.with_state(DllId::DragDrop, *final(state)),
            final(self).same_besides_dlls(*old(self)),
    {
        self.dll_states.get_or_init::<DragDropState>(DllId::DragDrop)
    }

    /// The Winsock socket table. Created on the first call.
    pub fn ws2(&mut self) -> (state: &mut Ws2State)
        requires
            old(self).dll_states.accepts::<Ws2State>(DllId::Ws2),
        ensures
            old(self).dll_states.reached(DllId::Ws2, *state),
            final(self).dll_states@ == old(self).dll_states.with_state(DllId::Ws2, *final(state)),
            final(self).same_besides_dlls(*old(self)),
    {
        self.dll_states.get_or_init::<Ws2State>(DllId::Ws2)
    }

    /// The crypto handle tables. Created on the first call.
    pub fn crypt32(&mut self) -> (state: &mut Crypt32State)
        requires
            old(self).dll_states.accepts::<Crypt32State>(DllId::Crypt32),
        ensures
            old(self).dll_states.reached(DllId::Crypt32, *state),
            final(self).dll_states@ == old(self).dll_states.with_state(DllId::Crypt32, *final(state)),
            final(self).same_besides_dlls(*old(self)),
    {
        self.dll_states.get_or_init::<Crypt32State>(DllId::Crypt32)
    }

    /// The COM class-registration table. Created on the first call.
    pub fn ole32(&mut self) -> (state: &mut OleState)
        requires
            old(self).dll_states.accepts::<OleState>(DllId::Ole32),
        ensures
            old(self).dll_states.reached(DllId::Ole32, *state),
            final(self).dll_states@ == old(self).dll_states.with_state(DllId::Ole32, *final(state)),
            final(self).same_besides_dlls(*old(self)),
    {
        self.dll_states.get_or_init::<OleState>(DllId::Ole32)
    }

    /// The WINMM timer and audio handle tables. Created on the first call.
    pub fn winmm(&mut self) -> (state: &mut WinmmState)
        requires
            old(self).dll_states.accepts::<WinmmState>(DllId::Winmm),
        ensures
            old(self).dll_states.reached(DllId::Winmm, *state),
            final(self).dll_states@ == old(self).dll_states.with_state(DllId::Winmm, *final(state)),
            final(self).same_besides_dlls(*old(self)),
    {
        self.dll_states.get_or_init::<WinmmState>(DllId::Winmm)
    }

    /// The Internet and HTTP handle tables. Created on the first call.
    pub fn wininet(&mut self) -> (state: &mut WininetState)
        requires
            old(self).dll_states.accepts::<WininetState>(DllId::Wininet),
        ensures
            old(self).dll_states.reached(DllId::Wininet, *state),
            final(self).dll_states@ == old(self).dll_states.with_state(DllId::Wininet, *final(state)),
            final(self).same_besides_dlls(*old(self)),
    {
        self.dll_states.get_or_init::<WininetState>(DllId::Wininet)
    }

    /// The WinHTTP handle table. Created on the first call.
    pub fn winhttp(&mut self) -> (state: &mut WinhttpState)
        requires
            old(self).dll_states.accepts::<WinhttpState>(DllId::Winhttp),
        ensures
            old(self).dll_states.reached(DllId::Winhttp, *state),
            final(self).dll_states@ == old(self).dll_states.with_state(DllId::Winhttp, *final(state)),
            final(self).same_besides_dlls(*old(self)),
    {
        self.dll_states.get_or_init::<WinhttpState>(DllId::Winhttp)
    }

    /// Read-only access: `None` if the state was never created.
    pub fn try_console(&self) -> (state: Option<&ConsoleState>)
        ensures
            match state {
                Some(s) => self.dll_states.state::<ConsoleState>(DllId::Console) == Some(*s),
                None => self.dll_states.state::<ConsoleState>(DllId::Console) is None,
            },
    {
        self.dll_states.get::<ConsoleState>(DllId::Console)
    }

    /// Read-only access: `None` if the state was never created.
    pub fn try_window_state(&self) -> (state: Option<&WindowState>)
        ensures
            match state {
                Some(s) => self.dll_states.state::<WindowState>(DllId::Window) == Some(*s),
                None => self.dll_states.state::<WindowState>(DllId::Window) is None,
            },
    {
        self.dll_states.get::<WindowState>(DllId::Window)
    }

    /// Read-only access: `None` if the state was never created.
    pub fn try_d3d9(&self) -> (state: Option<&D3D9State>)
        ensures
            match state {
                Some(s) => self.dll_states.state::<D3D9State>(DllId::D3D9) == Some(*s),
                None => self.dll_states.state::<D3D9State>(DllId::D3D9) is None,
            },
    {
        self.dll_states.get::<D3D9State>(DllId::D3D9)
    }

    /// Read-only access: `None` if the state was never created.
    pub fn try_pthread(&self) -> (state: Option<&PthreadState>)
        ensures
            match state {
                Some(s) => self.dll_states.state::<PthreadState>(DllId::Pthread) == Some(*s),
                None => self.dll_states.state::<PthreadState>(DllId::Pthread) is None,
            },
    {
        self.dll_states.get::<PthreadState>(DllId::Pthread)
    }

    /// Read-only access: `None` if the state was never created.
    pub fn try_gdi_state(&self) -> (state: Option<&GdiState>)
        ensures
            match state {
                Some(s) => self.dll_states.state::<GdiState>(DllId::Gdi) == Some(*s),
                None => self.dll_states.state::<GdiState>(DllId::Gdi) is None,
            },
    {
        self.dll_states.get::<GdiState>(DllId::Gdi)
    }

    /// Read-only access: `None` if the state was never created.
    pub fn try_present(&self) -> (state: Option<&PresentState>)
        ensures
            match state {
                Some(s) => self.dll_states.state::<PresentState>(DllId::Present) == Some(*s),
                None => self.dll_states.state::<PresentState>(DllId::Present) is None,
            },
    {
        self.dll_states.get::<PresentState>(DllId::Present)
    }

    /// Read-only access: `None` if the state was never created.
    pub fn winmm_ref(&self) -> (state: Option<&WinmmState>)
        ensures
            match state {
                Some(s) => self.dll_states.state::<WinmmState>(DllId::Winmm) == Some(*s),
                None => self.dll_states.state::<WinmmState>(DllId::Winmm) is None,
            },
    {
        self.dll_states.get::<WinmmState>(DllId::Winmm)
    }

    /// Mutable access without creation: `None` if the state was never created.
    pub fn try_window_state_mut(&mut self) -> (state: Option<&mut WindowState>)
        ensures
            final(self).same_besides_dlls(*old(self)),
            match state {
                Some(s) => {
                    &&& old(self).dll_states.state::<WindowState>(DllId::Window) == Some(*s)
                    &&& final(self).dll_states@ == old(self).dll_states.with_state(DllId::Window, *final(s))
                },
                None => {
                    &&& old(self).dll_states.state::<WindowState>(DllId::Window) is None
                    &&& final(self).dll_states@ == old(self).dll_states@
                },
            },
    {
        self.dll_states.get_mut::<WindowState>(DllId::Window)
    }

    /// Absorb the last-error slot of the active engine's TEB (GS-relative) into the
    /// active thread's slot and the process-wide alias. Best effort: where the TEB
    /// page is not mapped, nothing changes.
    pub fn absorb_guest_last_error(&mut self, engine: &GuestCpu)
        requires
            engine.gs_base + TEB_LAST_ERROR_OFFSET <= u64::MAX,
        ensures
            cpu::mapped(engine.memory(), engine.gs_base + TEB_LAST_ERROR_OFFSET, 4) ==> {
                let value = cpu::le_value(cpu::load(engine.memory(), engine.gs_base + TEB_LAST_ERROR_OFFSET, 4)) as u32;
                *final(self) == old(self).with_last_error(value)
            },
            !cpu::mapped(engine.memory(), engine.gs_base + TEB_LAST_ERROR_OFFSET, 4) ==> *final(self) == *old(self),
    {
        if let Ok(value) = engine.read_u32(engine.gs_base + TEB_LAST_ERROR_OFFSET) {
            self.kernel.threads.active.last_error = value;
            self.process.last_error = value;
        }
    }

    /// Fold the process-wide last-error alias into the active thread's slot, then
    /// write it into the TEB that the active engine is bound to. Best effort: where
    /// the TEB page is not mapped, guest memory stays as it is.
    pub fn publish_last_error_to_guest(&mut self, engine: &mut GuestCpu)
        requires
            old(engine).gs_base + TEB_LAST_ERROR_OFFSET <= u64::MAX,
        ensures
            *final(self) == old(self).with_last_error(old(self).process.last_error),
            final(engine).same_registers(old(engine)),
            final(engine).memory() == if cpu::mapped(
                old(engine).memory(),
                old(engine).gs_base + TEB_LAST_ERROR_OFFSET,
                4,
            ) {
                cpu::store(
                    old(engine).memory(),
                    old(engine).gs_base + TEB_LAST_ERROR_OFFSET,
                    cpu::le_bytes(old(self).process.last_error as nat, 4),
                )
            } else {
                old(engine).memory()
            },
    {
        self.kernel.threads.active.last_error = self.process.last_error;
        let _ = engine.write_u32(engine.gs_base + TEB_LAST_ERROR_OFFSET, self.process.last_error);
    }

    /// Take the buffered console output of the frame that ends: the bytes are to be
    /// written to the host terminal.
    pub fn flush_console(&mut self) -> (bytes: Vec<u8>)
        requires
            old(self).dll_states.accepts::<ConsoleState>(DllId::Console),
        ensures
            bytes@ == match old(self).dll_states.state::<ConsoleState>(DllId::Console) {
                Some(console) => console.stream_output@,
                None => Seq::empty(),
            },
            final(self).same_besides_dlls(*old(self)),
            final(self).dll_states.state::<ConsoleState>(DllId::Console) matches Some(console)
                && console.stream_output@ == Seq::<u8>::empty()
                && final(self).dll_states@ == old(self).dll_states.with_state(DllId::Console, console),
    {
        let bytes = self.console().flush_stream_output();
        proof {
            old(self).dll_states.lemma_len();
        }
        bytes
    }

    /// The guest message queue.
    pub fn lock_message_queue(&mut self) -> (queue: &mut MessageQueue)
        ensures
            *queue == old(self).message_queue,
            *final(self) == (WinApiState { message_queue: *final(queue), ..*old(self) }),
    {
        &mut self.message_queue
    }

    /// Point the message queue's wake hub at the kernel's, so that every later push
    /// wakes parked guest threads.
    pub fn wire_wake_hub(&mut self)
        ensures
            *final(self) == old(self).with_wake_hub_wired(),
    {
        let hub = self.kernel.sync.wake_hub;
        self.lock_message_queue().wake = hub;
    }

    /// Run `f` with the font engine taken out of the GDI state, and put the engine
    /// back when `f` returns, on whatever path.
    pub fn with_font_engine<T, G: FnOnce(&mut Self, &mut FontEngine) -> T>(&mut self, f: G) -> (result: T)
        requires
            old(self).dll_states.accepts::<GdiState>(DllId::Gdi),
            forall|state: &mut Self, font: &mut FontEngine|
                old(self).font_taken(*state, *font) ==> #[trigger] f.requires((state, font)),
            forall|state: &mut Self, font: &mut FontEngine, result: T|
                old(self).font_taken(*state, *font) && #[trigger] f.ensures((state, font), result)
                    ==> final(state).dll_states.accepts::<GdiState>(DllId::Gdi),
        ensures
            exists|state: &mut Self, font: &mut FontEngine|
                {
                    &&& old(self).font_taken(*state, *font)
                    &&& #[trigger] f.ensures((state, font), result)
                    &&& final(state).font_put_back(*final(font), *final(self))
                },
    {
        let mut font = FontEngine::default();
        let gdi = self.gdi_state();
        let ghost whole = *gdi;
        core::mem::swap(&mut font, &mut gdi.font_engine);
        let ghost taken = *gdi;
        proof {
            old(self).dll_states.lemma_len();
            assert(old(self).dll_states.reached(DllId::Gdi, whole));
            assert(self.dll_states@ == old(self).dll_states.with_state(DllId::Gdi, taken));
            assert(old(self).font_taken(*self, font));
        }
        let result = f(self, &mut font);
        let ghost between = *self;
        let gdi = self.gdi_state();
        let ghost left = *gdi;
        gdi.font_engine = font;
        assert(between.dll_states.reached(DllId::Gdi, left));
        result
    }

    /// Take the WINMM timers due at `now_tick`: one-shot timers are removed,
    /// periodic ones re-armed.
    pub fn pop_due_timers(&mut self, now_tick: u32) -> (due: Vec<DueTimer>)
        requires
            old(self).dll_states.accepts::<WinmmState>(DllId::Winmm),
        ensures
            final(self).same_besides_dlls(*old(self)),
            exists|before: WinmmState, after: WinmmState|
                {
                    &&& #[trigger] old(self).dll_states.reached(DllId::Winmm, before)
                    &&& final(self).dll_states@ == #[trigger] old(self).dll_states.with_state(DllId::Winmm, after)
                    &&& due@ == winmm::due_timers(before.timers@, now_tick as int)
                    &&& after.timers@ == winmm::after_firing(before.timers@, now_tick as int)
                    &&& after.period == before.period
                },
    {
        let winmm = self.winmm();
        let ghost before = *winmm;
        let due = winmm.pop_due_timers(now_tick);
        assert(old(self).dll_states.reached(DllId::Winmm, before));
        due
    }

    /// Take the next WINMM timer due at `now_tick`, if any.
    pub fn pop_next_due_timer(&mut self, now_tick: u32) -> (next: Option<DueTimer>)
        requires
            old(self).dll_states.accepts::<WinmmState>(DllId::Winmm),
        ensures
            final(self).same_besides_dlls(*old(self)),
            exists|before: WinmmState, after: WinmmState|
                {
                    &&& #[trigger] old(self).dll_states.reached(DllId::Winmm, before)
                    &&& final(self).dll_states@ == #[trigger] old(self).dll_states.with_state(DllId::Winmm, after)
                    &&& after.period == before.period
                    &&& winmm::fires_next(before.timers@, after.timers@, now_tick as int, next)
                },
    {
        let winmm = self.winmm();
        let ghost before = *winmm;
        let next = winmm.pop_next_due_timer(now_tick);
        assert(old(self).dll_states.reached(DllId::Winmm, before));
        next
    }

    /// Rebuild the presenter's window mirror, if the window state changed since it
    /// was last mirrored.
    pub fn sync_window_mirror_if_dirty(&mut self)
        requires
            old(self).can_settle(),
        ensures
            old(self).settled(*final(self)),
    {
        let dirty = match self.try_window_state() {
            Some(ws) => ws.window_mirror_rev != ws.window_mirror_synced_rev,
            None => false,
        };
        if dirty {
            self.sync_window_mirror();
        }
    }

    /// Rebuild the presenter's window mirror from the window state: per window what
    /// the host reads, focus, capture and the menu gate. Without window state there
    /// is nothing to mirror.
    pub fn sync_window_mirror(&mut self)
        requires
            old(self).dll_states.state::<WindowState>(DllId::Window) is Some
                ==> old(self).dll_states.accepts::<PresentState>(DllId::Present),
        ensures
            old(self).dll_states.state::<WindowState>(DllId::Window) is Some
                ==> old(self).mirror_synced(*final(self)),
            old(self).dll_states.state::<WindowState>(DllId::Window) is None
                ==> *final(self) == *old(self),
    {
        let ws = match self.try_window_state() {
            Some(ws) => ws,
            None => {
                return;
            },
        };
        let ghost before = *ws;
        let mut windows: Vec<MirrorWindow> = Vec::new();
        let mut i: usize = 0;
        while i < ws.windows.len()
            invariant
                i <= ws.windows@.len(),
                windows@ == ws.windows@.take(i as int).map_values(|w: WindowRecord| MirrorWindow::of(w)),
            decreases ws.windows@.len() - i,
        {
            windows.push(MirrorWindow::project(&ws.windows[i]));
            i = i + 1;
            assert(windows@ =~= ws.windows@.take(i as int).map_values(|w: WindowRecord| MirrorWindow::of(w)));
        }
        assert(ws.windows@.take(i as int) =~= ws.windows@);
        let focus = ws.focus_window_handle;
        let capture = ws.capture_window_handle;
        let menu_dirty = ws.menu_dirty;
        let synced_rev = ws.window_mirror_rev;
        proof {
            self.dll_states.lemma_len();
        }
        let present = self.present();
        let ghost present_before = *present;
        present.channel.sync_window_mirror(windows, focus, capture, menu_dirty);
        let ghost present_after = *present;
        if let Some(ws) = self.try_window_state_mut() {
            ws.window_mirror_synced_rev = synced_rev;
        }
        assert(old(self).dll_states.reached(DllId::Present, present_before));
        assert(self.dll_states.state::<PresentState>(DllId::Present) == Some(present_after));
    }

    /// Apply the host's pending key events to the guest keyboard state.
    pub fn drain_key_writes(&mut self)
        requires
            old(self).dll_states.accepts::<PresentState>(DllId::Present),
            old(self).dll_states.state::<PresentState>(DllId::Present) matches Some(present)
                && present.channel.key_writes@.len() > 0
                ==> old(self).dll_states.accepts::<WindowState>(DllId::Window),
        ensures
            final(self).same_besides_dlls(*old(self)),
            old(self).keys_drained(*final(self)),
    {
        let present = self.present();
        let ghost present_before = *present;
        let writes = present.channel.drain_key_writes();
        let ghost present_after = *present;
        proof {
            old(self).dll_states.lemma_len();
            assert(old(self).dll_states.reached(DllId::Present, present_before));
        }
        if writes.len() == 0 {
            assert(self.dll_states@ == old(self).dll_states.with_state(DllId::Present, present_after));
            return;
        }
        let ws = self.window_state();
        let ghost ws_before = *ws;
        let mut i: usize = 0;
        while i < writes.len()
            invariant
                i <= writes@.len(),
                ws.keyboard_state@ == apply_key_writes(ws_before.keyboard_state@, writes@.take(i as int)),
                *ws == (WindowState { keyboard_state: ws.keyboard_state, ..ws_before }),
            decreases writes@.len() - i,
        {
            let write = writes[i];
            let vk: usize = write.vk as usize;
            let key: u8 = ws.keyboard_state.get(vk);
            proof {
                ws.keyboard_state.lemma_len();
                assert(writes@.take(i + 1).drop_last() =~= writes@.take(i as int));
                assert(writes@.take(i + 1).last() == write);
            }
            if write.pressed {
                ws.keyboard_state.set(vk, key | KEY_DOWN);
            } else {
                ws.keyboard_state.set(vk, key & !KEY_DOWN);
            }
            i = i + 1;
        }
        assert(writes@.take(i as int) =~= writes@);
        assert(old(self).dll_states.reached(DllId::Window, ws_before));
    }
}

/// The keyboard state after host key events, oldest first: a press sets the
/// key-down bit, a release clears it, a key outside the array is ignored.
pub open spec fn apply_key_writes(keys: Seq<u8>, writes: Seq<KeyWrite>) -> Seq<u8>
    decreases writes.len(),
{
    if writes.len() == 0 {
        keys
    } else {
        let before = apply_key_writes(keys, writes.drop_last());
        let write = writes.last();
        if write.vk >= before.len() {
            before
        } else if write.pressed {
            before.update(write.vk as int, before[write.vk as int] | KEY_DOWN)
        } else {
            before.update(write.vk as int, before[write.vk as int] & !KEY_DOWN)
        }
    }
}

/// Key events never add or remove keys, and change nothing but the key-down bit.
pub proof fn key_writes_touch_only_the_down_bit(keys: Seq<u8>, writes: Seq<KeyWrite>, vk: int)
    requires
        0 <= vk < keys.len(),
    ensures
        apply_key_writes(keys, writes).len() == keys.len(),
        apply_key_writes(keys, writes)[vk] & !KEY_DOWN == keys[vk] & !KEY_DOWN,
    decreases writes.len(),
{
    if writes.len() > 0 {
        key_writes_touch_only_the_down_bit(keys, writes.drop_last(), vk);
        let key: u8 = apply_key_writes(keys, writes.drop_last())[vk];
        assert((key | 0x80u8) & !0x80u8 == key & !0x80u8 && (key & !0x80u8) & !0x80u8 == key & !0x80u8)
            by (bit_vector);
    }
}

/// The last event of a key decides whether the key is down; a key without an event
/// stays as it was.
pub proof fn last_key_write_decides(keys: Seq<u8>, writes: Seq<KeyWrite>, vk: int, last: int)
    requires
        0 <= vk < keys.len(),
        -1 <= last < writes.len(),
        last >= 0 ==> writes[last].vk == vk,
        forall|j: int| last < j < writes.len() ==> (#[trigger] writes[j]).vk != vk,
    ensures
        last < 0 ==> apply_key_writes(keys, writes)[vk] == keys[vk],
        last >= 0 ==> (apply_key_writes(keys, writes)[vk] & KEY_DOWN != 0 <==> writes[last].pressed),
    decreases writes.len(),
{
    if writes.len() > 0 {
        let before = writes.drop_last();
        key_writes_touch_only_the_down_bit(keys, before, vk);
        let key: u8 = apply_key_writes(keys, before)[vk];
        if last == writes.len() - 1 {
            assert((key | 0x80u8) & 0x80u8 != 0 && (key & !0x80u8) & 0x80u8 == 0) by (bit_vector);
        } else {
            assert(writes.last().vk != vk);
            last_key_write_decides(keys, before, vk, last);
        }
    }
}

/// A published last-error value is the one that is absorbed again.
pub proof fn published_error_is_absorbed(memory: Map<int, u8>, address: int, value: u32)
    requires
        cpu::mapped(memory, address, 4),
    ensures
        ({
            let published = cpu::store(memory, address, cpu::le_bytes(value as nat, 4));
            cpu::mapped(published, address, 4) && cpu::le_value(cpu::load(published, address, 4)) == value
        }),
{
    assert(cpu::pow256(4) == 0x1_0000_0000) by {
        reveal_with_fuel(cpu::pow256, 5);
    }
    cpu::le_round_trip(value as nat, 4);
    let bytes = cpu::le_bytes(value as nat, 4);
    assert forall|a: int| address <= a < address + 4 implies #[trigger] memory.dom().contains(a) by {}
    let published = cpu::store(memory, address, bytes);
    assert(cpu::load(published, address, 4) =~= bytes) by {
        assert forall|i: int| 0 <= i < 4 implies published[address + i] == bytes[i] by {
            assert(memory.dom().contains(address + i));
        }
    }
}

/// Publishing a last-error value writes one thread's slot and no other: memory that
/// does not overlap it reads as before.
pub proof fn publishing_spares_other_slots(memory: Map<int, u8>, address: int, value: u32, other: int, len: nat)
    requires
        cpu::mapped(memory, address, 4),
        cpu::mapped(memory, other, len),
        other + len <= address || address + 4 <= other,
    ensures
        ({
            let published = cpu::store(memory, address, cpu::le_bytes(value as nat, 4));
            &&& cpu::mapped(published, other, len)
            &&& cpu::load(published, other, len) == cpu::load(memory, other, len)
        }),
{
    assert(cpu::pow256(4) == 0x1_0000_0000) by {
        reveal_with_fuel(cpu::pow256, 5);
    }
    cpu::le_round_trip(value as nat, 4);
    let published = cpu::store(memory, address, cpu::le_bytes(value as nat, 4));
    assert forall|i: int| 0 <= i < len implies #[trigger] published[other + i] == memory[other + i] by {
        assert(memory.dom().contains(other + i));
    }
    assert(cpu::load(published, other, len) =~= cpu::load(memory, other, len));
}

impl<F> WinApiState<F> {
    /// Wiring the wake hub twice is wiring it once, and every later push then wakes
    /// the kernel's hub.
    pub proof fn wiring_is_idempotent(self)
        ensures
            self.with_wake_hub_wired().message_queue.wake == self.kernel.sync.wake_hub,
            self.with_wake_hub_wired().message_queue.messages == self.message_queue.messages,
            self.with_wake_hub_wired().with_wake_hub_wired() == self.with_wake_hub_wired(),
    {
    }

    /// A mirrored window state is not dirty: a second rev-gated sync changes
    /// nothing.
    pub proof fn synced_mirror_is_clean(self, after: Self)
        requires
            self.dll_states.state::<WindowState>(DllId::Window) is Some,
            self.mirror_synced(after),
        ensures
            !after.mirror_dirty(),
            after.dll_states.state::<WindowState>(DllId::Window) is Some,
            self.dll_states.wf() ==> after.dll_states.wf(),
    {
        self.dll_states.lemma_len();
        after.dll_states.lemma_len();
        if self.dll_states.wf() {
            assert forall|id: DllId|
                match #[trigger] after.dll_states@[dll_state::slot_index(id)] {
                    Some(slot) => dll_state::home_of(slot) == id,
                    None => true,
                } by {
                dll_state::slots_round_trip(id, 0);
                assert(id == DllId::Window || id == DllId::Present || after.dll_states@[dll_state::slot_index(id)]
                    == self.dll_states@[dll_state::slot_index(id)]);
            }
        }
    }

    /// Draining the key events twice is draining them once: after it none is
    /// pending.
    pub proof fn drained_keys_are_gone(self, after: Self)
        requires
            self.keys_drained(after),
        ensures
            after.dll_states.state::<PresentState>(DllId::Present) matches Some(present)
                && present.channel.key_writes@ == Seq::<KeyWrite>::empty(),
            self.dll_states.wf() ==> after.dll_states.wf(),
    {
        self.dll_states.lemma_len();
        after.dll_states.lemma_len();
        if self.dll_states.wf() {
            assert forall|id: DllId|
                match #[trigger] after.dll_states@[dll_state::slot_index(id)] {
                    Some(slot) => dll_state::home_of(slot) == id,
                    None => true,
                } by {
                dll_state::slots_round_trip(id, 0);
                assert(id == DllId::Window || id == DllId::Present || after.dll_states@[dll_state::slot_index(id)]
                    == self.dll_states@[dll_state::slot_index(id)]);
            }
        }
    }
}

/// Whether a call returned `value` to the guest: the return address is popped and
/// the value is in RAX, unless the stack top cannot be read.
pub open spec fn call_returned(
    before: GuestCpu,
    after: GuestCpu,
    value: u64,
    result: Result<WinApiHandlerResult, MemoryFault>,
) -> bool {
    &&& result is Ok <==> cpu::mapped(before.memory(), before.rsp as int, 8)
    &&& match result {
        Ok(done) => {
            &&& done.return_address == cpu::le_value(cpu::load(before.memory(), before.rsp as int, 8))
            &&& done.return_value == value
            &&& before.returned(value, after)
        },
        Err(fault) => fault.address == before.rsp && after == before,
    }
}

/// Whether a handler left `memory` behind and returned `value` to the guest.
pub open spec fn answered(
    before: GuestCpu,
    memory: Map<int, u8>,
    after: GuestCpu,
    value: u64,
    result: Result<WinApiHandlerResult, MemoryFault>,
) -> bool {
    exists|between: GuestCpu|
        {
            &&& #[trigger] between.same_registers(&before)
            &&& between.memory() == memory
            &&& call_returned(between, after, value, result)
        }
}

/// What a handler hands back to the dispatcher.
#[derive(Debug, Clone, Copy, PartialEq, Eq, Structural)]
pub struct WinApiHandlerResult {
    /// Guest address at which execution goes on.
    pub return_address: u64,
    /// Value in RAX.
    pub return_value: u64,
}

/// Everything a WinAPI handler may need.
pub struct HandlerContext<'a, F> {
    /// Registers and memory of the calling guest thread.
    pub engine: &'a mut GuestCpu,
    /// Session environment (image base, command line, heap handle).
    pub environment: WinApiEnvironment,
    /// Full emulator state.
    pub state: &'a mut WinApiState<F>,
    /// The session's heap, shared with the state.
    pub heap: Arc<GuestHeap>,
}

impl<'a, F> HandlerContext<'a, F> {
    /// Bundle the parts; the heap is the state's own.
    pub fn new(
        engine: &'a mut GuestCpu,
        environment: WinApiEnvironment,
        state: &'a mut WinApiState<F>,
    ) -> (context: Self)
        ensures
            *context.engine == *old(engine),
            *final(context.engine) == *final(engine),
            context.environment == environment,
            *context.state == *old(state),
            *final(context.state) == *final(state),
            context.heap == old(state).heap_state.heap,
    {
        let heap = process::share(&state.heap_state.heap);
        HandlerContext { engine, environment, state, heap }
    }

    /// Canonical handler tail: refresh the window mirror if a window changed, pop the
    /// guest return address, write `value` into RAX, and package the result. An
    /// unreadable stack top is the engine's fault, and the mirror is refreshed
    /// before it is found out.
    pub fn finish(&mut self, value: u64) -> (result: Result<WinApiHandlerResult, MemoryFault>)
        requires
            old(self).state.can_settle(),
        ensures
            final(self).environment == old(self).environment,
            final(self).heap == old(self).heap,
            *final(final(self).engine) == *final(old(self).engine),
            *final(final(self).state) == *final(old(self).state),
            old(self).state.settled(*final(self).state),
            call_returned(*old(self).engine, *final(self).engine, value, result),
    {
        self.state.sync_window_mirror_if_dirty();
        match self.engine.return_from_win64_api(value) {
            Ok(return_address) => Ok(WinApiHandlerResult { return_address, return_value: value }),
            Err(fault) => Err(fault),
        }
    }
}

} // verus!
