//! Host-side state of the smaller emulated DLLs.
use vstd::prelude::*;

use crate::font::FontEngine;
use crate::handles::Hfont;

verus! {

/// Console output that waits for the next frame boundary.
#[derive(Debug, Clone)]
pub struct ConsoleState {
    /// Buffered Stream-mode output.
    pub stream_output: Vec<u8>,
}

impl ConsoleState {
    /// The state before the first call into the DLL.
    pub open spec fn is_initial(&self) -> bool {
        self.stream_output@ == Seq::<u8>::empty()
    }
}

impl Default for ConsoleState {
    fn default() -> (state: Self)
        ensures
            state.is_initial(),
    {
        ConsoleState { stream_output: Vec::new() }
    }
}

impl ConsoleState {
    /// Take the buffered output for the host terminal, leaving the buffer empty.
    pub fn flush_stream_output(&mut self) -> (bytes: Vec<u8>)
        ensures
            bytes@ == old(self).stream_output@,
            final(self).stream_output@ == Seq::<u8>::empty(),
    {
        let mut bytes: Vec<u8> = Vec::new();
        core::mem::swap(&mut bytes, &mut self.stream_output);
        bytes
    }
}

/// Condition variables and their wait queues.
#[derive(Debug, Clone)]
pub struct PthreadState {
    /// Parked guest threads, in waiting order.
    pub waiters: Vec<u32>,
}

impl PthreadState {
    /// The state before the first call into the DLL.
    pub open spec fn is_initial(&self) -> bool {
        self.waiters@ == Seq::<u32>::empty()
    }
}

impl Default for PthreadState {
    fn default() -> (state: Self)
        ensures
            state.is_initial(),
    {
        PthreadState { waiters: Vec::new() }
    }
}

/// A font that the guest created.
#[derive(Debug, Clone)]
pub struct FontRecord {
    pub handle: Hfont,
    /// Its metrics, as the host font system reports them.
    pub metrics: FontEngine,
}

/// Device-context state.
#[derive(Debug, Clone)]
pub struct GdiState {
    /// Glyph metrics shared by painting, measuring and hit testing.
    pub font_engine: FontEngine,
    /// Fonts that the guest created.
    pub fonts: Vec<FontRecord>,
}

/// The first font from `from` on with a handle.
pub open spec fn font_from(fonts: Seq<FontRecord>, handle: Hfont, from: int) -> Option<int>
    decreases fonts.len() - from,
{
    if from < 0 || from >= fonts.len() {
        None
    } else if fonts[from].handle == handle {
        Some(from)
    } else {
        font_from(fonts, handle, from + 1)
    }
}

impl GdiState {
    /// The state before the first call into the DLL.
    pub open spec fn is_initial(&self) -> bool {
        self.font_engine.is_initial() && self.fonts@ == Seq::<FontRecord>::empty()
    }

    /// The font that a window measures and paints with: the one it was given, the
    /// default where it has none or an unknown one.
    pub open spec fn window_font(&self, handle: Hfont) -> FontEngine {
        match font_from(self.fonts@, handle, 0) {
            Some(i) => self.fonts@[i].metrics,
            None => self.font_engine,
        }
    }

    /// The font that a window measures and paints with.
    pub fn resolve_font(&self, handle: Hfont) -> (font: &FontEngine)
        ensures
            *font == self.window_font(handle),
    {
        let mut i: usize = 0;
        while i < self.fonts.len()
            invariant
                i <= self.fonts@.len(),
                font_from(self.fonts@, handle, i as int) == font_from(self.fonts@, handle, 0),
            decreases self.fonts@.len() - i,
        {
            if self.fonts[i].handle == handle {
                return &self.fonts[i].metrics;
            }
            i = i + 1;
        }
        &self.font_engine
    }
}

impl Default for GdiState {
    fn default() -> (state: Self)
        ensures
            state.is_initial(),
    {
        GdiState { font_engine: FontEngine::default(), fonts: Vec::new() }
    }
}

/// The list of files behind `WM_DROPFILES`.
#[derive(Debug, Clone)]
pub struct DragDropState {
    /// Dropped guest paths.
    pub paths: Vec<String>,
}

impl DragDropState {
    /// The state before the first call into the DLL.
    pub open spec fn is_initial(&self) -> bool {
        self.paths@ == Seq::<String>::empty()
    }
}

impl Default for DragDropState {
    fn default() -> (state: Self)
        ensures
            state.is_initial(),
    {
        DragDropState { paths: Vec::new() }
    }
}

/// The Winsock socket table.
#[derive(Debug, Clone)]
pub struct Ws2State {
    /// Open guest `SOCKET` values.
    pub sockets: Vec<u64>,
}

impl Ws2State {
    /// The state before the first call into the DLL.
    pub open spec fn is_initial(&self) -> bool {
        self.sockets@ == Seq::<u64>::empty()
    }
}

impl Default for Ws2State {
    fn default() -> (state: Self)
        ensures
            state.is_initial(),
    {
        Ws2State { sockets: Vec::new() }
    }
}

/// Crypto provider and hash handles.
#[derive(Debug, Clone)]
pub struct Crypt32State {
    /// Open handles.
    pub handles: Vec<u64>,
}

impl Crypt32State {
    /// The state before the first call into the DLL.
    pub open spec fn is_initial(&self) -> bool {
        self.handles@ == Seq::<u64>::empty()
    }
}

impl Default for Crypt32State {
    fn default() -> (state: Self)
        ensures
            state.is_initial(),
    {
        Crypt32State { handles: Vec::new() }
    }
}

/// The COM class-registration table.
#[derive(Debug, Clone)]
pub struct OleState {
    /// Registered class-factory objects.
    pub class_factories: Vec<u64>,
}

impl OleState {
    /// The state before the first call into the DLL.
    pub open spec fn is_initial(&self) -> bool {
        self.class_factories@ == Seq::<u64>::empty()
    }
}

impl Default for OleState {
    fn default() -> (state: Self)
        ensures
            state.is_initial(),
    {
        OleState { class_factories: Vec::new() }
    }
}

/// Internet and HTTP handles.
#[derive(Debug, Clone)]
pub struct WininetState {
    /// Open `HINTERNET` handles.
    pub sessions: Vec<u64>,
}

impl WininetState {
    /// The state before the first call into the DLL.
    pub open spec fn is_initial(&self) -> bool {
        self.sessions@ == Seq::<u64>::empty()
    }
}

impl Default for WininetState {
    fn default() -> (state: Self)
        ensures
            state.is_initial(),
    {
        WininetState { sessions: Vec::new() }
    }
}

/// WinHTTP handles.
#[derive(Debug, Clone)]
pub struct WinhttpState {
    /// Open handles.
    pub handles: Vec<u64>,
}

impl WinhttpState {
    /// The state before the first call into the DLL.
    pub open spec fn is_initial(&self) -> bool {
        self.handles@ == Seq::<u64>::empty()
    }
}

impl Default for WinhttpState {
    fn default() -> (state: Self)
        ensures
            state.is_initial(),
    {
        WinhttpState { handles: Vec::new() }
    }
}

} // verus!
