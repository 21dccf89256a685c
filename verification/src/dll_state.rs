//! Lazily created per-DLL state.
use vstd::prelude::*;

use crate::clipboard::ClipboardState;
use crate::d3d9::D3D9State;
use crate::present::PresentState;
use crate::registry::RegistryState;
use crate::subsystems::{
    ConsoleState, Crypt32State, DragDropState, GdiState, OleState, PthreadState, WinhttpState,
    WininetState, Ws2State,
};
use crate::window::WindowState;
use crate::winmm::WinmmState;

verus! {

/// Identifies a slot in [`DllStateMap`]: one variant per emulated DLL that
/// carries host-side state.
#[derive(Debug, Clone, Copy, PartialEq, Eq, Structural)]
pub enum DllId {
    /// Console streams.
    Console,
    /// Windows, focus and keyboard.
    Window,
    /// Direct3D 9 devices.
    D3D9,
    /// Condition variables.
    Pthread,
    /// Device contexts.
    Gdi,
    /// The presenter channel.
    Present,
    /// The process clipboard (`CF_TEXT` only).
    Clipboard,
    /// The host-side registry hive.
    Registry,
    /// The shell drag-drop list behind `WM_DROPFILES`.
    DragDrop,
    /// Winsock socket table (`WS2_32.dll`).
    Ws2,
    /// Crypto provider and hash handles (`CRYPT32.dll`).
    Crypt32,
    /// COM class registration table (`OLE32.dll`).
    Ole32,
    /// Timer and audio handle tables (`WINMM.dll`).
    Winmm,
    /// Internet and HTTP handle tables (`WININET.dll`).
    Wininet,
    /// WinHTTP handle table (`WINHTTP.dll`).
    Winhttp,
}

impl DllId {
    /// Number of variants, which is the number of slots.
    pub const COUNT: usize = 15;

    /// The variants in declaration order.
    pub open spec fn variants() -> Seq<DllId> {
        seq![
            DllId::Console,
            DllId::Window,
            DllId::D3D9,
            DllId::Pthread,
            DllId::Gdi,
            DllId::Present,
            DllId::Clipboard,
            DllId::Registry,
            DllId::DragDrop,
            DllId::Ws2,
            DllId::Crypt32,
            DllId::Ole32,
            DllId::Winmm,
            DllId::Wininet,
            DllId::Winhttp,
        ]
    }

    /// The variants in declaration order, which is slot order.
    pub fn all() -> (ids: [DllId; 15])
        ensures
            ids@ == DllId::variants(),
    {
        [
            DllId::Console,
            DllId::Window,
            DllId::D3D9,
            DllId::Pthread,
            DllId::Gdi,
            DllId::Present,
            DllId::Clipboard,
            DllId::Registry,
            DllId::DragDrop,
            DllId::Ws2,
            DllId::Crypt32,
            DllId::Ole32,
            DllId::Winmm,
            DllId::Wininet,
            DllId::Winhttp,
        ]
    }
}

/// Slot index of a DLL.
pub open spec fn slot_index(id: DllId) -> int {
    match id {
        DllId::Console => 0,
        DllId::Window => 1,
        DllId::D3D9 => 2,
        DllId::Pthread => 3,
        DllId::Gdi => 4,
        DllId::Present => 5,
        DllId::Clipboard => 6,
        DllId::Registry => 7,
        DllId::DragDrop => 8,
        DllId::Ws2 => 9,
        DllId::Crypt32 => 10,
        DllId::Ole32 => 11,
        DllId::Winmm => 12,
        DllId::Wininet => 13,
        DllId::Winhttp => 14,
    }
}

/// Debug label of a DLL's slot.
pub open spec fn slot_label(id: DllId) -> Seq<char> {
    match id {
        DllId::Console => "console"@,
        DllId::Window => "window"@,
        DllId::D3D9 => "d3d9"@,
        DllId::Pthread => "pthread"@,
        DllId::Gdi => "gdi"@,
        DllId::Present => "present"@,
        DllId::Clipboard => "clipboard"@,
        DllId::Registry => "registry"@,
        DllId::DragDrop => "dragdrop"@,
        DllId::Ws2 => "ws2"@,
        DllId::Crypt32 => "crypt32"@,
        DllId::Ole32 => "ole32"@,
        DllId::Winmm => "winmm"@,
        DllId::Wininet => "wininet"@,
        DllId::Winhttp => "winhttp"@,
    }
}

/// Map a DLL to its slot index and debug label.
pub fn dll_slot(id: DllId) -> (slot: (usize, &'static str))
    ensures
        slot.0 == slot_index(id),
        slot.0 < DllId::COUNT,
        slot.1@ == slot_label(id),
{
    match id {
        DllId::Console => (0, "console"),
        DllId::Window => (1, "window"),
        DllId::D3D9 => (2, "d3d9"),
        DllId::Pthread => (3, "pthread"),
        DllId::Gdi => (4, "gdi"),
        DllId::Present => (5, "present"),
        DllId::Clipboard => (6, "clipboard"),
        DllId::Registry => (7, "registry"),
        DllId::DragDrop => (8, "dragdrop"),
        DllId::Ws2 => (9, "ws2"),
        DllId::Crypt32 => (10, "crypt32"),
        DllId::Ole32 => (11, "ole32"),
        DllId::Winmm => (12, "winmm"),
        DllId::Wininet => (13, "wininet"),
        DllId::Winhttp => (14, "winhttp"),
    }
}

/// Slot order is declaration order: every DLL has a slot of its own, every slot
/// belongs to one DLL.
pub proof fn slots_round_trip(id: DllId, index: int)
    ensures
        0 <= slot_index(id) < DllId::COUNT,
        DllId::variants().len() == DllId::COUNT,
        DllId::variants()[slot_index(id)] == id,
        0 <= index < DllId::COUNT ==> slot_index(DllId::variants()[index]) == index,
{
}

/// No two DLLs share a debug label, and none is unlabelled.
#[verifier::rlimit(60)]
pub proof fn labels_are_distinct(a: DllId, b: DllId)
    ensures
        slot_label(a).len() > 0,
        slot_label(a) == slot_label(b) ==> a == b,
{
    reveal_strlit("console");
    reveal_strlit("window");
    reveal_strlit("d3d9");
    reveal_strlit("pthread");
    reveal_strlit("gdi");
    reveal_strlit("present");
    reveal_strlit("clipboard");
    reveal_strlit("registry");
    reveal_strlit("dragdrop");
    reveal_strlit("ws2");
    reveal_strlit("crypt32");
    reveal_strlit("ole32");
    reveal_strlit("winmm");
    reveal_strlit("wininet");
    reveal_strlit("winhttp");
    assert(slot_label(a) == slot_label(b) ==> slot_label(a).len() == slot_label(b).len()
        && slot_label(a)[0] == slot_label(b)[0] && slot_label(a)[1] == slot_label(b)[1]
        && slot_label(a)[slot_label(a).len() - 1] == slot_label(b)[slot_label(b).len() - 1]);
}

/// The state of one loaded DLL.
#[derive(Debug)]
pub enum DllState {
    Console(Box<ConsoleState>),
    Window(Box<WindowState>),
    D3D9(Box<D3D9State>),
    Pthread(Box<PthreadState>),
    Gdi(Box<GdiState>),
    Present(Box<PresentState>),
    Clipboard(Box<ClipboardState>),
    Registry(Box<RegistryState>),
    DragDrop(Box<DragDropState>),
    Ws2(Box<Ws2State>),
    Crypt32(Box<Crypt32State>),
    Ole32(Box<OleState>),
    Winmm(Box<WinmmState>),
    Wininet(Box<WininetState>),
    Winhttp(Box<WinhttpState>),
}

/// The DLL that a state belongs to.
pub open spec fn home_of(slot: DllState) -> DllId {
    match slot {
        DllState::Console(_) => DllId::Console,
        DllState::Window(_) => DllId::Window,
        DllState::D3D9(_) => DllId::D3D9,
        DllState::Pthread(_) => DllId::Pthread,
        DllState::Gdi(_) => DllId::Gdi,
        DllState::Present(_) => DllId::Present,
        DllState::Clipboard(_) => DllId::Clipboard,
        DllState::Registry(_) => DllId::Registry,
        DllState::DragDrop(_) => DllId::DragDrop,
        DllState::Ws2(_) => DllId::Ws2,
        DllState::Crypt32(_) => DllId::Crypt32,
        DllState::Ole32(_) => DllId::Ole32,
        DllState::Winmm(_) => DllId::Winmm,
        DllState::Wininet(_) => DllId::Wininet,
        DllState::Winhttp(_) => DllId::Winhttp,
    }
}

/// A type that can be stored in a slot.
pub trait SlotState: Sized {
    /// The value in a slot, if the slot holds this type.
    spec fn project(slot: DllState) -> Option<Self>;

    /// The slot that holds a value.
    spec fn inject(self) -> DllState;

    /// The DLL whose state the type is.
    spec fn home() -> DllId;

    /// The value of a slot on its first access.
    spec fn initial_state(self) -> bool;

    /// A slot gives back what was put in, and holds this type only if it was put
    /// in as such.
    proof fn slot_law(slot: DllState, state: Self)
        ensures
            Self::project(state.inject()) == Some(state),
            Self::project(slot) == Some(state) ==> slot == state.inject(),
            Self::project(slot) is Some <==> home_of(slot) == Self::home(),
    ;

    /// Create the value of a first access.
    fn initial() -> (state: Self)
        ensures
            state.initial_state(),
    ;

    /// Put a value in a slot.
    fn into_slot(self) -> (slot: DllState)
        ensures
            slot == self.inject(),
    ;

    /// Read the value in a slot.
    fn read_slot(slot: &DllState) -> (state: Option<&Self>)
        ensures
            match state {
                Some(s) => Self::project(*slot) == Some(*s),
                None => Self::project(*slot) is None,
            },
    ;

    /// Borrow the value in a slot.
    fn edit_slot(slot: &mut DllState) -> (state: Option<&mut Self>)
        ensures
            match state {
                Some(s) => Self::project(*old(slot)) == Some(*s) && *final(slot) == (*final(s)).inject(),
                None => Self::project(*old(slot)) is None && *final(slot) == *old(slot),
            },
    ;
}

impl SlotState for ConsoleState {
    open spec fn project(slot: DllState) -> Option<Self> {
        match slot {
            DllState::Console(state) => Some(*state),
            _ => None,
        }
    }

    open spec fn inject(self) -> DllState {
        DllState::Console(Box::new(self))
    }

    open spec fn home() -> DllId {
        DllId::Console
    }

    open spec fn initial_state(self) -> bool {
        self.is_initial()
    }

    proof fn slot_law(slot: DllState, state: Self) {
    }

    fn initial() -> (state: Self) {
        ConsoleState::default()
    }

    fn into_slot(self) -> (slot: DllState) {
        DllState::Console(Box::new(self))
    }

    fn read_slot(slot: &DllState) -> (state: Option<&Self>) {
        match slot {
            DllState::Console(state) => Some(&**state),
            _ => None,
        }
    }

    fn edit_slot(slot: &mut DllState) -> (state: Option<&mut Self>) {
        match slot {
            DllState::Console(state) => Some(&mut **state),
            _ => None,
        }
    }
}

impl SlotState for WindowState {
    open spec fn project(slot: DllState) -> Option<Self> {
        match slot {
            DllState::Window(state) => Some(*state),
            _ => None,
        }
    }

    open spec fn inject(self) -> DllState {
        DllState::Window(Box::new(self))
    }

    open spec fn home() -> DllId {
        DllId::Window
    }

    open spec fn initial_state(self) -> bool {
        self.is_initial()
    }

    proof fn slot_law(slot: DllState, state: Self) {
    }

    fn initial() -> (state: Self) {
        WindowState::default()
    }

    fn into_slot(self) -> (slot: DllState) {
        DllState::Window(Box::new(self))
    }

    fn read_slot(slot: &DllState) -> (state: Option<&Self>) {
        match slot {
            DllState::Window(state) => Some(&**state),
            _ => None,
        }
    }

    fn edit_slot(slot: &mut DllState) -> (state: Option<&mut Self>) {
        match slot {
            DllState::Window(state) => Some(&mut **state),
            _ => None,
        }
    }
}

impl SlotState for D3D9State {
    open spec fn project(slot: DllState) -> Option<Self> {
        match slot {
            DllState::D3D9(state) => Some(*state),
            _ => None,
        }
    }

    open spec fn inject(self) -> DllState {
        DllState::D3D9(Box::new(self))
    }

    open spec fn home() -> DllId {
        DllId::D3D9
    }

    open spec fn initial_state(self) -> bool {
        self.is_initial()
    }

    proof fn slot_law(slot: DllState, state: Self) {
    }

    fn initial() -> (state: Self) {
        D3D9State::default()
    }

    fn into_slot(self) -> (slot: DllState) {
        DllState::D3D9(Box::new(self))
    }

    fn read_slot(slot: &DllState) -> (state: Option<&Self>) {
        match slot {
            DllState::D3D9(state) => Some(&**state),
            _ => None,
        }
    }

    fn edit_slot(slot: &mut DllState) -> (state: Option<&mut Self>) {
        match slot {
            DllState::D3D9(state) => Some(&mut **state),
            _ => None,
        }
    }
}

impl SlotState for PthreadState {
    open spec fn project(slot: DllState) -> Option<Self> {
        match slot {
            DllState::Pthread(state) => Some(*state),
            _ => None,
        }
    }

    open spec fn inject(self) -> DllState {
        DllState::Pthread(Box::new(self))
    }

    open spec fn home() -> DllId {
        DllId::Pthread
    }

    open spec fn initial_state(self) -> bool {
        self.is_initial()
    }

    proof fn slot_law(slot: DllState, state: Self) {
    }

    fn initial() -> (state: Self) {
        PthreadState::default()
    }

    fn into_slot(self) -> (slot: DllState) {
        DllState::Pthread(Box::new(self))
    }

    fn read_slot(slot: &DllState) -> (state: Option<&Self>) {
        match slot {
            DllState::Pthread(state) => Some(&**state),
            _ => None,
        }
    }

    fn edit_slot(slot: &mut DllState) -> (state: Option<&mut Self>) {
        match slot {
            DllState::Pthread(state) => Some(&mut **state),
            _ => None,
        }
    }
}

impl SlotState for GdiState {
    open spec fn project(slot: DllState) -> Option<Self> {
        match slot {
            DllState::Gdi(state) => Some(*state),
            _ => None,
        }
    }

    open spec fn inject(self) -> DllState {
        DllState::Gdi(Box::new(self))
    }

    open spec fn home() -> DllId {
        DllId::Gdi
    }

    open spec fn initial_state(self) -> bool {
        self.is_initial()
    }

    proof fn slot_law(slot: DllState, state: Self) {
    }

    fn initial() -> (state: Self) {
        GdiState::default()
    }

    fn into_slot(self) -> (slot: DllState) {
        DllState::Gdi(Box::new(self))
    }

    fn read_slot(slot: &DllState) -> (state: Option<&Self>) {
        match slot {
            DllState::Gdi(state) => Some(&**state),
            _ => None,
        }
    }

    fn edit_slot(slot: &mut DllState) -> (state: Option<&mut Self>) {
        match slot {
            DllState::Gdi(state) => Some(&mut **state),
            _ => None,
        }
    }
}

impl SlotState for PresentState {
    open spec fn project(slot: DllState) -> Option<Self> {
        match slot {
            DllState::Present(state) => Some(*state),
            _ => None,
        }
    }

    open spec fn inject(self) -> DllState {
        DllState::Present(Box::new(self))
    }

    open spec fn home() -> DllId {
        DllId::Present
    }

    open spec fn initial_state(self) -> bool {
        self.is_initial()
    }

    proof fn slot_law(slot: DllState, state: Self) {
    }

    fn initial() -> (state: Self) {
        PresentState::default()
    }

    fn into_slot(self) -> (slot: DllState) {
        DllState::Present(Box::new(self))
    }

    fn read_slot(slot: &DllState) -> (state: Option<&Self>) {
        match slot {
            DllState::Present(state) => Some(&**state),
            _ => None,
        }
    }

    fn edit_slot(slot: &mut DllState) -> (state: Option<&mut Self>) {
        match slot {
            DllState::Present(state) => Some(&mut **state),
            _ => None,
        }
    }
}

impl SlotState for ClipboardState {
    open spec fn project(slot: DllState) -> Option<Self> {
        match slot {
            DllState::Clipboard(state) => Some(*state),
            _ => None,
        }
    }

    open spec fn inject(self) -> DllState {
        DllState::Clipboard(Box::new(self))
    }

    open spec fn home() -> DllId {
        DllId::Clipboard
    }

    open spec fn initial_state(self) -> bool {
        self.is_initial()
    }

    proof fn slot_law(slot: DllState, state: Self) {
    }

    fn initial() -> (state: Self) {
        ClipboardState::default()
    }

    fn into_slot(self) -> (slot: DllState) {
        DllState::Clipboard(Box::new(self))
    }

    fn read_slot(slot: &DllState) -> (state: Option<&Self>) {
        match slot {
            DllState::Clipboard(state) => Some(&**state),
            _ => None,
        }
    }

    fn edit_slot(slot: &mut DllState) -> (state: Option<&mut Self>) {
        match slot {
            DllState::Clipboard(state) => Some(&mut **state),
            _ => None,
        }
    }
}

impl SlotState for RegistryState {
    open spec fn project(slot: DllState) -> Option<Self> {
        match slot {
            DllState::Registry(state) => Some(*state),
            _ => None,
        }
    }

    open spec fn inject(self) -> DllState {
        DllState::Registry(Box::new(self))
    }

    open spec fn home() -> DllId {
        DllId::Registry
    }

    open spec fn initial_state(self) -> bool {
        self.is_initial()
    }

    proof fn slot_law(slot: DllState, state: Self) {
    }

    fn initial() -> (state: Self) {
        RegistryState::default()
    }

    fn into_slot(self) -> (slot: DllState) {
        DllState::Registry(Box::new(self))
    }

    fn read_slot(slot: &DllState) -> (state: Option<&Self>) {
        match slot {
            DllState::Registry(state) => Some(&**state),
            _ => None,
        }
    }

    fn edit_slot(slot: &mut DllState) -> (state: Option<&mut Self>) {
        match slot {
            DllState::Registry(state) => Some(&mut **state),
            _ => None,
        }
    }
}

impl SlotState for DragDropState {
    open spec fn project(slot: DllState) -> Option<Self> {
        match slot {
            DllState::DragDrop(state) => Some(*state),
            _ => None,
        }
    }

    open spec fn inject(self) -> DllState {
        DllState::DragDrop(Box::new(self))
    }

    open spec fn home() -> DllId {
        DllId::DragDrop
    }

    open spec fn initial_state(self) -> bool {
        self.is_initial()
    }

    proof fn slot_law(slot: DllState, state: Self) {
    }

    fn initial() -> (state: Self) {
        DragDropState::default()
    }

    fn into_slot(self) -> (slot: DllState) {
        DllState::DragDrop(Box::new(self))
    }

    fn read_slot(slot: &DllState) -> (state: Option<&Self>) {
        match slot {
            DllState::DragDrop(state) => Some(&**state),
            _ => None,
        }
    }

    fn edit_slot(slot: &mut DllState) -> (state: Option<&mut Self>) {
        match slot {
            DllState::DragDrop(state) => Some(&mut **state),
            _ => None,
        }
    }
}

impl SlotState for Ws2State {
    open spec fn project(slot: DllState) -> Option<Self> {
        match slot {
            DllState::Ws2(state) => Some(*state),
            _ => None,
        }
    }

    open spec fn inject(self) -> DllState {
        DllState::Ws2(Box::new(self))
    }

    open spec fn home() -> DllId {
        DllId::Ws2
    }

    open spec fn initial_state(self) -> bool {
        self.is_initial()
    }

    proof fn slot_law(slot: DllState, state: Self) {
    }

    fn initial() -> (state: Self) {
        Ws2State::default()
    }

    fn into_slot(self) -> (slot: DllState) {
        DllState::Ws2(Box::new(self))
    }

    fn read_slot(slot: &DllState) -> (state: Option<&Self>) {
        match slot {
            DllState::Ws2(state) => Some(&**state),
            _ => None,
        }
    }

    fn edit_slot(slot: &mut DllState) -> (state: Option<&mut Self>) {
        match slot {
            DllState::Ws2(state) => Some(&mut **state),
            _ => None,
        }
    }
}

impl SlotState for Crypt32State {
    open spec fn project(slot: DllState) -> Option<Self> {
        match slot {
            DllState::Crypt32(state) => Some(*state),
            _ => None,
        }
    }

    open spec fn inject(self) -> DllState {
        DllState::Crypt32(Box::new(self))
    }

    open spec fn home() -> DllId {
        DllId::Crypt32
    }

    open spec fn initial_state(self) -> bool {
        self.is_initial()
    }

    proof fn slot_law(slot: DllState, state: Self) {
    }

    fn initial() -> (state: Self) {
        Crypt32State::default()
    }

    fn into_slot(self) -> (slot: DllState) {
        DllState::Crypt32(Box::new(self))
    }

    fn read_slot(slot: &DllState) -> (state: Option<&Self>) {
        match slot {
            DllState::Crypt32(state) => Some(&**state),
            _ => None,
        }
    }

    fn edit_slot(slot: &mut DllState) -> (state: Option<&mut Self>) {
        match slot {
            DllState::Crypt32(state) => Some(&mut **state),
            _ => None,
        }
    }
}

impl SlotState for OleState {
    open spec fn project(slot: DllState) -> Option<Self> {
        match slot {
            DllState::Ole32(state) => Some(*state),
            _ => None,
        }
    }

    open spec fn inject(self) -> DllState {
        DllState::Ole32(Box::new(self))
    }

    open spec fn home() -> DllId {
        DllId::Ole32
    }

    open spec fn initial_state(self) -> bool {
        self.is_initial()
    }

    proof fn slot_law(slot: DllState, state: Self) {
    }

    fn initial() -> (state: Self) {
        OleState::default()
    }

    fn into_slot(self) -> (slot: DllState) {
        DllState::Ole32(Box::new(self))
    }

    fn read_slot(slot: &DllState) -> (state: Option<&Self>) {
        match slot {
            DllState::Ole32(state) => Some(&**state),
            _ => None,
        }
    }

    fn edit_slot(slot: &mut DllState) -> (state: Option<&mut Self>) {
        match slot {
            DllState::Ole32(state) => Some(&mut **state),
            _ => None,
        }
    }
}

impl SlotState for WinmmState {
    open spec fn project(slot: DllState) -> Option<Self> {
        match slot {
            DllState::Winmm(state) => Some(*state),
            _ => None,
        }
    }

    open spec fn inject(self) -> DllState {
        DllState::Winmm(Box::new(self))
    }

    open spec fn home() -> DllId {
        DllId::Winmm
    }

    open spec fn initial_state(self) -> bool {
        self.is_initial()
    }

    proof fn slot_law(slot: DllState, state: Self) {
    }

    fn initial() -> (state: Self) {
        WinmmState::default()
    }

    fn into_slot(self) -> (slot: DllState) {
        DllState::Winmm(Box::new(self))
    }

    fn read_slot(slot: &DllState) -> (state: Option<&Self>) {
        match slot {
            DllState::Winmm(state) => Some(&**state),
            _ => None,
        }
    }

    fn edit_slot(slot: &mut DllState) -> (state: Option<&mut Self>) {
        match slot {
            DllState::Winmm(state) => Some(&mut **state),
            _ => None,
        }
    }
}

impl SlotState for WininetState {
    open spec fn project(slot: DllState) -> Option<Self> {
        match slot {
            DllState::Wininet(state) => Some(*state),
            _ => None,
        }
    }

    open spec fn inject(self) -> DllState {
        DllState::Wininet(Box::new(self))
    }

    open spec fn home() -> DllId {
        DllId::Wininet
    }

    open spec fn initial_state(self) -> bool {
        self.is_initial()
    }

    proof fn slot_law(slot: DllState, state: Self) {
    }

    fn initial() -> (state: Self) {
        WininetState::default()
    }

    fn into_slot(self) -> (slot: DllState) {
        DllState::Wininet(Box::new(self))
    }

    fn read_slot(slot: &DllState) -> (state: Option<&Self>) {
        match slot {
            DllState::Wininet(state) => Some(&**state),
            _ => None,
        }
    }

    fn edit_slot(slot: &mut DllState) -> (state: Option<&mut Self>) {
        match slot {
            DllState::Wininet(state) => Some(&mut **state),
            _ => None,
        }
    }
}

impl SlotState for WinhttpState {
    open spec fn project(slot: DllState) -> Option<Self> {
        match slot {
            DllState::Winhttp(state) => Some(*state),
            _ => None,
        }
    }

    open spec fn inject(self) -> DllState {
        DllState::Winhttp(Box::new(self))
    }

    open spec fn home() -> DllId {
        DllId::Winhttp
    }

    open spec fn initial_state(self) -> bool {
        self.is_initial()
    }

    proof fn slot_law(slot: DllState, state: Self) {
    }

    fn initial() -> (state: Self) {
        WinhttpState::default()
    }

    fn into_slot(self) -> (slot: DllState) {
        DllState::Winhttp(Box::new(self))
    }

    fn read_slot(slot: &DllState) -> (state: Option<&Self>) {
        match slot {
            DllState::Winhttp(state) => Some(&**state),
            _ => None,
        }
    }

    fn edit_slot(slot: &mut DllState) -> (state: Option<&mut Self>) {
        match slot {
            DllState::Winhttp(state) => Some(&mut **state),
            _ => None,
        }
    }
}

/// The name of a DLL's variant.
pub open spec fn variant_name(id: DllId) -> Seq<char> {
    match id {
        DllId::Console => "Console"@,
        DllId::Window => "Window"@,
        DllId::D3D9 => "D3D9"@,
        DllId::Pthread => "Pthread"@,
        DllId::Gdi => "Gdi"@,
        DllId::Present => "Present"@,
        DllId::Clipboard => "Clipboard"@,
        DllId::Registry => "Registry"@,
        DllId::DragDrop => "DragDrop"@,
        DllId::Ws2 => "Ws2"@,
        DllId::Crypt32 => "Crypt32"@,
        DllId::Ole32 => "Ole32"@,
        DllId::Winmm => "Winmm"@,
        DllId::Wininet => "Wininet"@,
        DllId::Winhttp => "Winhttp"@,
    }
}

fn name_of(id: DllId) -> (name: &'static str)
    ensures
        name@ == variant_name(id),
{
    match id {
        DllId::Console => "Console",
        DllId::Window => "Window",
        DllId::D3D9 => "D3D9",
        DllId::Pthread => "Pthread",
        DllId::Gdi => "Gdi",
        DllId::Present => "Present",
        DllId::Clipboard => "Clipboard",
        DllId::Registry => "Registry",
        DllId::DragDrop => "DragDrop",
        DllId::Ws2 => "Ws2",
        DllId::Crypt32 => "Crypt32",
        DllId::Ole32 => "Ole32",
        DllId::Winmm => "Winmm",
        DllId::Wininet => "Wininet",
        DllId::Winhttp => "Winhttp",
    }
}

/// A decimal digit.
pub open spec fn digit(d: int) -> char {
    if d == 0 {
        '0'
    } else if d == 1 {
        '1'
    } else if d == 2 {
        '2'
    } else if d == 3 {
        '3'
    } else if d == 4 {
        '4'
    } else if d == 5 {
        '5'
    } else if d == 6 {
        '6'
    } else if d == 7 {
        '7'
    } else if d == 8 {
        '8'
    } else {
        '9'
    }
}

/// A number in decimal.
pub open spec fn decimal(n: nat) -> Seq<char>
    decreases n,
{
    if n < 10 {
        seq![digit(n as int)]
    } else {
        decimal(n / 10).push(digit(n as int % 10))
    }
}

fn push_decimal(text: &mut String, n: usize)
    ensures
        final(text)@ == old(text)@ + decimal(n as nat),
    decreases n,
{
    if n >= 10 {
        push_decimal(text, n / 10);
    }
    let d: usize = n % 10;
    let c: char = if d == 0 {
        '0'
    } else if d == 1 {
        '1'
    } else if d == 2 {
        '2'
    } else if d == 3 {
        '3'
    } else if d == 4 {
        '4'
    } else if d == 5 {
        '5'
    } else if d == 6 {
        '6'
    } else if d == 7 {
        '7'
    } else if d == 8 {
        '8'
    } else {
        '9'
    };
    text.push(c);
    assert(text@ =~= old(text)@ + decimal(n as nat));
}

/// A slot that holds another type than the one asked for.
#[derive(Debug, Clone, Copy, PartialEq, Eq, Structural)]
pub struct SlotTypeMismatch {
    /// The DLL whose slot it is.
    pub id: DllId,
}

impl SlotTypeMismatch {
    /// The mismatch in words: variant, label and slot.
    pub open spec fn description(self) -> Seq<char> {
        variant_name(self.id) + " ("@ + slot_label(self.id) + ") slot "@ + decimal(slot_index(self.id) as nat)
            + " holds a different state type"@
    }

    /// Say what is wrong.
    pub fn message(&self) -> (text: String)
        ensures
            text@ == self.description(),
    {
        let (index, label) = dll_slot(self.id);
        let mut text = name_of(self.id).to_owned();
        text.append(" (");
        text.append(label);
        text.append(") slot ");
        push_decimal(&mut text, index);
        text.append(" holds a different state type");
        text
    }
}

/// Lazy DLL state storage: a fixed array with one slot per [`DllId`], each empty
/// until the first access.
pub struct DllStateMap {
    slots: [Option<DllState>; 15],
}

impl View for DllStateMap {
    type V = Seq<Option<DllState>>;

    closed spec fn view(&self) -> Seq<Option<DllState>> {
        self.slots@
    }
}

impl DllStateMap {
    /// One slot per DLL.
    pub proof fn lemma_len(&self)
        ensures
            self@.len() == DllId::COUNT,
    {
    }

    /// The state of type `T` in the slot of `id`, if there is one.
    pub open spec fn state<T: SlotState>(&self, id: DllId) -> Option<T> {
        match self@[slot_index(id)] {
            Some(slot) => T::project(slot),
            None => None,
        }
    }

    /// Whether the slot of `id` is empty or holds a `T`.
    pub open spec fn accepts<T: SlotState>(&self, id: DllId) -> bool {
        self@[slot_index(id)] is None || self.state::<T>(id) is Some
    }

    /// Whether an access of `id` finds `state`: the present one, or an initial one
    /// where there is none.
    pub open spec fn reached<T: SlotState>(&self, id: DllId, state: T) -> bool {
        match self.state::<T>(id) {
            Some(present) => state == present,
            None => state.initial_state(),
        }
    }

    /// The slots with the state of `id` replaced.
    pub open spec fn with_state<T: SlotState>(&self, id: DllId, state: T) -> Seq<Option<DllState>> {
        self@.update(slot_index(id), Some(state.inject()))
    }

    /// Every slot is empty or holds the state of its own DLL.
    pub open spec fn wf(&self) -> bool {
        forall|id: DllId|
            match #[trigger] self@[slot_index(id)] {
                Some(slot) => home_of(slot) == id,
                None => true,
            }
    }

    /// Each DLL's own state type is accepted in its slot.
    pub proof fn own_type_accepted<T: SlotState>(&self)
        requires
            self.wf(),
        ensures
            self.accepts::<T>(T::home()),
    {
        let slot = self@[slot_index(T::home())];
        if slot is Some {
            T::slot_law(slot->0, arbitrary());
        }
    }

    /// Replacing the state of a DLL by one of its own type leaves every slot with
    /// the state of its own DLL.
    pub proof fn with_state_keeps_wf<T: SlotState>(&self, after: &DllStateMap, state: T)
        requires
            self.wf(),
            after@ == self.with_state(T::home(), state),
        ensures
            after.wf(),
            after.state::<T>(T::home()) == Some(state),
    {
        self.lemma_len();
        T::slot_law(state.inject(), state);
        slots_round_trip(T::home(), 0);
        assert forall|id: DllId|
            match #[trigger] after@[slot_index(id)] {
                Some(slot) => home_of(slot) == id,
                None => true,
            } by {
            slots_round_trip(id, 0);
            assert(id == T::home() || after@[slot_index(id)] == self@[slot_index(id)]);
        }
    }

    /// The states of different DLLs do not interfere: replacing one leaves every other
    /// slot as it was.
    pub proof fn other_slots_are_kept<T: SlotState, U: SlotState>(
        &self,
        after: &DllStateMap,
        id: DllId,
        state: T,
        other: DllId,
    )
        requires
            after@ == self.with_state(id, state),
            other != id,
        ensures
            after@[slot_index(other)] == self@[slot_index(other)],
            after.state::<U>(other) == self.state::<U>(other),
            after.accepts::<U>(other) == self.accepts::<U>(other),
    {
        self.lemma_len();
        slots_round_trip(id, 0);
        slots_round_trip(other, 0);
    }

    /// The labels of the first `n` DLLs whose slot is filled, in slot order.
    pub open spec fn labels_of(&self, n: nat) -> Seq<Seq<char>>
        decreases n,
    {
        if n == 0 {
            Seq::empty()
        } else if self@[n - 1] is Some {
            self.labels_of((n - 1) as nat).push(slot_label(DllId::variants()[n - 1]))
        } else {
            self.labels_of((n - 1) as nat)
        }
    }

    /// The labels of the loaded DLLs, in slot order.
    pub fn loaded_labels(&self) -> (labels: Vec<&'static str>)
        ensures
            labels@.map_values(|label: &'static str| label@) == self.labels_of(DllId::COUNT as nat),
    {
        let ids = DllId::all();
        let mut labels: Vec<&'static str> = Vec::new();
        let mut i: usize = 0;
        while i < DllId::COUNT
            invariant
                i <= DllId::COUNT,
                ids@ == DllId::variants(),
                labels@.map_values(|label: &'static str| label@) == self.labels_of(i as nat),
            decreases DllId::COUNT - i,
        {
            let (index, label) = dll_slot(ids[i]);
            proof {
                slots_round_trip(ids[i as int], i as int);
            }
            if self.slots[index].is_some() {
                let ghost before = labels@.map_values(|label: &'static str| label@);
                labels.push(label);
                assert(labels@.map_values(|label: &'static str| label@) =~= before.push(label@));
            }
            i = i + 1;
        }
        labels
    }

    /// All slots empty.
    pub fn new() -> (map: Self)
        ensures
            map@ == Seq::new(DllId::COUNT as nat, |i: int| None::<DllState>),
            map.wf(),
    {
        let map = DllStateMap {
            slots: [None, None, None, None, None, None, None, None, None, None, None, None, None, None, None],
        };
        assert(map@ =~= Seq::new(DllId::COUNT as nat, |i: int| None::<DllState>));
        assert forall|id: DllId|
            match #[trigger] map@[slot_index(id)] {
                Some(slot) => home_of(slot) == id,
                None => true,
            } by {
            slots_round_trip(id, 0);
        }
        map
    }

    /// Access the state of `id`, creating it on the first call. The slot is
    /// filled before its type is looked at; a slot that holds another type is
    /// left alone and reported.
    pub fn try_get_or_init<T: SlotState>(&mut self, id: DllId) -> (state: Result<&mut T, SlotTypeMismatch>)
        ensures
            match state {
                Ok(s) => {
                    &&& old(self).accepts::<T>(id)
                    &&& old(self).reached(id, *s)
                    &&& final(self)@ == old(self).with_state(id, *final(s))
                },
                Err(mismatch) => {
                    &&& !old(self).accepts::<T>(id)
                    &&& mismatch.id == id
                    &&& final(self)@ == old(self)@
                },
            },
    {
        let index: usize = dll_slot(id).0;
        if self.slots[index].is_none() {
            let state = T::initial();
            proof {
                T::slot_law(state.inject(), state);
            }
            self.slots[index] = Some(state.into_slot());
        }
        match &mut self.slots[index] {
            Some(slot) => match T::edit_slot(slot) {
                Some(state) => Ok(state),
                None => Err(SlotTypeMismatch { id }),
            },
            None => Err(SlotTypeMismatch { id }),
        }
    }

    /// Access the state of `id`, creating it on the first call.
    pub fn get_or_init<T: SlotState>(&mut self, id: DllId) -> (state: &mut T)
        requires
            old(self).accepts::<T>(id),
        ensures
            old(self).reached(id, *state),
            final(self)@ == old(self).with_state(id, *final(state)),
    {
        match self.try_get_or_init::<T>(id) {
            Ok(state) => state,
            Err(_) => vstd::pervasive::unreached(),
        }
    }

    /// Read-only access: `None` if the slot is empty or holds another type.
    pub fn get<T: SlotState>(&self, id: DllId) -> (state: Option<&T>)
        ensures
            match state {
                Some(s) => self.state::<T>(id) == Some(*s),
                None => self.state::<T>(id) is None,
            },
    {
        match &self.slots[dll_slot(id).0] {
            Some(slot) => T::read_slot(slot),
            None => None,
        }
    }

    /// Mutable access without creation: `None` if the slot is empty or holds
    /// another type.
    pub fn get_mut<T: SlotState>(&mut self, id: DllId) -> (state: Option<&mut T>)
        ensures
            match state {
                Some(s) => {
                    &&& old(self).state::<T>(id) == Some(*s)
                    &&& final(self)@ == old(self).with_state(id, *final(s))
                },
                None => {
                    &&& old(self).state::<T>(id) is None
                    &&& final(self)@ == old(self)@
                },
            },
    {
        let index: usize = dll_slot(id).0;
        match &mut self.slots[index] {
            Some(slot) => T::edit_slot(slot),
            None => None,
        }
    }
}

impl Default for DllStateMap {
    fn default() -> (map: Self)
        ensures
            map@ == Seq::new(DllId::COUNT as nat, |i: int| None::<DllState>),
    {
        DllStateMap::new()
    }
}

} // verus!
