//! What the host presenter shares with the guest: the message queue, the window
//! mirror and the pending keyboard writes.
use vstd::prelude::*;

use crate::handles::Hwnd;
use crate::window::WindowRecord;

verus! {

/// Identity of the hub whose tokens wake parked guest threads.
#[derive(Debug, Clone, Copy, PartialEq, Eq, Structural)]
pub struct WakeHub {
    /// Hub number (0 = no hub).
    pub id: u64,
}

/// One queued window message.
#[derive(Debug, Clone, Copy, PartialEq, Eq, Structural)]
pub struct QueuedMessage {
    pub window_handle: Hwnd,
    pub message: u32,
    pub word_parameter: u64,
    pub long_parameter: u64,
}

/// The guest message queue.
#[derive(Debug, Clone)]
pub struct MessageQueue {
    /// Waiting messages, oldest first.
    pub messages: Vec<QueuedMessage>,
    /// Hub that a push wakes.
    pub wake: WakeHub,
}

impl Default for MessageQueue {
    fn default() -> (queue: Self)
        ensures
            queue.messages@ == Seq::<QueuedMessage>::empty(),
            queue.wake == (WakeHub { id: 0 }),
    {
        MessageQueue { messages: Vec::new(), wake: WakeHub { id: 0 } }
    }
}

/// What the host reads of one guest window.
#[derive(Debug, Clone)]
pub struct MirrorWindow {
    pub handle: Hwnd,
    pub parent: Hwnd,
    pub x: i32,
    pub y: i32,
    pub width: i32,
    pub height: i32,
    pub visible: bool,
    pub title: String,
    pub menu_handle: u64,
    pub mouse_tracking: bool,
}

impl MirrorWindow {
    /// The projection of a window record.
    pub open spec fn of(window: WindowRecord) -> MirrorWindow {
        MirrorWindow {
            handle: window.handle,
            parent: window.parent_handle,
            x: window.x,
            y: window.y,
            width: window.width,
            height: window.height,
            visible: window.visible,
            title: window.title,
            menu_handle: window.menu_handle,
            mouse_tracking: window.mouse_tracking,
        }
    }

    /// Project a window record.
    pub fn project(window: &WindowRecord) -> (mirror: Self)
        ensures
            mirror == MirrorWindow::of(*window),
            mirror.handle == window.handle,
            mirror.parent == window.parent_handle,
            mirror.x == window.x,
            mirror.y == window.y,
            mirror.width == window.width,
            mirror.height == window.height,
            mirror.visible == window.visible,
            mirror.title == window.title,
            mirror.menu_handle == window.menu_handle,
            mirror.mouse_tracking == window.mouse_tracking,
    {
        MirrorWindow {
            handle: window.handle,
            parent: window.parent_handle,
            x: window.x,
            y: window.y,
            width: window.width,
            height: window.height,
            visible: window.visible,
            title: window.title.clone(),
            menu_handle: window.menu_handle,
            mouse_tracking: window.mouse_tracking,
        }
    }
}

/// The presenter-side copy of the window state.
#[derive(Debug, Clone)]
pub struct WindowMirror {
    pub windows: Vec<MirrorWindow>,
    pub focus: Hwnd,
    pub capture: Hwnd,
    pub menu_dirty: bool,
}

/// A host key event that the guest has not seen yet: virtual key and whether it
/// was pressed.
#[derive(Debug, Clone, Copy, PartialEq, Eq, Structural)]
pub struct KeyWrite {
    pub vk: u16,
    pub pressed: bool,
}

/// The channel between the guest state and the host presenter.
#[derive(Debug, Clone)]
pub struct PresentChannel {
    pub mirror: WindowMirror,
    /// Host key events, oldest first.
    pub key_writes: Vec<KeyWrite>,
}

impl PresentChannel {
    /// Nothing mirrored, no event pending.
    pub open spec fn is_initial(&self) -> bool {
        &&& self.mirror.windows@ == Seq::<MirrorWindow>::empty()
        &&& self.mirror.focus == Hwnd(0)
        &&& self.mirror.capture == Hwnd(0)
        &&& !self.mirror.menu_dirty
        &&& self.key_writes@ == Seq::<KeyWrite>::empty()
    }

    /// An empty channel.
    pub fn new() -> (channel: Self)
        ensures
            channel.is_initial(),
    {
        PresentChannel {
            mirror: WindowMirror {
                windows: Vec::new(),
                focus: Hwnd::null(),
                capture: Hwnd::null(),
                menu_dirty: false,
            },
            key_writes: Vec::new(),
        }
    }

    /// Replace the window mirror.
    pub fn sync_window_mirror(
        &mut self,
        windows: Vec<MirrorWindow>,
        focus: Hwnd,
        capture: Hwnd,
        menu_dirty: bool,
    )
        ensures
            final(self).mirror == (WindowMirror { windows, focus, capture, menu_dirty }),
            final(self).key_writes == old(self).key_writes,
    {
        self.mirror = WindowMirror { windows, focus, capture, menu_dirty };
    }

    /// Take the pending key events, leaving none.
    pub fn drain_key_writes(&mut self) -> (writes: Vec<KeyWrite>)
        ensures
            writes@ == old(self).key_writes@,
            final(self).key_writes@ == Seq::<KeyWrite>::empty(),
            final(self).mirror == old(self).mirror,
    {
        let mut writes: Vec<KeyWrite> = Vec::new();
        core::mem::swap(&mut writes, &mut self.key_writes);
        writes
    }
}

/// Presenter state.
#[derive(Debug, Clone)]
pub struct PresentState {
    pub channel: PresentChannel,
    /// Whether the host shows message boxes.
    pub message_box_bridge: bool,
}

impl PresentState {
    /// The state before anything was presented.
    pub open spec fn is_initial(&self) -> bool {
        self.channel.is_initial() && !self.message_box_bridge
    }
}

impl Default for PresentState {
    fn default() -> (state: Self)
        ensures
            state.is_initial(),
    {
        PresentState { channel: PresentChannel::new(), message_box_bridge: false }
    }
}

} // verus!
